//! The binary form of every message: integers little-endian and of fixed
//! width, a `u32` in front of each union to say which variant follows, a
//! `u64` length in front of each byte string, text and list, one byte in
//! front of each optional value, and the fields of a record in the order in
//! which they are declared.
//!
//! For each type there is the sequence of bytes that stands for a value
//! (`ser_..`), the value and the remainder that a sequence of bytes starts
//! with (`parse_..`), the proof that the second undoes the first, and the
//! two functions that do the work on real buffers (`write_..`, `read_..`).

pub mod primitives;
pub mod negotiate;
pub mod media;
pub mod input;
pub mod file;
pub mod packet;
