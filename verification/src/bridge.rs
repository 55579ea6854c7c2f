//! Values that cross the boundary to the user interface as bare integers.

use vstd::prelude::*;
use crate::message::{MouseEvent, MouseKey};

verus! {

/// The mouse button that the user interface means by `value`.
pub open spec fn mouse_key_of_wire(value: i32) -> Option<MouseKey> {
    if value == 0 {
        Some(MouseKey::NoButton)
    } else if value == 1 {
        Some(MouseKey::Left)
    } else if value == 2 {
        Some(MouseKey::Right)
    } else if value == 3 {
        Some(MouseKey::Wheel)
    } else {
        None
    }
}

/// The mouse event that the user interface means by a tag, a button, a
/// position and a scroll amount: tags 0, 1 and 2 are a button going up, going
/// down and moving, each at the position; tag 3 is the wheel turning by the
/// amount.
pub open spec fn mouse_event_of_wire(tag: i32, key: i32, x: u32, y: u32, delta: u32) -> Option<
    MouseEvent,
> {
    if tag == 3 {
        Some(MouseEvent::MouseScrollWheel(delta))
    } else if tag < 0 || tag > 3 {
        None
    } else {
        match mouse_key_of_wire(key) {
            None => None,
            Some(button) => if tag == 0 {
                Some(MouseEvent::MouseUp(button, x, y))
            } else if tag == 1 {
                Some(MouseEvent::MouseDown(button, x, y))
            } else {
                Some(MouseEvent::MouseMove(button, x, y))
            },
        }
    }
}

/// Reads a mouse button. A number that stands for none gives `None`.
pub fn mouse_key_from_wire(value: i32) -> (key: Option<MouseKey>)
    ensures
        key == mouse_key_of_wire(value),
{
    match value {
        0 => Some(MouseKey::NoButton),
        1 => Some(MouseKey::Left),
        2 => Some(MouseKey::Right),
        3 => Some(MouseKey::Wheel),
        _ => None,
    }
}

/// Reads a mouse event. Coordinates and the scroll amount are passed on as
/// they are, as bit patterns of single-precision numbers.
pub fn mouse_event_from_wire(tag: i32, key: i32, x: u32, y: u32, delta: u32) -> (event: Option<
    MouseEvent,
>)
    ensures
        event == mouse_event_of_wire(tag, key, x, y, delta),
{
    if tag == 3 {
        return Some(MouseEvent::MouseScrollWheel(delta));
    }
    if tag < 0 || tag > 3 {
        return None;
    }
    let button: MouseKey = mouse_key_from_wire(key)?;
    if tag == 0 {
        Some(MouseEvent::MouseUp(button, x, y))
    } else if tag == 1 {
        Some(MouseEvent::MouseDown(button, x, y))
    } else {
        Some(MouseEvent::MouseMove(button, x, y))
    }
}

} // verus!
