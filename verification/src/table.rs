//! The two keyed tables of the runtime, both kept in a `dashmap::DashMap`:
//! the calls that wait for a reply, and the sessions by peer.
//!
//! Nothing in this file is proved. What a table holds is a name, and each
//! function below says what one method of `DashMap` does to it. All of them
//! take the table by `&mut` or hand out copies, so that no reference into a
//! table outlives a call.

use vstd::prelude::*;
use dashmap::DashMap;

verus! {

/// Makes `dashmap::DashMap` known as a type of which nothing is seen inside.
#[verifier::external_type_specification]
#[verifier::external_body]
#[verifier::reject_recursive_types(K)]
#[verifier::reject_recursive_types(V)]
#[verifier::reject_recursive_types(S)]
pub struct ExDashMap<K, V, S>(DashMap<K, V, S>);

/// The table of the calls that wait for a reply: from call id to slot.
pub type CallTable = DashMap<u16, u64>;

/// The table of live sessions: from peer id to session handle.
pub type SessionTable = DashMap<String, u64>;

/// What a table of waiting calls holds: for each call id, the slot that
/// waits for its reply.
pub uninterp spec fn call_slots(table: CallTable) -> Map<u16, u64>;

/// What a table of sessions holds: for each peer id, the handle of its session.
pub uninterp spec fn peer_sessions(table: SessionTable) -> Map<Seq<char>, u64>;

/// The value under `key`, if there is one.
pub open spec fn entry_of<K, V>(entries: Map<K, V>, key: K) -> Option<V> {
    if entries.dom().contains(key) {
        Some(entries[key])
    } else {
        None
    }
}

/// Calls `DashMap::new`. Assumed: the new table holds nothing.
#[verifier::external_body]
pub(crate) fn call_table_new() -> (r: CallTable)
    ensures
        (call_slots(r) == Map::<u16, u64>::empty()),
{
    DashMap::new()
}

/// Calls `DashMap::get` and copies the value out. Assumed: it finds the
/// value stored under the key, if any.
#[verifier::external_body]
pub(crate) fn call_table_get(table: &CallTable, call_id: u16) -> (slot: Option<u64>)
    ensures
        slot == entry_of(call_slots(*table), call_id),
{
    table.get(&call_id).map(|entry| *entry.value())
}

/// Calls `DashMap::insert`. Assumed: the key then holds the new value, the
/// other keys are untouched, and the value that the key held before comes back.
#[verifier::external_body]
pub(crate) fn call_table_insert(table: &mut CallTable, call_id: u16, slot: u64) -> (previous:
    Option<u64>)
    ensures
        call_slots(*final(table)) == call_slots(*old(table)).insert(call_id, slot),
        previous == entry_of(call_slots(*old(table)), call_id),
{
    table.insert(call_id, slot)
}

/// Calls `DashMap::remove`. Assumed: the key is gone afterwards, the other
/// keys are untouched, and the value that the key held comes back.
#[verifier::external_body]
pub(crate) fn call_table_remove(table: &mut CallTable, call_id: u16) -> (removed: Option<
    u64,
>)
    ensures
        call_slots(*final(table)) == call_slots(*old(table)).remove(call_id),
        removed == entry_of(call_slots(*old(table)), call_id),
{
    table.remove(&call_id).map(|entry| entry.1)
}

/// Calls `DashMap::new`. Assumed: the new table holds nothing.
#[verifier::external_body]
pub(crate) fn session_table_new() -> (r: SessionTable)
    ensures
        (peer_sessions(r) == Map::<Seq<char>, u64>::empty()),
{
    DashMap::new()
}

/// Calls `DashMap::get` and copies the value out. Assumed: it finds the
/// value stored under the key, if any.
#[verifier::external_body]
pub(crate) fn session_table_get(table: &SessionTable, peer: &str) -> (session: Option<u64>)
    ensures
        session == entry_of(peer_sessions(*table), peer@),
{
    table.get(peer).map(|entry| *entry.value())
}

/// Calls `DashMap::insert`. Assumed: the key then holds the new value, the
/// other keys are untouched, and the value that the key held before comes back.
#[verifier::external_body]
pub(crate) fn session_table_insert(
    table: &mut SessionTable,
    peer: String,
    session: u64,
) -> (previous: Option<u64>)
    ensures
        peer_sessions(*final(table)) == peer_sessions(*old(table)).insert(peer@, session),
        previous == entry_of(peer_sessions(*old(table)), peer@),
{
    table.insert(peer, session)
}

/// Calls `DashMap::remove`. Assumed: the key is gone afterwards, the other
/// keys are untouched, and the value that the key held comes back.
#[verifier::external_body]
pub(crate) fn session_table_remove(table: &mut SessionTable, peer: &str) -> (removed: Option<
    u64,
>)
    ensures
        peer_sessions(*final(table)) == peer_sessions(*old(table)).remove(peer@),
        removed == entry_of(peer_sessions(*old(table)), peer@),
{
    table.remove(peer).map(|entry| entry.1)
}

} // verus!
