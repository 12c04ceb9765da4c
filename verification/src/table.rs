//! The table of open streams, a `DashMap` from stream identifiers to senders.
//!
//! A sender is the write half of the pipe that a stream reads from. The table does not hold the
//! write half itself but a number by which the program that owns the pipes finds it again. The
//! numbers are given in order and none is given twice, so that no two open streams share one.

use dashmap::DashMap;
use tokio::sync::oneshot::error::RecvError;
use vstd::prelude::*;

use crate::route::streams_after_signal;

verus! {

/// `dashmap::DashMap`, a map that is sharded for concurrent use.
#[verifier::external_type_specification]
#[verifier::external_body]
#[verifier::reject_recursive_types(K)]
#[verifier::reject_recursive_types(V)]
#[verifier::reject_recursive_types(S)]
pub struct ExDashMap<K, V, S>(dashmap::DashMap<K, V, S>);

/// The sender of each open stream.
///
/// A `DashMap` can change behind a shared reference. The functions of this module that change one
/// take it by exclusive reference instead, so that between their calls the contents stay as they
/// are.
pub uninterp spec fn table_contents(table: DashMap<u32, u64>) -> Map<u32, u64>;

/// The table of a peer that has no stream open.
pub open spec fn no_streams() -> Map<u32, u64> {
    Map::empty()
}

/// Whether the senders of all open streams are different, and are among the first `given` numbers.
pub open spec fn numbered(streams: Map<u32, u64>, given: int) -> bool {
    &&& forall|stream_id: u32| #[trigger]
        streams.dom().contains(stream_id) ==> streams[stream_id] < given
    &&& forall|one: u32, other: u32| #[trigger]
        streams.dom().contains(one) && #[trigger] streams.dom().contains(other) && streams[one]
            == streams[other] ==> one == other
}

/// The sender of each open stream, and how many numbers have been given to senders.
pub struct Senders {
    pub streams: Map<u32, u64>,
    pub given: int,
}

impl Senders {
    /// Those of a peer that has opened no stream.
    pub open spec fn none() -> Self {
        Senders { streams: no_streams(), given: 0 }
    }

    /// Whether no two open streams share a sender.
    pub open spec fn wf(&self) -> bool {
        &&& 0 <= self.given
        &&& numbered(self.streams, self.given)
    }

    /// Whether there are numbers left for that many streams.
    pub open spec fn has_room_for(&self, count: nat) -> bool {
        self.given + count <= u64::MAX
    }

    /// Those after a stream was opened under an identifier.
    pub open spec fn open(&self, stream_id: u32) -> Self {
        Senders {
            streams: self.streams.insert(stream_id, self.given as u64),
            given: self.given + 1,
        }
    }

    /// Those after the wait for a stream to shut down is over.
    pub open spec fn after_signal(&self, stream_id: u32, signal: Result<(), RecvError>) -> Self {
        Senders { streams: streams_after_signal(self.streams, stream_id, signal), ..*self }
    }
}

/// Whether a stream is open with a sender that no other open stream has.
pub open spec fn has_own_sender(streams: Map<u32, u64>, stream_id: u32, sender: u64) -> bool {
    &&& streams.dom().contains(stream_id)
    &&& streams[stream_id] == sender
    &&& forall|other: u32| #[trigger]
        streams.dom().contains(other) && streams[other] == sender ==> other == stream_id
}

/// Whether every stream but one that was open with a sender of its own still is.
pub open spec fn others_kept(
    before: Map<u32, u64>,
    after: Map<u32, u64>,
    stream_id: u32,
) -> bool {
    forall|other: u32, sender: u64|
        other != stream_id && #[trigger] has_own_sender(before, other, sender) ==> has_own_sender(
            after,
            other,
            sender,
        )
}

/// `DashMap::new`: a map without entries.
#[verifier::external_body]
pub(crate) fn new_table() -> (table: DashMap<u32, u64>)
    ensures
        table_contents(table) == no_streams(),
{
    DashMap::new()
}

/// `DashMap::get_mut`: the value under a key, where the key has one. The value is copied out, and
/// the lock on it given back, before the call returns.
#[verifier::external_body]
pub(crate) fn find(table: &DashMap<u32, u64>, stream_id: u32) -> (sender: Option<u64>)
    ensures
        sender == (if table_contents(*table).dom().contains(stream_id) {
            Some(table_contents(*table)[stream_id])
        } else {
            None
        }),
{
    table.get_mut(&stream_id).map(|entry| *entry.value())
}

/// `DashMap::insert`: puts a value under a key and returns the value that it displaced, where the
/// key had one.
#[verifier::external_body]
pub(crate) fn insert(table: &mut DashMap<u32, u64>, stream_id: u32, sender: u64) -> (displaced:
    Option<u64>)
    ensures
        table_contents(*final(table)) == table_contents(*old(table)).insert(stream_id, sender),
        displaced == (if table_contents(*old(table)).dom().contains(stream_id) {
            Some(table_contents(*old(table))[stream_id])
        } else {
            None
        }),
{
    table.insert(stream_id, sender)
}

/// `DashMap::entry` and `Entry::or_insert`: leaves the value under a key that has one, puts the
/// value given under a key that has none, and returns the value that is there afterwards.
#[verifier::external_body]
pub(crate) fn find_or_insert(table: &mut DashMap<u32, u64>, stream_id: u32, sender: u64) -> (kept:
    u64)
    ensures
        table_contents(*old(table)).dom().contains(stream_id) ==> {
            &&& kept == table_contents(*old(table))[stream_id]
            &&& table_contents(*final(table)) == table_contents(*old(table))
        },
        !table_contents(*old(table)).dom().contains(stream_id) ==> {
            &&& kept == sender
            &&& table_contents(*final(table)) == table_contents(*old(table)).insert(
                stream_id,
                sender,
            )
        },
{
    *table.entry(stream_id).or_insert(sender)
}

/// `DashMap::remove`: takes a key and its value out of the map and returns them, where the key had
/// a value.
#[verifier::external_body]
pub(crate) fn remove(table: &mut DashMap<u32, u64>, stream_id: u32) -> (removed: Option<(u32, u64)>)
    ensures
        table_contents(*final(table)) == table_contents(*old(table)).remove(stream_id),
        removed == (if table_contents(*old(table)).dom().contains(stream_id) {
            Some((stream_id, table_contents(*old(table))[stream_id]))
        } else {
            None
        }),
{
    table.remove(&stream_id)
}

} // verus!
