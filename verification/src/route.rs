//! Where an incoming message goes.

use bytes::Bytes;
use dashmap::DashMap;
use tokio::sync::oneshot::error::RecvError;
use vstd::prelude::*;

use crate::buffer::bytes_contents;
use crate::frame::{decode, unframe};
use crate::table::{find, remove, table_contents};

verus! {

/// Where a message goes: nowhere, as it is too short to name a stream; to a stream that is not
/// open; or to the sender of one that is.
pub enum Route<P> {
    TooShort,
    Unknown(u32, P),
    Known(u64, P),
}

/// Where a message goes, by the streams that are open, and the payload that goes there.
pub open spec fn route(streams: Map<u32, u64>, message: Seq<u8>) -> Route<Seq<u8>> {
    match unframe(message) {
        None => Route::TooShort,
        Some((stream_id, payload)) => if streams.dom().contains(stream_id) {
            Route::Known(streams[stream_id], payload)
        } else {
            Route::Unknown(stream_id, payload)
        },
    }
}

/// The streams that are open after one of them was waited for to shut down: it is gone if its
/// signal was given, and stays if the signal can no longer be given.
pub open spec fn streams_after_signal(
    streams: Map<u32, u64>,
    stream_id: u32,
    signal: Result<(), RecvError>,
) -> Map<u32, u64> {
    if signal is Ok {
        streams.remove(stream_id)
    } else {
        streams
    }
}

/// Where a message goes.
pub(crate) fn find_route(streams: &DashMap<u32, u64>, message: Bytes) -> (found: Route<Bytes>)
    ensures
        match found {
            Route::TooShort => route(table_contents(*streams), bytes_contents(message)) is TooShort,
            Route::Unknown(stream_id, payload) => route(
                table_contents(*streams),
                bytes_contents(message),
            ) == Route::Unknown(stream_id, bytes_contents(payload)),
            Route::Known(sender, payload) => route(
                table_contents(*streams),
                bytes_contents(message),
            ) == Route::Known(sender, bytes_contents(payload)),
        },
{
    match decode(message) {
        None => Route::TooShort,
        Some((stream_id, payload)) => match find(streams, stream_id) {
            Some(sender) => Route::Known(sender, payload),
            None => Route::Unknown(stream_id, payload),
        },
    }
}

/// Takes a stream whose signal was given out of the table, and returns the sender that it had
/// there.
pub(crate) fn remove_on_signal(
    streams: &mut DashMap<u32, u64>,
    stream_id: u32,
    signal: Result<(), RecvError>,
) -> (removed: Option<u64>)
    ensures
        table_contents(*final(streams)) == streams_after_signal(
            table_contents(*old(streams)),
            stream_id,
            signal,
        ),
        removed == (if signal is Ok && table_contents(*old(streams)).dom().contains(stream_id) {
            Some(table_contents(*old(streams))[stream_id])
        } else {
            None
        }),
{
    match signal {
        Ok(_) => match remove(streams, stream_id) {
            Some((_, sender)) => Some(sender),
            None => None,
        },
        Err(_) => None,
    }
}

} // verus!
