//! The side that opens streams.

use std::sync::Arc;

use bytes::Bytes;
use dashmap::DashMap;
use tokio::sync::oneshot::error::RecvError;
use vstd::prelude::*;
use webrtc::data_channel::RTCDataChannel;

use crate::buffer::bytes_contents;
use crate::plumbing::{random_stream_id, DrawnId};
use crate::route::{find_route, remove_on_signal, route, streams_after_signal, Route};
use crate::table::{has_own_sender, insert, new_table, no_streams, others_kept};
use crate::table::{table_contents, Senders};
use crate::util::OpenStream;

verus! {

/// What a client does about an incoming message.
pub enum ClientAction {
    /// Drop it: it is too short to name a stream.
    TooShort,
    /// Drop it: this client has no such stream open.
    UnknownStream,
    /// Write the data to a sender.
    Deliver { sender: u64, data: Bytes },
}

/// A stream that a client has opened.
pub struct Connection {
    pub stream_id: u32,
    /// The draw that the identifier came from, where it was drawn.
    pub drawn: Option<DrawnId>,
    /// The number of the stream's sender.
    pub sender: u64,
    pub opened: OpenStream,
    /// The sender of an earlier stream that had the same identifier. Its stream gets no more
    /// bytes.
    pub displaced: Option<u64>,
}

/// A client: the channel that its streams share.
pub struct RTCClient {
    data_channel: Arc<RTCDataChannel>,
}

/// What a client hears messages with: the streams that are open, and how many numbers it has given
/// to senders.
pub struct ClientStreams {
    streams: DashMap<u32, u64>,
    next_sender: u64,
}

impl RTCClient {
    /// The channel that the streams share.
    pub closed spec fn channel(&self) -> Arc<RTCDataChannel> {
        self.data_channel
    }

    /// A client on a channel, and what it hears messages with. No stream is open.
    pub fn new(data_channel: Arc<RTCDataChannel>) -> (client: (Self, ClientStreams))
        ensures
            client.0.channel() == data_channel,
            client.1.wf(),
            client.1.streams() == no_streams(),
            client.1.given() == 0,
            client.1.senders() == Senders::none(),
    {
        (RTCClient { data_channel }, ClientStreams { streams: new_table(), next_sender: 0 })
    }

    /// Opens a stream under an identifier drawn at random for it.
    pub fn connect(&self, streams: &mut ClientStreams) -> (connection: Connection)
        requires
            old(streams).wf(),
            old(streams).given() < u64::MAX,
        ensures
            connection.drawn matches Some(drawn) && drawn.value() == connection.stream_id,
            connection.sender == old(streams).given(),
            connection.opened.is_new(connection.stream_id, self.channel()),
            final(streams).wf(),
            final(streams).given() == old(streams).given() + 1,
            final(streams).streams() == old(streams).streams().insert(
                connection.stream_id,
                connection.sender,
            ),
            final(streams).senders() == old(streams).senders().open(connection.stream_id),
            has_own_sender(final(streams).streams(), connection.stream_id, connection.sender),
            others_kept(old(streams).streams(), final(streams).streams(), connection.stream_id),
            connection.displaced == (if old(streams).streams().dom().contains(
                connection.stream_id,
            ) {
                Some(old(streams).streams()[connection.stream_id])
            } else {
                None
            }),
    {
        let drawn = random_stream_id();
        let mut connection = self.connect_as(streams, drawn.stream_id());
        connection.drawn = Some(drawn);
        connection
    }

    /// Opens a stream under an identifier. An earlier stream under it gives way.
    pub fn connect_as(&self, streams: &mut ClientStreams, stream_id: u32) -> (connection:
        Connection)
        requires
            old(streams).wf(),
            old(streams).given() < u64::MAX,
        ensures
            connection.stream_id == stream_id,
            connection.drawn is None,
            connection.sender == old(streams).given(),
            connection.opened.is_new(stream_id, self.channel()),
            final(streams).wf(),
            final(streams).given() == old(streams).given() + 1,
            final(streams).streams() == old(streams).streams().insert(stream_id, connection.sender),
            final(streams).senders() == old(streams).senders().open(stream_id),
            has_own_sender(final(streams).streams(), stream_id, connection.sender),
            others_kept(old(streams).streams(), final(streams).streams(), stream_id),
            connection.displaced == (if old(streams).streams().dom().contains(stream_id) {
                Some(old(streams).streams()[stream_id])
            } else {
                None
            }),
    {
        let opened = OpenStream::new(stream_id, self.data_channel.clone());
        let sender: u64 = streams.next_sender;
        streams.next_sender = sender + 1;
        let displaced = insert(&mut streams.streams, stream_id, sender);
        Connection { stream_id, drawn: None, sender, opened, displaced }
    }
}

impl ClientStreams {
    /// The sender of each open stream.
    pub closed spec fn streams(&self) -> Map<u32, u64> {
        table_contents(self.streams)
    }

    /// How many numbers have been given to senders.
    pub closed spec fn given(&self) -> u64 {
        self.next_sender
    }

    /// The sender of each open stream, and how many numbers have been given.
    pub open spec fn senders(&self) -> Senders {
        Senders { streams: self.streams(), given: self.given() as int }
    }

    /// Whether no two open streams share a sender.
    pub open spec fn wf(&self) -> bool {
        self.senders().wf()
    }

    /// How many numbers have been given to senders. There is one for the next stream as long as
    /// this is not the largest number.
    pub fn numbers_given(&self) -> (given: u64)
        ensures
            given == self.given(),
    {
        self.next_sender
    }

    /// What to do about a message that came in.
    pub fn on_message(&self, message: Bytes) -> (action: ClientAction)
        ensures
            match action {
                ClientAction::TooShort => route(
                    self.streams(),
                    bytes_contents(message),
                ) is TooShort,
                ClientAction::UnknownStream => route(
                    self.streams(),
                    bytes_contents(message),
                ) is Unknown,
                ClientAction::Deliver { sender, data } => route(
                    self.streams(),
                    bytes_contents(message),
                ) == Route::Known(sender, bytes_contents(data)),
            },
    {
        match find_route(&self.streams, message) {
            Route::TooShort => ClientAction::TooShort,
            Route::Unknown(_, _) => ClientAction::UnknownStream,
            Route::Known(sender, data) => ClientAction::Deliver { sender, data },
        }
    }

    /// Goes on after the wait for a stream to shut down. A stream whose signal was given is no
    /// longer open; the sender under its identifier is returned, to be let go of.
    pub fn on_shutdown(&mut self, stream_id: u32, signal: Result<(), RecvError>) -> (removed:
        Option<u64>)
        ensures
            old(self).wf() ==> final(self).wf(),
            final(self).given() == old(self).given(),
            final(self).streams() == streams_after_signal(old(self).streams(), stream_id, signal),
            final(self).senders() == old(self).senders().after_signal(stream_id, signal),
            removed == (if signal is Ok && old(self).streams().dom().contains(stream_id) {
                Some(old(self).streams()[stream_id])
            } else {
                None
            }),
    {
        remove_on_signal(&mut self.streams, stream_id, signal)
    }
}

} // verus!
