//! The side that accepts streams.

use std::sync::Arc;

use bytes::Bytes;
use dashmap::DashMap;
use tokio::sync::mpsc;
use tokio::sync::oneshot::error::RecvError;
use vstd::prelude::*;
use webrtc::data_channel::RTCDataChannel;

use crate::buffer::bytes_contents;
use crate::queue::{close_queue, new_queue, queue_capacity, queue_closed};
use crate::route::{find_route, remove_on_signal, route, streams_after_signal, Route};
use crate::table::{find_or_insert, has_own_sender, new_table, no_streams, others_kept};
use crate::table::{table_contents, Senders};
use crate::util::{IoError, IoErrorKind, OpenStream, RTCDataChannelStream};

verus! {

/// How many streams wait to be accepted before the next one has to wait for room.
pub const ACCEPT_QUEUE_LEN: usize = 1024;

/// How many seconds pass between an accept that failed and the next.
pub const ACCEPT_RETRY_SECS: u64 = 1;

/// What a listener does about an incoming message.
pub enum ListenerAction {
    /// Drop it: it is too short to name a stream.
    TooShort,
    /// Open the stream that it names with [`ListenerStreams::open`], offer that to be accepted and
    /// go on with [`ListenerStreams::offered`].
    Open { stream_id: u32, data: Bytes },
    /// Write the data to a sender.
    Deliver { sender: u64, data: Bytes },
}

/// What a server does about an accept.
pub enum AcceptStep {
    /// Serve the stream.
    Serve(RTCDataChannelStream),
    /// Accept again, after some seconds.
    Retry { after_secs: u64, error: IoError },
}

/// A listener: the end of the queue that streams to be accepted come out of.
pub struct RTCListener {
    pub receiver: mpsc::Receiver<RTCDataChannelStream>,
}

/// What a listener hears messages with: the streams that are open, how many numbers it has given
/// to senders, the end of the queue that new streams go into, and the channel that they share.
pub struct ListenerStreams {
    streams: DashMap<u32, u64>,
    next_sender: u64,
    stream_sender: mpsc::Sender<RTCDataChannelStream>,
    data_channel: Arc<RTCDataChannel>,
}

/// Whether accepting comes to a result, by what came out of the queue: the stream that did, and
/// where none did, because the queue is closed and empty, an error that says so.
pub open spec fn accept_comes_to(
    received: Option<RTCDataChannelStream>,
    accepted: Result<RTCDataChannelStream, IoError>,
) -> bool {
    match received {
        Some(stream) => accepted == Ok::<_, IoError>(stream),
        None => accepted matches Err(error) && error.kind == IoErrorKind::Other && error.message@
            == "accept called on closed RTCListener"@,
    }
}

impl RTCListener {
    /// A listener on a channel, and what it hears messages with. No stream is open.
    pub fn new(data_channel: Arc<RTCDataChannel>) -> (listener: (Self, ListenerStreams))
        ensures
            queue_capacity(listener.1.queue(), listener.0.receiver) == Some(ACCEPT_QUEUE_LEN),
            !queue_closed(listener.0.receiver),
            listener.1.wf(),
            listener.1.streams() == no_streams(),
            listener.1.given() == 0,
            listener.1.senders() == Senders::none(),
            listener.1.channel() == data_channel,
    {
        let (stream_sender, stream_receiver) = new_queue(ACCEPT_QUEUE_LEN);
        (
            RTCListener { receiver: stream_receiver },
            ListenerStreams { streams: new_table(), next_sender: 0, stream_sender, data_channel },
        )
    }

    /// What accepting comes to, by what came out of the queue: a stream, or nothing where the
    /// queue is closed and empty.
    pub fn accept(received: Option<RTCDataChannelStream>) -> (accepted: Result<
        RTCDataChannelStream,
        IoError,
    >)
        ensures
            accept_comes_to(received, accepted),
            received matches Some(stream) ==> accepted == Ok::<_, IoError>(stream),
            received is None ==> (accepted matches Err(error) && error.kind == IoErrorKind::Other
                && error.message@ == "accept called on closed RTCListener"@),
    {
        match received {
            Some(stream) => Ok(stream),
            None => Err(
                IoError::other("accept called on closed RTCListener".to_owned()),
            ),
        }
    }

    /// What a server that keeps accepting does next.
    pub fn accept_step(accepted: Result<RTCDataChannelStream, IoError>) -> (step: AcceptStep)
        ensures
            step == (match accepted {
                Ok(stream) => AcceptStep::Serve(stream),
                Err(error) => AcceptStep::Retry { after_secs: ACCEPT_RETRY_SECS, error },
            }),
    {
        match accepted {
            Ok(stream) => AcceptStep::Serve(stream),
            Err(error) => AcceptStep::Retry { after_secs: ACCEPT_RETRY_SECS, error },
        }
    }

    /// Stops listening: no more streams are queued, and those that are can still be accepted.
    pub fn close(&mut self)
        ensures
            queue_closed(final(self).receiver),
            forall|sender: mpsc::Sender<RTCDataChannelStream>| #[trigger]
                queue_capacity(sender, final(self).receiver) == queue_capacity(
                    sender,
                    old(self).receiver,
                ),
    {
        close_queue(&mut self.receiver);
    }
}

impl ListenerStreams {
    /// The sender of each open stream.
    pub closed spec fn streams(&self) -> Map<u32, u64> {
        table_contents(self.streams)
    }

    /// How many numbers have been given to senders.
    pub closed spec fn given(&self) -> u64 {
        self.next_sender
    }

    /// The sender of each open stream, and how many numbers have been given.
    pub open spec fn senders(&self) -> Senders {
        Senders { streams: self.streams(), given: self.given() as int }
    }

    /// Whether no two open streams share a sender.
    pub open spec fn wf(&self) -> bool {
        self.senders().wf()
    }

    /// The end of the queue that new streams go into.
    pub closed spec fn queue(&self) -> mpsc::Sender<RTCDataChannelStream> {
        self.stream_sender
    }

    /// The channel that the streams share.
    pub closed spec fn channel(&self) -> Arc<RTCDataChannel> {
        self.data_channel
    }

    /// How many numbers have been given to senders. There is one for the next stream as long as
    /// this is not the largest number.
    pub fn numbers_given(&self) -> (given: u64)
        ensures
            given == self.given(),
    {
        self.next_sender
    }

    /// The end of the queue that new streams are offered on.
    pub fn stream_sender(&self) -> (stream_sender: &mpsc::Sender<RTCDataChannelStream>)
        ensures
            *stream_sender == self.queue(),
    {
        &self.stream_sender
    }

    /// What to do about a message that came in.
    pub fn on_message(&self, message: Bytes) -> (action: ListenerAction)
        ensures
            match action {
                ListenerAction::TooShort => route(
                    self.streams(),
                    bytes_contents(message),
                ) is TooShort,
                ListenerAction::Open { stream_id, data } => route(
                    self.streams(),
                    bytes_contents(message),
                ) == Route::Unknown(stream_id, bytes_contents(data)),
                ListenerAction::Deliver { sender, data } => route(
                    self.streams(),
                    bytes_contents(message),
                ) == Route::Known(sender, bytes_contents(data)),
            },
    {
        match find_route(&self.streams, message) {
            Route::TooShort => ListenerAction::TooShort,
            Route::Unknown(stream_id, data) => ListenerAction::Open { stream_id, data },
            Route::Known(sender, data) => ListenerAction::Deliver { sender, data },
        }
    }

    /// A new stream under an identifier that a message came in for. It is open once it is
    /// registered.
    pub fn open(&self, stream_id: u32) -> (opened: OpenStream)
        ensures
            opened.is_new(stream_id, self.channel()),
    {
        OpenStream::new(stream_id, self.data_channel.clone())
    }

    /// Registers a new stream and returns the number of the sender of the stream that is open under
    /// the identifier afterwards: one that was open before stays.
    pub fn register(&mut self, stream_id: u32) -> (registered: u64)
        requires
            old(self).wf(),
            old(self).streams().dom().contains(stream_id) || old(self).given() < u64::MAX,
        ensures
            final(self).wf(),
            final(self).queue() == old(self).queue(),
            final(self).channel() == old(self).channel(),
            old(self).streams().dom().contains(stream_id) ==> {
                &&& registered == old(self).streams()[stream_id]
                &&& final(self).streams() == old(self).streams()
                &&& final(self).given() == old(self).given()
            },
            !old(self).streams().dom().contains(stream_id) ==> {
                &&& registered == old(self).given()
                &&& final(self).streams() == old(self).streams().insert(stream_id, registered)
                &&& final(self).given() == old(self).given() + 1
            },
            final(self).senders() == (if old(self).streams().dom().contains(stream_id) {
                old(self).senders()
            } else {
                old(self).senders().open(stream_id)
            }),
            has_own_sender(final(self).streams(), stream_id, registered),
            others_kept(old(self).streams(), final(self).streams(), stream_id),
    {
        let next: u64 = self.next_sender;
        let registered: u64 = find_or_insert(&mut self.streams, stream_id, next);
        if registered == next {
            self.next_sender = next + 1;
        }
        registered
    }

    /// Goes on once the stream that a message came in for was offered to be accepted: the stream is
    /// registered, and the data of the message goes to the sender that is registered under the
    /// identifier.
    pub fn offered(&mut self, stream_id: u32, data: Bytes) -> (action: ListenerAction)
        requires
            old(self).wf(),
            old(self).streams().dom().contains(stream_id) || old(self).given() < u64::MAX,
        ensures
            final(self).wf(),
            final(self).queue() == old(self).queue(),
            final(self).channel() == old(self).channel(),
            final(self).senders() == (if old(self).streams().dom().contains(stream_id) {
                old(self).senders()
            } else {
                old(self).senders().open(stream_id)
            }),
            has_own_sender(final(self).streams(), stream_id, final(self).streams()[stream_id]),
            others_kept(old(self).streams(), final(self).streams(), stream_id),
            action == (ListenerAction::Deliver {
                sender: final(self).streams()[stream_id],
                data,
            }),
    {
        let sender: u64 = self.register(stream_id);
        ListenerAction::Deliver { sender, data }
    }

    /// Goes on after the wait for a stream to shut down. A stream whose signal was given is no
    /// longer open; the sender under its identifier is returned, to be let go of.
    pub fn on_shutdown(&mut self, stream_id: u32, signal: Result<(), RecvError>) -> (removed:
        Option<u64>)
        ensures
            old(self).wf() ==> final(self).wf(),
            final(self).queue() == old(self).queue(),
            final(self).channel() == old(self).channel(),
            final(self).given() == old(self).given(),
            final(self).streams() == streams_after_signal(old(self).streams(), stream_id, signal),
            final(self).senders() == old(self).senders().after_signal(stream_id, signal),
            removed == (if signal is Ok && old(self).streams().dom().contains(stream_id) {
                Some(old(self).streams()[stream_id])
            } else {
                None
            }),
    {
        remove_on_signal(&mut self.streams, stream_id, signal)
    }
}

} // verus!
