//! A stream and the write side of it.
//!
//! Bytes written to a stream leave on the data channel one message at a time. Sending a message
//! takes a future, which the program holds and polls; [`PollRTCDataChannel`] knows whether there is
//! one and decides what a poll of it means.

use std::sync::Arc;

use bytes::Bytes;
use tokio::io::{simplex, ReadHalf, SimplexStream, WriteHalf};
use tokio::sync::oneshot;
use vstd::prelude::*;
use webrtc::data_channel::RTCDataChannel;

use crate::buffer::bytes_contents;
use crate::frame::{encode, frame, id_bytes, id_value, stream_id_to_bytes, HEADER_LEN};
use crate::frame::{lemma_header_read_back, lemma_id_read_back};
use crate::plumbing::{give_signal, new_signal, pipe_capacity, signal_connected, signal_sent};

verus! {

/// How many bytes that nobody has read the pipe of a stream holds.
pub const DEFAULT_READ_BUF_SIZE: usize = 8192;

/// What kind of failure an error is.
#[derive(Debug, PartialEq, Eq)]
pub enum IoErrorKind {
    /// None of the kinds that the operating system knows.
    Other,
}

/// An input or output operation that failed, and why.
#[derive(Debug, PartialEq, Eq)]
pub struct IoError {
    pub kind: IoErrorKind,
    pub message: String,
}

/// The error of no particular kind that a message tells of.
pub open spec fn other_error(message: String) -> IoError {
    IoError { kind: IoErrorKind::Other, message }
}

impl IoError {
    /// An error of no particular kind.
    pub fn other(message: String) -> (error: Self)
        ensures
            error == other_error(message),
            error.kind == IoErrorKind::Other,
            error.message == message,
    {
        IoError { kind: IoErrorKind::Other, message }
    }
}

/// What polling gave: nothing yet, or the value that was waited for.
#[derive(Debug, PartialEq, Eq)]
pub enum Progress<T> {
    Pending,
    Ready(T),
}

/// What polling the channel's send of a message gave: how many bytes of the message were sent,
/// header included, or why it could not be sent.
pub type MessageProgress = Progress<Result<usize, String>>;

/// What polling the future that sends a message gave: the length of the payload sent, or why it
/// could not be sent.
pub type SendProgress = Progress<Result<usize, String>>;

/// What a write came to: how many bytes of the buffer were taken.
pub type WriteProgress = Progress<Result<usize, IoError>>;

/// What a flush or a shutdown came to.
pub type FlushProgress = Progress<Result<(), IoError>>;

/// What to do about a write.
pub enum WriteStep {
    /// The write is over, and this is what it came to.
    Return(WriteProgress),
    /// Poll the send that is under way and go on with [`PollRTCDataChannel::write_polled`].
    Poll,
    /// Start to send this message, poll the send once and go on with
    /// [`PollRTCDataChannel::write_sent`].
    Send(Bytes),
}

/// What to do about a flush or a shutdown.
pub enum FlushStep {
    /// It is over, and this is what it came to.
    Return(FlushProgress),
    /// Poll the send that is under way and go on from there.
    Poll,
}

/// What a write that started to send its own buffer comes to, by the first poll of that send:
/// whether the send is still under way, and the result.
pub open spec fn first_poll(len: usize, polled: SendProgress) -> (bool, WriteProgress) {
    match polled {
        Progress::Pending => (true, Progress::Ready(Ok(len))),
        Progress::Ready(Err(message)) => (false, Progress::Ready(Err(other_error(message)))),
        Progress::Ready(Ok(sent)) => (false, Progress::Ready(Ok(sent))),
    }
}

/// What a write that found an earlier send under way comes to, by the poll of that send: whether
/// its own buffer is sent now, and the result. Either way a send is under way afterwards.
pub open spec fn next_poll(len: usize, polled: SendProgress) -> (bool, WriteProgress) {
    match polled {
        Progress::Pending => (false, Progress::Pending),
        Progress::Ready(Err(message)) => (true, Progress::Ready(Err(other_error(message)))),
        Progress::Ready(Ok(_)) => (true, Progress::Ready(Ok(len))),
    }
}

/// A call to write: the buffer, and what polling the send gives where the call comes to poll one.
pub struct WriteCall {
    pub buf: Seq<u8>,
    pub polled: SendProgress,
}

/// What a call to write leaves behind.
pub struct WriteOutcome {
    /// Whether a message is on its way afterwards.
    pub writing: bool,
    /// Whether the buffer was handed over to be sent.
    pub handed_over: bool,
    /// What the call came to.
    pub result: WriteProgress,
}

/// What a call to write leaves behind, by whether a message was on its way before.
pub open spec fn write_outcome(writing: bool, call: WriteCall) -> WriteOutcome {
    if call.buf.len() == 0 {
        WriteOutcome { writing, handed_over: false, result: Progress::Ready(Ok(0)) }
    } else if writing {
        let (handed_over, result) = next_poll(call.buf.len() as usize, call.polled);
        WriteOutcome { writing: true, handed_over, result }
    } else {
        let (writing, result) = first_poll(call.buf.len() as usize, call.polled);
        WriteOutcome { writing, handed_over: true, result }
    }
}

/// What a flush that found a send under way comes to, by the poll of that send: whether the send
/// is still under way, and the result.
pub open spec fn flush_poll(polled: SendProgress) -> (bool, FlushProgress) {
    match polled {
        Progress::Pending => (true, Progress::Pending),
        Progress::Ready(Err(message)) => (false, Progress::Ready(Err(other_error(message)))),
        Progress::Ready(Ok(_)) => (false, Progress::Ready(Ok(()))),
    }
}

/// What a flush comes to, by whether a message was on its way before and, where one was, by the
/// poll of its send: whether it is on its way still, and the result.
pub open spec fn flush_outcome(writing: bool, polled: SendProgress) -> (bool, FlushProgress) {
    if writing {
        flush_poll(polled)
    } else {
        (false, Progress::Ready(Ok(())))
    }
}

/// What a shutdown comes to, by the flush that it starts with: the error of a flush that failed
/// is dropped.
pub open spec fn shutdown_poll(flushed: FlushProgress) -> FlushProgress {
    match flushed {
        Progress::Pending => Progress::Pending,
        Progress::Ready(_) => Progress::Ready(Ok(())),
    }
}

/// The length of the payload in a message of which `sent` bytes were sent, header included.
pub fn payload_len(sent: usize) -> (len: usize)
    requires
        sent >= HEADER_LEN,
    ensures
        len == sent - HEADER_LEN,
{
    sent - HEADER_LEN
}

/// What a poll of the channel's send of a message means for the payload in it.
pub open spec fn sent_payload(polled: MessageProgress) -> SendProgress {
    match polled {
        Progress::Ready(Ok(sent)) => Progress::Ready(Ok((sent - HEADER_LEN) as usize)),
        Progress::Ready(Err(message)) => Progress::Ready(Err(message)),
        Progress::Pending => Progress::Pending,
    }
}

/// What a poll of the channel's send of a message means for the payload in it: the header does not
/// count as sent, and a send that failed or is still under way stays what it is.
pub fn send_polled(polled: MessageProgress) -> (progress: SendProgress)
    requires
        polled matches Progress::Ready(Ok(sent)) ==> sent >= HEADER_LEN,
    ensures
        progress == sent_payload(polled),
        progress is Pending <==> polled is Pending,
        polled matches Progress::Ready(Ok(sent)) ==> progress == Progress::Ready(
            Ok::<_, String>((sent - HEADER_LEN) as usize),
        ),
        polled matches Progress::Ready(Err(message)) ==> progress == Progress::Ready(
            Err::<usize, _>(message),
        ),
{
    match polled {
        Progress::Ready(Ok(sent)) => Progress::Ready(Ok(payload_len(sent))),
        Progress::Ready(Err(message)) => Progress::Ready(Err(message)),
        Progress::Pending => Progress::Pending,
    }
}

/// The write side of a stream.
pub struct PollRTCDataChannel {
    /// The identifier of the stream, as its messages carry it.
    pub stream_id_bytes: [u8; 4],
    /// The channel that the messages go out on.
    pub data_channel: Arc<RTCDataChannel>,
    /// Whether a message is on its way: the program holds the future that sends it.
    pub writing: bool,
}

impl PollRTCDataChannel {
    /// The identifier of the stream.
    pub open spec fn stream_id(&self) -> u32 {
        id_value(self.stream_id_bytes@)
    }

    /// The write side of the stream `stream_id`, with no message on its way.
    pub fn new(stream_id: u32, data_channel: Arc<RTCDataChannel>) -> (channel: Self)
        ensures
            channel.stream_id() == stream_id,
            channel.stream_id_bytes@ == id_bytes(stream_id),
            channel.data_channel == data_channel,
            !channel.writing,
    {
        proof {
            lemma_id_read_back(stream_id);
        }
        PollRTCDataChannel {
            stream_id_bytes: stream_id_to_bytes(stream_id),
            data_channel,
            writing: false,
        }
    }

    /// The message that carries `buf` for this stream.
    fn message(&self, buf: &[u8]) -> (message: Bytes)
        ensures
            bytes_contents(message) == frame(self.stream_id(), buf@),
    {
        proof {
            lemma_header_read_back(self.stream_id_bytes@);
        }
        encode(&self.stream_id_bytes, buf)
    }

    /// Starts to write `buf`. An empty buffer is written at once. Otherwise an earlier message that
    /// is on its way is polled first, and where there is none the buffer is sent.
    pub fn poll_write(&mut self, buf: &[u8]) -> (step: WriteStep)
        ensures
            final(self).stream_id_bytes == old(self).stream_id_bytes,
            final(self).data_channel == old(self).data_channel,
            buf@.len() == 0 ==> {
                &&& step == WriteStep::Return(Progress::Ready(Ok(0)))
                &&& final(self).writing == old(self).writing
            },
            step matches WriteStep::Return(result) ==> forall|polled: SendProgress|
                #[trigger] write_outcome(old(self).writing, WriteCall { buf: buf@, polled })
                    == (WriteOutcome { writing: final(self).writing, handed_over: false, result }),
            buf@.len() > 0 && old(self).writing ==> {
                &&& step is Poll
                &&& final(self).writing
            },
            buf@.len() > 0 && !old(self).writing ==> {
                &&& step matches WriteStep::Send(message)
                &&& bytes_contents(message) == frame(old(self).stream_id(), buf@)
                &&& final(self).writing
            },
    {
        if buf.is_empty() {
            return WriteStep::Return(Progress::Ready(Ok(0)));
        }
        if self.writing {
            WriteStep::Poll
        } else {
            let message = self.message(buf);
            self.writing = true;
            WriteStep::Send(message)
        }
    }

    /// Goes on with a write whose own buffer was started to be sent: a buffer that is still on its
    /// way counts as written.
    pub fn write_sent(&mut self, buf: &[u8], polled: SendProgress) -> (result: WriteProgress)
        ensures
            final(self).stream_id_bytes == old(self).stream_id_bytes,
            final(self).data_channel == old(self).data_channel,
            (final(self).writing, result) == first_poll(buf@.len() as usize, polled),
            final(self).writing <==> polled is Pending,
            polled is Pending ==> result == Progress::Ready(Ok::<_, IoError>(buf@.len() as usize)),
            polled matches Progress::Ready(Ok(sent)) ==> result == Progress::Ready(
                Ok::<_, IoError>(sent),
            ),
            polled matches Progress::Ready(Err(message)) ==> result == Progress::Ready(
                Err::<usize, _>(IoError { kind: IoErrorKind::Other, message }),
            ),
            buf@.len() > 0 ==> write_outcome(false, WriteCall { buf: buf@, polled }) == (
            WriteOutcome { writing: final(self).writing, handed_over: true, result }),
    {
        match polled {
            Progress::Pending => {
                self.writing = true;
                Progress::Ready(Ok(buf.len()))
            },
            Progress::Ready(Err(message)) => {
                self.writing = false;
                Progress::Ready(Err(IoError::other(message)))
            },
            Progress::Ready(Ok(sent)) => {
                self.writing = false;
                Progress::Ready(Ok(sent))
            },
        }
    }

    /// Goes on with a write that found an earlier message on its way. Once that message has left,
    /// or failed to, the buffer goes out in a message of its own, which the program starts to send
    /// but does not poll yet. The failure of the earlier message is the result of this write.
    pub fn write_polled(&mut self, buf: &[u8], polled: SendProgress) -> (outcome: (
        WriteProgress,
        Option<Bytes>,
    ))
        ensures
            final(self).stream_id_bytes == old(self).stream_id_bytes,
            final(self).data_channel == old(self).data_channel,
            final(self).writing,
            (outcome.1 is Some, outcome.0) == next_poll(buf@.len() as usize, polled),
            outcome.0 is Pending <==> polled is Pending,
            outcome.1 is None <==> polled is Pending,
            polled matches Progress::Ready(Ok(_)) ==> outcome.0 == Progress::Ready(
                Ok::<_, IoError>(buf@.len() as usize),
            ),
            polled matches Progress::Ready(Err(message)) ==> outcome.0 == Progress::Ready(
                Err::<usize, _>(IoError { kind: IoErrorKind::Other, message }),
            ),
            buf@.len() > 0 ==> write_outcome(true, WriteCall { buf: buf@, polled }) == (
            WriteOutcome {
                writing: final(self).writing,
                handed_over: outcome.1 is Some,
                result: outcome.0,
            }),
            outcome.1 matches Some(message) ==> bytes_contents(message) == frame(
                old(self).stream_id(),
                buf@,
            ),
    {
        self.writing = true;
        match polled {
            Progress::Pending => (Progress::Pending, None),
            Progress::Ready(Err(message)) => {
                (Progress::Ready(Err(IoError::other(message))), Some(self.message(buf)))
            },
            Progress::Ready(Ok(_)) => (Progress::Ready(Ok(buf.len())), Some(self.message(buf))),
        }
    }

    /// Starts to flush: a message that is on its way is polled, and without one there is nothing
    /// to do.
    pub fn poll_flush(&self) -> (step: FlushStep)
        ensures
            self.writing ==> step is Poll,
            !self.writing ==> step == FlushStep::Return(Progress::Ready(Ok(()))),
            step matches FlushStep::Return(result) ==> forall|polled: SendProgress|
                #[trigger] flush_outcome(self.writing, polled) == (self.writing, result),
    {
        if self.writing {
            FlushStep::Poll
        } else {
            FlushStep::Return(Progress::Ready(Ok(())))
        }
    }

    /// Goes on with a flush that found a message on its way.
    pub fn flush_polled(&mut self, polled: SendProgress) -> (result: FlushProgress)
        ensures
            final(self).stream_id_bytes == old(self).stream_id_bytes,
            final(self).data_channel == old(self).data_channel,
            (final(self).writing, result) == flush_poll(polled),
            (final(self).writing, result) == flush_outcome(true, polled),
            final(self).writing <==> polled is Pending,
            result is Pending <==> polled is Pending,
            polled matches Progress::Ready(Ok(_)) ==> result == Progress::Ready(
                Ok::<_, IoError>(()),
            ),
            polled matches Progress::Ready(Err(message)) ==> result == Progress::Ready(
                Err::<(), _>(IoError { kind: IoErrorKind::Other, message }),
            ),
    {
        match polled {
            Progress::Pending => {
                self.writing = true;
                Progress::Pending
            },
            Progress::Ready(Err(message)) => {
                self.writing = false;
                Progress::Ready(Err(IoError::other(message)))
            },
            Progress::Ready(Ok(_)) => {
                self.writing = false;
                Progress::Ready(Ok(()))
            },
        }
    }

    /// Starts to shut the write side down, which is to flush it.
    pub fn poll_shutdown(&self) -> (step: FlushStep)
        ensures
            self.writing ==> step is Poll,
            !self.writing ==> step == FlushStep::Return(Progress::Ready(Ok(()))),
    {
        match self.poll_flush() {
            FlushStep::Poll => FlushStep::Poll,
            FlushStep::Return(flushed) => FlushStep::Return(Self::shutdown_flushed(flushed)),
        }
    }

    /// Goes on with a shutdown that found a message on its way. That the message could not be sent
    /// does not fail the shutdown.
    pub fn shutdown_polled(&mut self, polled: SendProgress) -> (result: FlushProgress)
        ensures
            final(self).stream_id_bytes == old(self).stream_id_bytes,
            final(self).data_channel == old(self).data_channel,
            final(self).writing == flush_poll(polled).0,
            result == shutdown_poll(flush_poll(polled).1),
            final(self).writing <==> polled is Pending,
            polled is Pending ==> result is Pending,
            polled is Ready ==> result == Progress::Ready(Ok::<_, IoError>(())),
    {
        Self::shutdown_flushed(self.flush_polled(polled))
    }

    /// What a shutdown comes to once it has flushed.
    fn shutdown_flushed(flushed: FlushProgress) -> (result: FlushProgress)
        ensures
            result == shutdown_poll(flushed),
    {
        match flushed {
            Progress::Pending => Progress::Pending,
            Progress::Ready(_) => Progress::Ready(Ok(())),
        }
    }
}

/// Whether a signal was given: something was sent on its sender, whatever that came to.
pub open spec fn signal_given(sender: oneshot::Sender<()>) -> bool {
    exists|sent: Result<(), ()>| signal_sent(sender, sent)
}

/// A stream: a write side, the end of the pipe that its incoming bytes come out of, and the signal
/// that it is shut down with, until that is given.
pub struct RTCDataChannelStream {
    pub poll_data_channel: PollRTCDataChannel,
    pub receiver: ReadHalf<SimplexStream>,
    pub shutdown: Option<oneshot::Sender<()>>,
}

/// Whether a shutdown that found a message on its way comes to a result and leaves the stream so,
/// by the poll of that message's send.
pub open spec fn shutdown_comes_to(
    before: RTCDataChannelStream,
    polled: SendProgress,
    after: RTCDataChannelStream,
    result: FlushProgress,
) -> bool {
    &&& result == shutdown_poll(flush_outcome(true, polled).1)
    &&& after.poll_data_channel.writing == flush_outcome(true, polled).0
    &&& after.receiver == before.receiver
    &&& match polled {
        Progress::Pending => after.shutdown == before.shutdown,
        Progress::Ready(_) => after.shutdown is None && (before.shutdown matches Some(sender)
            ==> signal_given(sender)),
    }
}

impl RTCDataChannelStream {
    /// A stream that has not been shut down.
    pub fn new(
        poll_data_channel: PollRTCDataChannel,
        receiver: ReadHalf<SimplexStream>,
        shutdown: oneshot::Sender<()>,
    ) -> (stream: Self)
        ensures
            stream.poll_data_channel == poll_data_channel,
            stream.receiver == receiver,
            stream.shutdown == Some(shutdown),
    {
        RTCDataChannelStream { poll_data_channel, receiver, shutdown: Some(shutdown) }
    }

    /// Gives the signal that the stream is shut down, by sending on the sender that the stream
    /// holds. It can be given once: after that, and where nobody waits for it any more, this
    /// fails. Whether somebody waits is not known here.
    pub fn shutdown(&mut self) -> (result: Result<(), ()>)
        ensures
            final(self).poll_data_channel == old(self).poll_data_channel,
            final(self).receiver == old(self).receiver,
            final(self).shutdown is None,
            old(self).shutdown is None ==> result is Err,
            old(self).shutdown matches Some(sender) ==> signal_sent(sender, result),
    {
        let sent = match self.shutdown.take() {
            Some(shutdown) => Some(give_signal(shutdown)),
            None => None,
        };
        Self::shutdown_result(sent)
    }

    /// What giving the signal comes to: what sending it came to, and a failure where it had been
    /// given before and nothing was sent.
    pub fn shutdown_result(sent: Option<Result<(), ()>>) -> (result: Result<(), ()>)
        ensures
            result == (match sent {
                Some(result) => result,
                None => Err(()),
            }),
    {
        match sent {
            Some(result) => result,
            None => Err(()),
        }
    }

    /// Starts to shut the stream down: a message that is on its way is polled first, and without
    /// one the signal is given.
    pub fn poll_shutdown(&mut self) -> (step: FlushStep)
        ensures
            final(self).poll_data_channel == old(self).poll_data_channel,
            final(self).receiver == old(self).receiver,
            old(self).poll_data_channel.writing ==> {
                &&& step is Poll
                &&& final(self).shutdown == old(self).shutdown
            },
            !old(self).poll_data_channel.writing ==> {
                &&& step == FlushStep::Return(Progress::Ready(Ok(())))
                &&& final(self).shutdown is None
                &&& old(self).shutdown matches Some(sender) ==> signal_given(sender)
            },
    {
        match self.poll_data_channel.poll_shutdown() {
            FlushStep::Poll => FlushStep::Poll,
            FlushStep::Return(closed) => FlushStep::Return(self.shutdown_closed(closed)),
        }
    }

    /// Goes on with a shutdown that found a message on its way.
    pub fn shutdown_polled(&mut self, polled: SendProgress) -> (result: FlushProgress)
        ensures
            final(self).poll_data_channel == (PollRTCDataChannel {
                writing: flush_poll(polled).0,
                ..old(self).poll_data_channel
            }),
            final(self).receiver == old(self).receiver,
            final(self).shutdown == (if polled is Pending {
                old(self).shutdown
            } else {
                None
            }),
            polled is Ready ==> (old(self).shutdown matches Some(sender) ==> signal_given(sender)),
            result == shutdown_poll(flush_poll(polled).1),
            final(self).poll_data_channel.writing <==> polled is Pending,
            polled is Pending ==> result is Pending,
            polled is Ready ==> result == Progress::Ready(Ok::<_, IoError>(())),
            shutdown_comes_to(*old(self), polled, *final(self), result),
    {
        let closed = self.poll_data_channel.shutdown_polled(polled);
        self.shutdown_closed(closed)
    }

    /// Once the write side is shut down, gives the signal; what became of the signal is of no
    /// account.
    fn shutdown_closed(&mut self, closed: FlushProgress) -> (result: FlushProgress)
        ensures
            final(self).poll_data_channel == old(self).poll_data_channel,
            final(self).receiver == old(self).receiver,
            final(self).shutdown == (if closed is Pending {
                old(self).shutdown
            } else {
                None
            }),
            closed is Ready ==> (old(self).shutdown matches Some(sender) ==> signal_given(sender)),
            result == closed,
    {
        match closed {
            Progress::Pending => Progress::Pending,
            Progress::Ready(result) => {
                let _sent = self.shutdown();
                Progress::Ready(result)
            },
        }
    }
}

/// A stream and what remains with whoever opened it: the end of the pipe that the stream's
/// incoming bytes go into, and the end of the signal that tells when the stream is shut down.
pub struct OpenStream {
    pub stream: RTCDataChannelStream,
    pub sender: WriteHalf<SimplexStream>,
    pub shutdown: oneshot::Receiver<()>,
}

impl OpenStream {
    /// Whether this is a new stream of that identifier on that channel, whole in itself: what goes
    /// into the sender comes out of the stream, and the stream's signal is the one waited for.
    pub open spec fn is_new(&self, stream_id: u32, data_channel: Arc<RTCDataChannel>) -> bool {
        &&& self.stream.poll_data_channel.stream_id() == stream_id
        &&& self.stream.poll_data_channel.stream_id_bytes@ == id_bytes(stream_id)
        &&& self.stream.poll_data_channel.data_channel == data_channel
        &&& !self.stream.poll_data_channel.writing
        &&& pipe_capacity(self.stream.receiver, self.sender) == Some(DEFAULT_READ_BUF_SIZE)
        &&& self.stream.shutdown matches Some(signal)
        &&& signal_connected(signal, self.shutdown)
    }

    /// A new stream on a channel.
    pub fn new(stream_id: u32, data_channel: Arc<RTCDataChannel>) -> (opened: Self)
        ensures
            opened.is_new(stream_id, data_channel),
    {
        let (receiver, sender) = simplex(DEFAULT_READ_BUF_SIZE);
        let (shutdown_sender, shutdown_receiver) = new_signal();
        let poll_data_channel = PollRTCDataChannel::new(stream_id, data_channel);
        let stream = RTCDataChannelStream::new(poll_data_channel, receiver, shutdown_sender);
        OpenStream { stream, sender, shutdown: shutdown_receiver }
    }
}

} // verus!
