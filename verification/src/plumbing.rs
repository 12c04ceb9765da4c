//! The outside values that a stream is made of: the data channel, the in-memory pipe that a stream
//! reads from, the one-shot signal that it is shut down with, and the number that names it.

use tokio::io::{ReadHalf, SimplexStream, WriteHalf};
use tokio::sync::oneshot;
use vstd::prelude::*;

verus! {

/// `webrtc::data_channel::RTCDataChannel`, the channel that all streams share.
#[verifier::external_type_specification]
#[verifier::external_body]
pub struct ExRTCDataChannel(webrtc::data_channel::RTCDataChannel);

/// `tokio::io::SimplexStream`, a bounded pipe in memory.
#[verifier::external_type_specification]
#[verifier::external_body]
pub struct ExSimplexStream(tokio::io::SimplexStream);

/// `tokio::io::ReadHalf`, the end of a pipe that bytes come out of.
#[verifier::external_type_specification]
#[verifier::external_body]
#[verifier::reject_recursive_types(T)]
pub struct ExReadHalf<T>(tokio::io::ReadHalf<T>);

/// `tokio::io::WriteHalf`, the end of a pipe that bytes go into.
#[verifier::external_type_specification]
#[verifier::external_body]
#[verifier::reject_recursive_types(T)]
pub struct ExWriteHalf<T>(tokio::io::WriteHalf<T>);

/// `tokio::sync::oneshot::Sender`, the end of a one-shot channel that sends.
#[verifier::external_type_specification]
#[verifier::external_body]
#[verifier::reject_recursive_types(T)]
pub struct ExOneshotSender<T>(tokio::sync::oneshot::Sender<T>);

/// `tokio::sync::oneshot::Receiver`, the end of a one-shot channel that receives.
#[verifier::external_type_specification]
#[verifier::external_body]
#[verifier::reject_recursive_types(T)]
pub struct ExOneshotReceiver<T>(tokio::sync::oneshot::Receiver<T>);

/// `tokio::sync::oneshot::error::RecvError`, what a receiver gets whose sender is gone.
#[verifier::external_type_specification]
#[verifier::external_body]
pub struct ExRecvError(tokio::sync::oneshot::error::RecvError);

/// How many bytes the pipe between two ends was made to hold, where the two are the ends of one
/// pipe.
pub uninterp spec fn pipe_capacity(
    reader: ReadHalf<SimplexStream>,
    writer: WriteHalf<SimplexStream>,
) -> Option<usize>;

/// `tokio::io::simplex`: the two ends of one new pipe, which takes up to `max_buf_size` bytes that
/// nobody has read. It panics where that is none.
pub assume_specification[ tokio::io::simplex ](max_buf_size: usize) -> (ends: (
    ReadHalf<SimplexStream>,
    WriteHalf<SimplexStream>,
))
    requires
        max_buf_size > 0,
    ensures
        pipe_capacity(ends.0, ends.1) == Some(max_buf_size),
;

/// Whether two ends belong to one one-shot channel.
pub uninterp spec fn signal_connected(
    sender: oneshot::Sender<()>,
    receiver: oneshot::Receiver<()>,
) -> bool;

/// `tokio::sync::oneshot::channel`: the two ends of one new one-shot channel.
#[verifier::external_body]
pub(crate) fn new_signal() -> (ends: (oneshot::Sender<()>, oneshot::Receiver<()>))
    ensures
        signal_connected(ends.0, ends.1),
{
    oneshot::channel()
}

/// Whether sending on a sender came to a result. What it comes to is up to whoever holds the
/// receiver, so this says of a sender and a result only that a send had it.
pub uninterp spec fn signal_sent(sender: oneshot::Sender<()>, sent: Result<(), ()>) -> bool;

/// `tokio::sync::oneshot::Sender::send`: uses the sender up to send to its receiver, and fails
/// where the receiver is closed or gone. When that is so is not stated, as nothing here knows of
/// the receiver.
#[verifier::external_body]
pub(crate) fn give_signal(sender: oneshot::Sender<()>) -> (sent: Result<(), ()>)
    ensures
        signal_sent(sender, sent),
{
    sender.send(())
}

/// An identifier that was drawn at random. Only a draw makes one, and one cannot be copied, so
/// whoever holds one holds the result of a draw of its own.
pub struct DrawnId {
    value: u32,
}

impl DrawnId {
    /// The number that was drawn.
    pub closed spec fn value(&self) -> u32 {
        self.value
    }

    /// The number that was drawn.
    pub fn stream_id(&self) -> (stream_id: u32)
        ensures
            stream_id == self.value(),
    {
        self.value
    }
}

/// `rand::random`: some number.
#[verifier::external_body]
pub(crate) fn random_stream_id() -> (drawn: DrawnId) {
    DrawnId { value: rand::random::<u32>() }
}

/// Any number can be drawn.
pub proof fn law_any_number_can_be_drawn(stream_id: u32)
    ensures
        exists|drawn: DrawnId| #[trigger] drawn.value() == stream_id,
{
    assert(DrawnId { value: stream_id }.value() == stream_id);
}

/// Draws that came out different have different numbers.
pub proof fn law_different_draws_have_different_numbers(one: DrawnId, other: DrawnId)
    requires
        one != other,
    ensures
        one.value() != other.value(),
{
}

} // verus!
