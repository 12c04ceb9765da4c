//! The queue of streams that wait to be accepted, a channel of `tokio`.

use tokio::sync::mpsc;
use vstd::prelude::*;

use crate::util::RTCDataChannelStream;

verus! {

/// `tokio::sync::mpsc::Sender`, the end of a queue that values go into.
#[verifier::external_type_specification]
#[verifier::external_body]
#[verifier::reject_recursive_types(T)]
pub struct ExMpscSender<T>(tokio::sync::mpsc::Sender<T>);

/// `tokio::sync::mpsc::Receiver`, the end of a queue that values come out of.
#[verifier::external_type_specification]
#[verifier::external_body]
#[verifier::reject_recursive_types(T)]
pub struct ExMpscReceiver<T>(tokio::sync::mpsc::Receiver<T>);

/// How many streams the queue between two ends was made to hold, where the two are the ends of one
/// queue.
pub uninterp spec fn queue_capacity(
    sender: mpsc::Sender<RTCDataChannelStream>,
    receiver: mpsc::Receiver<RTCDataChannelStream>,
) -> Option<usize>;

/// `tokio::sync::mpsc::channel`: the two ends of one new queue, not closed, which holds up to
/// `buffer` values that nobody has received. It panics where that is none, or more than an eighth
/// of the largest number.
#[verifier::external_body]
pub(crate) fn new_queue(buffer: usize) -> (ends: (
    mpsc::Sender<RTCDataChannelStream>,
    mpsc::Receiver<RTCDataChannelStream>,
))
    requires
        0 < buffer <= usize::MAX / 8,
    ensures
        queue_capacity(ends.0, ends.1) == Some(buffer),
        !queue_closed(ends.1),
{
    mpsc::channel(buffer)
}

/// Whether the end that receives has closed the queue.
pub uninterp spec fn queue_closed(receiver: mpsc::Receiver<RTCDataChannelStream>) -> bool;

/// `tokio::sync::mpsc::Receiver::close`: closes the queue, so that nothing more goes into it; what
/// is in it still comes out. The receiver stays the end of the queue that it was.
#[verifier::external_body]
pub(crate) fn close_queue(receiver: &mut mpsc::Receiver<RTCDataChannelStream>)
    ensures
        queue_closed(*final(receiver)),
        forall|sender: mpsc::Sender<RTCDataChannelStream>| #[trigger]
            queue_capacity(sender, *final(receiver)) == queue_capacity(sender, *old(receiver)),
{
    receiver.close()
}

} // verus!
