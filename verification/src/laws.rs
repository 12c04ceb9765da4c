//! What holds of the streams as a whole: over many writes, many messages and both sides.

use std::sync::Arc;

use tokio::sync::oneshot;
use tokio::sync::oneshot::error::RecvError;
use vstd::prelude::*;
use webrtc::data_channel::RTCDataChannel;

use crate::frame::{frame, id_bytes, law_unframe_frame, unframe};
use crate::plumbing::{law_different_draws_have_different_numbers, pipe_capacity};
use crate::plumbing::{signal_connected, signal_sent, DrawnId};
use crate::route::{route, streams_after_signal, Route};
use crate::server::accept_comes_to;
use crate::table::{has_own_sender, no_streams, Senders};
use crate::util::{flush_outcome, flush_poll, other_error, sent_payload, shutdown_comes_to};
use crate::util::{shutdown_poll, signal_given, write_outcome};
use crate::util::{FlushProgress, IoError, IoErrorKind, MessageProgress, OpenStream, Progress};
use crate::util::{RTCDataChannelStream, SendProgress, WriteCall};

verus! {

/// A call on the write side of a stream.
pub enum Call {
    Write(WriteCall),
    /// A flush, or the flush that a shutdown starts with, and what polling the send gives where
    /// there is one to poll.
    Flush(SendProgress),
}

/// Whether a message is on its way after some calls.
pub open spec fn writing_after(writing: bool, calls: Seq<Call>) -> bool
    decreases calls.len(),
{
    if calls.len() == 0 {
        writing
    } else {
        let before = writing_after(writing, calls.drop_last());
        match calls.last() {
            Call::Write(call) => write_outcome(before, call).writing,
            Call::Flush(polled) => flush_outcome(before, polled).0,
        }
    }
}

/// The messages that some calls on a stream hand over to be sent.
pub open spec fn messages(stream_id: u32, writing: bool, calls: Seq<Call>) -> Seq<Seq<u8>>
    decreases calls.len(),
{
    if calls.len() == 0 {
        seq![]
    } else {
        let before = messages(stream_id, writing, calls.drop_last());
        match calls.last() {
            Call::Write(call) if write_outcome(
                writing_after(writing, calls.drop_last()),
                call,
            ).handed_over => before.push(frame(stream_id, call.buf)),
            _ => before,
        }
    }
}

/// The bytes that some calls take: the buffers of the writes that did not ask to be made again.
pub open spec fn bytes_taken(writing: bool, calls: Seq<Call>) -> Seq<u8>
    decreases calls.len(),
{
    if calls.len() == 0 {
        seq![]
    } else {
        let before = bytes_taken(writing, calls.drop_last());
        match calls.last() {
            Call::Write(call) if write_outcome(
                writing_after(writing, calls.drop_last()),
                call,
            ).result is Ready => before + call.buf,
            _ => before,
        }
    }
}

/// The message that is on its way after some calls on a stream that had none on its way: the last
/// one that was handed over, until a poll finds its send over.
pub open spec fn under_way(stream_id: u32, calls: Seq<Call>) -> Option<Seq<u8>>
    decreases calls.len(),
{
    if calls.len() == 0 {
        None
    } else {
        let before = under_way(stream_id, calls.drop_last());
        match calls.last() {
            Call::Write(call) => if call.buf.len() == 0 {
                before
            } else if before is Some {
                if call.polled is Ready {
                    Some(frame(stream_id, call.buf))
                } else {
                    before
                }
            } else if call.polled is Ready {
                None
            } else {
                Some(frame(stream_id, call.buf))
            },
            Call::Flush(polled) => if polled is Ready {
                None
            } else {
                before
            },
        }
    }
}

/// The messages whose sends some calls on a stream that had none on its way found to be over, sent
/// or failed.
pub open spec fn completed(stream_id: u32, calls: Seq<Call>) -> Seq<Seq<u8>>
    decreases calls.len(),
{
    if calls.len() == 0 {
        seq![]
    } else {
        let before = completed(stream_id, calls.drop_last());
        match (under_way(stream_id, calls.drop_last()), calls.last()) {
            (Some(message), Call::Write(call)) if call.buf.len() > 0 && call.polled is Ready =>
                before.push(message),
            (None, Call::Write(call)) if call.buf.len() > 0 && call.polled is Ready =>
                before.push(frame(stream_id, call.buf)),
            (Some(message), Call::Flush(polled)) if polled is Ready => before.push(message),
            _ => before,
        }
    }
}

/// What polling the send gives, where a call polls one.
pub open spec fn poll_of(call: Call) -> SendProgress {
    match call {
        Call::Write(call) => call.polled,
        Call::Flush(polled) => polled,
    }
}

/// Why sends failed that some calls on a stream that had no message on its way found to be over, in
/// order.
pub open spec fn failures(stream_id: u32, calls: Seq<Call>) -> Seq<String>
    decreases calls.len(),
{
    if calls.len() == 0 {
        seq![]
    } else {
        let before = failures(stream_id, calls.drop_last());
        let found = completed(stream_id, calls).len() > completed(
            stream_id,
            calls.drop_last(),
        ).len();
        match poll_of(calls.last()) {
            Progress::Ready(Err(message)) if found => before.push(message),
            _ => before,
        }
    }
}

/// The errors that some writes and flushes come to, in order.
pub open spec fn errors(writing: bool, calls: Seq<Call>) -> Seq<IoError>
    decreases calls.len(),
{
    if calls.len() == 0 {
        seq![]
    } else {
        let before = errors(writing, calls.drop_last());
        let on_its_way = writing_after(writing, calls.drop_last());
        match calls.last() {
            Call::Write(call) => match write_outcome(on_its_way, call).result {
                Progress::Ready(Err(error)) => before.push(error),
                _ => before,
            },
            Call::Flush(polled) => match flush_outcome(on_its_way, polled).1 {
                Progress::Ready(Err(error)) => before.push(error),
                _ => before,
            },
        }
    }
}

/// The bytes that a run of messages carries for a stream.
pub open spec fn bytes_for(messages: Seq<Seq<u8>>, stream_id: u32) -> Seq<u8>
    decreases messages.len(),
{
    if messages.len() == 0 {
        seq![]
    } else {
        let before = bytes_for(messages.drop_last(), stream_id);
        match unframe(messages.last()) {
            Some((named, payload)) if named == stream_id => before + payload,
            _ => before,
        }
    }
}

/// Whether a message is for a stream.
pub open spec fn names(message: Seq<u8>, stream_id: u32) -> bool {
    unframe(message) matches Some((named, _)) && named == stream_id
}

/// Those of a run of messages that are for a stream.
pub open spec fn messages_for(mixed: Seq<Seq<u8>>, stream_id: u32) -> Seq<Seq<u8>> {
    mixed.filter(|message: Seq<u8>| names(message, stream_id))
}

/// Something that happens to a client: it opens a stream, hears a message, or learns that the wait
/// for a stream to shut down is over.
pub enum ClientEvent {
    Connect(u32),
    Message(Seq<u8>),
    Shutdown { stream_id: u32, signal: Result<(), RecvError> },
}

/// The streams that a client has open after some events.
pub open spec fn client_after(senders: Senders, events: Seq<ClientEvent>) -> Senders
    decreases events.len(),
{
    if events.len() == 0 {
        senders
    } else {
        let before = client_after(senders, events.drop_last());
        match events.last() {
            ClientEvent::Connect(stream_id) => before.open(stream_id),
            ClientEvent::Message(_) => before,
            ClientEvent::Shutdown { stream_id, signal } => before.after_signal(stream_id, signal),
        }
    }
}

/// The bytes that a client writes to a sender over some events.
pub open spec fn client_delivers(
    senders: Senders,
    events: Seq<ClientEvent>,
    sender: u64,
) -> Seq<u8>
    decreases events.len(),
{
    if events.len() == 0 {
        seq![]
    } else {
        let before = client_delivers(senders, events.drop_last(), sender);
        match events.last() {
            ClientEvent::Message(message) => match route(
                client_after(senders, events.drop_last()).streams,
                message,
            ) {
                Route::Known(found, payload) if found == sender => before + payload,
                _ => before,
            },
            _ => before,
        }
    }
}

/// The messages among the events of a client.
pub open spec fn client_messages(events: Seq<ClientEvent>) -> Seq<Seq<u8>>
    decreases events.len(),
{
    if events.len() == 0 {
        seq![]
    } else {
        match events.last() {
            ClientEvent::Message(message) => client_messages(events.drop_last()).push(message),
            _ => client_messages(events.drop_last()),
        }
    }
}

/// Whether an event leaves a client's stream alone: it neither shuts the stream down nor opens
/// another under its identifier.
pub open spec fn client_spares(event: ClientEvent, stream_id: u32) -> bool {
    match event {
        ClientEvent::Connect(other) => other != stream_id,
        ClientEvent::Message(_) => true,
        ClientEvent::Shutdown { stream_id: other, signal } => other != stream_id || signal is Err,
    }
}

/// Something that happens to a listener: it hears a message, or learns that the wait for a stream
/// to shut down is over.
pub enum ListenerEvent {
    Message(Seq<u8>),
    Shutdown { stream_id: u32, signal: Result<(), RecvError> },
}

/// The streams that a listener has open after some events.
pub open spec fn listener_after(senders: Senders, events: Seq<ListenerEvent>) -> Senders
    decreases events.len(),
{
    if events.len() == 0 {
        senders
    } else {
        let before = listener_after(senders, events.drop_last());
        match events.last() {
            ListenerEvent::Message(message) => match route(before.streams, message) {
                Route::Unknown(stream_id, _) => before.open(stream_id),
                _ => before,
            },
            ListenerEvent::Shutdown { stream_id, signal } => before.after_signal(
                stream_id,
                signal,
            ),
        }
    }
}

/// The identifiers of the streams that a listener opens over some events, in order.
pub open spec fn listener_opens(senders: Senders, events: Seq<ListenerEvent>) -> Seq<u32>
    decreases events.len(),
{
    if events.len() == 0 {
        seq![]
    } else {
        let before = listener_opens(senders, events.drop_last());
        match events.last() {
            ListenerEvent::Message(message) => match route(
                listener_after(senders, events.drop_last()).streams,
                message,
            ) {
                Route::Unknown(stream_id, _) => before.push(stream_id),
                _ => before,
            },
            ListenerEvent::Shutdown { .. } => before,
        }
    }
}

/// The bytes that a listener writes to a sender over some events.
pub open spec fn listener_delivers(
    senders: Senders,
    events: Seq<ListenerEvent>,
    sender: u64,
) -> Seq<u8>
    decreases events.len(),
{
    if events.len() == 0 {
        seq![]
    } else {
        let opened = listener_after(senders, events.drop_last());
        let before = listener_delivers(senders, events.drop_last(), sender);
        match events.last() {
            ListenerEvent::Message(message) => match route(opened.streams, message) {
                Route::Known(found, payload) if found == sender => before + payload,
                Route::Unknown(_, payload) if opened.given == sender => before + payload,
                _ => before,
            },
            ListenerEvent::Shutdown { .. } => before,
        }
    }
}

/// The messages among the events of a listener.
pub open spec fn listener_messages(events: Seq<ListenerEvent>) -> Seq<Seq<u8>>
    decreases events.len(),
{
    if events.len() == 0 {
        seq![]
    } else {
        match events.last() {
            ListenerEvent::Message(message) => listener_messages(events.drop_last()).push(message),
            ListenerEvent::Shutdown { .. } => listener_messages(events.drop_last()),
        }
    }
}

/// Whether an event leaves a listener's stream alone: it does not shut the stream down.
pub open spec fn listener_spares(event: ListenerEvent, stream_id: u32) -> bool {
    match event {
        ListenerEvent::Message(_) => true,
        ListenerEvent::Shutdown { stream_id: other, signal } => other != stream_id || signal is Err,
    }
}

/// The identifiers that a run of messages names, each where it is named first.
pub open spec fn first_appearances(messages: Seq<Seq<u8>>) -> Seq<u32>
    decreases messages.len(),
{
    if messages.len() == 0 {
        seq![]
    } else {
        let before = first_appearances(messages.drop_last());
        match unframe(messages.last()) {
            Some((stream_id, _)) if !before.contains(stream_id) => before.push(stream_id),
            _ => before,
        }
    }
}

/// A write takes its whole buffer or nothing: a buffer with bytes in it is handed over in one
/// message exactly where the write does not ask to be made again. A write that asks to be made
/// again changes nothing, and only does so while a message is on its way.
pub proof fn law_write_takes_all_or_nothing(writing: bool, call: WriteCall)
    ensures
        write_outcome(writing, call).handed_over <==> call.buf.len() > 0 && write_outcome(
            writing,
            call,
        ).result is Ready,
        write_outcome(writing, call).result is Pending ==> {
            &&& writing
            &&& write_outcome(writing, call).writing
        },
        !write_outcome(writing, call).handed_over ==> write_outcome(writing, call).writing
            == writing,
{
}

/// A message is handed over only when the one before it is no longer on its way, so that the
/// messages of a stream are sent one at a time.
pub proof fn law_one_message_at_a_time(writing: bool, call: WriteCall)
    requires
        write_outcome(writing, call).handed_over,
    ensures
        !writing || call.polled is Ready,
{
}

/// Where the channel sends messages whole, header and all, a write that succeeds reports the length
/// of its buffer.
pub proof fn law_write_reports_its_length(
    stream_id: u32,
    writing: bool,
    buf: Seq<u8>,
    polled: MessageProgress,
    len: usize,
)
    requires
        frame(stream_id, buf).len() <= usize::MAX,
        !writing ==> (polled matches Progress::Ready(Ok(sent)) ==> sent == frame(
            stream_id,
            buf,
        ).len()),
        write_outcome(writing, WriteCall { buf, polled: sent_payload(polled) }).result
            == Progress::Ready(Ok::<_, IoError>(len)),
    ensures
        len == buf.len(),
{
}

/// A write fails only with the error of a send: of an earlier message, and then its own buffer is
/// sent all the same, or of its own.
pub proof fn law_write_fails_with_a_send(writing: bool, call: WriteCall)
    requires
        write_outcome(writing, call).result matches Progress::Ready(Err(_)),
    ensures
        call.polled matches Progress::Ready(Err(message)) && write_outcome(writing, call).result
            == Progress::Ready(Err::<usize, _>(other_error(message))),
        write_outcome(writing, call).writing == writing,
        write_outcome(writing, call).handed_over,
{
}

/// A write that finds a send to have failed, its own or that of an earlier message, fails with that
/// error. Its buffer is handed over all the same.
pub proof fn law_failed_send_fails_the_write(writing: bool, buf: Seq<u8>, message: String)
    requires
        buf.len() > 0,
    ensures
        ({
            let failed: MessageProgress = Progress::Ready(Err(message));
            let outcome = write_outcome(writing, WriteCall { buf, polled: sent_payload(failed) });
            &&& outcome.result == Progress::Ready(
                Err::<usize, _>(IoError { kind: IoErrorKind::Other, message }),
            )
            &&& outcome.handed_over
            &&& outcome.writing == writing
        }),
{
}

/// A write of some bytes that finds no send to have failed waits while an earlier message is on its
/// way, and succeeds otherwise. It reports the length of its buffer, or what was sent of it where
/// it was sent at once, which is the message without the four bytes of the header. A message is on
/// its way afterwards unless this one was sent at once.
pub proof fn law_write_succeeds_unless_a_send_failed(
    writing: bool,
    buf: Seq<u8>,
    polled: MessageProgress,
)
    requires
        0 < buf.len() <= usize::MAX,
        polled matches Progress::Ready(result) ==> result is Ok,
    ensures
        ({
            let outcome = write_outcome(writing, WriteCall { buf, polled: sent_payload(polled) });
            &&& outcome.result is Pending <==> writing && polled is Pending
            &&& outcome.handed_over <==> outcome.result is Ready
            &&& outcome.writing <==> writing || polled is Pending
            &&& outcome.result matches Progress::Ready(result) ==> {
                &&& result matches Ok(len)
                &&& writing || polled is Pending ==> len == buf.len()
                &&& !writing ==> (polled matches Progress::Ready(Ok(sent)) ==> (sent >= 4 ==> len
                    + 4 == sent))
            }
        }),
{
}

/// A write of no bytes is over at once, and changes nothing.
pub proof fn law_empty_write_changes_nothing(writing: bool, polled: SendProgress)
    ensures
        ({
            let outcome = write_outcome(writing, WriteCall { buf: Seq::empty(), polled });
            &&& outcome.result == Progress::Ready(Ok::<usize, IoError>(0))
            &&& !outcome.handed_over
            &&& outcome.writing == writing
        }),
{
}

/// No failure is lost, and none is made up: over a run of writes and flushes on a stream that had
/// no message on its way, the errors that they come to are those of the sends that failed, each
/// reported once, in order. A shutdown starts with a flush but drops its error.
pub proof fn law_every_failed_send_is_reported_once(stream_id: u32, calls: Seq<Call>)
    ensures
        errors(false, calls).len() == failures(stream_id, calls).len(),
        forall|i: int|
            0 <= i < errors(false, calls).len() ==> #[trigger] errors(false, calls)[i] == (
            IoError { kind: IoErrorKind::Other, message: failures(stream_id, calls)[i] }),
    decreases calls.len(),
{
    if calls.len() > 0 {
        law_every_failed_send_is_reported_once(stream_id, calls.drop_last());
        law_messages_complete_in_order(stream_id, calls.drop_last());
    }
}

/// A send is over for the stream exactly when it is over for the channel: with the error that it
/// failed with, or with the length of the message without the four bytes of the header.
pub proof fn law_send_is_over_when_the_channel_says_so(polled: MessageProgress)
    ensures
        sent_payload(polled) is Pending <==> polled is Pending,
        polled matches Progress::Ready(Err(message)) ==> sent_payload(polled) == Progress::Ready(
            Err::<usize, _>(message),
        ),
        polled matches Progress::Ready(Ok(sent)) ==> sent >= 4 ==> (sent_payload(
            polled,
        ) matches Progress::Ready(Ok(len)) && len + 4 == sent),
{
}

/// A flush with a message on its way is over, and no message is on its way any more, exactly when
/// the channel's send of it is over. It succeeds where the message was sent and fails with the
/// error of the send where it was not. A flush with no message on its way succeeds at once.
pub proof fn law_flush_reports_the_send(polled: MessageProgress)
    ensures
        polled is Pending ==> flush_outcome(true, sent_payload(polled)) == (
            true,
            Progress::<Result<(), IoError>>::Pending,
        ),
        polled matches Progress::Ready(Ok(_)) ==> flush_outcome(true, sent_payload(polled)) == (
            false,
            Progress::Ready(Ok::<(), IoError>(())),
        ),
        polled matches Progress::Ready(Err(message)) ==> flush_outcome(true, sent_payload(polled))
            == (
            false,
            Progress::Ready(Err::<(), _>(IoError { kind: IoErrorKind::Other, message })),
        ),
        flush_outcome(false, sent_payload(polled)) == (
            false,
            Progress::Ready(Ok::<(), IoError>(())),
        ),
{
}

/// A shutdown with a message on its way is over exactly when the channel's send of it is, whatever
/// that came to. It succeeds then, no message is on its way any more, and the signal of a stream
/// that had not given it has been sent. Until then the signal is kept.
pub proof fn law_shutdown_is_over_with_the_send(
    before: RTCDataChannelStream,
    polled: MessageProgress,
    after: RTCDataChannelStream,
    result: FlushProgress,
)
    requires
        shutdown_comes_to(before, sent_payload(polled), after, result),
    ensures
        polled is Ready ==> {
            &&& result == Progress::Ready(Ok::<(), IoError>(()))
            &&& !after.poll_data_channel.writing
            &&& after.shutdown is None
            &&& before.shutdown matches Some(sender) ==> exists|sent: Result<(), ()>|
                signal_sent(sender, sent)
        },
        polled is Pending ==> {
            &&& result is Pending
            &&& after.poll_data_channel.writing
            &&& after.shutdown == before.shutdown
        },
        after.receiver == before.receiver,
{
}

/// A signal that was given was sent.
pub proof fn law_signal_given_was_sent(sender: oneshot::Sender<()>)
    requires
        signal_given(sender),
    ensures
        exists|sent: Result<(), ()>| signal_sent(sender, sent),
{
}

/// A new stream writes under its identifier to its channel and has no message on its way. What goes
/// into its sender comes out of it, over a pipe of 8192 bytes, and the signal that it holds is the
/// one waited for.
pub proof fn law_new_stream_is_whole(
    opened: OpenStream,
    stream_id: u32,
    data_channel: Arc<RTCDataChannel>,
)
    requires
        opened.is_new(stream_id, data_channel),
    ensures
        opened.stream.poll_data_channel.stream_id_bytes@ == id_bytes(stream_id),
        opened.stream.poll_data_channel.stream_id() == stream_id,
        opened.stream.poll_data_channel.data_channel == data_channel,
        !opened.stream.poll_data_channel.writing,
        pipe_capacity(opened.stream.receiver, opened.sender) == Some(8192usize),
        opened.stream.shutdown matches Some(signal) && signal_connected(signal, opened.shutdown),
{
}

/// A flush is over exactly when no message is on its way any more.
pub proof fn law_flush_waits_for_the_message(polled: SendProgress)
    ensures
        flush_poll(polled).1 is Ready <==> !flush_poll(polled).0,
        flush_poll(polled).1 is Ready <==> polled is Ready,
{
}

/// The messages that a stream hands over are, in order, those whose sends are over and then the one
/// that is on its way, if one is. A stream knows whether one is.
pub proof fn law_messages_complete_in_order(stream_id: u32, calls: Seq<Call>)
    ensures
        writing_after(false, calls) <==> under_way(stream_id, calls) is Some,
        messages(stream_id, false, calls) == completed(stream_id, calls) + (match under_way(
            stream_id,
            calls,
        ) {
            Some(message) => seq![message],
            None => seq![],
        }),
    decreases calls.len(),
{
    if calls.len() > 0 {
        law_messages_complete_in_order(stream_id, calls.drop_last());
    }
}

/// When a flush is over, the sends of all messages that the stream handed over before are over, and
/// none is on its way. A flush that succeeds with a message on its way saw that message sent.
pub proof fn law_flush_completes_every_message(
    stream_id: u32,
    calls: Seq<Call>,
    polled: SendProgress,
)
    requires
        flush_outcome(writing_after(false, calls), polled).1 is Ready,
    ensures
        completed(stream_id, calls.push(Call::Flush(polled))) == messages(stream_id, false, calls),
        under_way(stream_id, calls.push(Call::Flush(polled))) is None,
        !writing_after(false, calls.push(Call::Flush(polled))),
        under_way(stream_id, calls) is Some && flush_outcome(
            writing_after(false, calls),
            polled,
        ).1 == Progress::Ready(Ok::<(), IoError>(())) ==> polled matches Progress::Ready(Ok(_)),
{
    law_messages_complete_in_order(stream_id, calls);
    assert(calls.push(Call::Flush(polled)).drop_last() =~= calls);
}

/// A shutdown is over when its flush is, and never fails.
pub proof fn law_shutdown_never_fails(flushed: FlushProgress)
    ensures
        shutdown_poll(flushed) is Ready <==> flushed is Ready,
        shutdown_poll(flushed) matches Progress::Ready(result) ==> result is Ok,
{
}

/// The messages of a stream carry, for that stream, the bytes that the calls on it took, in order.
pub proof fn law_messages_carry_what_was_taken(
    stream_id: u32,
    writing: bool,
    calls: Seq<Call>,
)
    ensures
        bytes_for(messages(stream_id, writing, calls), stream_id) == bytes_taken(writing, calls),
    decreases calls.len(),
{
    if calls.len() > 0 {
        let before = calls.drop_last();
        let sent = messages(stream_id, writing, before);
        law_messages_carry_what_was_taken(stream_id, writing, before);
        if let Call::Write(call) = calls.last() {
            law_write_takes_all_or_nothing(writing_after(writing, before), call);
            if write_outcome(writing_after(writing, before), call).handed_over {
                law_unframe_frame(stream_id, call.buf);
                assert(sent.push(frame(stream_id, call.buf)).drop_last() =~= sent);
            } else {
                assert(call.buf.len() == 0 ==> bytes_taken(writing, before) + call.buf
                    =~= bytes_taken(writing, before));
            }
        }
    }
}

/// The messages of a stream carry nothing for another.
pub proof fn law_messages_carry_nothing_for_others(
    stream_id: u32,
    writing: bool,
    calls: Seq<Call>,
    other: u32,
)
    requires
        other != stream_id,
    ensures
        bytes_for(messages(stream_id, writing, calls), other) == Seq::<u8>::empty(),
    decreases calls.len(),
{
    if calls.len() > 0 {
        let before = calls.drop_last();
        let sent = messages(stream_id, writing, before);
        law_messages_carry_nothing_for_others(stream_id, writing, before, other);
        if let Call::Write(call) = calls.last() {
            if write_outcome(writing_after(writing, before), call).handed_over {
                law_unframe_frame(stream_id, call.buf);
                assert(sent.push(frame(stream_id, call.buf)).drop_last() =~= sent);
            }
        }
    }
}

/// The bytes for a stream are those in the messages that name it, whatever is mixed in with them.
proof fn lemma_only_named_messages_count(mixed: Seq<Seq<u8>>, stream_id: u32)
    ensures
        bytes_for(mixed, stream_id) == bytes_for(messages_for(mixed, stream_id), stream_id),
    decreases mixed.len(),
{
    reveal(Seq::filter);
    if mixed.len() > 0 {
        let before = mixed.drop_last();
        let kept = messages_for(before, stream_id);
        lemma_only_named_messages_count(before, stream_id);
        if names(mixed.last(), stream_id) {
            assert(kept.push(mixed.last()).drop_last() =~= kept);
        }
    }
}

/// Whatever happens to a client, no two of its open streams share a sender, and a number that has
/// not been given to a sender has had nothing written to it.
pub proof fn law_client_gives_each_stream_its_own_sender(
    senders: Senders,
    events: Seq<ClientEvent>,
)
    requires
        senders.wf(),
        senders.has_room_for(events.len()),
    ensures
        client_after(senders, events).wf(),
        senders.given <= client_after(senders, events).given <= senders.given + events.len(),
        forall|sender: u64|
            sender >= client_after(senders, events).given ==> #[trigger] client_delivers(
                senders,
                events,
                sender,
            ) == Seq::<u8>::empty(),
    decreases events.len(),
{
    if events.len() > 0 {
        law_client_gives_each_stream_its_own_sender(senders, events.drop_last());
    }
    assert forall|sender: u64| sender >= client_after(senders, events).given implies
        #[trigger] client_delivers(senders, events, sender) == Seq::<u8>::empty() by {
        if events.len() > 0 {
            assert(client_delivers(senders, events.drop_last(), sender) == Seq::<u8>::empty());
        }
    }
}

/// Whatever happens to a listener, no two of its open streams share a sender, and a number that has
/// not been given to a sender has had nothing written to it.
pub proof fn law_listener_gives_each_stream_its_own_sender(
    senders: Senders,
    events: Seq<ListenerEvent>,
)
    requires
        senders.wf(),
        senders.has_room_for(events.len()),
    ensures
        listener_after(senders, events).wf(),
        senders.given <= listener_after(senders, events).given <= senders.given + events.len(),
        forall|sender: u64|
            sender >= listener_after(senders, events).given ==> #[trigger] listener_delivers(
                senders,
                events,
                sender,
            ) == Seq::<u8>::empty(),
    decreases events.len(),
{
    if events.len() > 0 {
        law_listener_gives_each_stream_its_own_sender(senders, events.drop_last());
    }
    assert forall|sender: u64| sender >= listener_after(senders, events).given implies
        #[trigger] listener_delivers(senders, events, sender) == Seq::<u8>::empty() by {
        if events.len() > 0 {
            assert(listener_delivers(senders, events.drop_last(), sender) == Seq::<u8>::empty());
        }
    }
}

/// A client keeps its streams apart. From when it opens a stream, whatever happened before, and
/// while the stream is left alone, the stream is open with a sender of its own; and whatever
/// messages come in, the client writes to that sender the bytes that they carry for the stream, in
/// order, and nothing else.
pub proof fn law_client_keeps_streams_apart(
    senders: Senders,
    before: Seq<ClientEvent>,
    stream_id: u32,
    after: Seq<ClientEvent>,
)
    requires
        senders.wf(),
        senders.has_room_for(before.len() + 1 + after.len()),
        forall|i: int| 0 <= i < after.len() ==> client_spares(#[trigger] after[i], stream_id),
    ensures
        ({
            let events = before.push(ClientEvent::Connect(stream_id)) + after;
            let sender = client_after(senders, before).given as u64;
            &&& has_own_sender(client_after(senders, events).streams, stream_id, sender)
            &&& client_delivers(senders, events, sender) == bytes_for(
                client_messages(after),
                stream_id,
            )
        }),
    decreases after.len(),
{
    let opening = before.push(ClientEvent::Connect(stream_id));
    let events = opening + after;
    law_client_gives_each_stream_its_own_sender(senders, before);
    law_client_gives_each_stream_its_own_sender(senders, events.drop_last());
    if after.len() == 0 {
        assert(events.drop_last() =~= before);
        assert(events.last() == ClientEvent::Connect(stream_id));
        assert(client_messages(after) =~= seq![]);
        assert(client_delivers(
            senders,
            before,
            client_after(senders, before).given as u64,
        ) =~= bytes_for(client_messages(after), stream_id));
    } else {
        let rest = after.drop_last();
        assert(events.drop_last() =~= opening + rest);
        assert(events.last() == after[after.len() - 1]);
        assert forall|i: int| 0 <= i < rest.len() implies client_spares(
            #[trigger] rest[i],
            stream_id,
        ) by {
            assert(rest[i] == after[i]);
        }
        law_client_keeps_streams_apart(senders, before, stream_id, rest);
        if let ClientEvent::Message(message) = after.last() {
            assert(client_messages(rest).push(message).drop_last() =~= client_messages(rest));
        }
    }
}

/// A listener keeps its streams apart, and opens one with the first message for it. From that
/// message on, whatever happened before, and while the stream is left alone, the stream is open
/// with a sender of its own; and whatever messages come in, the listener writes to that sender the
/// bytes that they carry for the stream, those of the first one included, in order, and nothing
/// else.
pub proof fn law_listener_keeps_streams_apart(
    senders: Senders,
    before: Seq<ListenerEvent>,
    stream_id: u32,
    first: Seq<u8>,
    after: Seq<ListenerEvent>,
)
    requires
        senders.wf(),
        senders.has_room_for(before.len() + 1 + after.len()),
        !listener_after(senders, before).streams.dom().contains(stream_id),
        names(first, stream_id),
        forall|i: int| 0 <= i < after.len() ==> listener_spares(#[trigger] after[i], stream_id),
    ensures
        ({
            let events = before.push(ListenerEvent::Message(first)) + after;
            let sender = listener_after(senders, before).given as u64;
            &&& has_own_sender(listener_after(senders, events).streams, stream_id, sender)
            &&& listener_delivers(senders, events, sender) == bytes_for(
                seq![first] + listener_messages(after),
                stream_id,
            )
        }),
    decreases after.len(),
{
    let opening = before.push(ListenerEvent::Message(first));
    let events = opening + after;
    law_listener_gives_each_stream_its_own_sender(senders, before);
    law_listener_gives_each_stream_its_own_sender(senders, events.drop_last());
    if after.len() == 0 {
        let heard = seq![first] + listener_messages(after);
        assert(events.drop_last() =~= before);
        assert(heard =~= seq![first]);
        assert(heard.drop_last() =~= seq![]);
        assert(listener_delivers(
            senders,
            before,
            listener_after(senders, before).given as u64,
        ) =~= bytes_for(heard.drop_last(), stream_id));
    } else {
        let rest = after.drop_last();
        let heard = seq![first] + listener_messages(rest);
        assert(events.drop_last() =~= opening + rest);
        assert(events.last() == after[after.len() - 1]);
        assert forall|i: int| 0 <= i < rest.len() implies listener_spares(
            #[trigger] rest[i],
            stream_id,
        ) by {
            assert(rest[i] == after[i]);
        }
        law_listener_keeps_streams_apart(senders, before, stream_id, first, rest);
        if let ListenerEvent::Message(message) = after.last() {
            assert(seq![first] + listener_messages(after) =~= heard.push(message));
            assert(heard.push(message).drop_last() =~= heard);
        }
    }
}

/// A listener that has opened no stream yet, and none of whose streams is shut down meanwhile,
/// opens one stream for each identifier that the messages name, in the order in which they name it
/// first, and no stream twice. Its senders have the numbers from zero on in that order, and it
/// writes to each all the bytes that the messages carry for its stream, in order, and nothing else.
pub proof fn law_listener_opens_each_stream_once(events: Seq<ListenerEvent>)
    requires
        events.len() <= u64::MAX,
        forall|i: int, stream_id: u32|
            0 <= i < events.len() ==> #[trigger] listener_spares(events[i], stream_id),
    ensures
        ({
            let opened = listener_opens(Senders::none(), events);
            let senders = listener_after(Senders::none(), events);
            &&& opened == first_appearances(listener_messages(events))
            &&& opened.no_duplicates()
            &&& senders.given == opened.len()
            &&& forall|stream_id: u32|
                senders.streams.dom().contains(stream_id) <==> #[trigger] opened.contains(stream_id)
            &&& forall|i: int|
                0 <= i < opened.len() ==> {
                    &&& senders.streams[#[trigger] opened[i]] == i
                    &&& listener_delivers(Senders::none(), events, i as u64) == bytes_for(
                        listener_messages(events),
                        opened[i],
                    )
                }
        }),
        forall|stream_id: u32|
            !listener_opens(Senders::none(), events).contains(stream_id) ==> #[trigger] bytes_for(
                listener_messages(events),
                stream_id,
            ) == Seq::<u8>::empty(),
    decreases events.len(),
{
    if events.len() > 0 {
        let before = events.drop_last();
        let was_opened = listener_opens(Senders::none(), before);
        let senders = listener_after(Senders::none(), before);
        let heard = listener_messages(before);
        assert forall|i: int, stream_id: u32| 0 <= i < before.len() implies
            #[trigger] listener_spares(before[i], stream_id) by {
            assert(listener_spares(events[i], stream_id));
        }
        law_listener_opens_each_stream_once(before);
        law_listener_gives_each_stream_its_own_sender(Senders::none(), before);
        match events.last() {
            ListenerEvent::Shutdown { stream_id, .. } => {
                assert(listener_spares(events[events.len() - 1], stream_id));
            },
            ListenerEvent::Message(message) => {
                let opened = listener_opens(Senders::none(), events);
                assert(listener_messages(events) == heard.push(message));
                assert(heard.push(message).drop_last() =~= heard);
                if let Some((stream_id, _)) = unframe(message) {
                    if !was_opened.contains(stream_id) {
                        assert(!senders.streams.dom().contains(stream_id));
                        assert(opened == was_opened.push(stream_id));
                        assert(opened[was_opened.len() as int] == stream_id);
                        assert forall|other: u32| listener_after(
                            Senders::none(),
                            events,
                        ).streams.dom().contains(other) <==> #[trigger] opened.contains(other) by {
                            if was_opened.contains(other) {
                                assert(opened[was_opened.index_of(other)] == other);
                            }
                        }
                    }
                }
                assert forall|stream_id: u32| !opened.contains(stream_id) implies
                    #[trigger] bytes_for(listener_messages(events), stream_id)
                    == Seq::<u8>::empty() by {
                    assert(bytes_for(heard, stream_id) == Seq::<u8>::empty());
                }
                assert forall|i: int| 0 <= i < opened.len() implies listener_delivers(
                    Senders::none(),
                    events,
                    i as u64,
                ) == bytes_for(listener_messages(events), #[trigger] opened[i]) by {
                    let sender = i as u64;
                    if i < was_opened.len() {
                        assert(was_opened[i] == opened[i]);
                        assert(was_opened.contains(opened[i]));
                        assert(listener_delivers(Senders::none(), before, sender) == bytes_for(
                            heard,
                            opened[i],
                        ));
                    } else {
                        assert(listener_delivers(Senders::none(), before, sender)
                            == Seq::<u8>::empty());
                        assert(bytes_for(heard, opened[i]) == Seq::<u8>::empty());
                    }
                }
            },
        }
    }
}

/// A client only ever gives more numbers.
proof fn lemma_client_gives_on(senders: Senders, before: Seq<ClientEvent>, after: Seq<ClientEvent>)
    ensures
        client_after(senders, before).given <= client_after(senders, before + after).given,
    decreases after.len(),
{
    if after.len() == 0 {
        assert(before + after =~= before);
    } else {
        assert((before + after).drop_last() =~= before + after.drop_last());
        lemma_client_gives_on(senders, before, after.drop_last());
    }
}

/// A listener only ever gives more numbers.
proof fn lemma_listener_gives_on(
    senders: Senders,
    before: Seq<ListenerEvent>,
    after: Seq<ListenerEvent>,
)
    ensures
        listener_after(senders, before).given <= listener_after(senders, before + after).given,
    decreases after.len(),
{
    if after.len() == 0 {
        assert(before + after =~= before);
    } else {
        assert((before + after).drop_last() =~= before + after.drop_last());
        lemma_listener_gives_on(senders, before, after.drop_last());
    }
}

/// A client lets go of a stream that was shut down. The stream is no longer open and all others
/// are; its sender is written no more to, whatever happens afterwards; and until the client opens
/// another stream under the identifier, messages for it are for a stream that is not open.
pub proof fn law_client_lets_go_of_a_stream(
    senders: Senders,
    before: Seq<ClientEvent>,
    stream_id: u32,
    after: Seq<ClientEvent>,
)
    requires
        senders.wf(),
        senders.has_room_for(before.len() + 1 + after.len()),
        client_after(senders, before).streams.dom().contains(stream_id),
    ensures
        ({
            let closing = before.push(ClientEvent::Shutdown { stream_id, signal: Ok(()) });
            let opened = client_after(senders, before).streams;
            let sender = opened[stream_id];
            let left = client_after(senders, closing + after).streams;
            &&& client_after(senders, closing).streams == opened.remove(stream_id)
            &&& client_delivers(senders, closing + after, sender) == client_delivers(
                senders,
                before,
                sender,
            )
            &&& forall|other: u32| #[trigger]
                left.dom().contains(other) ==> left[other] != sender
            &&& (forall|i: int|
                0 <= i < after.len() ==> #[trigger] after[i] != ClientEvent::Connect(stream_id))
                ==> !left.dom().contains(stream_id) && forall|message: Seq<u8>| #[trigger]
                names(message, stream_id) ==> route(left, message) is Unknown
        }),
    decreases after.len(),
{
    let closing = before.push(ClientEvent::Shutdown { stream_id, signal: Ok(()) });
    let events = closing + after;
    let sender = client_after(senders, before).streams[stream_id];
    assert(closing.drop_last() =~= before);
    law_client_gives_each_stream_its_own_sender(senders, before);
    if after.len() == 0 {
        assert(events =~= closing);
    } else {
        let rest = after.drop_last();
        assert(events.drop_last() =~= closing + rest);
        assert(events.last() == after[after.len() - 1]);
        lemma_client_gives_on(senders, before, seq![closing.last()] + rest);
        assert(closing + rest =~= before + (seq![closing.last()] + rest));
        law_client_gives_each_stream_its_own_sender(senders, closing + rest);
        law_client_lets_go_of_a_stream(senders, before, stream_id, rest);
        if forall|i: int|
            0 <= i < after.len() ==> #[trigger] after[i] != ClientEvent::Connect(stream_id) {
            assert forall|i: int| 0 <= i < rest.len() implies #[trigger] rest[i]
                != ClientEvent::Connect(stream_id) by {
                assert(rest[i] == after[i]);
            }
        }
    }
}

/// A listener lets go of a stream that was shut down. The stream is no longer open and all others
/// are; and its sender is written no more to, whatever happens afterwards.
pub proof fn law_listener_lets_go_of_a_stream(
    senders: Senders,
    before: Seq<ListenerEvent>,
    stream_id: u32,
    after: Seq<ListenerEvent>,
)
    requires
        senders.wf(),
        senders.has_room_for(before.len() + 1 + after.len()),
        listener_after(senders, before).streams.dom().contains(stream_id),
    ensures
        ({
            let closing = before.push(ListenerEvent::Shutdown { stream_id, signal: Ok(()) });
            let opened = listener_after(senders, before).streams;
            let sender = opened[stream_id];
            let left = listener_after(senders, closing + after).streams;
            &&& listener_after(senders, closing).streams == opened.remove(stream_id)
            &&& listener_delivers(senders, closing + after, sender) == listener_delivers(
                senders,
                before,
                sender,
            )
            &&& forall|other: u32| #[trigger]
                left.dom().contains(other) ==> left[other] != sender
        }),
    decreases after.len(),
{
    let closing = before.push(ListenerEvent::Shutdown { stream_id, signal: Ok(()) });
    let events = closing + after;
    assert(closing.drop_last() =~= before);
    law_listener_gives_each_stream_its_own_sender(senders, before);
    if after.len() == 0 {
        assert(events =~= closing);
    } else {
        let rest = after.drop_last();
        assert(events.drop_last() =~= closing + rest);
        assert(events.last() == after[after.len() - 1]);
        lemma_listener_gives_on(senders, before, seq![closing.last()] + rest);
        assert(closing + rest =~= before + (seq![closing.last()] + rest));
        law_listener_gives_each_stream_its_own_sender(senders, closing + rest);
        law_listener_lets_go_of_a_stream(senders, before, stream_id, rest);
    }
}

/// A listener opens a stream again after it was shut down. The next message for the identifier
/// opens a second stream, with a sender of its own that is not the first one's; the second stream
/// gets the bytes that come in for the identifier from that message on, and the first gets none of
/// them.
pub proof fn law_listener_opens_again_after_a_shutdown(
    senders: Senders,
    before: Seq<ListenerEvent>,
    stream_id: u32,
    first: Seq<u8>,
    after: Seq<ListenerEvent>,
)
    requires
        senders.wf(),
        senders.has_room_for(before.len() + 2 + after.len()),
        listener_after(senders, before).streams.dom().contains(stream_id),
        names(first, stream_id),
        forall|i: int| 0 <= i < after.len() ==> listener_spares(#[trigger] after[i], stream_id),
    ensures
        ({
            let closing = before.push(ListenerEvent::Shutdown { stream_id, signal: Ok(()) });
            let opening = closing.push(ListenerEvent::Message(first));
            let events = opening + after;
            let old_sender = listener_after(senders, before).streams[stream_id];
            let new_sender = listener_after(senders, before).given as u64;
            &&& listener_opens(senders, opening) == listener_opens(senders, before).push(stream_id)
            &&& new_sender != old_sender
            &&& has_own_sender(listener_after(senders, events).streams, stream_id, new_sender)
            &&& listener_delivers(senders, events, new_sender) == bytes_for(
                seq![first] + listener_messages(after),
                stream_id,
            )
            &&& listener_delivers(senders, events, old_sender) == listener_delivers(
                senders,
                before,
                old_sender,
            )
        }),
{
    let closing = before.push(ListenerEvent::Shutdown { stream_id, signal: Ok(()) });
    let opening = closing.push(ListenerEvent::Message(first));
    let again = seq![ListenerEvent::Message(first)] + after;
    assert(closing.drop_last() =~= before);
    assert(opening.drop_last() =~= closing);
    assert(opening + after =~= closing + again);
    assert(listener_opens(senders, closing) == listener_opens(senders, before));
    law_listener_gives_each_stream_its_own_sender(senders, before);
    law_listener_lets_go_of_a_stream(senders, before, stream_id, again);
    law_listener_keeps_streams_apart(senders, closing, stream_id, first, after);
}

/// A client reads what its peer wrote. Where the messages that come in for a stream, from when the
/// client opened it, are those that the peer's calls on it handed over, in order, and whatever is
/// mixed in with them, the client writes to the stream's sender the bytes that those calls took, in
/// order.
pub proof fn law_client_reads_what_was_written(
    senders: Senders,
    before: Seq<ClientEvent>,
    stream_id: u32,
    after: Seq<ClientEvent>,
    writing: bool,
    calls: Seq<Call>,
)
    requires
        senders.wf(),
        senders.has_room_for(before.len() + 1 + after.len()),
        forall|i: int| 0 <= i < after.len() ==> client_spares(#[trigger] after[i], stream_id),
        messages_for(client_messages(after), stream_id) == messages(stream_id, writing, calls),
    ensures
        client_delivers(
            senders,
            before.push(ClientEvent::Connect(stream_id)) + after,
            client_after(senders, before).given as u64,
        ) == bytes_taken(writing, calls),
{
    lemma_only_named_messages_count(client_messages(after), stream_id);
    law_messages_carry_what_was_taken(stream_id, writing, calls);
    law_client_keeps_streams_apart(senders, before, stream_id, after);
}

/// A listener reads what its peer wrote. Where the messages that come in for a stream, from the one
/// that opens it on, are those that the peer's calls on it handed over, in order, and whatever is
/// mixed in with them, the listener writes to the stream's sender the bytes that those calls took,
/// in order.
pub proof fn law_listener_reads_what_was_written(
    senders: Senders,
    before: Seq<ListenerEvent>,
    stream_id: u32,
    first: Seq<u8>,
    after: Seq<ListenerEvent>,
    writing: bool,
    calls: Seq<Call>,
)
    requires
        senders.wf(),
        senders.has_room_for(before.len() + 1 + after.len()),
        !listener_after(senders, before).streams.dom().contains(stream_id),
        names(first, stream_id),
        forall|i: int| 0 <= i < after.len() ==> listener_spares(#[trigger] after[i], stream_id),
        messages_for(seq![first] + listener_messages(after), stream_id) == messages(
            stream_id,
            writing,
            calls,
        ),
    ensures
        listener_delivers(
            senders,
            before.push(ListenerEvent::Message(first)) + after,
            listener_after(senders, before).given as u64,
        ) == bytes_taken(writing, calls),
{
    lemma_only_named_messages_count(seq![first] + listener_messages(after), stream_id);
    law_messages_carry_what_was_taken(stream_id, writing, calls);
    law_listener_keeps_streams_apart(senders, before, stream_id, first, after);
}

/// A listener whose queue is closed hands out the streams that were queued, in order, and after
/// them an error each time, of no particular kind, which says that the listener is closed. That the
/// queue gives its streams in order and then nothing is the queue's part, and is supposed here.
pub proof fn law_closed_listener_drains(
    queued: Seq<RTCDataChannelStream>,
    received: Seq<Option<RTCDataChannelStream>>,
    accepted: Seq<Result<RTCDataChannelStream, IoError>>,
)
    requires
        received.len() == accepted.len(),
        forall|i: int|
            0 <= i < received.len() ==> #[trigger] received[i] == (if i < queued.len() {
                Some(queued[i])
            } else {
                None
            }),
        forall|i: int|
            0 <= i < accepted.len() ==> accept_comes_to(received[i], #[trigger] accepted[i]),
    ensures
        forall|i: int|
            0 <= i < accepted.len() && i < queued.len() ==> #[trigger] accepted[i] == Ok::<
                _,
                IoError,
            >(queued[i]),
        forall|i: int|
            queued.len() <= i < accepted.len() ==> {
                &&& #[trigger] accepted[i] matches Err(error)
                &&& error.kind == IoErrorKind::Other
                &&& error.message@ == "accept called on closed RTCListener"@
            },
{
}

/// A message goes, with the whole of its payload, to the sender of the stream that it names where
/// that is open, and to no sender where it is not.
pub proof fn law_message_goes_to_its_stream(
    streams: Map<u32, u64>,
    stream_id: u32,
    payload: Seq<u8>,
)
    ensures
        streams.dom().contains(stream_id) ==> route(streams, frame(stream_id, payload))
            == Route::Known(streams[stream_id], payload),
        !streams.dom().contains(stream_id) ==> route(streams, frame(stream_id, payload))
            == Route::Unknown(stream_id, payload),
{
    law_unframe_frame(stream_id, payload);
}

/// Messages of fewer than four bytes, and no others, are too short to go anywhere.
pub proof fn law_short_message_goes_nowhere(streams: Map<u32, u64>, message: Seq<u8>)
    ensures
        route(streams, message) is TooShort <==> message.len() < 4,
{
}

/// A peer that has opened no stream has none open.
pub proof fn law_new_peer_has_no_stream_open(stream_id: u32)
    ensures
        !no_streams().dom().contains(stream_id),
        !Senders::none().streams.dom().contains(stream_id),
        Senders::none().given == 0,
{
}

/// Opening a stream gives its sender the next number and leaves the other streams as they are.
pub proof fn law_opening_gives_the_next_number(senders: Senders, stream_id: u32, other: u32)
    requires
        0 <= senders.given <= u64::MAX,
    ensures
        senders.open(stream_id).given == senders.given + 1,
        senders.open(stream_id).streams.dom().contains(stream_id),
        senders.open(stream_id).streams[stream_id] == senders.given,
        other != stream_id ==> {
            &&& senders.open(stream_id).streams.dom().contains(other)
                <==> senders.streams.dom().contains(other)
            &&& senders.streams.dom().contains(other) ==> senders.open(stream_id).streams[other]
                == senders.streams[other]
        },
{
}

/// When the wait for a stream to shut down is over, that stream is open no longer if its signal was
/// given, and every other is as it was. No number is given.
pub proof fn law_signal_closes_its_stream_alone(
    senders: Senders,
    stream_id: u32,
    signal: Result<(), RecvError>,
    other: u32,
)
    ensures
        ({
            let after = senders.after_signal(stream_id, signal);
            &&& after.given == senders.given
            &&& after.streams == streams_after_signal(senders.streams, stream_id, signal)
            &&& after.streams.dom().contains(other) <==> senders.streams.dom().contains(other) && (
            signal is Ok ==> other != stream_id)
            &&& after.streams.dom().contains(other) ==> after.streams[other]
                == senders.streams[other]
        }),
{
}

/// No two open streams share a sender.
pub proof fn law_no_two_streams_share_a_sender(senders: Senders, one: u32, other: u32)
    requires
        senders.wf(),
        senders.streams.dom().contains(one),
        senders.streams.dom().contains(other),
        one != other,
    ensures
        senders.streams[one] != senders.streams[other],
{
}

/// Two streams that a client opens under identifiers from different draws are both open, and each
/// is heard: a message for one goes to its own sender and not to that of the other.
pub proof fn law_streams_of_different_draws_are_both_heard(
    senders: Senders,
    one: DrawnId,
    other: DrawnId,
    payload: Seq<u8>,
)
    requires
        senders.wf(),
        senders.has_room_for(2),
        one != other,
    ensures
        ({
            let opened = senders.open(one.value()).open(other.value()).streams;
            &&& route(opened, frame(one.value(), payload)) == Route::Known(
                senders.given as u64,
                payload,
            )
            &&& route(opened, frame(other.value(), payload)) == Route::Known(
                (senders.given + 1) as u64,
                payload,
            )
        }),
{
    law_different_draws_have_different_numbers(one, other);
    law_message_goes_to_its_stream(
        senders.open(one.value()).open(other.value()).streams,
        one.value(),
        payload,
    );
    law_message_goes_to_its_stream(
        senders.open(one.value()).open(other.value()).streams,
        other.value(),
        payload,
    );
}

/// A message for a stream that a client or a listener has just opened goes to its sender, and
/// messages for other streams go where they went before.
pub proof fn law_open_stream_is_heard(
    streams: Map<u32, u64>,
    stream_id: u32,
    sender: u64,
    named: u32,
    payload: Seq<u8>,
)
    ensures
        route(streams.insert(stream_id, sender), frame(named, payload)) == (if named == stream_id {
            Route::Known(sender, payload)
        } else {
            route(streams, frame(named, payload))
        }),
{
    law_unframe_frame(named, payload);
}

/// A message for a stream that was shut down finds it open no longer, and messages for other
/// streams go where they went before. A stream whose signal was never given stays open.
pub proof fn law_shut_down_stream_is_gone(
    streams: Map<u32, u64>,
    stream_id: u32,
    signal: Result<(), RecvError>,
    named: u32,
    payload: Seq<u8>,
)
    ensures
        route(streams_after_signal(streams, stream_id, signal), frame(named, payload)) == (if named
            == stream_id && signal is Ok {
            Route::Unknown(stream_id, payload)
        } else {
            route(streams, frame(named, payload))
        }),
{
    law_unframe_frame(named, payload);
}

} // verus!
