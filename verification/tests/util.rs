use std::sync::Arc;

use tokio::io::{AsyncReadExt, AsyncWriteExt};
use webrtc::data_channel::RTCDataChannel;
use webrtc_http::util::{
    payload_len, send_polled, FlushStep, IoError, IoErrorKind, OpenStream, PollRTCDataChannel,
    Progress, RTCDataChannelStream, SendProgress, WriteProgress, WriteStep, DEFAULT_READ_BUF_SIZE,
};

fn data_channel() -> Arc<RTCDataChannel> {
    Arc::new(RTCDataChannel::default())
}

fn channel(stream_id: u32) -> PollRTCDataChannel {
    PollRTCDataChannel::new(stream_id, data_channel())
}

fn failed(message: &str) -> SendProgress {
    Progress::Ready(Err(message.to_string()))
}

fn write_error(message: &str) -> WriteProgress {
    Progress::Ready(Err(IoError::other(message.to_string())))
}

/// Starts a write on an idle channel and returns the message.
fn start(channel: &mut PollRTCDataChannel, buf: &[u8]) -> Vec<u8> {
    match channel.poll_write(buf) {
        WriteStep::Send(message) => message.as_ref().to_vec(),
        _ => panic!("expected a message to send"),
    }
}

/// A channel with a message on its way.
fn busy(stream_id: u32) -> PollRTCDataChannel {
    let mut channel = channel(stream_id);
    start(&mut channel, b"first");
    assert_eq!(channel.write_sent(b"first", Progress::Pending), Progress::Ready(Ok(5)));
    channel
}

#[test]
fn new_channel_is_idle() {
    let shared = data_channel();
    let channel = PollRTCDataChannel::new(0x0a0b_0c0d, shared.clone());
    assert_eq!(channel.stream_id_bytes, [10, 11, 12, 13]);
    assert!(!channel.writing);
    assert!(Arc::ptr_eq(&channel.data_channel, &shared));
}

#[test]
fn error_of_no_particular_kind() {
    let error = IoError::other("why".to_string());
    assert_eq!(error.kind, IoErrorKind::Other);
    assert_eq!(error.message, "why");
}

#[test]
fn payload_len_leaves_the_header_out() {
    assert_eq!(payload_len(4), 0);
    assert_eq!(payload_len(9), 5);
}

#[test]
fn header_does_not_count_as_sent() {
    assert_eq!(send_polled(Progress::Ready(Ok(4))), Progress::Ready(Ok(0)));
    assert_eq!(send_polled(Progress::Ready(Ok(11))), Progress::Ready(Ok(7)));
    assert_eq!(send_polled(failed("lost")), failed("lost"));
    assert_eq!(send_polled(Progress::Pending), Progress::Pending);
}

#[test]
fn empty_write_is_over_at_once() {
    let mut idle = channel(1);
    assert!(matches!(idle.poll_write(b""), WriteStep::Return(Progress::Ready(Ok(0)))));
    assert!(!idle.writing);
    let mut busy = busy(1);
    assert!(matches!(busy.poll_write(b""), WriteStep::Return(Progress::Ready(Ok(0)))));
    assert!(busy.writing);
}

#[test]
fn write_on_an_idle_channel_sends_a_message() {
    let mut channel = channel(0x0102_0304);
    assert_eq!(start(&mut channel, b"ab"), vec![1, 2, 3, 4, b'a', b'b']);
    assert!(channel.writing);
}

#[test]
fn write_that_is_on_its_way_counts_as_written() {
    let mut channel = channel(1);
    start(&mut channel, b"abc");
    assert_eq!(channel.write_sent(b"abc", Progress::Pending), Progress::Ready(Ok(3)));
    assert!(channel.writing);
}

#[test]
fn write_that_left_at_once_reports_what_was_sent() {
    let mut channel = channel(1);
    start(&mut channel, b"abc");
    assert_eq!(channel.write_sent(b"abc", Progress::Ready(Ok(2))), Progress::Ready(Ok(2)));
    assert!(!channel.writing);
}

#[test]
fn write_that_failed_at_once_reports_the_error() {
    let mut channel = channel(1);
    start(&mut channel, b"abc");
    assert_eq!(channel.write_sent(b"abc", failed("closed pipe")), write_error("closed pipe"));
    assert!(!channel.writing);
}

#[test]
fn write_waits_for_an_earlier_message() {
    let mut channel = busy(1);
    assert!(matches!(channel.poll_write(b"second"), WriteStep::Poll));
    let (result, message) = channel.write_polled(b"second", Progress::Pending);
    assert_eq!(result, Progress::Pending);
    assert!(message.is_none());
    assert!(channel.writing);
}

#[test]
fn write_follows_an_earlier_message_that_left() {
    let mut channel = busy(7);
    assert!(matches!(channel.poll_write(b"second"), WriteStep::Poll));
    let (result, message) = channel.write_polled(b"second", Progress::Ready(Ok(5)));
    assert_eq!(result, Progress::Ready(Ok(6)));
    assert_eq!(message.unwrap().as_ref(), b"\0\0\0\x07second");
    assert!(channel.writing);
}

#[test]
fn write_reports_the_failure_of_an_earlier_message_and_is_sent() {
    let mut channel = busy(7);
    assert!(matches!(channel.poll_write(b"second"), WriteStep::Poll));
    let (result, message) = channel.write_polled(b"second", failed("lost"));
    assert_eq!(result, write_error("lost"));
    assert_eq!(message.unwrap().as_ref(), b"\0\0\0\x07second");
    assert!(channel.writing);
}

#[test]
fn flush_without_a_message_is_over_at_once() {
    let channel = channel(1);
    assert!(matches!(channel.poll_flush(), FlushStep::Return(Progress::Ready(Ok(())))));
}

#[test]
fn flush_waits_for_the_message() {
    let mut channel = busy(1);
    assert!(matches!(channel.poll_flush(), FlushStep::Poll));
    assert_eq!(channel.flush_polled(Progress::Pending), Progress::Pending);
    assert!(channel.writing);
    assert_eq!(channel.flush_polled(Progress::Ready(Ok(5))), Progress::Ready(Ok(())));
    assert!(!channel.writing);
}

#[test]
fn flush_reports_the_failure_of_the_message() {
    let mut channel = busy(1);
    assert_eq!(
        channel.flush_polled(failed("lost")),
        Progress::Ready(Err(IoError { kind: IoErrorKind::Other, message: "lost".to_string() }))
    );
    assert!(!channel.writing);
}

#[test]
fn channel_shutdown_flushes_and_never_fails() {
    let idle = channel(1);
    assert!(matches!(idle.poll_shutdown(), FlushStep::Return(Progress::Ready(Ok(())))));
    let mut busy = busy(1);
    assert!(matches!(busy.poll_shutdown(), FlushStep::Poll));
    assert_eq!(busy.shutdown_polled(Progress::Pending), Progress::Pending);
    assert!(busy.writing);
    assert_eq!(busy.shutdown_polled(failed("lost")), Progress::Ready(Ok(())));
    assert!(!busy.writing);
}

#[test]
fn shutdown_signal_is_given_once() {
    let (signal, mut waiting) = tokio::sync::oneshot::channel();
    let (reader, _writer) = tokio::io::simplex(1);
    let mut stream = RTCDataChannelStream::new(channel(1), reader, signal);
    assert!(waiting.try_recv().is_err());
    assert_eq!(stream.shutdown(), Ok(()));
    assert_eq!(waiting.try_recv(), Ok(()));
    assert_eq!(stream.shutdown(), Err(()));
    assert_eq!(stream.shutdown(), Err(()));
}

#[test]
fn shutdown_signal_fails_where_nobody_waits() {
    let opened = OpenStream::new(1, data_channel());
    drop(opened.shutdown);
    let mut stream = opened.stream;
    assert_eq!(stream.shutdown(), Err(()));
}

#[test]
fn shutdown_result_is_that_of_sending() {
    assert_eq!(RTCDataChannelStream::shutdown_result(Some(Ok(()))), Ok(()));
    assert_eq!(RTCDataChannelStream::shutdown_result(Some(Err(()))), Err(()));
    assert_eq!(RTCDataChannelStream::shutdown_result(None), Err(()));
}

#[test]
fn stream_shutdown_gives_the_signal() {
    let opened = OpenStream::new(1, data_channel());
    let (mut stream, mut waiting) = (opened.stream, opened.shutdown);
    assert!(matches!(stream.poll_shutdown(), FlushStep::Return(Progress::Ready(Ok(())))));
    assert_eq!(waiting.try_recv(), Ok(()));
    // It can be shut down again, to no effect.
    assert!(matches!(stream.poll_shutdown(), FlushStep::Return(Progress::Ready(Ok(())))));
}

#[test]
fn stream_shutdown_waits_for_the_message() {
    let opened = OpenStream::new(1, data_channel());
    let (mut stream, mut waiting) = (opened.stream, opened.shutdown);
    start(&mut stream.poll_data_channel, b"x");
    stream.poll_data_channel.write_sent(b"x", Progress::Pending);
    assert!(matches!(stream.poll_shutdown(), FlushStep::Poll));
    assert_eq!(stream.shutdown_polled(Progress::Pending), Progress::Pending);
    assert!(stream.shutdown.is_some());
    assert!(waiting.try_recv().is_err());
    assert_eq!(stream.shutdown_polled(failed("lost")), Progress::Ready(Ok(())));
    assert!(stream.shutdown.is_none());
    assert!(!stream.poll_data_channel.writing);
    assert_eq!(waiting.try_recv(), Ok(()));
}

#[test]
fn open_stream_reads_what_goes_into_its_sender() {
    let opened = OpenStream::new(0x0102_0304, data_channel());
    let (mut stream, mut sender) = (opened.stream, opened.sender);
    assert_eq!(stream.poll_data_channel.stream_id_bytes, [1, 2, 3, 4]);
    assert!(stream.receiver.is_pair_of(&sender));
    let runtime = tokio::runtime::Builder::new_current_thread().build().unwrap();
    runtime.block_on(async move {
        sender.write_all(b"hello").await.unwrap();
        let mut buf = [0u8; 5];
        stream.receiver.read_exact(&mut buf).await.unwrap();
        assert_eq!(&buf, b"hello");
    });
}

#[test]
fn pipe_of_a_stream_is_bounded() {
    let opened = OpenStream::new(1, data_channel());
    let mut sender = opened.sender;
    let runtime = tokio::runtime::Builder::new_current_thread().build().unwrap();
    let written = runtime.block_on(async move { sender.write(&[0u8; 10000]).await.unwrap() });
    assert_eq!(DEFAULT_READ_BUF_SIZE, 8192);
    assert_eq!(written, DEFAULT_READ_BUF_SIZE);
}
