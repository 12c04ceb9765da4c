use std::sync::Arc;

use bytes::Bytes;
use webrtc::data_channel::RTCDataChannel;
use webrtc_http::frame::{encode, stream_id_to_bytes};
use webrtc_http::server::{
    AcceptStep, ListenerAction, ListenerStreams, RTCListener, ACCEPT_QUEUE_LEN, ACCEPT_RETRY_SECS,
};
use webrtc_http::util::{IoError, IoErrorKind};

fn listener() -> (RTCListener, ListenerStreams) {
    RTCListener::new(Arc::new(RTCDataChannel::default()))
}

fn message(stream_id: u32, payload: &[u8]) -> Bytes {
    encode(&stream_id_to_bytes(stream_id), payload)
}

fn opens(streams: &ListenerStreams, stream_id: u32, payload: &[u8]) -> bool {
    match streams.on_message(message(stream_id, payload)) {
        ListenerAction::Open { stream_id: named, data } => {
            named == stream_id && data.as_ref() == payload
        }
        _ => false,
    }
}

fn delivers(streams: &ListenerStreams, stream_id: u32, payload: &[u8], to: u64) -> bool {
    match streams.on_message(message(stream_id, payload)) {
        ListenerAction::Deliver { sender, data } => sender == to && data.as_ref() == payload,
        _ => false,
    }
}

#[test]
fn listener_drops_short_messages() {
    let (_, streams) = listener();
    for len in 0..4 {
        assert!(matches!(
            streams.on_message(Bytes::from(vec![0; len])),
            ListenerAction::TooShort
        ));
    }
}

#[test]
fn listener_opens_a_stream_once() {
    let (_, mut streams) = listener();
    assert!(opens(&streams, 0x0102_0304, b"first"));
    let opened = streams.open(0x0102_0304);
    assert_eq!(opened.stream.poll_data_channel.stream_id_bytes, [1, 2, 3, 4]);
    assert!(opened.stream.receiver.is_pair_of(&opened.sender));
    // Not open before it is registered.
    assert!(opens(&streams, 0x0102_0304, b"first"));
    assert_eq!(streams.register(0x0102_0304), 0);
    assert!(delivers(&streams, 0x0102_0304, b"second", 0));
    assert!(delivers(&streams, 0x0102_0304, b"", 0));
    assert!(opens(&streams, 0x0102_0305, b"other"));
}

#[test]
fn data_of_the_message_that_opens_a_stream_goes_to_it() {
    let (_, mut streams) = listener();
    assert_eq!(streams.register(4), 0);
    let (stream_id, data) = match streams.on_message(message(9, b"first")) {
        ListenerAction::Open { stream_id, data } => (stream_id, data),
        _ => panic!("the stream is not open"),
    };
    match streams.offered(stream_id, data) {
        ListenerAction::Deliver { sender, data } => {
            assert_eq!(sender, 1);
            assert_eq!(data.as_ref(), b"first");
        }
        _ => panic!("the stream is open"),
    }
    assert!(delivers(&streams, 9, b"second", 1));
    // One that is open already stays.
    match streams.offered(4, Bytes::from_static(b"more")) {
        ListenerAction::Deliver { sender, data } => {
            assert_eq!(sender, 0);
            assert_eq!(data.as_ref(), b"more");
        }
        _ => panic!("the stream is open"),
    }
    assert_eq!(streams.numbers_given(), 2);
}

#[test]
fn registered_stream_stays() {
    let (_, mut streams) = listener();
    assert_eq!(streams.register(1), 0);
    assert_eq!(streams.register(1), 0);
    assert_eq!(streams.numbers_given(), 1);
    assert!(delivers(&streams, 1, b"x", 0));
}

#[test]
fn listener_opens_a_stream_again_after_it_was_shut_down() {
    let (_, mut streams) = listener();
    let opened = streams.open(1);
    assert_eq!(streams.register(1), 0);
    assert_eq!(streams.register(2), 1);
    let mut stream = opened.stream;
    assert_eq!(stream.shutdown(), Ok(()));
    assert_eq!(streams.on_shutdown(1, opened.shutdown.blocking_recv()), Some(0));
    assert!(opens(&streams, 1, b"again"));
    assert!(delivers(&streams, 2, b"x", 1));
    assert_eq!(streams.register(1), 2);
    assert!(delivers(&streams, 1, b"x", 2));
}

#[test]
fn listener_keeps_a_stream_whose_signal_was_lost() {
    let (_, mut streams) = listener();
    let opened = streams.open(1);
    streams.register(1);
    drop(opened.stream);
    assert_eq!(streams.on_shutdown(1, opened.shutdown.blocking_recv()), None);
    assert!(delivers(&streams, 1, b"x", 0));
}

#[test]
fn streams_are_accepted_in_the_order_they_were_offered() {
    let (mut listener, streams) = listener();
    assert_eq!(ACCEPT_QUEUE_LEN, 1024);
    assert_eq!(streams.stream_sender().max_capacity(), ACCEPT_QUEUE_LEN);
    for id in 1..4 {
        assert!(streams.stream_sender().try_send(streams.open(id).stream).is_ok());
    }
    for id in 1..4 {
        let accepted = RTCListener::accept(listener.receiver.try_recv().ok());
        let header = accepted.ok().unwrap().poll_data_channel.stream_id_bytes;
        assert_eq!(header, stream_id_to_bytes(id));
    }
}

#[test]
fn accept_fails_on_a_closed_listener() {
    match RTCListener::accept(None) {
        Ok(_) => panic!("nothing was received"),
        Err(e) => {
            assert_eq!(e.kind, IoErrorKind::Other);
            assert_eq!(e.message, "accept called on closed RTCListener");
        }
    }
}

#[test]
fn closed_listener_takes_no_more_streams() {
    let (mut listener, streams) = listener();
    assert!(streams.stream_sender().try_send(streams.open(1).stream).is_ok());
    listener.close();
    assert!(streams.stream_sender().is_closed());
    assert!(streams.stream_sender().try_send(streams.open(2).stream).is_err());
    // What was offered before can still be accepted.
    assert!(RTCListener::accept(listener.receiver.blocking_recv()).is_ok());
    assert!(RTCListener::accept(listener.receiver.blocking_recv()).is_err());
}

#[test]
fn closed_listener_hands_out_what_was_queued_and_then_fails() {
    let (mut listener, streams) = listener();
    for id in [5, 3, 9] {
        assert!(streams.stream_sender().try_send(streams.open(id).stream).is_ok());
    }
    listener.close();
    for id in [5, 3, 9] {
        match RTCListener::accept(listener.receiver.blocking_recv()) {
            Ok(stream) => {
                assert_eq!(stream.poll_data_channel.stream_id_bytes, stream_id_to_bytes(id))
            }
            Err(_) => panic!("a stream was queued"),
        }
    }
    for _ in 0..3 {
        match RTCListener::accept(listener.receiver.blocking_recv()) {
            Ok(_) => panic!("no stream was queued"),
            Err(e) => {
                let message = "accept called on closed RTCListener".to_string();
                assert_eq!(e, IoError { kind: IoErrorKind::Other, message });
            }
        }
    }
}

#[test]
fn server_serves_what_it_accepts() {
    let (_, streams) = listener();
    match RTCListener::accept_step(Ok(streams.open(9).stream)) {
        AcceptStep::Serve(stream) => {
            assert_eq!(stream.poll_data_channel.stream_id_bytes, [0, 0, 0, 9])
        }
        AcceptStep::Retry { .. } => panic!("a stream was accepted"),
    }
}

#[test]
fn server_accepts_again_after_a_second() {
    let error = IoError::other("closed".to_string());
    match RTCListener::accept_step(Err(error)) {
        AcceptStep::Serve(_) => panic!("no stream was accepted"),
        AcceptStep::Retry { after_secs, error } => {
            assert_eq!(ACCEPT_RETRY_SECS, 1);
            assert_eq!(after_secs, 1);
            assert_eq!(error.message, "closed");
        }
    }
}
