use std::sync::Arc;

use bytes::Bytes;
use tokio::sync::oneshot::error::RecvError;
use webrtc::data_channel::RTCDataChannel;
use webrtc_http::client::{ClientAction, ClientStreams, RTCClient};
use webrtc_http::frame::{encode, stream_id_from_bytes, stream_id_to_bytes};
use webrtc_http::util::{FlushStep, Progress};

fn client() -> (RTCClient, ClientStreams) {
    RTCClient::new(Arc::new(RTCDataChannel::default()))
}

fn message(stream_id: u32, payload: &[u8]) -> Bytes {
    encode(&stream_id_to_bytes(stream_id), payload)
}

fn delivery(streams: &ClientStreams, stream_id: u32, payload: &[u8]) -> Option<(u64, Vec<u8>)> {
    match streams.on_message(message(stream_id, payload)) {
        ClientAction::Deliver { sender, data } => Some((sender, data.as_ref().to_vec())),
        ClientAction::UnknownStream => None,
        ClientAction::TooShort => panic!("the message names a stream"),
    }
}

fn lost_signal() -> Result<(), RecvError> {
    let (sender, receiver) = tokio::sync::oneshot::channel::<()>();
    drop(sender);
    receiver.blocking_recv()
}

#[test]
fn new_client_has_no_stream() {
    let (_, streams) = client();
    assert_eq!(delivery(&streams, 0, b"x"), None);
    assert_eq!(delivery(&streams, 9, b""), None);
}

#[test]
fn client_drops_short_messages() {
    let (_, streams) = client();
    for len in 0..4 {
        assert!(matches!(
            streams.on_message(Bytes::from(vec![0; len])),
            ClientAction::TooShort
        ));
    }
}

#[test]
fn client_delivers_to_the_sender_of_the_stream() {
    let (client, mut streams) = client();
    let connection = client.connect_as(&mut streams, 0x0102_0304);
    assert_eq!(connection.stream_id, 0x0102_0304);
    assert_eq!(connection.opened.stream.poll_data_channel.stream_id_bytes, [1, 2, 3, 4]);
    assert_eq!(connection.sender, 0);
    assert_eq!(connection.displaced, None);
    assert_eq!(delivery(&streams, 0x0102_0304, b"abc"), Some((0, b"abc".to_vec())));
    assert_eq!(delivery(&streams, 0x0102_0304, b""), Some((0, Vec::new())));
    assert_eq!(delivery(&streams, 0x0102_0305, b"abc"), None);
}

#[test]
fn client_connects_under_the_number_drawn() {
    let (client, mut streams) = client();
    let connection = client.connect(&mut streams);
    let header = connection.opened.stream.poll_data_channel.stream_id_bytes;
    assert_eq!(stream_id_from_bytes(header), connection.stream_id);
    assert_eq!(delivery(&streams, connection.stream_id, b"x"), Some((0, b"x".to_vec())));
}

#[test]
fn client_draws_different_numbers() {
    let (client, mut streams) = client();
    let mut ids: Vec<u32> = (0..8).map(|_| client.connect(&mut streams).stream_id).collect();
    ids.sort();
    ids.dedup();
    assert!(ids.len() > 1);
}

#[test]
fn earlier_stream_gives_way() {
    let (client, mut streams) = client();
    client.connect_as(&mut streams, 3);
    let connection = client.connect_as(&mut streams, 3);
    assert_eq!(connection.sender, 1);
    assert_eq!(connection.displaced, Some(0));
    assert_eq!(delivery(&streams, 3, b"x"), Some((1, b"x".to_vec())));
}

#[test]
fn stream_that_was_shut_down_is_gone() {
    let (client, mut streams) = client();
    let connection = client.connect_as(&mut streams, 3);
    client.connect_as(&mut streams, 4);
    let mut stream = connection.opened.stream;
    assert_eq!(stream.shutdown(), Ok(()));
    let signal = connection.opened.shutdown.blocking_recv();
    assert_eq!(streams.on_shutdown(3, signal), Some(0));
    assert_eq!(delivery(&streams, 3, b"x"), None);
    assert_eq!(delivery(&streams, 4, b"x"), Some((1, b"x".to_vec())));
    assert_eq!(streams.on_shutdown(3, Ok(())), None);
}

#[test]
fn stream_whose_signal_was_lost_stays() {
    let (client, mut streams) = client();
    client.connect_as(&mut streams, 3);
    assert_eq!(streams.on_shutdown(3, lost_signal()), None);
    assert_eq!(delivery(&streams, 3, b"x"), Some((0, b"x".to_vec())));
}

#[test]
fn client_gives_no_number_twice() {
    let (client, mut streams) = client();
    assert_eq!(streams.numbers_given(), 0);
    assert_eq!(client.connect_as(&mut streams, 3).sender, 0);
    assert_eq!(client.connect_as(&mut streams, 4).sender, 1);
    assert_eq!(streams.on_shutdown(3, Ok(())), Some(0));
    assert_eq!(streams.numbers_given(), 2);
    assert_eq!(client.connect_as(&mut streams, 3).sender, 2);
    assert_eq!(client.connect_as(&mut streams, 4).sender, 3);
    assert_eq!(streams.numbers_given(), 4);
    assert_eq!(delivery(&streams, 3, b"x"), Some((2, b"x".to_vec())));
    assert_eq!(delivery(&streams, 4, b"x"), Some((3, b"x".to_vec())));
}

#[test]
fn client_lets_go_of_a_stream_until_it_connects_again() {
    let (client, mut streams) = client();
    let connection = client.connect_as(&mut streams, 3);
    client.connect_as(&mut streams, 4);
    let mut stream = connection.opened.stream;
    assert!(matches!(stream.poll_shutdown(), FlushStep::Return(Progress::Ready(Ok(())))));
    let signal = connection.opened.shutdown.blocking_recv();
    assert_eq!(streams.on_shutdown(3, signal), Some(0));
    assert_eq!(delivery(&streams, 3, b"x"), None);
    assert_eq!(delivery(&streams, 4, b"x"), Some((1, b"x".to_vec())));
    client.connect_as(&mut streams, 5);
    assert_eq!(delivery(&streams, 3, b"x"), None);
    client.connect_as(&mut streams, 3);
    assert_eq!(delivery(&streams, 3, b"x"), Some((3, b"x".to_vec())));
}
