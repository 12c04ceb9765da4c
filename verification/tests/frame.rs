use bytes::Bytes;
use webrtc_http::frame::{
    decode, encode, stream_id_from_bytes, stream_id_to_bytes, HEADER_LEN,
};

#[test]
fn stream_id_is_in_network_order() {
    assert_eq!(stream_id_to_bytes(0x0102_0304), [1, 2, 3, 4]);
    assert_eq!(stream_id_to_bytes(0), [0, 0, 0, 0]);
    assert_eq!(stream_id_to_bytes(u32::MAX), [255, 255, 255, 255]);
    assert_eq!(stream_id_from_bytes([1, 2, 3, 4]), 0x0102_0304);
    assert_eq!(stream_id_from_bytes([0xfe, 0xdc, 0xba, 0x98]), 0xfedc_ba98);
}

#[test]
fn stream_id_agrees_with_the_standard_library() {
    for id in [0u32, 1, 255, 256, 65535, 65536, 0x00ff_00ff, 0x8000_0000, u32::MAX] {
        assert_eq!(stream_id_to_bytes(id), id.to_be_bytes());
        assert_eq!(stream_id_from_bytes(id.to_be_bytes()), id);
    }
}

#[test]
fn encode_puts_the_payload_behind_the_header() {
    let message = encode(&[9, 8, 7, 6], b"hello");
    assert_eq!(message.as_ref(), &[9, 8, 7, 6, b'h', b'e', b'l', b'l', b'o']);
    assert_eq!(encode(&[9, 8, 7, 6], b"").as_ref(), &[9, 8, 7, 6]);
}

#[test]
fn decode_takes_the_header_off() {
    let (stream_id, payload) = decode(Bytes::from(vec![0, 0, 1, 2, 42, 43])).unwrap();
    assert_eq!(stream_id, 258);
    assert_eq!(payload.as_ref(), &[42, 43]);
}

#[test]
fn decode_of_a_bare_header_has_no_payload() {
    let (stream_id, payload) = decode(Bytes::from(vec![0, 0, 0, 7])).unwrap();
    assert_eq!(stream_id, 7);
    assert_eq!(payload.len(), 0);
}

#[test]
fn decode_rejects_what_is_shorter_than_a_header() {
    for len in 0..HEADER_LEN {
        assert!(decode(Bytes::from(vec![1; len])).is_none());
    }
}

#[test]
fn what_is_encoded_is_decoded_again() {
    for id in [0u32, 77, 0x7fff_ffff, u32::MAX] {
        for payload in [&b""[..], &b"x"[..], &b"some longer payload"[..]] {
            let message = encode(&stream_id_to_bytes(id), payload);
            assert_eq!(message.len(), HEADER_LEN + payload.len());
            let (decoded, rest) = decode(message).unwrap();
            assert_eq!(decoded, id);
            assert_eq!(rest.as_ref(), payload);
        }
    }
}

#[test]
fn what_is_decoded_is_encoded_again() {
    let message = vec![200, 100, 50, 25, 1, 2, 3];
    let (stream_id, payload) = decode(Bytes::from(message.clone())).unwrap();
    let again = encode(&stream_id_to_bytes(stream_id), payload.as_ref());
    assert_eq!(again.as_ref(), &message[..]);
}
