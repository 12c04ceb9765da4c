//! The wire format: a message is the identifier of a stream, four bytes in network order, and
//! then the bytes that the stream carries.

use bytes::Bytes;
use vstd::prelude::*;

use crate::buffer::{bytes_as_ref, bytes_contents, bytes_from_owner};

verus! {

/// How many bytes of a message name its stream.
pub const HEADER_LEN: usize = 4;

/// The four bytes that stand for `stream_id`, most significant first.
pub open spec fn id_bytes(stream_id: u32) -> Seq<u8> {
    seq![
        (stream_id / 0x100_0000) as u8,
        ((stream_id / 0x1_0000) % 0x100) as u8,
        ((stream_id / 0x100) % 0x100) as u8,
        (stream_id % 0x100) as u8,
    ]
}

/// The number that four bytes stand for, most significant first.
pub open spec fn id_value(header: Seq<u8>) -> u32 {
    (header[0] * 0x100_0000 + header[1] * 0x1_0000 + header[2] * 0x100 + header[3]) as u32
}

/// The message that carries `payload` for the stream `stream_id`.
pub open spec fn frame(stream_id: u32, payload: Seq<u8>) -> Seq<u8> {
    id_bytes(stream_id) + payload
}

/// What a message says: the stream that it names and the payload for it. A message too short to
/// name a stream says nothing.
pub open spec fn unframe(message: Seq<u8>) -> Option<(u32, Seq<u8>)> {
    if message.len() < HEADER_LEN {
        None
    } else {
        Some((id_value(message.take(HEADER_LEN as int)), message.skip(HEADER_LEN as int)))
    }
}

/// A stream identifier is read back from the bytes that stand for it.
pub proof fn lemma_id_read_back(stream_id: u32)
    ensures
        id_bytes(stream_id).len() == HEADER_LEN,
        id_value(id_bytes(stream_id)) == stream_id,
{
}

/// Any four bytes are the ones that stand for the identifier read from them.
pub proof fn lemma_header_read_back(header: Seq<u8>)
    requires
        header.len() == HEADER_LEN,
    ensures
        id_bytes(id_value(header)) == header,
{
    let (a, b, c, d) = (header[0] as int, header[1] as int, header[2] as int, header[3] as int);
    let id = a * 0x100_0000 + b * 0x1_0000 + c * 0x100 + d;
    assert(id_value(header) == id);
    // Drop one byte off the low end at a time.
    let top = a * 0x1_0000 + b * 0x100 + c;
    assert(id == top * 0x100 + d);
    assert(id / 0x100 == top && id % 0x100 == d);
    assert(top == (a * 0x100 + b) * 0x100 + c);
    assert(top / 0x100 == a * 0x100 + b && top % 0x100 == c);
    assert((a * 0x100 + b) / 0x100 == a && (a * 0x100 + b) % 0x100 == b);
    assert(id / 0x1_0000 == top / 0x100);
    assert(id / 0x100_0000 == (a * 0x100 + b) / 0x100);
    assert(id_bytes(id as u32) =~= header);
}

/// The bytes of a stream identifier in network order.
pub fn stream_id_to_bytes(stream_id: u32) -> (header: [u8; 4])
    ensures
        header@ == id_bytes(stream_id),
{
    [
        (stream_id / 0x100_0000) as u8,
        ((stream_id / 0x1_0000) % 0x100) as u8,
        ((stream_id / 0x100) % 0x100) as u8,
        (stream_id % 0x100) as u8,
    ]
}

/// The stream identifier that four bytes in network order stand for.
pub fn stream_id_from_bytes(header: [u8; 4]) -> (stream_id: u32)
    ensures
        stream_id == id_value(header@),
{
    header[0] as u32 * 0x100_0000 + header[1] as u32 * 0x1_0000 + header[2] as u32 * 0x100
        + header[3] as u32
}

/// Puts `payload` behind a header.
pub fn encode(header: &[u8; 4], payload: &[u8]) -> (message: Bytes)
    ensures
        bytes_contents(message) == header@ + payload@,
{
    let mut message: Vec<u8> = Vec::new();
    message.extend_from_slice(header);
    message.extend_from_slice(payload);
    assert(message@ =~= header@ + payload@);
    bytes_from_owner(message)
}

/// Takes a message apart: the stream that it names and the payload that follows the header.
/// `None` where the message is too short to hold a header.
pub fn decode(message: Bytes) -> (parts: Option<(u32, Bytes)>)
    ensures
        parts is None <==> bytes_contents(message).len() < HEADER_LEN,
        parts matches Some((stream_id, payload)) ==> unframe(bytes_contents(message)) == Some(
            (stream_id, bytes_contents(payload)),
        ),
{
    if message.len() < HEADER_LEN {
        return None;
    }
    let mut payload = message;
    let head = payload.split_to(HEADER_LEN);
    let bytes = bytes_as_ref(&head);
    let header: [u8; 4] = [bytes[0], bytes[1], bytes[2], bytes[3]];
    assert(header@ =~= bytes_contents(head));
    Some((stream_id_from_bytes(header), payload))
}

/// The header of a message is four bytes, and they are the digits of the identifier to the base of
/// 256, the most significant first.
pub proof fn law_header_is_in_network_order(stream_id: u32)
    ensures
        id_bytes(stream_id).len() == 4,
        stream_id == id_bytes(stream_id)[0] * 0x100_0000 + id_bytes(stream_id)[1] * 0x1_0000
            + id_bytes(stream_id)[2] * 0x100 + id_bytes(stream_id)[3],
{
    lemma_id_read_back(stream_id);
}

/// A message is its header with the payload behind it, byte for byte.
pub proof fn law_payload_follows_the_header(stream_id: u32, payload: Seq<u8>)
    ensures
        frame(stream_id, payload).len() == 4 + payload.len(),
        forall|i: int| 0 <= i < 4 ==> #[trigger] frame(stream_id, payload)[i] == id_bytes(
            stream_id,
        )[i],
        forall|i: int|
            0 <= i < payload.len() ==> #[trigger] payload[i] == frame(stream_id, payload)[4 + i],
{
}

/// Messages of fewer than four bytes, and no others, name no stream.
pub proof fn law_only_short_messages_name_no_stream(message: Seq<u8>)
    ensures
        unframe(message) is None <==> message.len() < 4,
{
}

/// A message gives back the stream and the payload that it was made of.
pub proof fn law_unframe_frame(stream_id: u32, payload: Seq<u8>)
    ensures
        unframe(frame(stream_id, payload)) == Some((stream_id, payload)),
{
    lemma_id_read_back(stream_id);
    assert(frame(stream_id, payload).take(HEADER_LEN as int) =~= id_bytes(stream_id));
    assert(frame(stream_id, payload).skip(HEADER_LEN as int) =~= payload);
}

/// A message that names a stream is the only one that says what it says.
pub proof fn law_frame_unframe(message: Seq<u8>)
    requires
        message.len() >= HEADER_LEN,
    ensures
        unframe(message) matches Some((stream_id, payload)) && frame(stream_id, payload)
            == message,
{
    let header = message.take(HEADER_LEN as int);
    lemma_header_read_back(header);
    assert(header + message.skip(HEADER_LEN as int) =~= message);
}

} // verus!
