//! The probe request and its reply, and their byte framing.
use crate::wire::{
    be_u16_bytes, be_u16_value, be_u64_bytes, be_u64_value, lemma_be_u16_round_trip,
    lemma_be_u64_round_trip, push_be_u64, read_be_u16, read_be_u64,
};
use vstd::prelude::*;
use vstd::slice::{slice_subrange, slice_to_vec};
use vstd::utf8::{decode_utf8, encode_utf8, valid_utf8};

verus! {

/// The marker that both the request and the reply carry.
pub const MAGIC_BYTES: [u8; 16] = [
    0x00, 0xff, 0xff, 0x00, 0xfe, 0xfe, 0xfe, 0xfe, 0xfd, 0xfd, 0xfd, 0xfd, 0x12, 0x34, 0x56, 0x78,
];

/// The message-type tag of a probe request.
pub const OFFLINE_PING: u8 = 0x01;

/// Length of an encoded request: tag, timestamp, marker, identifier.
pub const PING_LEN: usize = 33;

/// Length of the fixed part of a reply: tag, timestamp, server id, marker,
/// status-text length.
pub const PONG_HEADER_LEN: usize = 35;

/// The bytes of the marker.
pub open spec fn magic_token() -> Seq<u8> {
    seq![
        0x00u8, 0xffu8, 0xffu8, 0x00u8, 0xfeu8, 0xfeu8, 0xfeu8, 0xfeu8,
        0xfdu8, 0xfdu8, 0xfdu8, 0xfdu8, 0x12u8, 0x34u8, 0x56u8, 0x78u8,
    ]
}

/// The bytes of a probe request.
pub open spec fn ping_frame(start_time: u64, client_id: u64) -> Seq<u8> {
    seq![OFFLINE_PING] + be_u64_bytes(start_time) + magic_token() + be_u64_bytes(client_id)
}

/// The status-text length that a reply declares.
pub open spec fn declared_text_len(b: Seq<u8>) -> int {
    be_u16_value(b.subrange(33, 35)) as int
}

/// The status-text bytes of a reply: as many of the declared bytes as the
/// buffer holds after the fixed part.
pub open spec fn status_payload(b: Seq<u8>) -> Seq<u8> {
    if 35 + declared_text_len(b) <= b.len() {
        b.subrange(35, 35 + declared_text_len(b))
    } else {
        b.subrange(35, b.len() as int)
    }
}

/// What a reply buffer decodes to: its timestamp, its server id and its
/// status text; nothing when the fixed part is incomplete or the status text
/// is not UTF-8. The tag and the marker are not examined.
pub open spec fn decode_reply(b: Seq<u8>) -> Option<(u64, u64, Seq<char>)> {
    if b.len() < 35 || !valid_utf8(status_payload(b)) {
        None
    } else {
        Some((be_u64_value(b.subrange(1, 9)), be_u64_value(b.subrange(9, 17)), decode_utf8(status_payload(b))))
    }
}

/// A reply laid out field by field, its status-text length taken from `text`.
pub open spec fn pong_frame(tag: u8, response_time: u64, server_id: u64, magic: Seq<u8>, text: Seq<u8>) -> Seq<u8> {
    seq![tag] + be_u64_bytes(response_time) + be_u64_bytes(server_id) + magic + be_u16_bytes(text.len() as u16) + text
}

/// A probe request.
pub struct OfflinePingPacket {
    pub start_time: u64,
    pub client_id: u64,
}

/// A decoded reply.
pub struct OfflinePongPacket {
    pub response_time: u64,
    pub server_id: u64,
    pub motd: String,
}

impl View for OfflinePongPacket {
    type V = (u64, u64, Seq<char>);

    open spec fn view(&self) -> (u64, u64, Seq<char>) {
        (self.response_time, self.server_id, self.motd@)
    }
}

/// Relies on std's `String::from_utf8`: it succeeds exactly when the bytes are
/// valid UTF-8, and the string then holds the characters they encode.
#[verifier::external_body]
fn utf8_to_string(bytes: Vec<u8>) -> (r: Option<String>)
    ensures
        r is Some <==> valid_utf8(bytes@),
        r matches Some(s) ==> s@ == decode_utf8(bytes@),
{
    String::from_utf8(bytes).ok()
}

impl OfflinePongPacket {
    /// Decodes a reply. Fails when the buffer is shorter than the fixed part
    /// or the status text is not UTF-8; a status text cut short by the end of
    /// the buffer is kept as far as it goes.
    pub fn decode(buffer: Vec<u8>) -> (r: Option<Self>)
        ensures
            match r {
                Some(p) => decode_reply(buffer@) == Some(p@),
                None => decode_reply(buffer@) is None,
            },
    {
        if buffer.len() < PONG_HEADER_LEN {
            return None;
        }
        let bytes = buffer.as_slice();
        let response_time = read_be_u64(slice_subrange(bytes, 1, 9));
        let server_id = read_be_u64(slice_subrange(bytes, 9, 17));
        let declared = read_be_u16(slice_subrange(bytes, 33, 35));
        assert(bytes@.subrange(1, 9).subrange(0, 8) =~= buffer@.subrange(1, 9));
        assert(bytes@.subrange(9, 17).subrange(0, 8) =~= buffer@.subrange(9, 17));
        assert(bytes@.subrange(33, 35).subrange(0, 2) =~= buffer@.subrange(33, 35));
        let available = buffer.len() - PONG_HEADER_LEN;
        let take: usize = if (declared as usize) < available {
            declared as usize
        } else {
            available
        };
        let payload = slice_to_vec(slice_subrange(bytes, PONG_HEADER_LEN, PONG_HEADER_LEN + take));
        assert(payload@ =~= status_payload(buffer@));
        match utf8_to_string(payload) {
            Some(motd) => Some(OfflinePongPacket { response_time, server_id, motd }),
            None => None,
        }
    }
}

/// Encoding depends on the request alone: two requests with the same fields
/// encode to the same 33 bytes, from which both fields read back.
pub proof fn law_encode_repeatable(a: OfflinePingPacket, b: OfflinePingPacket)
    requires
        a.start_time == b.start_time,
        a.client_id == b.client_id,
    ensures
        ping_frame(a.start_time, a.client_id) == ping_frame(b.start_time, b.client_id),
        ping_frame(a.start_time, a.client_id).len() == PING_LEN,
        be_u64_value(ping_frame(a.start_time, a.client_id).subrange(1, 9)) == a.start_time,
        ping_frame(a.start_time, a.client_id).subrange(9, 25) == magic_token(),
        be_u64_value(ping_frame(a.start_time, a.client_id).subrange(25, 33)) == a.client_id,
{
    let f = ping_frame(a.start_time, a.client_id);
    lemma_be_u64_round_trip(a.start_time);
    lemma_be_u64_round_trip(a.client_id);
    assert(f.subrange(1, 9) =~= be_u64_bytes(a.start_time));
    assert(f.subrange(9, 25) =~= magic_token());
    assert(f.subrange(25, 33) =~= be_u64_bytes(a.client_id));
}

/// A reply laid out with the reply framing decodes to exactly the timestamp,
/// server id and status text placed in it, whatever its tag and marker bytes.
pub proof fn law_reply_round_trip(
    tag: u8,
    response_time: u64,
    server_id: u64,
    magic: Seq<u8>,
    text: Seq<u8>,
)
    requires
        magic.len() == 16,
        text.len() <= 0xffff,
        valid_utf8(text),
    ensures
        decode_reply(pong_frame(tag, response_time, server_id, magic, text)) == Some(
            (response_time, server_id, decode_utf8(text)),
        ),
{
    let f = pong_frame(tag, response_time, server_id, magic, text);
    lemma_be_u64_round_trip(response_time);
    lemma_be_u64_round_trip(server_id);
    lemma_be_u16_round_trip(text.len() as u16);
    assert(f.subrange(1, 9) =~= be_u64_bytes(response_time));
    assert(f.subrange(9, 17) =~= be_u64_bytes(server_id));
    assert(f.subrange(33, 35) =~= be_u16_bytes(text.len() as u16));
    assert(status_payload(f) =~= text);
}

/// A buffer shorter than the fixed part of a reply never decodes.
pub proof fn law_short_buffer_rejected(b: Seq<u8>)
    requires
        b.len() < PONG_HEADER_LEN,
    ensures
        decode_reply(b) is None,
{
}

/// A declared status-text length of zero decodes to the empty string; a
/// declared length N with N bytes present decodes to text whose UTF-8 form is
/// exactly those N bytes.
pub proof fn law_status_text_length(b: Seq<u8>)
    requires
        b.len() >= PONG_HEADER_LEN,
    ensures
        declared_text_len(b) == 0 ==> (decode_reply(b) matches Some(r) && r.2 == Seq::<char>::empty()),
        35 + declared_text_len(b) <= b.len() ==> (decode_reply(b) matches Some(r) ==> (encode_utf8(r.2)
            == b.subrange(35, 35 + declared_text_len(b)) && encode_utf8(r.2).len() == declared_text_len(b))),
{
    broadcast use vstd::utf8::decode_utf8_encode_utf8;
    if declared_text_len(b) == 0 {
        assert(status_payload(b) =~= Seq::<u8>::empty());
        assert(valid_utf8(status_payload(b)));
        assert(decode_utf8(status_payload(b)) =~= Seq::<char>::empty());
    }
}

impl OfflinePingPacket {
    /// The bytes of this request.
    pub fn encode(&self) -> (r: Vec<u8>)
        ensures
            r@ == ping_frame(self.start_time, self.client_id),
    {
        let mut packet: Vec<u8> = Vec::new();
        packet.push(OFFLINE_PING);
        push_be_u64(&mut packet, self.start_time);
        let magic = MAGIC_BYTES;
        assert(magic@ =~= magic_token());
        let ghost head = packet@;
        let mut i: usize = 0;
        while i < 16
            invariant
                i <= 16,
                magic@ == magic_token(),
                packet@ == head + magic_token().subrange(0, i as int),
            decreases 16 - i,
        {
            packet.push(magic[i]);
            i = i + 1;
            assert(packet@ =~= head + magic_token().subrange(0, i as int));
        }
        assert(magic_token().subrange(0, 16) =~= magic_token());
        push_be_u64(&mut packet, self.client_id);
        assert(packet@ =~= ping_frame(self.start_time, self.client_id));
        packet
    }
}

} // verus!
