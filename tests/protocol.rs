use bedrock_ping::protocol::{OfflinePingPacket, OfflinePongPacket, MAGIC_BYTES, PING_LEN, PONG_HEADER_LEN};

fn reply(tag: u8, response_time: u64, server_id: u64, declared: u16, text: &[u8]) -> Vec<u8> {
    let mut b = vec![tag];
    b.extend_from_slice(&response_time.to_be_bytes());
    b.extend_from_slice(&server_id.to_be_bytes());
    b.extend_from_slice(&MAGIC_BYTES);
    b.extend_from_slice(&declared.to_be_bytes());
    b.extend_from_slice(text);
    b
}

#[test]
fn empty_status_text_decodes() {
    let buf = reply(0x1c, 1000, 0xABCD, 0, b"");
    assert_eq!(buf.len(), 35);
    let p = OfflinePongPacket::decode(buf).expect("decodes");
    assert_eq!(p.response_time, 1000);
    assert_eq!(p.server_id, 0xABCD);
    assert_eq!(p.motd, "");
}

#[test]
fn two_byte_status_text_decodes() {
    let buf = reply(0x1c, 1000, 0xABCD, 2, b"hi");
    assert_eq!(buf.len(), 37);
    let p = OfflinePongPacket::decode(buf).expect("decodes");
    assert_eq!(p.motd, "hi");
}

#[test]
fn ten_byte_buffer_rejected() {
    assert!(OfflinePongPacket::decode(vec![0u8; 10]).is_none());
}

#[test]
fn every_buffer_below_minimum_rejected() {
    for n in 0..PONG_HEADER_LEN {
        let full = reply(0x1c, 7, 9, 0, b"");
        assert!(OfflinePongPacket::decode(full[..n].to_vec()).is_none(), "length {}", n);
    }
    assert!(OfflinePongPacket::decode(Vec::new()).is_none());
}

#[test]
fn round_trip_recovers_fields() {
    let text = "MCPE;Dedicated Server;390;1.14.60;0;10;1337;";
    let buf = reply(0x1c, u64::MAX - 3, 0x0123_4567_89ab_cdef, text.len() as u16, text.as_bytes());
    let p = OfflinePongPacket::decode(buf).expect("decodes");
    assert_eq!(p.response_time, u64::MAX - 3);
    assert_eq!(p.server_id, 0x0123_4567_89ab_cdef);
    assert_eq!(p.motd, text);
}

#[test]
fn tag_and_marker_are_not_examined() {
    let mut buf = reply(0xee, 5, 6, 0, b"");
    for b in buf[17..33].iter_mut() {
        *b = 0;
    }
    let p = OfflinePongPacket::decode(buf).expect("decodes");
    assert_eq!((p.response_time, p.server_id), (5, 6));
}

#[test]
fn multibyte_status_text() {
    let text = "caf\u{e9} \u{1f600}";
    let buf = reply(0x1c, 1, 2, text.len() as u16, text.as_bytes());
    let p = OfflinePongPacket::decode(buf).expect("decodes");
    assert_eq!(p.motd, text);
    assert_eq!(p.motd.len(), text.as_bytes().len());
}

#[test]
fn status_text_of_length_n_takes_n_bytes() {
    let buf = reply(0x1c, 1, 2, 3, b"abcdef");
    let p = OfflinePongPacket::decode(buf).expect("decodes");
    assert_eq!(p.motd, "abc");
}

#[test]
fn short_status_text_kept_as_far_as_it_goes() {
    let buf = reply(0x1c, 1, 2, 10, b"abcd");
    let p = OfflinePongPacket::decode(buf).expect("decodes");
    assert_eq!(p.motd, "abcd");
}

#[test]
fn invalid_utf8_status_text_rejected() {
    let buf = reply(0x1c, 1, 2, 2, &[0xff, 0xfe]);
    assert!(OfflinePongPacket::decode(buf).is_none());
}

#[test]
fn encode_layout() {
    let req = OfflinePingPacket { start_time: 0x0102_0304_0506_0708, client_id: 0xa1a2_a3a4_a5a6_a7a8 };
    let bytes = req.encode();
    assert_eq!(bytes.len(), PING_LEN);
    assert_eq!(bytes.len(), 33);
    assert_eq!(bytes[0], 0x01);
    assert_eq!(&bytes[1..9], &[1, 2, 3, 4, 5, 6, 7, 8]);
    assert_eq!(&bytes[9..25], &MAGIC_BYTES);
    assert_eq!(&bytes[25..33], &[0xa1, 0xa2, 0xa3, 0xa4, 0xa5, 0xa6, 0xa7, 0xa8]);
}

#[test]
fn encode_twice_gives_same_bytes() {
    let req = OfflinePingPacket { start_time: 1_600_000_000_000, client_id: 42 };
    assert_eq!(req.encode(), req.encode());
}
