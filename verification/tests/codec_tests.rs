use tx_update_vp::codec::decode_update_request;
use tx_update_vp::codec::encode_update_request;
use tx_update_vp::envelope::DecodeReason;
use tx_update_vp::envelope::UpdateRequest;

fn payload(addr: &[u8], opaque: &[u8]) -> Vec<u8> {
    let mut bytes = vec![1u8];
    let n = addr.len() as u32;
    bytes.extend_from_slice(&n.to_le_bytes());
    bytes.extend_from_slice(addr);
    bytes.extend_from_slice(opaque);
    bytes
}

#[test]
fn decode_well_formed_payload() {
    let bytes = payload(b"alice", &[]);
    let req = decode_update_request(&bytes).unwrap();
    assert_eq!(req.addr, b"alice".to_vec());
    assert_eq!(req.opaque, Vec::<u8>::new());
}

#[test]
fn decode_keeps_trailing_fields_opaque() {
    let bytes = payload(b"alice", &[0xde, 0xad, 0xbe, 0xef]);
    let req = decode_update_request(&bytes).unwrap();
    assert_eq!(req.addr, b"alice".to_vec());
    assert_eq!(req.opaque, vec![0xde, 0xad, 0xbe, 0xef]);
}

#[test]
fn decode_empty_address_is_well_formed() {
    let bytes = payload(b"", b"");
    let req = decode_update_request(&bytes).unwrap();
    assert_eq!(req.addr, Vec::<u8>::new());
    assert_eq!(req.opaque, Vec::<u8>::new());
}

#[test]
fn decode_empty_payload_fails() {
    let bytes: Vec<u8> = Vec::new();
    assert_eq!(
        decode_update_request(&bytes),
        Err(DecodeReason::UnexpectedEnd)
    );
}

#[test]
fn decode_wrong_tag_fails() {
    let mut bytes = payload(b"alice", &[]);
    bytes[0] = 9;
    assert_eq!(decode_update_request(&bytes), Err(DecodeReason::InvalidTag));
}

#[test]
fn decode_truncated_length_field_fails() {
    let bytes = vec![1u8, 5, 0];
    assert_eq!(
        decode_update_request(&bytes),
        Err(DecodeReason::UnexpectedEnd)
    );
}

#[test]
fn decode_length_beyond_data_fails() {
    // Declares a six-byte address but carries only five bytes after the header.
    let mut bytes = payload(b"alice", &[]);
    bytes[1] = 6;
    assert_eq!(
        decode_update_request(&bytes),
        Err(DecodeReason::UnexpectedEnd)
    );
}

#[test]
fn decode_multi_byte_length() {
    // 258 = 0x0102 exercises the second little-endian length byte.
    let addr: Vec<u8> = (0..258u32).map(|i| (i % 251) as u8).collect();
    let bytes = payload(&addr, &[7]);
    let req = decode_update_request(&bytes).unwrap();
    assert_eq!(req.addr, addr);
    assert_eq!(req.opaque, vec![7]);
}

#[test]
fn encode_produces_exact_bytes() {
    let req = UpdateRequest {
        addr: b"alice".to_vec(),
        opaque: vec![0xde, 0xad],
    };
    let bytes = encode_update_request(&req);
    assert_eq!(
        bytes,
        vec![1u8, 5, 0, 0, 0, b'a', b'l', b'i', b'c', b'e', 0xde, 0xad]
    );
}

#[test]
fn encode_then_decode_round_trips() {
    let req = UpdateRequest {
        addr: b"validator-7".to_vec(),
        opaque: vec![1, 2, 3],
    };
    let bytes = encode_update_request(&req);
    let back = decode_update_request(&bytes).unwrap();
    assert_eq!(back.addr, req.addr);
    assert_eq!(back.opaque, req.opaque);
}
