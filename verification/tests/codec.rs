use vfp::{append_id, shift_id, NxError};

fn patterned(len: usize) -> Vec<u8> {
    let mut state: u32 = 0x2545_f491;
    let mut out = Vec::with_capacity(len);
    for _ in 0..len {
        state ^= state << 13;
        state ^= state >> 17;
        state ^= state << 5;
        out.push((state & 0xff) as u8);
    }
    out
}

#[test]
fn append_id_puts_the_identifier_first() {
    let tagged = append_id(0x0102_0304_0506_0708_090a_0b0c_0d0e_0f10, vec![0xaa, 0xbb]);
    assert_eq!(
        tagged,
        vec![1, 2, 3, 4, 5, 6, 7, 8, 9, 10, 11, 12, 13, 14, 15, 16, 0xaa, 0xbb]
    );
}

#[test]
fn append_id_matches_big_endian_bytes() {
    let id: u128 = 0xfedc_ba98_7654_3210_0f1e_2d3c_4b5a_6978;
    let tagged = append_id(id, vec![9, 8, 7]);
    assert_eq!(&tagged[..16], &id.to_be_bytes()[..]);
    assert_eq!(&tagged[16..], &[9, 8, 7][..]);
}

#[test]
fn append_id_of_zero_and_of_the_largest_identifier() {
    assert_eq!(append_id(0, vec![]), vec![0u8; 16]);
    assert_eq!(append_id(u128::MAX, vec![1]), {
        let mut expected = vec![0xffu8; 16];
        expected.push(1);
        expected
    });
    assert_eq!(append_id(1, vec![]), {
        let mut expected = vec![0u8; 15];
        expected.push(1);
        expected
    });
}

#[test]
fn shift_id_gives_back_what_append_id_took() {
    let id: u128 = 0x1111_2222_3333_4444_5555_6666_7777_8888;
    let (got_id, payload) = shift_id(append_id(id, vec![0x01, 0x02, 0x03])).unwrap();
    assert_eq!(got_id, id);
    assert_eq!(payload, vec![0x01, 0x02, 0x03]);
}

#[test]
fn shift_id_reads_the_identifier_most_significant_byte_first() {
    let mut body = vec![0u8; 16];
    body[0] = 0x80;
    body[15] = 0x01;
    body.extend_from_slice(b"xy");
    let (id, payload) = shift_id(body).unwrap();
    assert_eq!(id, (1u128 << 127) | 1);
    assert_eq!(payload, b"xy".to_vec());
}

#[test]
fn shift_id_refuses_a_short_body() {
    assert!(matches!(shift_id(vec![0u8; 15]), Err(NxError::IdFormatInvalid)));
    assert!(matches!(shift_id(vec![0u8; 8]), Err(NxError::IdFormatInvalid)));
    assert!(matches!(shift_id(vec![]), Err(NxError::IdFormatInvalid)));
}

#[test]
fn shift_id_takes_a_body_of_exactly_sixteen_bytes() {
    let (id, payload) = shift_id(vec![0xffu8; 16]).unwrap();
    assert_eq!(id, u128::MAX);
    assert!(payload.is_empty());
}

#[test]
fn large_payload_survives_tagging() {
    let payload = patterned(64 * 1024);
    let (id, back) = shift_id(append_id(42, payload.clone())).unwrap();
    assert_eq!(id, 42);
    assert_eq!(back, payload);
}

#[test]
fn error_text() {
    assert_eq!(NxError::Closed.to_text(), "Closed");
    assert_eq!(NxError::IdFormatInvalid.to_text(), "IdFormatInvalid");
    let io = std::io::Error::new(std::io::ErrorKind::Other, "boom");
    assert_eq!(NxError::Io(io).to_text(), "IoError: boom");
}
