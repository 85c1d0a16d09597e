use sigil::job_id::{job_id_bytes, parse_job_id, uuid_to_hex_bytes};

#[test]
fn id_is_0x_and_sixteen_lower_case_digits() {
    assert_eq!(job_id_bytes(0), b"0x0000000000000000".to_vec());
    assert_eq!(job_id_bytes(1), b"0x0000000000000001".to_vec());
    assert_eq!(job_id_bytes(0xabcdef), b"0x0000000000abcdef".to_vec());
    assert_eq!(job_id_bytes(0x0123456789abcdef), b"0x0123456789abcdef".to_vec());
    assert_eq!(job_id_bytes(u64::MAX), b"0xffffffffffffffff".to_vec());
}

#[test]
fn id_comes_from_the_low_64_bits() {
    let uuid: u128 = 0x0123456789abcdef_fedcba9876543210;
    assert_eq!(uuid_to_hex_bytes(uuid), b"0xfedcba9876543210".to_vec());
    assert_eq!(uuid_to_hex_bytes(1u128 << 64), b"0x0000000000000000".to_vec());
    assert_eq!(uuid_to_hex_bytes(u128::MAX), b"0xffffffffffffffff".to_vec());
    assert_eq!(uuid_to_hex_bytes(0), b"0x0000000000000000".to_vec());
}

#[test]
fn id_text_reads_back() {
    let values: [u64; 6] = [0, 1, 0x10, 0xdead_beef, 0x8000_0000_0000_0000, u64::MAX];
    for v in values {
        assert_eq!(parse_job_id(&job_id_bytes(v)), Some(v));
    }
    assert_eq!(parse_job_id(b"0x00000000000000ff"), Some(255));
    assert_eq!(parse_job_id(b"0x0123456789abcdef"), Some(0x0123456789abcdef));
}

#[test]
fn other_text_is_no_id() {
    assert_eq!(parse_job_id(b""), None);
    assert_eq!(parse_job_id(b"0x"), None);
    assert_eq!(parse_job_id(b"0x00000000000000f"), None);
    assert_eq!(parse_job_id(b"0x00000000000000fff"), None);
    assert_eq!(parse_job_id(b"0X00000000000000ff"), None);
    assert_eq!(parse_job_id(b"1x00000000000000ff"), None);
    assert_eq!(parse_job_id(b"0x00000000000000FF"), None);
    assert_eq!(parse_job_id(b"0x00000000000000fg"), None);
    assert_eq!(parse_job_id(b"0x0000000000000 ff"), None);
    assert_eq!(parse_job_id(b"000000000000000000"), None);
}

#[test]
fn different_ids_have_different_text() {
    let mut seen: Vec<Vec<u8>> = Vec::new();
    for v in 0u64..64 {
        let text = job_id_bytes(v.wrapping_mul(0x9e37_79b9_7f4a_7c15));
        assert!(!seen.contains(&text));
        seen.push(text);
    }
}
