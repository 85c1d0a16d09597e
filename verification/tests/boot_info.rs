use alloy_primitives::B256;
use sigil::boot::{same_hash, BootInfo};

fn sample() -> BootInfo {
    BootInfo {
        l1_head: [1u8; 32],
        l2_pre_root: [2u8; 32],
        l2_post_root: [3u8; 32],
        l2_block_number: 0x0102030405060708,
        rollup_config_hash: [4u8; 32],
    }
}

fn sample_bytes() -> Vec<u8> {
    let mut bytes: Vec<u8> = Vec::new();
    let len32: [u8; 8] = [32, 0, 0, 0, 0, 0, 0, 0];
    bytes.extend_from_slice(&len32);
    bytes.extend_from_slice(&[1u8; 32]);
    bytes.extend_from_slice(&len32);
    bytes.extend_from_slice(&[2u8; 32]);
    bytes.extend_from_slice(&len32);
    bytes.extend_from_slice(&[3u8; 32]);
    bytes.extend_from_slice(&[8, 7, 6, 5, 4, 3, 2, 1]);
    bytes.extend_from_slice(&len32);
    bytes.extend_from_slice(&[4u8; 32]);
    bytes
}

#[test]
fn boot_info_encodes_to_168_bytes() {
    let bytes = sample().encode();
    assert_eq!(bytes.len(), 168);
    assert_eq!(bytes, sample_bytes());
}

#[test]
fn boot_info_decodes() {
    assert_eq!(BootInfo::decode(&sample_bytes()), Some(sample()));
}

#[test]
fn boot_info_round_trip_keeps_every_field() {
    let mut info = sample();
    for i in 0..32 {
        info.l1_head[i] = i as u8;
        info.l2_pre_root[i] = 0xff - i as u8;
        info.l2_post_root[i] = (i as u8) * 3;
        info.rollup_config_hash[i] = 0x80 | i as u8;
    }
    info.l2_block_number = u64::MAX - 5;
    let back = BootInfo::decode(&info.encode()).unwrap();
    assert_eq!(back.l1_head, info.l1_head);
    assert_eq!(back.l2_pre_root, info.l2_pre_root);
    assert_eq!(back.l2_post_root, info.l2_post_root);
    assert_eq!(back.l2_block_number, info.l2_block_number);
    assert_eq!(back.rollup_config_hash, info.rollup_config_hash);
}

#[test]
fn boot_info_ignores_what_follows() {
    let mut bytes = sample_bytes();
    bytes.extend_from_slice(&[0xaa, 0xbb, 0xcc]);
    assert_eq!(BootInfo::decode(&bytes), Some(sample()));
}

#[test]
fn boot_info_refuses_short_buffers() {
    let bytes = sample_bytes();
    assert_eq!(BootInfo::decode(&[]), None);
    assert_eq!(BootInfo::decode(&bytes[..167]), None);
    assert_eq!(BootInfo::decode(&bytes[..40]), None);
}

#[test]
fn boot_info_refuses_wrong_lengths() {
    for at in [0usize, 40, 80, 128] {
        let mut bytes = sample_bytes();
        bytes[at] = 31;
        assert_eq!(BootInfo::decode(&bytes), None);
        let mut bytes = sample_bytes();
        bytes[at + 7] = 1;
        assert_eq!(BootInfo::decode(&bytes), None);
    }
}

#[test]
fn boot_info_layout_is_what_bincode_writes() {
    let info = sample();
    let fields = (
        B256::from(info.l1_head),
        B256::from(info.l2_pre_root),
        B256::from(info.l2_post_root),
        info.l2_block_number,
        B256::from(info.rollup_config_hash),
    );
    let written = bincode::serialize(&fields).unwrap();
    assert_eq!(written, info.encode());
    let read: (B256, B256, B256, u64, B256) = bincode::deserialize(&info.encode()).unwrap();
    assert_eq!(read, fields);
}

#[test]
fn same_hash_compares_all_bytes() {
    let a = [7u8; 32];
    let mut b = [7u8; 32];
    assert!(same_hash(&a, &b));
    b[31] = 8;
    assert!(!same_hash(&a, &b));
    b[31] = 7;
    b[0] = 0;
    assert!(!same_hash(&a, &b));
}
