//! Boot info: the public output that every sub-proof carries, and its
//! layout in a proof's public-values buffer.
//!
//! The layout is the fields in order, each 32-byte hash behind its length
//! as eight little-endian bytes, the block number as eight little-endian
//! bytes: 168 bytes in all. Bytes after those are not looked at.

use vstd::prelude::*;
use vstd::bytes::{
    lemma_auto_spec_u64_to_from_le_bytes, spec_u64_from_le_bytes, spec_u64_to_le_bytes,
    u64_from_le_bytes, u64_to_le_bytes,
};
use vstd::slice::slice_subrange;

verus! {

/// What a sub-proof attests to.
#[derive(Debug, Clone, Copy, PartialEq, Eq)]
pub struct BootInfo {
    /// The L1 block hash the sub-proof is anchored to.
    pub l1_head: [u8; 32],
    /// The L2 output root before the span.
    pub l2_pre_root: [u8; 32],
    /// The claimed L2 output root after the span.
    pub l2_post_root: [u8; 32],
    /// The L2 block the span ends at.
    pub l2_block_number: u64,
    /// The hash of the rollup configuration the sub-proof was made under.
    pub rollup_config_hash: [u8; 32],
}

/// The mathematical value of a `BootInfo`.
pub struct BootInfoView {
    pub l1_head: Seq<u8>,
    pub l2_pre_root: Seq<u8>,
    pub l2_post_root: Seq<u8>,
    pub l2_block_number: u64,
    pub rollup_config_hash: Seq<u8>,
}

impl View for BootInfo {
    type V = BootInfoView;

    open spec fn view(&self) -> BootInfoView {
        BootInfoView {
            l1_head: self.l1_head@,
            l2_pre_root: self.l2_pre_root@,
            l2_post_root: self.l2_post_root@,
            l2_block_number: self.l2_block_number,
            rollup_config_hash: self.rollup_config_hash@,
        }
    }
}

impl BootInfoView {
    /// Every hash has 32 bytes.
    pub open spec fn wf(self) -> bool {
        &&& self.l1_head.len() == 32
        &&& self.l2_pre_root.len() == 32
        &&& self.l2_post_root.len() == 32
        &&& self.rollup_config_hash.len() == 32
    }
}

/// The length in bytes of an encoded boot info.
pub open spec fn boot_info_len() -> int {
    168
}

/// A hash behind its length.
pub open spec fn framed(hash: Seq<u8>) -> Seq<u8> {
    spec_u64_to_le_bytes(hash.len() as u64) + hash
}

/// The encoding of a boot info.
pub open spec fn boot_info_bytes(info: BootInfoView) -> Seq<u8> {
    framed(info.l1_head) + framed(info.l2_pre_root) + framed(info.l2_post_root)
        + spec_u64_to_le_bytes(info.l2_block_number) + framed(info.rollup_config_hash)
}

/// The 32-byte hash framed at position `at`, if the length written there
/// is 32 and the buffer holds that many bytes.
pub open spec fn framed_hash_at(bytes: Seq<u8>, at: int) -> Option<Seq<u8>> {
    if at + 40 <= bytes.len() && spec_u64_from_le_bytes(bytes.subrange(at, at + 8)) == 32 {
        Some(bytes.subrange(at + 8, at + 40))
    } else {
        None
    }
}

/// The boot info at the start of a buffer, if there is one.
pub open spec fn parse_boot_info(bytes: Seq<u8>) -> Option<BootInfoView> {
    if bytes.len() >= 168 && framed_hash_at(bytes, 0) is Some && framed_hash_at(bytes, 40) is Some
        && framed_hash_at(bytes, 80) is Some && framed_hash_at(bytes, 128) is Some {
        Some(
            BootInfoView {
                l1_head: framed_hash_at(bytes, 0).unwrap(),
                l2_pre_root: framed_hash_at(bytes, 40).unwrap(),
                l2_post_root: framed_hash_at(bytes, 80).unwrap(),
                l2_block_number: spec_u64_from_le_bytes(bytes.subrange(120, 128)),
                rollup_config_hash: framed_hash_at(bytes, 128).unwrap(),
            },
        )
    } else {
        None
    }
}

/// Whether two hashes are the same.
pub fn same_hash(a: &[u8; 32], b: &[u8; 32]) -> (same: bool)
    ensures
        same == (a@ == b@),
{
    let mut i: usize = 0;
    while i < 32
        invariant
            i <= 32,
            forall|j: int| 0 <= j < i ==> a@[j] == b@[j],
        decreases 32 - i,
    {
        if a[i] != b[i] {
            return false;
        }
        i = i + 1;
    }
    assert(a@ =~= b@);
    true
}

fn push_framed(out: &mut Vec<u8>, hash: &[u8; 32])
    ensures
        final(out)@ == old(out)@ + framed(hash@),
{
    let ghost start = out@;
    let mut len_bytes = u64_to_le_bytes(32);
    out.append(&mut len_bytes);
    let mut i: usize = 0;
    while i < 32
        invariant
            i <= 32,
            out@ == start + spec_u64_to_le_bytes(32) + hash@.take(i as int),
        decreases 32 - i,
    {
        out.push(hash[i]);
        assert(hash@.take(i as int + 1) =~= hash@.take(i as int).push(hash@[i as int]));
        i = i + 1;
    }
    assert(hash@.take(32) =~= hash@);
    assert(out@ =~= start + framed(hash@));
}

fn read_framed(bytes: &[u8], at: usize) -> (hash: Option<[u8; 32]>)
    requires
        at + 40 <= usize::MAX,
    ensures
        match hash {
            Some(h) => framed_hash_at(bytes@, at as int) == Some(h@),
            None => framed_hash_at(bytes@, at as int) is None,
        },
{
    if bytes.len() < at + 40 {
        return None;
    }
    let len: u64 = u64_from_le_bytes(slice_subrange(bytes, at, at + 8));
    if len != 32 {
        return None;
    }
    let mut hash: [u8; 32] = [0u8;32];
    let mut i: usize = 0;
    while i < 32
        invariant
            i <= 32,
            at + 40 <= bytes@.len(),
            at + 40 <= usize::MAX,
            forall|j: int| 0 <= j < i ==> hash@[j] == bytes@[at + 8 + j],
        decreases 32 - i,
    {
        hash[i] = bytes[at + 8 + i];
        i = i + 1;
    }
    assert(hash@ =~= bytes@.subrange(at + 8, at + 40));
    Some(hash)
}

impl BootInfo {
    /// The encoding of this boot info.
    pub fn encode(&self) -> (bytes: Vec<u8>)
        ensures
            bytes@ == boot_info_bytes(self@),
            bytes@.len() == boot_info_len(),
    {
        let mut out: Vec<u8> = Vec::new();
        push_framed(&mut out, &self.l1_head);
        push_framed(&mut out, &self.l2_pre_root);
        push_framed(&mut out, &self.l2_post_root);
        let mut number = u64_to_le_bytes(self.l2_block_number);
        out.append(&mut number);
        push_framed(&mut out, &self.rollup_config_hash);
        proof {
            lemma_auto_spec_u64_to_from_le_bytes();
            assert(out@ =~= boot_info_bytes(self@));
        }
        out
    }

    /// Reads the boot info at the start of a public-values buffer. Fails,
    /// without reading further, on a buffer that is too short or in which a
    /// hash is not announced with length 32.
    pub fn decode(bytes: &[u8]) -> (info: Option<BootInfo>)
        ensures
            match info {
                Some(b) => parse_boot_info(bytes@) == Some(b@),
                None => parse_boot_info(bytes@) is None,
            },
    {
        if bytes.len() < 168 {
            return None;
        }
        let l1_head = match read_framed(bytes, 0) {
            Some(h) => h,
            None => { return None; },
        };
        let l2_pre_root = match read_framed(bytes, 40) {
            Some(h) => h,
            None => { return None; },
        };
        let l2_post_root = match read_framed(bytes, 80) {
            Some(h) => h,
            None => { return None; },
        };
        let l2_block_number: u64 = u64_from_le_bytes(slice_subrange(bytes, 120, 128));
        let rollup_config_hash = match read_framed(bytes, 128) {
            Some(h) => h,
            None => { return None; },
        };
        Some(BootInfo { l1_head, l2_pre_root, l2_post_root, l2_block_number, rollup_config_hash })
    }
}

/// Decoding an encoded boot info, with anything behind it, gives the boot
/// info back, field for field.
pub proof fn lemma_boot_info_round_trip(info: BootInfoView, rest: Seq<u8>)
    requires
        info.wf(),
    ensures
        boot_info_bytes(info).len() == boot_info_len(),
        parse_boot_info(boot_info_bytes(info) + rest) == Some(info),
{
    lemma_auto_spec_u64_to_from_le_bytes();
    let len32 = spec_u64_to_le_bytes(32);
    let bytes = boot_info_bytes(info) + rest;
    assert(bytes.subrange(0, 8) =~= len32);
    assert(bytes.subrange(8, 40) =~= info.l1_head);
    assert(bytes.subrange(40, 48) =~= len32);
    assert(bytes.subrange(48, 80) =~= info.l2_pre_root);
    assert(bytes.subrange(80, 88) =~= len32);
    assert(bytes.subrange(88, 120) =~= info.l2_post_root);
    assert(bytes.subrange(120, 128) =~= spec_u64_to_le_bytes(info.l2_block_number));
    assert(bytes.subrange(128, 136) =~= len32);
    assert(bytes.subrange(136, 168) =~= info.rollup_config_hash);
}

} // verus!
