//! The verifying-key registry, fixed at start-up, and its comparison with
//! what the on-chain oracle has registered.

use vstd::prelude::*;
use vstd::string::StringSliceAdditionalSpecFns;
use crate::boot::same_hash;
use crate::hex::{hex_decode_exact, parse_b256, HexError};

verus! {

/// The commitments this process was started with. Handlers only read it.
#[derive(Debug, Clone, Copy, PartialEq, Eq)]
pub struct VerifyingKeyRegistry {
    /// The commitment of the range circuit.
    pub range_vkey_commitment: [u8; 32],
    /// The hash of the aggregation circuit's key.
    pub agg_vkey_hash: [u8; 32],
    /// The hash of the chain's rollup configuration.
    pub rollup_config_hash: [u8; 32],
}

/// Byte `k` of a 32-bit word, counted from the most significant one.
pub open spec fn be_byte(word: u32, k: int) -> u8 {
    ((word >> (((3 - k) * 8) as u32)) & 0xff) as u8
}

/// The 32 bytes of eight 32-bit words: the words in order, each with its
/// most significant byte first.
pub open spec fn words_bytes(words: Seq<u32>) -> Seq<u8> {
    Seq::new(32, |i: int| be_byte(words[i / 4], i % 4))
}

proof fn lemma_be_bytes(w: u32)
    by (bit_vector)
    ensures
        (w >> 24) & 0xff < 256,
        (w >> 16) & 0xff < 256,
        (w >> 8) & 0xff < 256,
        (w >> 0) & 0xff < 256,
{
}

/// The commitment that eight hash words of a verifying key stand for.
pub fn u32_to_u8(input: [u32; 8]) -> (output: [u8; 32])
    ensures
        output@ == words_bytes(input@),
{
    let mut output: [u8; 32] = [0u8;32];
    let mut i: usize = 0;
    while i < 8
        invariant
            i <= 8,
            forall|j: int| 0 <= j < 4 * i ==> output@[j] == be_byte(input@[j / 4], j % 4),
        decreases 8 - i,
    {
        let w: u32 = input[i];
        proof {
            lemma_be_bytes(w);
        }
        output[4 * i] = ((w >> 24) & 0xff) as u8;
        output[4 * i + 1] = ((w >> 16) & 0xff) as u8;
        output[4 * i + 2] = ((w >> 8) & 0xff) as u8;
        output[4 * i + 3] = ((w >> 0) & 0xff) as u8;
        i = i + 1;
    }
    assert(output@ =~= words_bytes(input@));
    output
}

impl VerifyingKeyRegistry {
    /// The registry for a range key with these hash words, an aggregation
    /// key whose hash is written as hex in `agg_vkey`, and this hash of
    /// the rollup configuration. Fails where `agg_vkey` is not the hex of
    /// 32 bytes.
    pub fn at_startup(range_vkey: [u32; 8], agg_vkey: &str, rollup_config_hash: [u8; 32]) -> (r:
        Result<VerifyingKeyRegistry, HexError>)
        ensures
            match hex_decode_exact(agg_vkey.spec_bytes(), 32) {
                Err(e) => r == Err::<VerifyingKeyRegistry, HexError>(e),
                Ok(hash) => r matches Ok(registry) && registry.range_vkey_commitment@ == words_bytes(
                    range_vkey@,
                ) && registry.agg_vkey_hash@ == hash && registry.rollup_config_hash
                    == rollup_config_hash,
            },
    {
        match parse_b256(agg_vkey) {
            Err(e) => Err(e),
            Ok(agg_vkey_hash) => Ok(
                VerifyingKeyRegistry {
                    range_vkey_commitment: u32_to_u8(range_vkey),
                    agg_vkey_hash,
                    rollup_config_hash,
                },
            ),
        }
    }
}

/// What the on-chain oracle currently has registered.
#[derive(Debug, Clone, Copy, PartialEq, Eq)]
pub struct OracleCommitments {
    pub aggregation_vkey: [u8; 32],
    pub range_vkey_commitment: [u8; 32],
    pub rollup_config_hash: [u8; 32],
}

/// One flag for each commitment: whether the oracle's agrees with ours.
#[derive(Debug, Clone, Copy, PartialEq, Eq, Structural)]
pub struct ValidateConfigResponse {
    pub rollup_config_hash_valid: bool,
    pub agg_vkey_valid: bool,
    pub range_vkey_valid: bool,
}

/// The three flags for a registry and an oracle's answer. Each flag looks
/// at one pair of commitments only.
pub open spec fn config_flags(
    registry: VerifyingKeyRegistry,
    onchain: OracleCommitments,
) -> ValidateConfigResponse {
    ValidateConfigResponse {
        rollup_config_hash_valid: onchain.rollup_config_hash@ == registry.rollup_config_hash@,
        agg_vkey_valid: onchain.aggregation_vkey@ == registry.agg_vkey_hash@,
        range_vkey_valid: onchain.range_vkey_commitment@ == registry.range_vkey_commitment@,
    }
}

/// Compares the oracle's commitments with the registry's.
pub fn compare_config(registry: &VerifyingKeyRegistry, onchain: &OracleCommitments) -> (flags:
    ValidateConfigResponse)
    ensures
        flags == config_flags(*registry, *onchain),
{
    ValidateConfigResponse {
        rollup_config_hash_valid: same_hash(&onchain.rollup_config_hash, &registry.rollup_config_hash),
        agg_vkey_valid: same_hash(&onchain.aggregation_vkey, &registry.agg_vkey_hash),
        range_vkey_valid: same_hash(&onchain.range_vkey_commitment, &registry.range_vkey_commitment),
    }
}

/// Against an oracle that agrees with the registry in nothing, all three
/// flags are false; against one that agrees in everything, all are true.
pub proof fn lemma_config_flags_extremes(registry: VerifyingKeyRegistry, onchain: OracleCommitments)
    ensures
        (onchain.rollup_config_hash@ != registry.rollup_config_hash@ && onchain.aggregation_vkey@
            != registry.agg_vkey_hash@ && onchain.range_vkey_commitment@
            != registry.range_vkey_commitment@) ==> config_flags(registry, onchain)
            == (ValidateConfigResponse {
            rollup_config_hash_valid: false,
            agg_vkey_valid: false,
            range_vkey_valid: false,
        }),
        (onchain.rollup_config_hash@ == registry.rollup_config_hash@ && onchain.aggregation_vkey@
            == registry.agg_vkey_hash@ && onchain.range_vkey_commitment@
            == registry.range_vkey_commitment@) ==> config_flags(registry, onchain)
            == (ValidateConfigResponse {
            rollup_config_hash_valid: true,
            agg_vkey_valid: true,
            range_vkey_valid: true,
        }),
{
}

} // verus!
