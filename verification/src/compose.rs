//! The aggregation composer: from a list of decoded sub-proofs and an L1
//! head to the input of an aggregation proof, or to the reason why the
//! request cannot be served.

use vstd::prelude::*;
use vstd::slice::slice_subrange;
use vstd::string::StringSliceAdditionalSpecFns;
use crate::boot::{
    boot_info_bytes, lemma_boot_info_round_trip, parse_boot_info, same_hash, BootInfo, BootInfoView,
};
use crate::error::{AppError, AppErrorView, ErrorKind};
use crate::hex::{decode_hex, hex_decode, hex_error_text, HexError};
use crate::registry::VerifyingKeyRegistry;

verus! {

/// The form a proof came out of the backend in.
#[derive(Debug, Clone, Copy, PartialEq, Eq, Structural)]
pub enum ProofVariant {
    Core,
    Compressed,
    Plonk,
    Groth16,
}

/// What the composer reads of a sub-proof: its form and its public-values
/// buffer. The proof itself stays with the caller.
#[derive(Debug, Clone, PartialEq, Eq)]
pub struct SubProof {
    pub variant: ProofVariant,
    pub public_values: Vec<u8>,
}

/// The mathematical value of a `SubProof`.
pub struct SubProofView {
    pub variant: ProofVariant,
    pub public_values: Seq<u8>,
}

impl View for SubProof {
    type V = SubProofView;

    open spec fn view(&self) -> SubProofView {
        SubProofView { variant: self.variant, public_values: self.public_values@ }
    }
}

/// A block header, as far as chain continuity needs it.
#[derive(Debug, Clone, Copy, PartialEq, Eq)]
pub struct HeaderPreimage {
    pub hash: [u8; 32],
    pub parent_hash: [u8; 32],
    pub number: u64,
}

/// What is wrong with a sub-proof that was decoded.
#[derive(Debug, Clone, Copy, PartialEq, Eq, Structural)]
pub enum Defect {
    /// It is not of the compressed form, the only one that can be
    /// aggregated.
    NotCompressed,
    /// Its public values do not start with a boot info.
    UnreadableBootInfo,
    /// It was made under another rollup configuration than this service's.
    ConfigMismatch,
}

/// Why a request cannot be composed. All of these are the caller's fault.
#[derive(Debug, Clone, Copy, PartialEq, Eq, Structural)]
pub enum ComposeFailure {
    /// The head does not start with `0x`.
    MissingPrefix,
    /// What follows `0x` is not hex.
    MalformedHead(HexError),
    /// The head is hex, but not of 32 bytes.
    HeadLength,
    /// The list of sub-proofs is empty.
    NothingToAggregate,
    /// The sub-proof at this position did not decode.
    UnreadableSubProof(usize),
    /// The sub-proof at this position decoded, and has this defect.
    DefectiveSubProof(usize, Defect),
}

/// The head and the boot infos of a request that can be composed. The
/// boot infos stand in the order of the sub-proofs they were read from.
#[derive(Debug, Clone, PartialEq, Eq)]
pub struct Composition {
    pub l1_head: [u8; 32],
    pub boot_infos: Vec<BootInfo>,
}

/// The mathematical value of a `Composition`.
pub struct CompositionView {
    pub l1_head: Seq<u8>,
    pub boot_infos: Seq<BootInfoView>,
}

impl View for Composition {
    type V = CompositionView;

    open spec fn view(&self) -> CompositionView {
        CompositionView { l1_head: self.l1_head@, boot_infos: boot_infos_view(self.boot_infos@) }
    }
}

/// The input of an aggregation proof. The `i`-th boot info belongs to the
/// `i`-th sub-proof of the request.
#[derive(Debug, Clone, PartialEq, Eq)]
pub struct AggregationInput {
    pub boot_infos: Vec<BootInfo>,
    pub headers: Vec<HeaderPreimage>,
    pub range_vkey_commitment: [u8; 32],
    pub l1_head: [u8; 32],
}

/// The mathematical value of an `AggregationInput`.
pub struct AggregationInputView {
    pub boot_infos: Seq<BootInfoView>,
    pub headers: Seq<HeaderPreimage>,
    pub range_vkey_commitment: Seq<u8>,
    pub l1_head: Seq<u8>,
}

impl View for AggregationInput {
    type V = AggregationInputView;

    open spec fn view(&self) -> AggregationInputView {
        AggregationInputView {
            boot_infos: boot_infos_view(self.boot_infos@),
            headers: self.headers@,
            range_vkey_commitment: self.range_vkey_commitment@,
            l1_head: self.l1_head@,
        }
    }
}

pub open spec fn boot_infos_view(infos: Seq<BootInfo>) -> Seq<BootInfoView> {
    Seq::new(infos.len(), |i: int| infos[i]@)
}

/// The decoded sub-proofs of a request as mathematical values; `None`
/// stands for a blob that did not decode.
pub open spec fn subproofs_view(subproofs: Seq<Option<SubProof>>) -> Seq<Option<SubProofView>> {
    Seq::new(
        subproofs.len(),
        |i: int|
            match subproofs[i] {
                Some(p) => Some(p@),
                None => None,
            },
    )
}

/// Position of the first element that `bad` holds of; `s.len()` if it
/// holds of none.
pub open spec fn first_where<T>(s: Seq<T>, bad: spec_fn(T) -> bool) -> int
    decreases s.len(),
{
    if s.len() == 0 {
        0
    } else if bad(s[0]) {
        0
    } else {
        1 + first_where(s.skip(1), bad)
    }
}

/// `first_where` is the one position with nothing bad before it that is
/// either bad or the end.
pub proof fn lemma_first_where<T>(s: Seq<T>, bad: spec_fn(T) -> bool, k: int)
    requires
        0 <= k <= s.len(),
        forall|j: int| 0 <= j < k ==> !bad(#[trigger] s[j]),
        k < s.len() ==> bad(s[k]),
    ensures
        first_where(s, bad) == k,
    decreases s.len(),
{
    if s.len() != 0 && k != 0 {
        let t = s.skip(1);
        assert(!bad(s[0]));
        assert forall|j: int| 0 <= j < k - 1 implies !bad(#[trigger] t[j]) by {
            assert(t[j] == s[j + 1]);
        }
        if k < s.len() {
            assert(t[k - 1] == s[k]);
        }
        lemma_first_where(t, bad, k - 1);
    }
}

/// Whether the text starts with `0x`.
pub open spec fn has_0x_prefix(head: Seq<u8>) -> bool {
    head.len() >= 2 && head[0] == 0x30 && head[1] == 0x78
}

/// The 32 bytes of an L1 head given as `0x` and hex.
pub open spec fn head_value(head: Seq<u8>) -> Result<Seq<u8>, ComposeFailure> {
    if !has_0x_prefix(head) {
        Err(ComposeFailure::MissingPrefix)
    } else {
        match hex_decode(head.skip(2)) {
            Err(e) => Err(ComposeFailure::MalformedHead(e)),
            Ok(bytes) => if bytes.len() == 32 {
                Ok(bytes)
            } else {
                Err(ComposeFailure::HeadLength)
            },
        }
    }
}

/// What is wrong with a decoded sub-proof, if anything.
pub open spec fn defect_of(registry: VerifyingKeyRegistry, proof: SubProofView) -> Option<Defect> {
    if proof.variant != ProofVariant::Compressed {
        Some(Defect::NotCompressed)
    } else {
        match parse_boot_info(proof.public_values) {
            None => Some(Defect::UnreadableBootInfo),
            Some(info) => if info.rollup_config_hash != registry.rollup_config_hash@ {
                Some(Defect::ConfigMismatch)
            } else {
                None
            },
        }
    }
}

pub open spec fn is_unreadable() -> spec_fn(Option<SubProofView>) -> bool {
    |proof: Option<SubProofView>| proof is None
}

pub open spec fn is_defective(registry: VerifyingKeyRegistry) -> spec_fn(Option<SubProofView>) -> bool {
    |proof: Option<SubProofView>| proof is Some && defect_of(registry, proof.unwrap()) is Some
}

/// What composing gives: the head is looked at first, then whether there
/// is anything to aggregate, then whether every sub-proof decoded, then
/// the sub-proofs one by one in their order.
pub open spec fn composition(
    registry: VerifyingKeyRegistry,
    subproofs: Seq<Option<SubProofView>>,
    head: Seq<u8>,
) -> Result<CompositionView, ComposeFailure> {
    match head_value(head) {
        Err(failure) => Err(failure),
        Ok(l1_head) => {
            let unreadable = first_where(subproofs, is_unreadable());
            let defective = first_where(subproofs, is_defective(registry));
            if subproofs.len() == 0 {
                Err(ComposeFailure::NothingToAggregate)
            } else if unreadable < subproofs.len() {
                Err(ComposeFailure::UnreadableSubProof(unreadable as usize))
            } else if defective < subproofs.len() {
                Err(
                    ComposeFailure::DefectiveSubProof(
                        defective as usize,
                        defect_of(registry, subproofs[defective].unwrap()).unwrap(),
                    ),
                )
            } else {
                Ok(
                    CompositionView {
                        l1_head,
                        boot_infos: Seq::new(
                            subproofs.len(),
                            |i: int| parse_boot_info(subproofs[i].unwrap().public_values).unwrap(),
                        ),
                    },
                )
            }
        },
    }
}

/// The error a caller is answered with when composing fails.
pub open spec fn compose_error(failure: ComposeFailure) -> AppErrorView {
    AppErrorView {
        kind: ErrorKind::ClientInput,
        message: match failure {
            ComposeFailure::MissingPrefix => "Invalid L1 head, no 0x prefix."@,
            ComposeFailure::MalformedHead(e) => "Failed to decode L1 head: "@ + hex_error_text(e),
            ComposeFailure::HeadLength => "Invalid L1 head, expected 32 bytes."@,
            ComposeFailure::NothingToAggregate => "Nothing to aggregate: no sub-proofs were given."@,
            ComposeFailure::UnreadableSubProof(_) => "Failed to deserialize sub-proof."@,
            ComposeFailure::DefectiveSubProof(_, Defect::NotCompressed) => "Sub-proof is not a compressed proof."@,
            ComposeFailure::DefectiveSubProof(_, Defect::UnreadableBootInfo) => "Failed to read boot info from sub-proof."@,
            ComposeFailure::DefectiveSubProof(_, Defect::ConfigMismatch) => "Sub-proof was made under a different rollup configuration."@,
        },
    }
}

impl ComposeFailure {
    /// The client-input error that tells the caller of this failure.
    pub fn into_error(self) -> (e: AppError)
        ensures
            e@ == compose_error(self),
            e.kind == ErrorKind::ClientInput,
    {
        match self {
            ComposeFailure::MissingPrefix => AppError::client("Invalid L1 head, no 0x prefix."),
            ComposeFailure::MalformedHead(e) => AppError::relayed(
                ErrorKind::ClientInput,
                "Failed to decode L1 head: ",
                e.message(),
            ),
            ComposeFailure::HeadLength => AppError::client("Invalid L1 head, expected 32 bytes."),
            ComposeFailure::NothingToAggregate => AppError::client(
                "Nothing to aggregate: no sub-proofs were given.",
            ),
            ComposeFailure::UnreadableSubProof(_) => AppError::client(
                "Failed to deserialize sub-proof.",
            ),
            ComposeFailure::DefectiveSubProof(_, Defect::NotCompressed) => AppError::client(
                "Sub-proof is not a compressed proof.",
            ),
            ComposeFailure::DefectiveSubProof(_, Defect::UnreadableBootInfo) => AppError::client(
                "Failed to read boot info from sub-proof.",
            ),
            ComposeFailure::DefectiveSubProof(_, Defect::ConfigMismatch) => AppError::client(
                "Sub-proof was made under a different rollup configuration.",
            ),
        }
    }
}

/// Decodes an L1 head given as `0x` and 64 hex digits.
pub fn decode_l1_head(head: &str) -> (r: Result<[u8; 32], ComposeFailure>)
    ensures
        match r {
            Ok(h) => head_value(head.spec_bytes()) == Ok::<Seq<u8>, ComposeFailure>(h@),
            Err(f) => head_value(head.spec_bytes()) == Err::<Seq<u8>, ComposeFailure>(f),
        },
{
    let bytes = head.as_bytes();
    if bytes.len() < 2 || bytes[0] != 0x30u8 || bytes[1] != 0x78u8 {
        return Err(ComposeFailure::MissingPrefix);
    }
    let digits = slice_subrange(bytes, 2, bytes.len());
    assert(digits@ =~= bytes@.skip(2));
    match decode_hex(digits) {
        Err(e) => Err(ComposeFailure::MalformedHead(e)),
        Ok(decoded) => {
            if decoded.len() != 32 {
                return Err(ComposeFailure::HeadLength);
            }
            let mut h: [u8; 32] = [0u8;32];
            let mut i: usize = 0;
            while i < 32
                invariant
                    i <= 32,
                    decoded@.len() == 32,
                    forall|j: int| 0 <= j < i ==> h@[j] == decoded@[j],
                decreases 32 - i,
            {
                h[i] = decoded[i];
                i = i + 1;
            }
            assert(h@ =~= decoded@);
            Ok(h)
        },
    }
}

/// Looks at one decoded sub-proof: its boot info, or its defect.
pub fn inspect_subproof(registry: &VerifyingKeyRegistry, proof: &SubProof) -> (r: Result<
    BootInfo,
    Defect,
>)
    ensures
        match r {
            Ok(info) => defect_of(*registry, proof@) is None && parse_boot_info(
                proof@.public_values,
            ) == Some(info@),
            Err(d) => defect_of(*registry, proof@) == Some(d),
        },
{
    match proof.variant {
        ProofVariant::Compressed => {},
        _ => { return Err(Defect::NotCompressed); },
    }
    match BootInfo::decode(proof.public_values.as_slice()) {
        None => Err(Defect::UnreadableBootInfo),
        Some(info) => {
            if same_hash(&info.rollup_config_hash, &registry.rollup_config_hash) {
                Ok(info)
            } else {
                Err(Defect::ConfigMismatch)
            }
        },
    }
}

/// Composes an aggregation request: decodes the head, refuses an empty
/// list, refuses a list with a sub-proof that did not decode, and reads
/// the boot info of every sub-proof, in order, against the registry.
pub fn compose(registry: &VerifyingKeyRegistry, subproofs: &Vec<Option<SubProof>>, head: &str) -> (r:
    Result<Composition, ComposeFailure>)
    ensures
        match r {
            Ok(c) => composition(*registry, subproofs_view(subproofs@), head.spec_bytes()) == Ok::<
                CompositionView,
                ComposeFailure,
            >(c@),
            Err(f) => composition(*registry, subproofs_view(subproofs@), head.spec_bytes()) == Err::<
                CompositionView,
                ComposeFailure,
            >(f),
        },
{
    let ghost views = subproofs_view(subproofs@);
    let ghost head_bytes = head.spec_bytes();
    let l1_head = match decode_l1_head(head) {
        Ok(h) => h,
        Err(f) => { return Err(f); },
    };
    if subproofs.len() == 0 {
        return Err(ComposeFailure::NothingToAggregate);
    }
    let mut i: usize = 0;
    while i < subproofs.len()
        invariant
            i <= subproofs.len(),
            subproofs.len() > 0,
            views == subproofs_view(subproofs@),
            head_bytes == head.spec_bytes(),
            head_value(head_bytes) == Ok::<Seq<u8>, ComposeFailure>(l1_head@),
            forall|j: int| 0 <= j < i ==> (#[trigger] views[j]) is Some,
        decreases subproofs.len() - i,
    {
        if subproofs[i].is_none() {
            proof {
                assert(views[i as int] is None);
                lemma_first_where(views, is_unreadable(), i as int);
            }
            return Err(ComposeFailure::UnreadableSubProof(i));
        }
        assert(views[i as int] is Some);
        i = i + 1;
    }
    proof {
        lemma_first_where(views, is_unreadable(), views.len() as int);
    }
    let mut boot_infos: Vec<BootInfo> = Vec::new();
    let mut k: usize = 0;
    while k < subproofs.len()
        invariant
            k <= subproofs.len(),
            subproofs.len() > 0,
            views == subproofs_view(subproofs@),
            head_bytes == head.spec_bytes(),
            head_value(head_bytes) == Ok::<Seq<u8>, ComposeFailure>(l1_head@),
            first_where(views, is_unreadable()) == views.len(),
            boot_infos@.len() == k,
            forall|j: int| 0 <= j < views.len() ==> (#[trigger] views[j]) is Some,
            forall|j: int| 0 <= j < k ==> !is_defective(*registry)(#[trigger] views[j]),
            forall|j: int|
                0 <= j < k ==> (#[trigger] boot_infos@[j])@ == parse_boot_info(
                    views[j].unwrap().public_values,
                ).unwrap(),
        decreases subproofs.len() - k,
    {
        assert(views[k as int] is Some);
        match &subproofs[k] {
            None => {
                assert(false);
            },
            Some(proof) => {
                assert(views[k as int] == Some(proof@));
                match inspect_subproof(registry, proof) {
                    Err(d) => {
                        proof {
                            assert(is_defective(*registry)(views[k as int]));
                            lemma_first_where(views, is_defective(*registry), k as int);
                        }
                        return Err(ComposeFailure::DefectiveSubProof(k, d));
                    },
                    Ok(info) => {
                        boot_infos.push(info);
                    },
                }
            },
        }
        k = k + 1;
    }
    proof {
        lemma_first_where(views, is_defective(*registry), views.len() as int);
    }
    let c = Composition { l1_head, boot_infos };
    proof {
        let expected = composition(*registry, views, head_bytes);
        assert(expected is Ok);
        assert(c@.boot_infos =~= expected.unwrap().boot_infos);
    }
    Ok(c)
}

/// What a single saved proof gives an aggregation: itself and its boot
/// info, each as a list of one. `None` if its public values do not start
/// with a boot info.
pub fn load_aggregation_proof_data(proof: SubProof) -> (r: Option<(Vec<SubProof>, Vec<BootInfo>)>)
    ensures
        match r {
            Some((proofs, boot_infos)) => {
                &&& proofs@ == seq![proof]
                &&& boot_infos@.len() == 1
                &&& parse_boot_info(proof@.public_values) == Some(boot_infos@[0]@)
            },
            None => parse_boot_info(proof@.public_values) is None,
        },
{
    match BootInfo::decode(proof.public_values.as_slice()) {
        None => None,
        Some(info) => {
            let mut proofs: Vec<SubProof> = Vec::new();
            proofs.push(proof);
            let mut boot_infos: Vec<BootInfo> = Vec::new();
            boot_infos.push(info);
            assert(proofs@ =~= seq![proof]);
            Some((proofs, boot_infos))
        },
    }
}

/// Whether `headers` bridge the aggregation head down to every boot
/// info's L1 head: the chain is not empty, it ends in the aggregation
/// head, each header names its predecessor as parent and has the next
/// block number, and every boot info's L1 head is one of its blocks.
pub open spec fn headers_bridge(
    headers: Seq<HeaderPreimage>,
    boot_infos: Seq<BootInfoView>,
    l1_head: Seq<u8>,
) -> bool {
    &&& headers.len() > 0
    &&& headers[headers.len() - 1].hash@ == l1_head
    &&& chain_linked(headers, headers.len() as int)
    &&& forall|k: int| 0 <= k < boot_infos.len() ==> on_chain(headers, (#[trigger] boot_infos[k]).l1_head)
}

/// The first `n` headers form a chain.
pub open spec fn chain_linked(headers: Seq<HeaderPreimage>, n: int) -> bool {
    forall|i: int| 1 <= i < n ==> linked(headers[i - 1], #[trigger] headers[i])
}

/// `next` is the block after `prev`.
pub open spec fn linked(prev: HeaderPreimage, next: HeaderPreimage) -> bool {
    next.parent_hash@ == prev.hash@ && next.number == prev.number + 1
}

/// `hash` is the hash of one of the headers.
pub open spec fn on_chain(headers: Seq<HeaderPreimage>, hash: Seq<u8>) -> bool {
    exists|i: int| 0 <= i < headers.len() && (#[trigger] headers[i]).hash@ == hash
}

fn find_header(headers: &Vec<HeaderPreimage>, hash: &[u8; 32]) -> (found: bool)
    ensures
        found == on_chain(headers@, hash@),
{
    let mut i: usize = 0;
    while i < headers.len()
        invariant
            i <= headers.len(),
            forall|j: int| 0 <= j < i ==> (#[trigger] headers@[j]).hash@ != hash@,
        decreases headers.len() - i,
    {
        if same_hash(&headers[i].hash, hash) {
            assert(headers@[i as int].hash@ == hash@);
            return true;
        }
        i = i + 1;
    }
    false
}

/// Checks that the resolved headers bridge the aggregation head down to
/// every boot info's L1 head.
pub fn check_header_chain(
    headers: &Vec<HeaderPreimage>,
    boot_infos: &Vec<BootInfo>,
    l1_head: &[u8; 32],
) -> (ok: bool)
    ensures
        ok == headers_bridge(headers@, boot_infos_view(boot_infos@), l1_head@),
{
    let ghost infos = boot_infos_view(boot_infos@);
    if headers.len() == 0 {
        return false;
    }
    if !same_hash(&headers[headers.len() - 1].hash, l1_head) {
        return false;
    }
    let mut i: usize = 1;
    while i < headers.len()
        invariant
            1 <= i <= headers.len(),
            chain_linked(headers@, i as int),
        decreases headers.len() - i,
    {
        let prev = &headers[i - 1];
        let next = &headers[i];
        if !same_hash(&next.parent_hash, &prev.hash) || prev.number == u64::MAX || next.number
            != prev.number + 1 {
            assert(!linked(headers@[i - 1], headers@[i as int]));
            return false;
        }
        i = i + 1;
    }
    let mut k: usize = 0;
    while k < boot_infos.len()
        invariant
            k <= boot_infos.len(),
            infos == boot_infos_view(boot_infos@),
            forall|j: int| 0 <= j < k ==> on_chain(headers@, (#[trigger] infos[j]).l1_head),
        decreases boot_infos.len() - k,
    {
        if !find_header(headers, &boot_infos[k].l1_head) {
            assert(infos[k as int].l1_head == boot_infos@[k as int].l1_head@);
            return false;
        }
        assert(infos[k as int].l1_head == boot_infos@[k as int].l1_head@);
        k = k + 1;
    }
    true
}

/// Block numbers grow by one along a chain.
pub proof fn lemma_chain_numbers(headers: Seq<HeaderPreimage>, i: int, j: int)
    requires
        chain_linked(headers, headers.len() as int),
        0 <= i <= j < headers.len(),
    ensures
        headers[j].number == headers[i].number + (j - i),
    decreases j - i,
{
    if i < j {
        lemma_chain_numbers(headers, i, j - 1);
        assert(linked(headers[j - 1], headers[j]));
    }
}

/// Where the headers bridge, the aggregation head is the hash of the last
/// header, and every boot info's L1 head is the hash of a header whose
/// block number is not above the last one's.
pub proof fn lemma_bridge_orders_heads(
    headers: Seq<HeaderPreimage>,
    boot_infos: Seq<BootInfoView>,
    l1_head: Seq<u8>,
    k: int,
)
    requires
        headers_bridge(headers, boot_infos, l1_head),
        0 <= k < boot_infos.len(),
    ensures
        exists|i: int|
            0 <= i < headers.len() && (#[trigger] headers[i]).hash@ == boot_infos[k].l1_head
                && headers[i].number <= headers[headers.len() - 1].number,
{
    assert(on_chain(headers, boot_infos[k].l1_head));
    let i = choose|i: int| 0 <= i < headers.len() && (#[trigger] headers[i]).hash@ == boot_infos[k].l1_head;
    lemma_chain_numbers(headers, i, headers.len() - 1);
}

/// A compressed proof whose public values were written from a boot info
/// gives that boot info back, field for field, whatever follows it in the
/// buffer; it is defective only if the boot info names another rollup
/// configuration than the registry.
pub proof fn lemma_compressed_proof_keeps_boot_info(
    registry: VerifyingKeyRegistry,
    info: BootInfoView,
    rest: Seq<u8>,
)
    requires
        info.wf(),
    ensures
        ({
            let proof = SubProofView {
                variant: ProofVariant::Compressed,
                public_values: boot_info_bytes(info) + rest,
            };
            &&& parse_boot_info(proof.public_values) == Some(info)
            &&& defect_of(registry, proof) == if info.rollup_config_hash
                == registry.rollup_config_hash@ {
                None
            } else {
                Some(Defect::ConfigMismatch)
            }
        }),
{
    lemma_boot_info_round_trip(info, rest);
}

/// A head without the `0x` prefix, an empty list and a list with a
/// sub-proof that did not decode are all refused, each with a failure of
/// its own.
pub proof fn lemma_composition_refusals(
    registry: VerifyingKeyRegistry,
    subproofs: Seq<Option<SubProofView>>,
    head: Seq<u8>,
)
    ensures
        !has_0x_prefix(head) ==> composition(registry, subproofs, head) == Err::<
            CompositionView,
            ComposeFailure,
        >(ComposeFailure::MissingPrefix),
        (head_value(head) is Ok && subproofs.len() == 0) ==> composition(registry, subproofs, head)
            == Err::<CompositionView, ComposeFailure>(ComposeFailure::NothingToAggregate),
        (head_value(head) is Ok && exists|i: int|
            0 <= i < subproofs.len() && (#[trigger] subproofs[i]) is None) ==> composition(
            registry,
            subproofs,
            head,
        ) matches Err(ComposeFailure::UnreadableSubProof(_)),
        composition(registry, subproofs, head) matches Err(f) ==> compose_error(f).kind
            == ErrorKind::ClientInput,
{
    if head_value(head) is Ok && exists|i: int|
        0 <= i < subproofs.len() && (#[trigger] subproofs[i]) is None {
        let i = choose|i: int| 0 <= i < subproofs.len() && (#[trigger] subproofs[i]) is None;
        let bad = is_unreadable();
        lemma_first_where_bounds(subproofs, bad);
        if first_where(subproofs, bad) == subproofs.len() {
            assert(!bad(subproofs[i]));
        }
    }
}

/// `first_where` is a position of `s` or its end, nothing before it is
/// bad, and the element at it, if there is one, is.
pub proof fn lemma_first_where_bounds<T>(s: Seq<T>, bad: spec_fn(T) -> bool)
    ensures
        0 <= first_where(s, bad) <= s.len(),
        forall|j: int| 0 <= j < first_where(s, bad) ==> !bad(#[trigger] s[j]),
        first_where(s, bad) < s.len() ==> bad(s[first_where(s, bad)]),
    decreases s.len(),
{
    if s.len() != 0 && !bad(s[0]) {
        let t = s.skip(1);
        lemma_first_where_bounds(t, bad);
        assert forall|j: int| 0 <= j < first_where(s, bad) implies !bad(#[trigger] s[j]) by {
            if j > 0 {
                assert(s[j] == t[j - 1]);
            }
        }
        if first_where(s, bad) < s.len() {
            assert(s[first_where(s, bad)] == t[first_where(t, bad)]);
        }
    }
}

} // verus!
