//! Job identifiers: a 64-bit value, shown to callers as the eighteen ASCII
//! bytes `0x` followed by sixteen lower-case hex digits.

use vstd::prelude::*;

verus! {

/// The lower-case hex digit for a value below sixteen.
pub open spec fn hex_char(n: u8) -> u8 {
    if n < 10 {
        (0x30 + n) as u8
    } else {
        (0x61 + n - 10) as u8
    }
}

/// The `i`-th hex digit of `v`, counted from the most significant one.
pub open spec fn nibble(v: u64, i: int) -> u8 {
    ((v >> ((60 - 4 * i) as u64)) & 0xf) as u8
}

/// The `j`-th digit of a text, after its two-byte prefix.
pub open spec fn digit_at(text: Seq<u8>, j: int) -> u8 {
    text[2 + j]
}

/// The text of the identifier with value `v`.
pub open spec fn job_id_text(v: u64) -> Seq<u8> {
    seq![0x30u8, 0x78u8] + Seq::new(16, |i: int| hex_char(nibble(v, i)))
}

/// The identifier value drawn from a 128-bit random value: its low 64 bits.
pub open spec fn job_id_of(uuid: u128) -> u64 {
    (uuid % 0x1_0000_0000_0000_0000) as u64
}

proof fn lemma_nibble_bound(v: u64, s: u64)
    by (bit_vector)
    ensures
        (v >> s) & 0xf < 16,
{
}

proof fn lemma_push_nibble(acc: u64, d: u64, s: u64)
    by (bit_vector)
    requires
        d < 16,
        s <= 56,
        acc >> 60 == 0,
    ensures
        (((acc << 4) | d) >> ((s + 4) as u64)) & 0xf == (acc >> s) & 0xf,
        ((acc << 4) | d) & 0xf == d,
        ((acc << 4) | d) >> 0 == (acc << 4) | d,
{
}

proof fn lemma_push_nibble_high(acc: u64, d: u64, s: u64)
    by (bit_vector)
    requires
        d < 16,
        s <= 60,
        acc >> s == 0,
    ensures
        s <= 56 ==> ((acc << 4) | d) >> ((s + 4) as u64) == 0,
        acc >> 60 == 0,
{
}

proof fn lemma_nibbles_determine(a: u64, b: u64)
    by (bit_vector)
    requires
        (a >> 60) & 0xf == (b >> 60) & 0xf,
        (a >> 56) & 0xf == (b >> 56) & 0xf,
        (a >> 52) & 0xf == (b >> 52) & 0xf,
        (a >> 48) & 0xf == (b >> 48) & 0xf,
        (a >> 44) & 0xf == (b >> 44) & 0xf,
        (a >> 40) & 0xf == (b >> 40) & 0xf,
        (a >> 36) & 0xf == (b >> 36) & 0xf,
        (a >> 32) & 0xf == (b >> 32) & 0xf,
        (a >> 28) & 0xf == (b >> 28) & 0xf,
        (a >> 24) & 0xf == (b >> 24) & 0xf,
        (a >> 20) & 0xf == (b >> 20) & 0xf,
        (a >> 16) & 0xf == (b >> 16) & 0xf,
        (a >> 12) & 0xf == (b >> 12) & 0xf,
        (a >> 8) & 0xf == (b >> 8) & 0xf,
        (a >> 4) & 0xf == (b >> 4) & 0xf,
        (a >> 0) & 0xf == (b >> 0) & 0xf,
    ensures
        a == b,
{
}

/// Every digit of an identifier's text is a value below sixteen.
pub proof fn lemma_nibble_is_digit(v: u64, i: int)
    requires
        0 <= i < 16,
    ensures
        nibble(v, i) < 16,
{
    lemma_nibble_bound(v, (60 - 4 * i) as u64);
}

/// Equal digits at one position are equal four-bit fields of the values.
proof fn lemma_same_nibble(a: u64, b: u64, i: int)
    requires
        0 <= i < 16,
        nibble(a, i) == nibble(b, i),
    ensures
        (a >> ((60 - 4 * i) as u64)) & 0xf == (b >> ((60 - 4 * i) as u64)) & 0xf,
{
    lemma_nibble_bound(a, (60 - 4 * i) as u64);
    lemma_nibble_bound(b, (60 - 4 * i) as u64);
}

/// Two identifier values with the same text are the same value.
pub proof fn lemma_job_id_text_injective(a: u64, b: u64)
    requires
        job_id_text(a) == job_id_text(b),
    ensures
        a == b,
{
    assert forall|i: int| 0 <= i < 16 implies nibble(a, i) == nibble(b, i) by {
        lemma_nibble_is_digit(a, i);
        lemma_nibble_is_digit(b, i);
        assert(job_id_text(a)[2 + i] == hex_char(nibble(a, i)));
        assert(job_id_text(b)[2 + i] == hex_char(nibble(b, i)));
    }
    lemma_same_nibble(a, b, 0);
    lemma_same_nibble(a, b, 1);
    lemma_same_nibble(a, b, 2);
    lemma_same_nibble(a, b, 3);
    lemma_same_nibble(a, b, 4);
    lemma_same_nibble(a, b, 5);
    lemma_same_nibble(a, b, 6);
    lemma_same_nibble(a, b, 7);
    lemma_same_nibble(a, b, 8);
    lemma_same_nibble(a, b, 9);
    lemma_same_nibble(a, b, 10);
    lemma_same_nibble(a, b, 11);
    lemma_same_nibble(a, b, 12);
    lemma_same_nibble(a, b, 13);
    lemma_same_nibble(a, b, 14);
    lemma_same_nibble(a, b, 15);
    lemma_nibbles_determine(a, b);
}

/// Renders an identifier value as its text.
pub fn job_id_bytes(v: u64) -> (id: Vec<u8>)
    ensures
        id@ == job_id_text(v),
{
    let mut id: Vec<u8> = Vec::new();
    id.push(0x30u8);
    id.push(0x78u8);
    let mut i: u64 = 0;
    while i < 16
        invariant
            i <= 16,
            id@.len() == 2 + i,
            id@[0] == 0x30u8,
            id@[1] == 0x78u8,
            forall|j: int| 0 <= j < i ==> #[trigger] digit_at(id@, j) == hex_char(nibble(v, j)),
        decreases 16 - i,
    {
        let shift: u64 = 60 - 4 * i;
        let d: u64 = (v >> shift) & 0xf;
        proof {
            lemma_nibble_bound(v, shift);
        }
        let n: u8 = d as u8;
        let c: u8 = if n < 10 {
            0x30 + n
        } else {
            0x61 + (n - 10)
        };
        let ghost before = id@;
        id.push(c);
        proof {
            assert(n == nibble(v, i as int));
            assert forall|j: int| 0 <= j < i + 1 implies #[trigger] digit_at(id@, j) == hex_char(
                nibble(v, j),
            ) by {
                if j < i {
                    assert(digit_at(id@, j) == digit_at(before, j));
                }
            }
        }
        i = i + 1;
    }
    assert forall|k: int| 2 <= k < 18 implies id@[k] == job_id_text(v)[k] by {
        assert(id@[k] == digit_at(id@, k - 2));
    }
    assert(id@ =~= job_id_text(v));
    id
}

/// The identifier that a request gets from a 128-bit random value: `0x`
/// and the sixteen lower-case hex digits of its low 64 bits.
pub fn uuid_to_hex_bytes(uuid: u128) -> (id: Vec<u8>)
    ensures
        id@ == job_id_text(job_id_of(uuid)),
{
    let low: u64 = (uuid % 0x1_0000_0000_0000_0000u128) as u64;
    job_id_bytes(low)
}

fn lower_hex_value(c: u8) -> (r: Option<u8>)
    ensures
        match r {
            Some(d) => d < 16 && hex_char(d) == c,
            None => forall|d: u8| d < 16 ==> hex_char(d) != c,
        },
{
    if 0x30 <= c && c <= 0x39 {
        Some(c - 0x30)
    } else if 0x61 <= c && c <= 0x66 {
        Some(c - 0x61 + 10)
    } else {
        None
    }
}

/// Reads an identifier's text back: `Some(v)` exactly for the text of `v`,
/// `None` for every byte string that is no identifier's text.
pub fn parse_job_id(text: &[u8]) -> (r: Option<u64>)
    ensures
        match r {
            Some(v) => text@ == job_id_text(v),
            None => forall|v: u64| text@ != #[trigger] job_id_text(v),
        },
{
    if text.len() != 18 || text[0] != 0x30u8 || text[1] != 0x78u8 {
        return None;
    }
    let mut acc: u64 = 0;
    let mut i: u64 = 0;
    assert(0u64 >> 0 == 0) by (bit_vector);
    while i < 16
        invariant
            i <= 16,
            text@.len() == 18,
            text@[0] == 0x30u8,
            text@[1] == 0x78u8,
            i < 16 ==> acc >> ((4 * i) as u64) == 0,
            forall|j: int|
                0 <= j < i ==> #[trigger] digit_at(text@, j) == hex_char(
                    ((acc >> ((4 * (i - 1 - j)) as u64)) & 0xf) as u8,
                ),
        decreases 16 - i,
    {
        let c: u8 = text[(2 + i) as usize];
        match lower_hex_value(c) {
            None => {
                assert forall|v: u64| text@ != #[trigger] job_id_text(v) by {
                    lemma_nibble_is_digit(v, i as int);
                    assert(job_id_text(v)[2 + i] == hex_char(nibble(v, i as int)));
                }
                return None;
            },
            Some(d) => {
                let ghost old_acc = acc;
                proof {
                    lemma_push_nibble_high(acc, d as u64, (4 * i) as u64);
                    assert((4 * i + 4) as u64 == (4 * (i + 1)) as u64);
                }
                acc = (acc << 4) | (d as u64);
                proof {
                    assert forall|j: int| 0 <= j < i + 1 implies #[trigger] digit_at(text@, j)
                        == hex_char(((acc >> ((4 * (i + 1 - 1 - j)) as u64)) & 0xf) as u8) by {
                        if j < i {
                            let s: u64 = (4 * (i - 1 - j)) as u64;
                            lemma_push_nibble(old_acc, d as u64, s);
                            lemma_nibble_bound(old_acc, s);
                            assert((s + 4) as u64 == (4 * (i + 1 - 1 - j)) as u64);
                        } else {
                            lemma_push_nibble(old_acc, d as u64, 0);
                            assert((4 * (i + 1 - 1 - j)) as u64 == 0);
                        }
                    }
                }
                i = i + 1;
            },
        }
    }
    proof {
        assert forall|j: int| 0 <= j < 16 implies #[trigger] digit_at(text@, j) == hex_char(
            nibble(acc, j),
        ) by {
            assert((4 * (16 - 1 - j)) as u64 == (60 - 4 * j) as u64);
        }
        assert forall|k: int| 2 <= k < 18 implies text@[k] == job_id_text(acc)[k] by {
            assert(text@[k] == digit_at(text@, k - 2));
        }
        assert(text@ =~= job_id_text(acc));
    }
    Some(acc)
}

/// Among any identifiers, at most one has a given text: the one whose
/// text it is names the job, if the job is there, and nothing else does.
pub proof fn lemma_job_id_text_unique(jobs: Set<u64>, job: u64, text: Seq<u8>)
    requires
        job_id_text(job) == text,
    ensures
        forall|other: u64| jobs.contains(other) && #[trigger] job_id_text(other) == text ==> other == job,
{
    assert forall|other: u64| jobs.contains(other) && #[trigger] job_id_text(other) == text implies other
        == job by {
        lemma_job_id_text_injective(other, job);
    }
}

} // verus!
