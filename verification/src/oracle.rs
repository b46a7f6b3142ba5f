//! The reference oracle: the recurrence computed in plain unsigned integer
//! arithmetic, independent of any constraint system. It supplies the expected
//! witness values and the ground truth the circuit is held against.

use vstd::prelude::*;

verus! {

/// Bitwise XOR of two terms as the circuit computes it: on the low 64 bits.
pub open spec fn term_xor(x: int, y: int) -> int {
    ((x as u64) ^ (y as u64)) as int
}

/// The `i`-th term of the recurrence seeded with `(a, b, c)`: the first three
/// terms are the seeds, and every later term is the term three positions back
/// plus the XOR of the two terms immediately preceding it.
pub open spec fn seq_term(a: u64, b: u64, c: u64, i: nat) -> int
    decreases i,
{
    if i == 0 {
        a as int
    } else if i == 1 {
        b as int
    } else if i == 2 {
        c as int
    } else {
        seq_term(a, b, c, (i - 3) as nat) + term_xor(
            seq_term(a, b, c, (i - 2) as nat),
            seq_term(a, b, c, (i - 1) as nat),
        )
    }
}

/// Every term of the recurrence is nonnegative.
pub proof fn lemma_term_nonneg(a: u64, b: u64, c: u64, i: nat)
    ensures
        seq_term(a, b, c, i) >= 0,
    decreases i,
{
    if i >= 3 {
        lemma_term_nonneg(a, b, c, (i - 3) as nat);
    }
}

/// The first `n` terms of the recurrence all fit in a 64-bit word, so the
/// oracle can compute them without overflow.
pub open spec fn terms_fit(a: u64, b: u64, c: u64, n: nat) -> bool {
    forall|i: nat| i < n ==> seq_term(a, b, c, i) <= u64::MAX
}

/// Computes the first `num` terms of the recurrence seeded with `(a, b, c)`.
pub fn get_sequence(a: u64, b: u64, c: u64, num: usize) -> (seq: Vec<u64>)
    requires
        3 <= num,
        terms_fit(a, b, c, num as nat),
    ensures
        seq@.len() == num,
        forall|i: int| 0 <= i < num ==> #[trigger] seq@[i] == seq_term(a, b, c, i as nat),
{
    let mut seq: Vec<u64> = Vec::new();
    seq.push(a);
    seq.push(b);
    seq.push(c);
    let mut i: usize = 3;
    while i < num
        invariant
            3 <= i <= num,
            terms_fit(a, b, c, num as nat),
            seq@.len() == i,
            forall|j: int| 0 <= j < i ==> #[trigger] seq@[j] == seq_term(a, b, c, j as nat),
        decreases num - i,
    {
        let x = seq[i - 2] ^ seq[i - 1];
        proof {
            lemma_term_nonneg(a, b, c, (i - 3) as nat);
            assert(seq@[i - 2] == seq_term(a, b, c, (i - 2) as nat));
            assert(seq@[i - 1] == seq_term(a, b, c, (i - 1) as nat));
            assert(x as int == term_xor(
                seq_term(a, b, c, (i - 2) as nat),
                seq_term(a, b, c, (i - 1) as nat),
            ));
            assert(seq_term(a, b, c, i as nat) == seq_term(a, b, c, (i - 3) as nat) + x);
            assert(seq_term(a, b, c, i as nat) <= u64::MAX);
        }
        let t = seq[i - 3] + x;
        seq.push(t);
        i = i + 1;
    }
    seq
}

/// The recurrence itself, for every choice of seeds and every position,
/// with no bound at all: the first three terms are the seeds, and each
/// later term is the term three positions back plus the XOR of the two
/// terms immediately before it.
pub proof fn lemma_term_recurrence(a: u64, b: u64, c: u64, i: nat)
    requires
        3 <= i,
    ensures
        seq_term(a, b, c, 0) == a,
        seq_term(a, b, c, 1) == b,
        seq_term(a, b, c, 2) == c,
        seq_term(a, b, c, i) == seq_term(a, b, c, (i - 3) as nat) + term_xor(
            seq_term(a, b, c, (i - 2) as nat),
            seq_term(a, b, c, (i - 1) as nat),
        ),
{
}

/// The oracle's sequence satisfies the recurrence: a sequence that agrees
/// with the oracle's terms opens with the three seeds, and from position 3 on
/// each term equals the term three positions back plus the XOR of the two
/// terms immediately before it.
pub proof fn lemma_oracle_recurrence(s: Seq<u64>, a: u64, b: u64, c: u64)
    requires
        s.len() >= 3,
        forall|i: int| 0 <= i < s.len() ==> #[trigger] s[i] == seq_term(a, b, c, i as nat),
    ensures
        s[0] == a,
        s[1] == b,
        s[2] == c,
        forall|i: int| 3 <= i < s.len() ==> #[trigger] (s[i] as int) == s[i - 3] + (s[i - 2]
            ^ s[i - 1]),
{
    assert(s[0] == seq_term(a, b, c, 0));
    assert(s[1] == seq_term(a, b, c, 1));
    assert(s[2] == seq_term(a, b, c, 2));
    assert forall|i: int| 3 <= i < s.len() implies #[trigger] (s[i] as int) == s[i - 3] + (s[i - 2]
        ^ s[i - 1]) by {
        assert(s[i] == seq_term(a, b, c, i as nat));
        assert(s[i - 3] == seq_term(a, b, c, (i - 3) as nat));
        assert(s[i - 2] == seq_term(a, b, c, (i - 2) as nat));
        assert(s[i - 1] == seq_term(a, b, c, (i - 1) as nat));
        assert(seq_term(a, b, c, i as nat) == seq_term(a, b, c, (i - 3) as nat) + term_xor(
            seq_term(a, b, c, (i - 2) as nat),
            seq_term(a, b, c, (i - 1) as nat),
        ));
    };
}



/// Computes the first `num` terms like `get_sequence`, but checks for
/// itself that every term fits in a 64-bit word: the sequence exactly when
/// they all do, and nothing when one would overflow.
pub fn try_get_sequence(a: u64, b: u64, c: u64, num: usize) -> (r: Option<Vec<u64>>)
    requires
        3 <= num,
    ensures
        r is Some <==> terms_fit(a, b, c, num as nat),
        (match r {
            Some(seq) => seq@.len() == num && forall|i: int|
                0 <= i < num ==> #[trigger] seq@[i] == seq_term(a, b, c, i as nat),
            None => !terms_fit(a, b, c, num as nat),
        }),
{
    let mut seq: Vec<u64> = Vec::new();
    seq.push(a);
    seq.push(b);
    seq.push(c);
    let mut i: usize = 3;
    while i < num
        invariant
            3 <= i <= num,
            seq@.len() == i,
            forall|j: int| 0 <= j < i ==> #[trigger] seq@[j] == seq_term(a, b, c, j as nat),
        decreases num - i,
    {
        let x = seq[i - 2] ^ seq[i - 1];
        proof {
            lemma_term_nonneg(a, b, c, (i - 3) as nat);
            assert(x as int == term_xor(
                seq_term(a, b, c, (i - 2) as nat),
                seq_term(a, b, c, (i - 1) as nat),
            ));
            assert(seq_term(a, b, c, i as nat) == seq_term(a, b, c, (i - 3) as nat) + x);
        }
        if (seq[i - 3] as u128) + (x as u128) > (u64::MAX as u128) {
            proof {
                assert(seq_term(a, b, c, i as nat) > u64::MAX);
            }
            return None;
        }
        let t = seq[i - 3] + x;
        seq.push(t);
        i = i + 1;
    }
    proof {
        assert forall|j: nat| j < num as nat implies seq_term(a, b, c, j) <= u64::MAX by {
            assert(seq@[j as int] == seq_term(a, b, c, j));
        };
    }
    Some(seq)
}

} // verus!
