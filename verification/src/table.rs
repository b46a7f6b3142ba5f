//! The XOR lookup table: 1024 fixed rows, one per pair `(lhs, rhs)` with
//! both operands below 32, each row holding `(lhs, rhs, lhs ^ rhs)`. Rows
//! are laid out with `lhs` as the outer counter, so the pair `(lhs, rhs)`
//! stands at index `32 * lhs + rhs`. The table is rebuilt identically for
//! every circuit instance and depends on no witness value.

use vstd::prelude::*;

verus! {

use vstd::arithmetic::div_mod::lemma_fundamental_div_mod;
use vstd::arithmetic::div_mod::lemma_fundamental_div_mod_converse;

/// The table row that belongs at index `i`.
pub open spec fn xor_table_entry(i: int) -> (u64, u64, u64) {
    (((i / 32) as u64), ((i % 32) as u64), (((i / 32) as u64) ^ ((i % 32) as u64)))
}

/// A sequence of triples is the XOR table: exactly 1024 rows, the row at
/// each index being the one for that index's `(lhs, rhs)` pair.
pub open spec fn is_xor_table(t: Seq<(u64, u64, u64)>) -> bool {
    t.len() == 1024 && forall|i: int| 0 <= i < 1024 ==> #[trigger] t[i] == xor_table_entry(i)
}

/// A triple appears somewhere among a table's rows.
pub open spec fn table_contains(t: Seq<(u64, u64, u64)>, e: (u64, u64, u64)) -> bool {
    exists|i: int| 0 <= i < t.len() && #[trigger] t[i] == e
}

/// The index arithmetic of the row layout: the pair `(l, r)` is recovered
/// from the index `32 * l + r` by division and remainder.
proof fn lemma_row_index(l: int, r: int)
    requires
        0 <= l < 32,
        0 <= r < 32,
    ensures
        (32 * l + r) / 32 == l,
        (32 * l + r) % 32 == r,
{
    lemma_fundamental_div_mod_converse(32 * l + r, 32, l, r);
}

/// Every index below 1024 splits into a quotient and remainder below 32.
proof fn lemma_index_bounds(i: int)
    requires
        0 <= i < 1024,
    ensures
        0 <= i / 32 < 32,
        0 <= i % 32 < 32,
        i == 32 * (i / 32) + i % 32,
{
    lemma_fundamental_div_mod(i, 32);
    vstd::arithmetic::div_mod::lemma_mod_bound(i, 32);
}

/// Materializes the XOR table, iterating `lhs` then `rhs` over `[0, 32)` and
/// assigning sequential row indices starting at 0.
pub fn load_xor_table() -> (rows: Vec<(u64, u64, u64)>)
    ensures
        is_xor_table(rows@),
{
    let mut rows: Vec<(u64, u64, u64)> = Vec::new();
    let mut lhs: u64 = 0;
    while lhs < 32
        invariant
            lhs <= 32,
            rows@.len() == 32 * lhs,
            forall|i: int| 0 <= i < rows@.len() ==> #[trigger] rows@[i] == xor_table_entry(i),
        decreases 32 - lhs,
    {
        let mut rhs: u64 = 0;
        while rhs < 32
            invariant
                lhs < 32,
                rhs <= 32,
                rows@.len() == 32 * lhs + rhs,
                forall|i: int| 0 <= i < rows@.len() ==> #[trigger] rows@[i] == xor_table_entry(i),
            decreases 32 - rhs,
        {
            proof {
                lemma_row_index(lhs as int, rhs as int);
            }
            rows.push((lhs, rhs, lhs ^ rhs));
            rhs = rhs + 1;
        }
        lhs = lhs + 1;
    }
    rows
}

/// The XOR table is exhaustive and duplicate-free over its domain: it has
/// exactly 1024 rows; for every pair of operands below 32 the row holding
/// them and their XOR stands at index `32 * lhs + rhs`; no two rows are
/// equal; and every row is of that form, so no other rows exist.
pub proof fn lemma_xor_table_exhaustive(t: Seq<(u64, u64, u64)>)
    requires
        is_xor_table(t),
    ensures
        t.len() == 1024,
        forall|l: u64, r: u64|
            l < 32 && r < 32 ==> #[trigger] t[32 * l + r] == (l, r, (l ^ r)),
        forall|i: int, j: int| 0 <= i < 1024 && 0 <= j < 1024 && i != j ==> t[i] != t[j],
        forall|i: int|
            0 <= i < 1024 ==> (#[trigger] t[i]).0 < 32 && t[i].1 < 32 && t[i].2 == t[i].0 ^ t[i].1,
{
    assert forall|l: u64, r: u64| l < 32 && r < 32 implies #[trigger] t[32 * l + r] == (
        l,
        r,
        (l ^ r),
    ) by {
        lemma_row_index(l as int, r as int);
        assert(t[32 * l + r] == xor_table_entry(32 * l + r));
    };
    assert forall|i: int| 0 <= i < 1024 implies (#[trigger] t[i]).0 < 32 && t[i].1 < 32 && t[i].2
        == t[i].0 ^ t[i].1 by {
        lemma_index_bounds(i);
        assert(t[i] == xor_table_entry(i));
    };
    assert forall|i: int, j: int|
        0 <= i < 1024 && 0 <= j < 1024 && i != j implies t[i] != t[j] by {
        lemma_index_bounds(i);
        lemma_index_bounds(j);
        if t[i] == t[j] {
            assert(((i / 32) as u64) == ((j / 32) as u64));
            assert(((i % 32) as u64) == ((j % 32) as u64));
            assert(i / 32 == j / 32);
            assert(i % 32 == j % 32);
        }
    };
}

/// Membership in the XOR table pins the triple down: a triple is a row of
/// the table exactly when its operands are below 32 and its third component
/// is their XOR. Operands outside the domain match no row at all.
pub proof fn lemma_xor_table_membership(t: Seq<(u64, u64, u64)>, a: u64, b: u64, c: u64)
    requires
        is_xor_table(t),
    ensures
        table_contains(t, (a, b, (c))) <==> (a < 32 && b < 32 && c == a ^ b),
{
    lemma_xor_table_exhaustive(t);
    if a < 32 && b < 32 && c == a ^ b {
        assert(t[32 * a + b] == (a, b, (a ^ b)));
        assert(0 <= 32 * a + b < t.len());
        assert(table_contains(t, (a, b, (c))));
    }
    if table_contains(t, (a, b, (c))) {
        let i = choose|i: int| 0 <= i < t.len() && #[trigger] t[i] == (a, b, (c));
        assert(t[i].0 < 32 && t[i].1 < 32 && t[i].2 == t[i].0 ^ t[i].1);
    }
}

} // verus!
