//! The prime field that carries every circuit value, and the algebraic form
//! of the addition gate: `selector * (lhs + rhs - out)`, a polynomial that
//! must evaluate to zero on every row.

use vstd::prelude::*;

verus! {

use vstd::arithmetic::div_mod::lemma_small_mod;
use vstd::arithmetic::div_mod::lemma_mod_multiples_vanish;

/// The order of the prime field over which all circuit values live: the base
/// field of the Pallas curve, the field the proving backend commits over.
pub open spec fn field_order() -> int {
    0x40000000000000000000000000000000224698fc094cf91b992d30ed00000001int
}

/// A mathematical integer is a canonical field element when it lies in
/// `[0, field_order())`.
pub open spec fn fe_wf(x: int) -> bool {
    0 <= x < field_order()
}

/// Addition in the field.
pub open spec fn fe_add(x: int, y: int) -> int {
    (x + y) % field_order()
}

/// Subtraction in the field.
pub open spec fn fe_sub(x: int, y: int) -> int {
    (x - y) % field_order()
}

/// Multiplication in the field.
pub open spec fn fe_mul(x: int, y: int) -> int {
    (x * y) % field_order()
}

/// The addition gate evaluated on one row: `s * ((lhs + rhs) - out)` in the
/// field, where `s` is the selector (0 or 1). A row satisfies the addition
/// constraint exactly when this polynomial is zero, so a disabled selector
/// makes the constraint vacuous by multiplying it away rather than by
/// skipping it.
pub open spec fn add_gate_poly(s: int, lhs: int, rhs: int, out: int) -> int {
    fe_mul(s, fe_sub(fe_add(lhs, rhs), out))
}

/// Every remainder by the field order lies in `[0, field_order())`.
proof fn lemma_fe_mod_range(x: int)
    ensures
        fe_wf(x % field_order()),
{
    vstd::arithmetic::div_mod::lemma_mod_bound(x, field_order());
}

/// With its selector disabled the addition gate holds of any row: the
/// polynomial is multiplied by zero.
pub proof fn lemma_add_gate_inactive(lhs: int, rhs: int, out: int)
    ensures
        add_gate_poly(0, lhs, rhs, out) == 0,
{
    let t = fe_sub(fe_add(lhs, rhs), out);
    assert(0 * t == 0);
    assert(0int % field_order() == 0) by {
        lemma_small_mod(0nat, field_order() as nat);
    }
}

/// Soundness of the addition gate with its selector enabled: the polynomial
/// vanishes exactly when `out` is the field sum of `lhs` and `rhs`. In
/// particular, tampering with `out` alone makes the row unsatisfiable.
pub proof fn lemma_add_gate_active(lhs: int, rhs: int, out: int)
    requires
        fe_wf(lhs),
        fe_wf(rhs),
        fe_wf(out),
    ensures
        add_gate_poly(1, lhs, rhs, out) == 0 <==> out == fe_add(lhs, rhs),
{
    let p = field_order();
    let d = fe_add(lhs, rhs);
    lemma_fe_mod_range(lhs + rhs);
    let t = fe_sub(d, out);
    lemma_fe_mod_range(d - out);
    assert(fe_mul(1, t) == t) by {
        assert(1 * t == t);
        lemma_small_mod(t as nat, p as nat);
    }
    if d == out {
        assert(t == 0) by {
            lemma_small_mod(0nat, p as nat);
        }
    } else if d > out {
        assert(t == d - out) by {
            lemma_small_mod((d - out) as nat, p as nat);
        }
    } else {
        assert((p * 1 + (d - out)) % p == (d - out) % p) by {
            lemma_mod_multiples_vanish(1, d - out, p);
        }
        assert(t == p + d - out) by {
            lemma_small_mod((p + d - out) as nat, p as nat);
        }
    }
}

/// On values below `2^64` field addition never wraps: the modulus is far
/// larger, so the field sum is the integer sum.
pub proof fn lemma_fe_add_no_wrap(x: int, y: int)
    requires
        0 <= x <= u64::MAX,
        0 <= y <= u64::MAX,
    ensures
        fe_add(x, y) == x + y,
{
    lemma_small_mod((x + y) as nat, field_order() as nat);
}

} // verus!
