//! The region synthesizer and the sequence orchestrator, over an arena
//! model of the witness table: a growing list of rows (three advice cells
//! and the two selector flags each) plus a list of equality edges between
//! cell coordinates. Values are linked across rows by those copy
//! constraints, never by adjacency. A cell either carries a concrete value
//! or is unknown, as during shape-only passes.

use vstd::prelude::*;

verus! {

use crate::field::add_gate_poly;
use crate::field::lemma_add_gate_active;
use crate::field::lemma_add_gate_inactive;
use crate::field::lemma_fe_add_no_wrap;
use crate::oracle::lemma_term_nonneg;
use crate::oracle::seq_term;
use crate::oracle::term_xor;
use crate::oracle::terms_fit;
use crate::table::is_xor_table;
use crate::table::load_xor_table;
use crate::table::lemma_xor_table_membership;
use crate::table::table_contains;

/// The single error of this core: a cell assignment asked for a concrete
/// value where only the circuit's shape was available, so synthesis of this
/// instance is abandoned. Range violations of the XOR operands are not an
/// error here: they surface later as an unsatisfiable instance.
#[derive(Clone, Copy, Debug, PartialEq, Eq, Structural)]
pub struct SynthesisError;

/// A cell coordinate in the witness table: a row index and an advice-column
/// index (0 holds the left operand, 1 the right operand, 2 the output).
#[derive(Clone, Copy, Debug, PartialEq, Eq, Structural)]
pub struct CellId {
    pub row: usize,
    pub col: usize,
}

/// An assigned-value handle: a cell together with the value assigned there,
/// usable later as the source of a copy constraint. Immutable once created.
#[derive(Clone, Copy, Debug)]
pub struct Number {
    pub cell: CellId,
    pub value: Option<u64>,
}

/// One row of the witness table: the three advice cells and the two
/// selector flags. A selector is enabled exactly where its constraint must
/// hold; elsewhere the constraint is vacuous.
#[derive(Clone, Copy, Debug)]
pub struct Row {
    pub lhs: Option<u64>,
    pub rhs: Option<u64>,
    pub out: Option<u64>,
    pub s_add: bool,
    pub s_xor: bool,
}

/// The witness table under construction: its rows, and the equality edges
/// that copy-constrain pairs of cells.
pub struct Trace {
    pub rows: Vec<Row>,
    pub copies: Vec<(CellId, CellId)>,
}

/// Whether an optional cell value is concrete.
pub open spec fn known(v: Option<u64>) -> bool {
    v is Some
}

/// The concrete value of a cell, as a mathematical integer.
pub open spec fn val(v: Option<u64>) -> int {
    v->Some_0 as int
}

/// The value held in one column of a row.
pub open spec fn col_value(r: Row, col: usize) -> Option<u64> {
    if col == 0 {
        r.lhs
    } else if col == 1 {
        r.rhs
    } else {
        r.out
    }
}

/// The value a trace holds at a cell coordinate; unknown outside the table.
pub open spec fn cell_value(tr: Trace, c: CellId) -> Option<u64> {
    if c.row < tr.rows@.len() && c.col < 3 {
        col_value(tr.rows@[c.row as int], c.col)
    } else {
        None
    }
}

/// A handle is consistent with a trace: it points inside the table, at a
/// cell that holds exactly the handle's value.
pub open spec fn handle_wf(tr: Trace, n: Number) -> bool {
    n.cell.row < tr.rows@.len() && n.cell.col < 3 && cell_value(tr, n.cell) == n.value
}

/// A selector flag as the field value it contributes to a polynomial.
pub open spec fn sel(b: bool) -> int {
    if b {
        1
    } else {
        0
    }
}

/// All three cells of a row carry concrete values.
pub open spec fn row_known(r: Row) -> bool {
    known(r.lhs) && known(r.rhs) && known(r.out)
}

/// The addition gate holds of a row: the selector times `lhs + rhs - out`
/// vanishes in the field, on every row, enabled or not.
pub open spec fn row_add_ok(r: Row) -> bool {
    add_gate_poly(sel(r.s_add), val(r.lhs), val(r.rhs), val(r.out)) == 0
}

/// A cell value scaled by a selector, as the lookup argument sees it: an
/// inactive selector turns the whole triple into zeros.
pub open spec fn scaled(s: bool, v: Option<u64>) -> u64 {
    if s {
        v->Some_0
    } else {
        0
    }
}

/// The XOR lookup holds of a row against a table: the selector-scaled
/// triple of its cells appears among the table's rows.
pub open spec fn row_xor_ok(r: Row, t: Seq<(u64, u64, u64)>) -> bool {
    table_contains(t, (scaled(r.s_xor, r.lhs), scaled(r.s_xor, r.rhs), scaled(r.s_xor, r.out)))
}

/// Every copy edge of a trace links two cells holding equal values.
pub open spec fn copies_ok(tr: Trace) -> bool {
    forall|k: int|
        0 <= k < tr.copies@.len() ==> cell_value(tr, (#[trigger] tr.copies@[k]).0) == cell_value(
            tr,
            tr.copies@[k].1,
        )
}

/// A fully assigned trace satisfies the whole constraint system against a
/// lookup table: every cell concrete, the addition gate and the XOR lookup
/// on every row, and every copy constraint.
pub open spec fn trace_satisfied(tr: Trace, t: Seq<(u64, u64, u64)>) -> bool {
    &&& forall|i: int| 0 <= i < tr.rows@.len() ==> row_known(#[trigger] tr.rows@[i])
    &&& forall|i: int| 0 <= i < tr.rows@.len() ==> row_add_ok(#[trigger] tr.rows@[i])
    &&& forall|i: int| 0 <= i < tr.rows@.len() ==> row_xor_ok(#[trigger] tr.rows@[i], t)
    &&& copies_ok(tr)
}

/// Soundness of the addition constraint on a row that enables it: it holds
/// exactly when the output cell is the integer sum of the operand cells
/// (64-bit values never wrap in the field), so tampering with the output
/// while the selector stays enabled makes the row unsatisfiable.
pub proof fn lemma_add_row_sound(r: Row)
    requires
        r.s_add,
        row_known(r),
    ensures
        row_add_ok(r) <==> val(r.out) == val(r.lhs) + val(r.rhs),
{
    lemma_add_gate_active(val(r.lhs), val(r.rhs), val(r.out));
    lemma_fe_add_no_wrap(val(r.lhs), val(r.rhs));
}

/// With the add selector off, the addition gate holds of any fully
/// assigned row: the polynomial is multiplied by zero.
pub proof fn lemma_add_row_inactive(r: Row)
    requires
        !r.s_add,
    ensures
        row_add_ok(r),
{
    lemma_add_gate_inactive(val(r.lhs), val(r.rhs), val(r.out));
}

/// Soundness of the XOR lookup on a row that enables it: the lookup holds
/// exactly when both operands lie inside the table's domain and the output
/// is their XOR. Operands outside the domain match no table row, whatever
/// the output holds.
pub proof fn lemma_xor_row_sound(r: Row, t: Seq<(u64, u64, u64)>)
    requires
        r.s_xor,
        is_xor_table(t),
    ensures
        row_xor_ok(r, t) <==> (r.lhs->Some_0 < 32 && r.rhs->Some_0 < 32 && r.out->Some_0 == (
        r.lhs->Some_0 ^ r.rhs->Some_0)),
{
    lemma_xor_table_membership(t, r.lhs->Some_0, r.rhs->Some_0, r.out->Some_0);
}

/// With the xor selector off, the lookup holds of any row: the scaled
/// triple is all zeros, and the all-zero row is present in the table
/// because the domain contains zero.
pub proof fn lemma_xor_row_inactive(r: Row, t: Seq<(u64, u64, u64)>)
    requires
        !r.s_xor,
        is_xor_table(t),
    ensures
        row_xor_ok(r, t),
{
    assert((0u64 ^ 0u64) == 0u64) by (bit_vector);
    lemma_xor_table_membership(t, 0, 0, 0);
}

/// A trace with an enabled addition row whose output cell is not the sum
/// of its operand cells is unsatisfiable: flipping a committed output while
/// its selector stays enabled breaks the instance.
pub proof fn lemma_tampered_add_unsat(tr: Trace, t: Seq<(u64, u64, u64)>, i: int)
    requires
        0 <= i < tr.rows@.len(),
        tr.rows@[i].s_add,
        row_known(tr.rows@[i]),
        val(tr.rows@[i].out) != val(tr.rows@[i].lhs) + val(tr.rows@[i].rhs),
    ensures
        !trace_satisfied(tr, t),
{
    lemma_add_row_sound(tr.rows@[i]);
}

/// A trace with an XOR row whose operands leave the table's domain is
/// unsatisfiable, whatever its output cell holds: deferred range validation
/// surfaces as unsatisfiability, not as a synthesis error.
pub proof fn lemma_out_of_domain_unsat(tr: Trace, t: Seq<(u64, u64, u64)>, i: int)
    requires
        is_xor_table(t),
        0 <= i < tr.rows@.len(),
        tr.rows@[i].s_xor,
        tr.rows@[i].lhs->Some_0 >= 32 || tr.rows@[i].rhs->Some_0 >= 32,
    ensures
        !trace_satisfied(tr, t),
{
    lemma_xor_row_sound(tr.rows@[i], t);
}

impl Trace {
    /// An empty witness table.
    pub fn new() -> (tr: Trace)
        ensures
            tr.rows@ == Seq::<Row>::empty(),
            tr.copies@ == Seq::<(CellId, CellId)>::empty(),
    {
        Trace { rows: Vec::new(), copies: Vec::new() }
    }

    /// Seeds the recurrence: assigns three independent witness values into
    /// the three cells of a fresh row with no selector enabled, and hands
    /// back one handle per cell. Unknown values are assigned as unknown;
    /// seeding itself never fails.
    pub fn load_private(&mut self, a: Option<u64>, b: Option<u64>, c: Option<u64>) -> (r: (
        Number,
        Number,
        Number,
    ))
        ensures
            final(self).rows@ == old(self).rows@.push(
                Row { lhs: a, rhs: b, out: c, s_add: false, s_xor: false },
            ),
            final(self).copies@ == old(self).copies@,
            (r.0 == Number {
                cell: CellId { row: old(self).rows@.len() as usize, col: 0 },
                value: a,
            }),
            (r.1 == Number {
                cell: CellId { row: old(self).rows@.len() as usize, col: 1 },
                value: b,
            }),
            (r.2 == Number {
                cell: CellId { row: old(self).rows@.len() as usize, col: 2 },
                value: c,
            }),
    {
        let row = self.rows.len();
        self.rows.push(Row { lhs: a, rhs: b, out: c, s_add: false, s_xor: false });
        (
            Number { cell: CellId { row, col: 0 }, value: a },
            Number { cell: CellId { row, col: 1 }, value: b },
            Number { cell: CellId { row, col: 2 }, value: c },
        )
    }

    /// One addition row: enables the add selector on a fresh row, copies
    /// the two operand handles into the row's operand cells — recording
    /// equality edges, so the row's inputs are literally the prior outputs
    /// rather than merely equal by coincidence — and assigns their sum as
    /// the output cell, returning its handle. Fails, leaving the trace
    /// unchanged, exactly when an operand carries no concrete value, as
    /// happens during shape-only passes.
    pub fn add(&mut self, a: &Number, b: &Number) -> (r: Result<Number, SynthesisError>)
        requires
            handle_wf(*old(self), *a),
            handle_wf(*old(self), *b),
            known(a.value) && known(b.value) ==> val(a.value) + val(b.value) <= u64::MAX,
        ensures
            r is Ok <==> (known(a.value) && known(b.value)),
            (match r {
                Result::Ok(n) => {
                    &&& final(self).rows@ == old(self).rows@.push(
                        Row {
                            lhs: a.value,
                            rhs: b.value,
                            out: Some(((val(a.value) + val(b.value)) as u64)),
                            s_add: true,
                            s_xor: false,
                        },
                    )
                    &&& final(self).copies@ == old(self).copies@.push(
                        (a.cell, CellId { row: old(self).rows@.len() as usize, col: 0 }),
                    ).push((b.cell, CellId { row: old(self).rows@.len() as usize, col: 1 }))
                    &&& n == (Number {
                        cell: CellId { row: old(self).rows@.len() as usize, col: 2 },
                        value: Some(((val(a.value) + val(b.value)) as u64)),
                    })
                },
                Result::Err(_) => *final(self) == *old(self),
            }),
    {
        let row = self.rows.len();
        match (a.value, b.value) {
            (Some(x), Some(y)) => {
                let out = x + y;
                self.rows.push(
                    Row { lhs: a.value, rhs: b.value, out: Some(out), s_add: true, s_xor: false },
                );
                self.copies.push((a.cell, CellId { row, col: 0 }));
                self.copies.push((b.cell, CellId { row, col: 1 }));
                Ok(Number { cell: CellId { row, col: 2 }, value: Some(out) })
            },
            _ => Err(SynthesisError),
        }
    }

    /// One XOR row: enables the xor selector on a fresh row, copy-constrains
    /// the operands exactly as `add` does, and assigns the bitwise XOR of
    /// the operand values as the output cell. No range check happens here:
    /// operands outside the table's domain produce a row with no matching
    /// table entry, which the proving engine rejects at proof time. Fails,
    /// leaving the trace unchanged, exactly when an operand is unknown.
    pub fn xor(&mut self, a: &Number, b: &Number) -> (r: Result<Number, SynthesisError>)
        requires
            handle_wf(*old(self), *a),
            handle_wf(*old(self), *b),
        ensures
            r is Ok <==> (known(a.value) && known(b.value)),
            (match r {
                Result::Ok(n) => {
                    &&& final(self).rows@ == old(self).rows@.push(
                        Row {
                            lhs: a.value,
                            rhs: b.value,
                            out: Some((a.value->Some_0 ^ b.value->Some_0)),
                            s_add: false,
                            s_xor: true,
                        },
                    )
                    &&& final(self).copies@ == old(self).copies@.push(
                        (a.cell, CellId { row: old(self).rows@.len() as usize, col: 0 }),
                    ).push((b.cell, CellId { row: old(self).rows@.len() as usize, col: 1 }))
                    &&& n == (Number {
                        cell: CellId { row: old(self).rows@.len() as usize, col: 2 },
                        value: Some((a.value->Some_0 ^ b.value->Some_0)),
                    })
                },
                Result::Err(_) => *final(self) == *old(self),
            }),
    {
        let row = self.rows.len();
        match (a.value, b.value) {
            (Some(x), Some(y)) => {
                let out = x ^ y;
                self.rows.push(
                    Row { lhs: a.value, rhs: b.value, out: Some(out), s_add: false, s_xor: true },
                );
                self.copies.push((a.cell, CellId { row, col: 0 }));
                self.copies.push((b.cell, CellId { row, col: 1 }));
                Ok(Number { cell: CellId { row, col: 2 }, value: Some(out) })
            },
            _ => Err(SynthesisError),
        }
    }
}



/// The seed row: three witness values, no selector enabled.
pub open spec fn seed_row(a: Option<u64>, b: Option<u64>, c: Option<u64>) -> Row {
    Row { lhs: a, rhs: b, out: c, s_add: false, s_xor: false }
}

/// A term of the sequence as the 64-bit value the synthesizer assigns.
pub open spec fn term_u64(a: u64, b: u64, c: u64, i: nat) -> u64 {
    seq_term(a, b, c, i) as u64
}

/// The XOR row the orchestrator assigns for position `i` of the sequence.
pub open spec fn expected_xor_row(a: u64, b: u64, c: u64, i: nat) -> Row {
    Row {
        lhs: Some(term_u64(a, b, c, (i - 2) as nat)),
        rhs: Some(term_u64(a, b, c, (i - 1) as nat)),
        out: Some((term_u64(a, b, c, (i - 2) as nat) ^ term_u64(a, b, c, (i - 1) as nat))),
        s_add: false,
        s_xor: true,
    }
}

/// The addition row the orchestrator assigns for position `i`.
pub open spec fn expected_add_row(a: u64, b: u64, c: u64, i: nat) -> Row {
    Row {
        lhs: Some(term_u64(a, b, c, (i - 3) as nat)),
        rhs: Some((term_u64(a, b, c, (i - 2) as nat) ^ term_u64(a, b, c, (i - 1) as nat))),
        out: Some(term_u64(a, b, c, i)),
        s_add: true,
        s_xor: false,
    }
}

/// The cell where term `i` of the sequence is first assigned: the seed row
/// for the three seeds, then the output cell of each position's addition
/// row.
pub open spec fn term_cell(i: nat) -> CellId {
    if i == 0 {
        CellId { row: 0, col: 0 }
    } else if i == 1 {
        CellId { row: 0, col: 1 }
    } else if i == 2 {
        CellId { row: 0, col: 2 }
    } else {
        CellId { row: ((2 + 2 * (i - 3)) as usize), col: 2 }
    }
}

/// Every term an XOR row takes as an operand within the first `num`
/// positions lies inside the lookup table's domain.
pub open spec fn xor_operands_in_domain(a: u64, b: u64, c: u64, num: nat) -> bool {
    forall|i: nat| 1 <= i && i + 2 <= num ==> seq_term(a, b, c, i) < 32
}

/// How many rows a finished synthesis holds: the seed row, then an XOR row
/// and an addition row per unrolled position.
pub open spec fn expected_rows_len(num: int) -> int {
    if num >= 3 {
        1 + 2 * (num - 3)
    } else {
        1
    }
}

/// How many copy edges a finished synthesis holds: four per unrolled
/// position.
pub open spec fn expected_copies_len(num: int) -> int {
    if num >= 3 {
        4 * (num - 3)
    } else {
        0
    }
}

/// The circuit instance: three optional seed values — absent during
/// shape-only passes — and the requested sequence length.
pub struct FiboCircuit {
    pub a: Option<u64>,
    pub b: Option<u64>,
    pub c: Option<u64>,
    pub num: usize,
}

/// All three seeds carry concrete values.
pub open spec fn seeds_known(circ: FiboCircuit) -> bool {
    circ.a is Some && circ.b is Some && circ.c is Some
}

/// What one synthesis pass produces: the loaded XOR table and the assigned
/// witness trace.
pub struct Synthesis {
    pub table: Vec<(u64, u64, u64)>,
    pub trace: Trace,
}

/// Growing a trace by rows or edges leaves the values of cells that were
/// already inside the table unchanged.
proof fn lemma_cell_value_grow(tr1: Trace, tr2: Trace, c: CellId)
    requires
        tr1.rows@.len() <= tr2.rows@.len(),
        forall|i: int| 0 <= i < tr1.rows@.len() ==> tr2.rows@[i] == tr1.rows@[i],
        c.row < tr1.rows@.len(),
    ensures
        cell_value(tr2, c) == cell_value(tr1, c),
{
}

/// Every copy edge of a trace points inside the table.
spec fn copies_in_range(tr: Trace) -> bool {
    forall|k: int|
        0 <= k < tr.copies@.len() ==> (#[trigger] tr.copies@[k]).0.row < tr.rows@.len()
            && tr.copies@[k].0.col < 3 && tr.copies@[k].1.row < tr.rows@.len()
            && tr.copies@[k].1.col < 3
}

impl FiboCircuit {
    /// A copy of this circuit with no witness values at all: the shape-only
    /// instance used for key generation.
    pub fn without_witnesses(&self) -> (circ: FiboCircuit)
        ensures
            circ.a is None,
            circ.b is None,
            circ.c is None,
            circ.num == 0,
    {
        FiboCircuit { a: None, b: None, c: None, num: 0 }
    }

    /// The synthesis step: loads the XOR table, seeds the recurrence, and
    /// for each remaining position assigns one XOR row and one addition
    /// row, threading the rolling triple of handles forward through copy
    /// constraints. Succeeds exactly when the seeds are concrete or no
    /// position needs them; on known seeds the assigned cells match the
    /// reference oracle at every step, and the trace satisfies every
    /// constraint exactly as far as the XOR operands keep to the table's
    /// domain.
    #[verifier::loop_isolation(false)]
    #[verifier::rlimit(80)]
    pub fn synthesize(&self) -> (r: Result<Synthesis, SynthesisError>)
        requires
            (seeds_known(*self) && self.num > 3) ==> terms_fit(
                self.a->Some_0,
                self.b->Some_0,
                self.c->Some_0,
                self.num as nat,
            ),
        ensures
            r is Ok <==> (seeds_known(*self) || self.num <= 3),
            (match r {
                Result::Ok(syn) => {
                    &&& is_xor_table(syn.table@)
                    &&& syn.trace.rows@.len() == expected_rows_len(self.num as int)
                    &&& syn.trace.copies@.len() == expected_copies_len(self.num as int)
                    &&& syn.trace.rows@[0] == seed_row(self.a, self.b, self.c)
                    &&& (seeds_known(*self) ==> (forall|j: int|
                        0 <= j < self.num - 3 ==> #[trigger] syn.trace.rows@[1 + 2 * j]
                            == expected_xor_row(
                            self.a->Some_0,
                            self.b->Some_0,
                            self.c->Some_0,
                            (j + 3) as nat,
                        )))
                    &&& (seeds_known(*self) ==> (forall|j: int|
                        0 <= j < self.num - 3 ==> #[trigger] syn.trace.rows@[2 + 2 * j]
                            == expected_add_row(
                            self.a->Some_0,
                            self.b->Some_0,
                            self.c->Some_0,
                            (j + 3) as nat,
                        )))
                    &&& (forall|j: int|
                        0 <= j < self.num - 3 ==> #[trigger] syn.trace.copies@[4 * j] == (
                        term_cell((j + 1) as nat),
                        CellId { row: (1 + 2 * j) as usize, col: 0 },
                        ))
                    &&& (forall|j: int|
                        0 <= j < self.num - 3 ==> #[trigger] syn.trace.copies@[4 * j + 1] == (
                        term_cell((j + 2) as nat),
                        CellId { row: (1 + 2 * j) as usize, col: 1 },
                        ))
                    &&& (forall|j: int|
                        0 <= j < self.num - 3 ==> #[trigger] syn.trace.copies@[4 * j + 2] == (
                        term_cell(j as nat),
                        CellId { row: (2 + 2 * j) as usize, col: 0 },
                        ))
                    &&& (forall|j: int|
                        0 <= j < self.num - 3 ==> #[trigger] syn.trace.copies@[4 * j + 3] == (
                        CellId { row: (1 + 2 * j) as usize, col: 2 },
                        CellId { row: (2 + 2 * j) as usize, col: 1 },
                        ))
                    &&& ((seeds_known(*self) && xor_operands_in_domain(
                        self.a->Some_0,
                        self.b->Some_0,
                        self.c->Some_0,
                        self.num as nat,
                    )) ==> trace_satisfied(syn.trace, syn.table@))
                },
                Result::Err(_) => !seeds_known(*self) && self.num > 3,
            }),
    {
        let ghost a0 = self.a->Some_0;
        let ghost b0 = self.b->Some_0;
        let ghost c0 = self.c->Some_0;
        let table = load_xor_table();
        let mut trace = Trace::new();
        let (mut na, mut nb, mut nc) = trace.load_private(self.a, self.b, self.c);
        proof {
            if seeds_known(*self) {
                lemma_add_row_inactive(trace.rows@[0]);
                lemma_xor_row_inactive(trace.rows@[0], table@);
            }
        }
        let mut i: usize = 3;
        while i < self.num
            invariant
                3 <= i,
                self.num > 3 ==> i <= self.num,
                self.num <= 3 ==> i == 3,
                i > 3 ==> seeds_known(*self),
                trace.rows@.len() == 1 + 2 * (i - 3),
                trace.copies@.len() == 4 * (i - 3),
                trace.rows@[0] == seed_row(self.a, self.b, self.c),
                handle_wf(trace, na),
                handle_wf(trace, nb),
                handle_wf(trace, nc),
                na.cell == term_cell((i - 3) as nat),
                nb.cell == term_cell((i - 2) as nat),
                nc.cell == term_cell((i - 1) as nat),
                seeds_known(*self) <==> (na.value is Some && nb.value is Some
                    && nc.value is Some),
                seeds_known(*self) ==> na.value == Some(term_u64(a0, b0, c0, (i - 3) as nat)),
                seeds_known(*self) ==> nb.value == Some(term_u64(a0, b0, c0, (i - 2) as nat)),
                seeds_known(*self) ==> nc.value == Some(term_u64(a0, b0, c0, (i - 1) as nat)),
                seeds_known(*self) ==> (forall|j: int|
                    0 <= j < i - 3 ==> #[trigger] trace.rows@[1 + 2 * j] == expected_xor_row(
                        a0,
                        b0,
                        c0,
                        (j + 3) as nat,
                    )),
                seeds_known(*self) ==> (forall|j: int|
                    0 <= j < i - 3 ==> #[trigger] trace.rows@[2 + 2 * j] == expected_add_row(
                        a0,
                        b0,
                        c0,
                        (j + 3) as nat,
                    )),
                forall|j: int|
                    0 <= j < i - 3 ==> #[trigger] trace.copies@[4 * j] == (
                    term_cell((j + 1) as nat),
                    CellId { row: (1 + 2 * j) as usize, col: 0 },
                    ),
                forall|j: int|
                    0 <= j < i - 3 ==> #[trigger] trace.copies@[4 * j + 1] == (
                    term_cell((j + 2) as nat),
                    CellId { row: (1 + 2 * j) as usize, col: 1 },
                    ),
                forall|j: int|
                    0 <= j < i - 3 ==> #[trigger] trace.copies@[4 * j + 2] == (
                    term_cell(j as nat),
                    CellId { row: (2 + 2 * j) as usize, col: 0 },
                    ),
                forall|j: int|
                    0 <= j < i - 3 ==> #[trigger] trace.copies@[4 * j + 3] == (
                    CellId { row: (1 + 2 * j) as usize, col: 2 },
                    CellId { row: (2 + 2 * j) as usize, col: 1 },
                    ),
                copies_in_range(trace),
                (seeds_known(*self) && xor_operands_in_domain(a0, b0, c0, self.num as nat))
                    ==> trace_satisfied(trace, table@),
            decreases self.num - i,
        {
            proof {
                if seeds_known(*self) {
                    lemma_term_nonneg(a0, b0, c0, (i - 3) as nat);
                    lemma_term_nonneg(a0, b0, c0, (i - 2) as nat);
                    lemma_term_nonneg(a0, b0, c0, (i - 1) as nat);
                    lemma_term_nonneg(a0, b0, c0, i as nat);
                    assert(seq_term(a0, b0, c0, i as nat) <= u64::MAX);
                    assert(seq_term(a0, b0, c0, (i - 3) as nat) <= u64::MAX);
                    assert(seq_term(a0, b0, c0, (i - 2) as nat) <= u64::MAX);
                    assert(seq_term(a0, b0, c0, (i - 1) as nat) <= u64::MAX);
                }
            }
            let ghost pre_xor = trace;
            let nx = match trace.xor(&nb, &nc) {
                Ok(n) => n,
                Err(e) => {
                    return Err(e);
                },
            };
            proof {
                assert(trace.rows.len() == trace.rows@.len());
                assert(pre_xor.rows.len() == pre_xor.rows@.len());
                lemma_cell_value_grow(pre_xor, trace, na.cell);
                assert(handle_wf(trace, na));
                assert(handle_wf(trace, nx));
                if seeds_known(*self) {
                    assert(nx.value == Some(
                        (term_u64(a0, b0, c0, (i - 2) as nat) ^ term_u64(a0, b0, c0, (i - 1) as nat)),
                    ));
                    assert(seq_term(a0, b0, c0, i as nat) == seq_term(a0, b0, c0, (i - 3) as nat)
                        + term_xor(
                        seq_term(a0, b0, c0, (i - 2) as nat),
                        seq_term(a0, b0, c0, (i - 1) as nat),
                    ));
                    assert(val(na.value) + val(nx.value) == seq_term(a0, b0, c0, i as nat));
                    assert(val(na.value) + val(nx.value) <= u64::MAX);
                }
            }
            let ghost pre_add = trace;
            let nd = match trace.add(&na, &nx) {
                Ok(n) => n,
                Err(e) => {
                    return Err(e);
                },
            };
            proof {
                let j = i - 3;
                assert(trace.rows.len() == trace.rows@.len());
                assert(trace.rows@.len() == 1 + 2 * (i - 3) + 2);
                assert forall|k: int| 0 <= k < pre_xor.rows@.len() implies trace.rows@[k]
                    == pre_xor.rows@[k] by {}
                assert(trace.rows@[1 + 2 * j] == pre_add.rows@[1 + 2 * j]);
                assert(seq_term(a0, b0, c0, i as nat) == seq_term(a0, b0, c0, (i - 3) as nat)
                    + term_xor(
                    seq_term(a0, b0, c0, (i - 2) as nat),
                    seq_term(a0, b0, c0, (i - 1) as nat),
                ));
                assert(trace.rows@[1 + 2 * j] == expected_xor_row(a0, b0, c0, i as nat));
                assert(trace.rows@[2 + 2 * j] == expected_add_row(a0, b0, c0, i as nat));
                assert(nd.cell == term_cell(i as nat));
                if seeds_known(*self) && xor_operands_in_domain(a0, b0, c0, self.num as nat) {
                    let xr = trace.rows@[1 + 2 * j];
                    let ar = trace.rows@[2 + 2 * j];
                    assert(seq_term(a0, b0, c0, (i - 2) as nat) < 32);
                    assert(seq_term(a0, b0, c0, (i - 1) as nat) < 32);
                    lemma_xor_row_sound(xr, table@);
                    lemma_add_row_inactive(xr);
                    lemma_add_row_sound(ar);
                    lemma_xor_row_inactive(ar, table@);
                    assert(row_xor_ok(xr, table@));
                    assert(row_add_ok(ar));
                    assert forall|k: int| 0 <= k < trace.rows@.len() implies row_known(
                        #[trigger] trace.rows@[k],
                    ) && row_add_ok(trace.rows@[k]) && row_xor_ok(trace.rows@[k], table@) by {
                        if k < pre_xor.rows@.len() {
                            assert(trace.rows@[k] == pre_xor.rows@[k]);
                        }
                    }
                    assert forall|k: int| 0 <= k < trace.copies@.len() implies cell_value(
                        trace,
                        (#[trigger] trace.copies@[k]).0,
                    ) == cell_value(trace, trace.copies@[k].1) by {
                        if k < pre_xor.copies@.len() {
                            lemma_cell_value_grow(pre_xor, trace, trace.copies@[k].0);
                            lemma_cell_value_grow(pre_xor, trace, trace.copies@[k].1);
                        } else {
                            lemma_cell_value_grow(pre_add, trace, na.cell);
                            lemma_cell_value_grow(pre_add, trace, nb.cell);
                            lemma_cell_value_grow(pre_add, trace, nc.cell);
                        }
                    }
                    assert(trace_satisfied(trace, table@));
                }
            }
            na = nb;
            nb = nc;
            nc = nd;
            i = i + 1;
        }
        Ok(Synthesis { table, trace })
    }
}



/// The value a trace holds at a cell coordinate, computed.
pub fn cell_lookup(tr: &Trace, c: CellId) -> (v: Option<u64>)
    ensures
        v == cell_value(*tr, c),
{
    if c.row < tr.rows.len() && c.col < 3 {
        let r = tr.rows[c.row];
        if c.col == 0 {
            r.lhs
        } else if c.col == 1 {
            r.rhs
        } else {
            r.out
        }
    } else {
        None
    }
}

/// Decides whether two optional cell values are equal.
fn opt_eq(x: Option<u64>, y: Option<u64>) -> (r: bool)
    ensures
        r == (x == y),
{
    match (x, y) {
        (Some(a), Some(b)) => a == b,
        (None, None) => true,
        _ => false,
    }
}

/// Checks a finished trace against a lookup table exactly as the proving
/// engine would judge it: whether every cell is assigned and every addition
/// gate, every XOR lookup and every copy constraint holds.
pub fn check_trace(tr: &Trace, table: &Vec<(u64, u64, u64)>) -> (ok: bool)
    requires
        is_xor_table(table@),
    ensures
        ok == trace_satisfied(*tr, table@),
{
    let mut i: usize = 0;
    while i < tr.rows.len()
        invariant
            i <= tr.rows@.len(),
            is_xor_table(table@),
            forall|k: int| 0 <= k < i ==> row_known(#[trigger] tr.rows@[k]),
            forall|k: int| 0 <= k < i ==> row_add_ok(#[trigger] tr.rows@[k]),
            forall|k: int| 0 <= k < i ==> row_xor_ok(#[trigger] tr.rows@[k], table@),
        decreases tr.rows@.len() - i,
    {
        let r = tr.rows[i];
        let (lhs, rhs, out) = match (r.lhs, r.rhs, r.out) {
            (Some(x), Some(y), Some(z)) => (x, y, z),
            _ => {
                return false;
            },
        };
        if r.s_add {
            if !(lhs as u128 + rhs as u128 == out as u128) {
                proof {
                    lemma_add_row_sound(r);
                }
                return false;
            }
        }
        if r.s_xor {
            if !(lhs < 32 && rhs < 32 && out == (lhs ^ rhs)) {
                proof {
                    lemma_xor_row_sound(r, table@);
                }
                return false;
            }
        }
        proof {
            if r.s_add {
                lemma_add_row_sound(r);
            } else {
                lemma_add_row_inactive(r);
            }
            if r.s_xor {
                lemma_xor_row_sound(r, table@);
            } else {
                lemma_xor_row_inactive(r, table@);
            }
        }
        i = i + 1;
    }
    let mut k: usize = 0;
    while k < tr.copies.len()
        invariant
            k <= tr.copies@.len(),
            forall|m: int|
                0 <= m < k ==> cell_value(*tr, (#[trigger] tr.copies@[m]).0) == cell_value(
                    *tr,
                    tr.copies@[m].1,
                ),
            forall|m: int| 0 <= m < tr.rows@.len() ==> row_known(#[trigger] tr.rows@[m]),
            forall|m: int| 0 <= m < tr.rows@.len() ==> row_add_ok(#[trigger] tr.rows@[m]),
            forall|m: int| 0 <= m < tr.rows@.len() ==> row_xor_ok(#[trigger] tr.rows@[m], table@),
        decreases tr.copies@.len() - k,
    {
        let (src, dst) = tr.copies[k];
        let v1 = cell_lookup(tr, src);
        let v2 = cell_lookup(tr, dst);
        if !opt_eq(v1, v2) {
            return false;
        }
        k = k + 1;
    }
    true
}



/// A synthesized trace of known seeds is unsatisfiable as soon as any term
/// in the XOR-operand range leaves the table's domain: the XOR row that
/// reads the term matches no table row, whatever its output holds.
pub proof fn lemma_synthesis_out_of_domain_unsat(
    tr: Trace,
    t: Seq<(u64, u64, u64)>,
    a: u64,
    b: u64,
    c: u64,
    num: int,
    i: nat,
)
    requires
        is_xor_table(t),
        num > 3,
        tr.rows@.len() == expected_rows_len(num),
        forall|j: int|
            0 <= j < num - 3 ==> #[trigger] tr.rows@[1 + 2 * j] == expected_xor_row(
                a,
                b,
                c,
                (j + 3) as nat,
            ),
        1 <= i,
        i + 2 <= num,
        term_u64(a, b, c, i) >= 32,
    ensures
        !trace_satisfied(tr, t),
{
    if i >= 2 {
        let j: int = i - 2;
        assert(tr.rows@[1 + 2 * j] == expected_xor_row(a, b, c, (j + 3) as nat));
        let row = tr.rows@[1 + 2 * j];
        assert(row.rhs == Some(term_u64(a, b, c, i)));
        lemma_xor_row_sound(row, t);
        assert(!row_xor_ok(row, t));
    } else {
        let j: int = 0;
        assert(tr.rows@[1 + 2 * j] == expected_xor_row(a, b, c, (j + 3) as nat));
        let row = tr.rows@[1 + 2 * j];
        assert(row.lhs == Some(term_u64(a, b, c, 1)));
        lemma_xor_row_sound(row, t);
        assert(!row_xor_ok(row, t));
    }
}

} // verus!
