//! The layout builder: declares the fixed set of columns and selectors on
//! the proving backend's constraint-system builder, registers the "add" gate
//! and the "xor" lookup, and bundles the handles into an immutable layout
//! descriptor. This step is schema-only: it can run with no witness data,
//! and running it twice on builders with equal counters yields descriptors
//! with identical column and selector indices.
//!
//! The builder itself belongs to the outside proving crate, so its state is
//! tracked through uninterpreted counters and every registration call stands
//! behind a trusted wrapper whose contract records what the call allocates.

use vstd::prelude::*;

verus! {

use halo2_proofs::pasta::Fp;
use halo2_proofs::plonk::Advice;
use halo2_proofs::plonk::Column;
use halo2_proofs::plonk::ConstraintSystem;
use halo2_proofs::plonk::Selector;
use halo2_proofs::plonk::TableColumn;
use halo2_proofs::poly::Rotation;

#[verifier::external_type_specification]
#[verifier::external_body]
pub struct ExSelector(Selector);

#[verifier::external_type_specification]
#[verifier::external_body]
pub struct ExTableColumn(TableColumn);

/// The proving backend's constraint-system builder, held opaquely: Verus
/// cannot take the builder's own generic bounds, so the builder sits in a
/// hidden field and is described only through the uninterpreted counters
/// below. The field is public so that unverified driver code can slip the
/// backend's builder in and out around the configure step.
#[verifier::external_body]
pub struct CsBuilder(pub ConstraintSystem<Fp>);

/// An advice-column handle of the proving backend, held opaquely for the
/// same reason as the builder.
#[derive(Debug)]
#[verifier::external_body]
pub struct AdviceColumn(pub Column<Advice>);

impl Clone for AdviceColumn {
    /// Relies on the backend's column handle being plain `Copy` data: the
    /// clone is a copy of the handle.
    #[verifier::external_body]
    fn clone(&self) -> (r: AdviceColumn)
        ensures
            r == *self,
    {
        AdviceColumn(self.0)
    }
}

impl Copy for AdviceColumn {}

/// How many advice columns the builder has allocated so far.
pub uninterp spec fn cs_advice_count(cs: CsBuilder) -> nat;

/// How many fixed columns the builder has allocated so far.
pub uninterp spec fn cs_fixed_count(cs: CsBuilder) -> nat;

/// How many selectors the builder has allocated so far.
pub uninterp spec fn cs_selector_count(cs: CsBuilder) -> nat;

/// The addition-form gates the builder holds, in registration order: one
/// entry per registered gate whose single polynomial is a selector times
/// `lhs + rhs - out` over three advice columns at the current row, recorded
/// as the indices (selector, lhs, rhs, out). Gates of any other shape are
/// not recorded here.
pub uninterp spec fn cs_add_gates(cs: CsBuilder) -> Seq<(nat, nat, nat, nat)>;

/// The selector-scaled lookup arguments the builder holds, in registration
/// order: one entry per registered lookup whose three input expressions are
/// one selector times three advice columns at the current row, matched in
/// that order against three table columns, recorded as the indices
/// (selector, lhs, rhs, out, table lhs, table rhs, table out). Lookups of
/// any other shape are not recorded here.
pub uninterp spec fn cs_xor_lookups(cs: CsBuilder) -> Seq<(nat, nat, nat, nat, nat, nat, nat)>;

/// The indices of the advice columns on which equality-copy is enabled.
pub uninterp spec fn cs_equality_cols(cs: CsBuilder) -> Set<nat>;

/// The index an advice column was allocated at.
pub uninterp spec fn advice_index(col: AdviceColumn) -> nat;

/// The index a selector was allocated at.
pub uninterp spec fn selector_index(s: Selector) -> nat;

/// Whether a selector is a simple one. Simple selectors may not appear in
/// lookup arguments; only a complex selector can gate the XOR lookup.
pub uninterp spec fn selector_is_simple(s: Selector) -> bool;

/// The index of the fixed column a lookup-table column wraps.
pub uninterp spec fn table_index(t: TableColumn) -> nat;

/// The shape-determining counters of a constraint-system builder, gathered
/// in one place so contracts can say what a call changes and what it keeps.
#[verifier::ext_equal]
pub ghost struct LayoutState {
    pub advice: nat,
    pub fixed: nat,
    pub selectors: nat,
    pub gates: Seq<(nat, nat, nat, nat)>,
    pub lookups: Seq<(nat, nat, nat, nat, nat, nat, nat)>,
    pub equality: Set<nat>,
}

/// All tracked counters of a builder at once.
pub open spec fn cs_state(cs: CsBuilder) -> LayoutState {
    LayoutState {
        advice: cs_advice_count(cs),
        fixed: cs_fixed_count(cs),
        selectors: cs_selector_count(cs),
        gates: cs_add_gates(cs),
        lookups: cs_xor_lookups(cs),
        equality: cs_equality_cols(cs),
    }
}

/// Relies on halo2_proofs' `ConstraintSystem::advice_column`: the new column
/// carries the next advice index, and only the advice count grows.
#[verifier::external_body]
fn new_advice_column(cs: &mut CsBuilder) -> (col: AdviceColumn)
    ensures
        advice_index(col) == cs_advice_count(*old(cs)),
        cs_advice_count(*final(cs)) == cs_advice_count(*old(cs)) + 1,
        cs_fixed_count(*final(cs)) == cs_fixed_count(*old(cs)),
        cs_selector_count(*final(cs)) == cs_selector_count(*old(cs)),
        cs_add_gates(*final(cs)) == cs_add_gates(*old(cs)),
        cs_xor_lookups(*final(cs)) == cs_xor_lookups(*old(cs)),
        cs_equality_cols(*final(cs)) == cs_equality_cols(*old(cs)),
{
    AdviceColumn(cs.0.advice_column())
}

/// Relies on halo2_proofs' `ConstraintSystem::selector`: the new selector
/// carries the next selector index and is simple, and only the selector
/// count grows.
#[verifier::external_body]
fn new_selector(cs: &mut CsBuilder) -> (s: Selector)
    ensures
        selector_index(s) == cs_selector_count(*old(cs)),
        selector_is_simple(s),
        cs_selector_count(*final(cs)) == cs_selector_count(*old(cs)) + 1,
        cs_advice_count(*final(cs)) == cs_advice_count(*old(cs)),
        cs_fixed_count(*final(cs)) == cs_fixed_count(*old(cs)),
        cs_add_gates(*final(cs)) == cs_add_gates(*old(cs)),
        cs_xor_lookups(*final(cs)) == cs_xor_lookups(*old(cs)),
        cs_equality_cols(*final(cs)) == cs_equality_cols(*old(cs)),
{
    cs.0.selector()
}

/// Relies on halo2_proofs' `ConstraintSystem::complex_selector`: as
/// `selector`, except that the new selector is not simple, so it may appear
/// inside lookup arguments.
#[verifier::external_body]
fn new_complex_selector(cs: &mut CsBuilder) -> (s: Selector)
    ensures
        selector_index(s) == cs_selector_count(*old(cs)),
        !selector_is_simple(s),
        cs_selector_count(*final(cs)) == cs_selector_count(*old(cs)) + 1,
        cs_advice_count(*final(cs)) == cs_advice_count(*old(cs)),
        cs_fixed_count(*final(cs)) == cs_fixed_count(*old(cs)),
        cs_add_gates(*final(cs)) == cs_add_gates(*old(cs)),
        cs_xor_lookups(*final(cs)) == cs_xor_lookups(*old(cs)),
        cs_equality_cols(*final(cs)) == cs_equality_cols(*old(cs)),
{
    cs.0.complex_selector()
}

/// Relies on halo2_proofs' `ConstraintSystem::lookup_table_column`: the new
/// table column wraps the next fixed column, and only the fixed count grows.
#[verifier::external_body]
fn new_lookup_table_column(cs: &mut CsBuilder) -> (t: TableColumn)
    ensures
        table_index(t) == cs_fixed_count(*old(cs)),
        cs_fixed_count(*final(cs)) == cs_fixed_count(*old(cs)) + 1,
        cs_advice_count(*final(cs)) == cs_advice_count(*old(cs)),
        cs_selector_count(*final(cs)) == cs_selector_count(*old(cs)),
        cs_add_gates(*final(cs)) == cs_add_gates(*old(cs)),
        cs_xor_lookups(*final(cs)) == cs_xor_lookups(*old(cs)),
        cs_equality_cols(*final(cs)) == cs_equality_cols(*old(cs)),
{
    cs.0.lookup_table_column()
}

/// Relies on halo2_proofs' `ConstraintSystem::enable_equality`: it admits
/// the column into the permutation argument so its cells can be
/// copy-constrained, and allocates nothing. Querying the column indexes the
/// builder's per-column counters by the column's own index, which panics on
/// a column this builder has not allocated, so the index must lie below the
/// advice count.
#[verifier::external_body]
fn enable_equality_on(cs: &mut CsBuilder, col: AdviceColumn)
    requires
        advice_index(col) < cs_advice_count(*old(cs)),
    ensures
        cs_equality_cols(*final(cs)) == cs_equality_cols(*old(cs)).insert(advice_index(col)),
        cs_advice_count(*final(cs)) == cs_advice_count(*old(cs)),
        cs_fixed_count(*final(cs)) == cs_fixed_count(*old(cs)),
        cs_selector_count(*final(cs)) == cs_selector_count(*old(cs)),
        cs_add_gates(*final(cs)) == cs_add_gates(*old(cs)),
        cs_xor_lookups(*final(cs)) == cs_xor_lookups(*old(cs)),
{
    cs.0.enable_equality(col.0)
}

/// Relies on halo2_proofs' `ConstraintSystem::lookup`: it registers one
/// lookup argument whose input expressions are the xor selector times the
/// three advice columns of the current row, matched in that order against
/// the three table columns. Scaling by the
/// selector makes an inactive row look up the table's all-zero row.
/// `lookup` panics on a simple selector, so the selector must be complex;
/// querying an advice column panics unless its index lies below the
/// builder's advice count, so all three must.
#[verifier::external_body]
fn register_xor_lookup(
    cs: &mut CsBuilder,
    s_xor: Selector,
    advice: [AdviceColumn; 3],
    xor_table: [TableColumn; 3],
)
    requires
        !selector_is_simple(s_xor),
        advice_index(advice[0]) < cs_advice_count(*old(cs)),
        advice_index(advice[1]) < cs_advice_count(*old(cs)),
        advice_index(advice[2]) < cs_advice_count(*old(cs)),
    ensures
        cs_xor_lookups(*final(cs)) == cs_xor_lookups(*old(cs)).push(
            (
                selector_index(s_xor),
                advice_index(advice[0]),
                advice_index(advice[1]),
                advice_index(advice[2]),
                table_index(xor_table[0]),
                table_index(xor_table[1]),
                table_index(xor_table[2]),
            ),
        ),
        cs_advice_count(*final(cs)) == cs_advice_count(*old(cs)),
        cs_fixed_count(*final(cs)) == cs_fixed_count(*old(cs)),
        cs_selector_count(*final(cs)) == cs_selector_count(*old(cs)),
        cs_add_gates(*final(cs)) == cs_add_gates(*old(cs)),
        cs_equality_cols(*final(cs)) == cs_equality_cols(*old(cs)),
{
    cs.0.lookup(|meta| {
        let s = meta.query_selector(s_xor);
        let lhs = meta.query_advice(advice[0].0, Rotation::cur());
        let rhs = meta.query_advice(advice[1].0, Rotation::cur());
        let out = meta.query_advice(advice[2].0, Rotation::cur());
        let in_lhs = s.clone() * lhs;
        let in_rhs = s.clone() * rhs;
        let in_out = s * out;
        vec![(in_lhs, xor_table[0]), (in_rhs, xor_table[1]), (in_out, xor_table[2])]
    });
}

/// Relies on halo2_proofs' `ConstraintSystem::create_gate`: it registers one
/// gate named "add" whose single polynomial is the add selector times
/// `lhs + rhs - out` over the three advice columns of the current row.
/// Querying an advice column panics unless its index lies below the
/// builder's advice count, so all three must.
#[verifier::external_body]
fn register_add_gate(cs: &mut CsBuilder, s_add: Selector, advice: [AdviceColumn; 3])
    requires
        advice_index(advice[0]) < cs_advice_count(*old(cs)),
        advice_index(advice[1]) < cs_advice_count(*old(cs)),
        advice_index(advice[2]) < cs_advice_count(*old(cs)),
    ensures
        cs_add_gates(*final(cs)) == cs_add_gates(*old(cs)).push(
            (
                selector_index(s_add),
                advice_index(advice[0]),
                advice_index(advice[1]),
                advice_index(advice[2]),
            ),
        ),
        cs_advice_count(*final(cs)) == cs_advice_count(*old(cs)),
        cs_fixed_count(*final(cs)) == cs_fixed_count(*old(cs)),
        cs_selector_count(*final(cs)) == cs_selector_count(*old(cs)),
        cs_xor_lookups(*final(cs)) == cs_xor_lookups(*old(cs)),
        cs_equality_cols(*final(cs)) == cs_equality_cols(*old(cs)),
{
    cs.0.create_gate("add", |meta| {
        let s = meta.query_selector(s_add);
        let lhs = meta.query_advice(advice[0].0, Rotation::cur());
        let rhs = meta.query_advice(advice[1].0, Rotation::cur());
        let out = meta.query_advice(advice[2].0, Rotation::cur());
        let poly = s * (lhs + rhs - out);
        vec![poly]
    });
}

/// The immutable layout descriptor: three advice columns for the operands
/// and result, the two selectors, and the three fixed columns of the XOR
/// table. Shared by every row of every circuit instance.
#[derive(Debug)]
pub struct FiboConfig {
    pub advice: [AdviceColumn; 3],
    pub s_add: Selector,
    pub s_xor: Selector,
    pub xor_table: [TableColumn; 3],
}

impl Clone for FiboConfig {
    /// Relies on the backend's column and selector handles being plain
    /// `Copy` data: the clone is a field-for-field copy of the descriptor.
    #[verifier::external_body]
    fn clone(&self) -> (r: FiboConfig)
        ensures
            r == *self,
    {
        FiboConfig {
            advice: [
                AdviceColumn(self.advice[0].0),
                AdviceColumn(self.advice[1].0),
                AdviceColumn(self.advice[2].0),
            ],
            s_add: self.s_add,
            s_xor: self.s_xor,
            xor_table: self.xor_table,
        }
    }
}

/// A descriptor laid out from a builder whose counters stood at `pre`:
/// indices follow in allocation order, the add selector simple, the xor
/// selector complex.
pub open spec fn config_laid_out(cfg: FiboConfig, pre: LayoutState) -> bool {
    &&& advice_index(cfg.advice[0]) == pre.advice
    &&& advice_index(cfg.advice[1]) == pre.advice + 1
    &&& advice_index(cfg.advice[2]) == pre.advice + 2
    &&& selector_index(cfg.s_add) == pre.selectors
    &&& selector_is_simple(cfg.s_add)
    &&& selector_index(cfg.s_xor) == pre.selectors + 1
    &&& !selector_is_simple(cfg.s_xor)
    &&& table_index(cfg.xor_table[0]) == pre.fixed
    &&& table_index(cfg.xor_table[1]) == pre.fixed + 1
    &&& table_index(cfg.xor_table[2]) == pre.fixed + 2
}

/// The state a builder holds after the whole configure step ran on it from
/// state `pre`: three more advice and three more fixed columns, two more
/// selectors, equality-copy on the new advice columns, one more
/// addition-form gate — the new simple selector over the new advice columns
/// — and one more selector-scaled lookup — the new complex selector over
/// the new advice columns against the new table columns.
pub open spec fn configured_state(pre: LayoutState) -> LayoutState {
    LayoutState {
        advice: pre.advice + 3,
        fixed: pre.fixed + 3,
        selectors: pre.selectors + 2,
        gates: pre.gates.push((pre.selectors, pre.advice, pre.advice + 1, pre.advice + 2)),
        lookups: pre.lookups.push(
            (
                pre.selectors + 1,
                pre.advice,
                pre.advice + 1,
                pre.advice + 2,
                pre.fixed,
                pre.fixed + 1,
                pre.fixed + 2,
            ),
        ),
        equality: pre.equality.insert(pre.advice).insert(pre.advice + 1).insert(pre.advice + 2),
    }
}

/// The capability bundle of the circuit: a holder of the immutable layout
/// descriptor the region synthesizer works against.
pub struct FiboChip {
    pub config: FiboConfig,
}

impl FiboChip {
    /// Bundles a finished layout descriptor into a chip.
    pub fn construct(config: FiboConfig) -> (chip: FiboChip)
        ensures
            chip.config == config,
    {
        FiboChip { config }
    }

    /// The layout descriptor this chip was constructed around.
    pub fn config(&self) -> (cfg: &FiboConfig)
        ensures
            cfg == self.config,
    {
        &self.config
    }

    /// Registers the layout on the builder: allocates the three
    /// lookup-table columns, enables equality-copy on the three advice
    /// columns, registers the "xor" lookup and the "add" gate, and bundles
    /// the handles. Touches no witness value.
    pub fn configure(
        meta: &mut CsBuilder,
        advice: [AdviceColumn; 3],
        selector: [Selector; 2],
    ) -> (cfg: FiboConfig)
        requires
            !selector_is_simple(selector[1]),
            advice_index(advice[0]) < cs_advice_count(*old(meta)),
            advice_index(advice[1]) < cs_advice_count(*old(meta)),
            advice_index(advice[2]) < cs_advice_count(*old(meta)),
        ensures
            cfg.advice == advice,
            cfg.s_add == selector[0],
            cfg.s_xor == selector[1],
            table_index(cfg.xor_table[0]) == cs_state(*old(meta)).fixed,
            table_index(cfg.xor_table[1]) == cs_state(*old(meta)).fixed + 1,
            table_index(cfg.xor_table[2]) == cs_state(*old(meta)).fixed + 2,
            (cs_state(*final(meta)) == LayoutState {
                fixed: cs_state(*old(meta)).fixed + 3,
                gates: cs_state(*old(meta)).gates.push(
                    (
                        selector_index(selector[0]),
                        advice_index(advice[0]),
                        advice_index(advice[1]),
                        advice_index(advice[2]),
                    ),
                ),
                lookups: cs_state(*old(meta)).lookups.push(
                    (
                        selector_index(selector[1]),
                        advice_index(advice[0]),
                        advice_index(advice[1]),
                        advice_index(advice[2]),
                        cs_state(*old(meta)).fixed,
                        cs_state(*old(meta)).fixed + 1,
                        cs_state(*old(meta)).fixed + 2,
                    ),
                ),
                equality: cs_state(*old(meta)).equality.insert(advice_index(advice[0])).insert(
                    advice_index(advice[1]),
                ).insert(advice_index(advice[2])),
                ..cs_state(*old(meta))
            }),
    {
        let s_add = selector[0];
        let s_xor = selector[1];

        let t0 = new_lookup_table_column(meta);
        let t1 = new_lookup_table_column(meta);
        let t2 = new_lookup_table_column(meta);
        let xor_table = [t0, t1, t2];

        enable_equality_on(meta, advice[0]);
        enable_equality_on(meta, advice[1]);
        enable_equality_on(meta, advice[2]);

        register_xor_lookup(meta, s_xor, advice, xor_table);
        register_add_gate(meta, s_add, advice);

        FiboConfig { advice, s_add, s_xor, xor_table }
    }
}

/// The configure step of the whole circuit: allocates the three advice
/// columns, the simple add selector and the complex xor selector, then
/// registers the layout. Callable with no witness data, and deterministic:
/// the descriptor's indices depend only on the builder's counters.
pub fn configure(meta: &mut CsBuilder) -> (cfg: FiboConfig)
    ensures
        config_laid_out(cfg, cs_state(*old(meta))),
        (cs_state(*final(meta)) == configured_state(cs_state(*old(meta)))),
{
    let a0 = new_advice_column(meta);
    let a1 = new_advice_column(meta);
    let a2 = new_advice_column(meta);
    let advice = [a0, a1, a2];
    let s0 = new_selector(meta);
    let s1 = new_complex_selector(meta);
    let selector = [s0, s1];
    FiboChip::configure(meta, advice, selector)
}

/// Configuring is deterministic: descriptors laid out from builders with
/// equal counters carry identical column and selector indices, in the same
/// order and number.
pub proof fn lemma_configure_deterministic(
    c1: FiboConfig,
    c2: FiboConfig,
    pre1: LayoutState,
    pre2: LayoutState,
)
    requires
        config_laid_out(c1, pre1),
        config_laid_out(c2, pre2),
        pre1.advice == pre2.advice,
        pre1.fixed == pre2.fixed,
        pre1.selectors == pre2.selectors,
    ensures
        advice_index(c1.advice[0]) == advice_index(c2.advice[0]),
        advice_index(c1.advice[1]) == advice_index(c2.advice[1]),
        advice_index(c1.advice[2]) == advice_index(c2.advice[2]),
        selector_index(c1.s_add) == selector_index(c2.s_add),
        selector_is_simple(c1.s_add) == selector_is_simple(c2.s_add),
        selector_index(c1.s_xor) == selector_index(c2.s_xor),
        selector_is_simple(c1.s_xor) == selector_is_simple(c2.s_xor),
        table_index(c1.xor_table[0]) == table_index(c2.xor_table[0]),
        table_index(c1.xor_table[1]) == table_index(c2.xor_table[1]),
        table_index(c1.xor_table[2]) == table_index(c2.xor_table[2]),
{
}

} // verus!
