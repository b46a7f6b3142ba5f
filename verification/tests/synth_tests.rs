use fibo_xor::oracle::get_sequence;
use fibo_xor::synth::check_trace;
use fibo_xor::synth::FiboCircuit;

fn known_circuit(a: u64, b: u64, c: u64, num: usize) -> FiboCircuit {
    FiboCircuit { a: Some(a), b: Some(b), c: Some(c), num }
}

#[test]
fn synthesis_assigns_the_oracle_values() {
    let syn = known_circuit(1, 3, 2, 14).synthesize().unwrap();
    let seq = get_sequence(1, 3, 2, 14);
    assert_eq!(syn.trace.rows.len(), 1 + 2 * 11);
    let row0 = syn.trace.rows[0];
    assert_eq!(row0.lhs, Some(1));
    assert_eq!(row0.rhs, Some(3));
    assert_eq!(row0.out, Some(2));
    assert!(!row0.s_add && !row0.s_xor);
    let mut i: usize = 3;
    while i < 14 {
        let j: usize = i - 3;
        let xr = syn.trace.rows[1 + 2 * j];
        assert_eq!(xr.lhs, Some(seq[i - 2]));
        assert_eq!(xr.rhs, Some(seq[i - 1]));
        assert_eq!(xr.out, Some(seq[i - 2] ^ seq[i - 1]));
        assert!(xr.s_xor && !xr.s_add);
        let ar = syn.trace.rows[2 + 2 * j];
        assert_eq!(ar.lhs, Some(seq[i - 3]));
        assert_eq!(ar.rhs, Some(seq[i - 2] ^ seq[i - 1]));
        assert_eq!(ar.out, Some(seq[i]));
        assert!(ar.s_add && !ar.s_xor);
        i += 1;
    }
}

#[test]
fn synthesis_satisfies_all_constraints() {
    let syn = known_circuit(1, 3, 2, 14).synthesize().unwrap();
    assert!(check_trace(&syn.trace, &syn.table));
}

#[test]
fn synthesis_records_copy_edges() {
    let syn = known_circuit(1, 3, 2, 14).synthesize().unwrap();
    assert_eq!(syn.trace.copies.len(), 4 * 11);
    for (src, dst) in syn.trace.copies.iter() {
        assert!(src.row < syn.trace.rows.len());
        assert!(dst.row < syn.trace.rows.len());
    }
}

#[test]
fn tampered_add_output_fails_the_check() {
    let mut syn = known_circuit(1, 3, 2, 14).synthesize().unwrap();
    let last: usize = syn.trace.rows.len() - 1;
    let old = syn.trace.rows[last].out.unwrap();
    syn.trace.rows[last].out = Some(old + 1);
    assert!(!check_trace(&syn.trace, &syn.table));
}

#[test]
fn tampered_xor_output_fails_the_check() {
    let mut syn = known_circuit(1, 3, 2, 14).synthesize().unwrap();
    let old = syn.trace.rows[1].out.unwrap();
    syn.trace.rows[1].out = Some(old ^ 1);
    assert!(!check_trace(&syn.trace, &syn.table));
}

#[test]
fn out_of_domain_operands_fail_the_check() {
    let syn = known_circuit(40, 50, 60, 4).synthesize().unwrap();
    assert!(!check_trace(&syn.trace, &syn.table));
}

#[test]
fn shape_only_pass_loads_the_table() {
    let shape = known_circuit(9, 8, 7, 14).without_witnesses();
    let syn = shape.synthesize().unwrap();
    assert_eq!(syn.table.len(), 1024);
    assert_eq!(syn.trace.rows.len(), 1);
    assert_eq!(syn.trace.rows[0].lhs, None);
    assert_eq!(syn.trace.rows[0].rhs, None);
    assert_eq!(syn.trace.rows[0].out, None);
}

#[test]
fn unknown_seed_errors_when_steps_need_it() {
    let circ = FiboCircuit { a: None, b: Some(3), c: Some(2), num: 5 };
    assert!(circ.synthesize().is_err());
}

#[test]
fn unknown_seeds_succeed_without_steps() {
    let circ = FiboCircuit { a: None, b: None, c: None, num: 3 };
    assert!(circ.synthesize().is_ok());
}
