use fibo_xor::table::load_xor_table;

#[test]
fn xor_table_has_one_row_per_pair() {
    let rows = load_xor_table();
    assert_eq!(rows.len(), 1024);
    let mut l: u64 = 0;
    while l < 32 {
        let mut r: u64 = 0;
        while r < 32 {
            let idx: usize = (32 * l + r) as usize;
            assert_eq!(rows[idx], (l, r, l ^ r));
            r += 1;
        }
        l += 1;
    }
}

#[test]
fn xor_table_rows_stay_in_domain() {
    let rows = load_xor_table();
    for row in rows.iter() {
        assert!(row.0 < 32);
        assert!(row.1 < 32);
        assert_eq!(row.2, row.0 ^ row.1);
    }
}

#[test]
fn xor_table_has_no_duplicate_rows() {
    let rows = load_xor_table();
    let mut i: usize = 0;
    while i < rows.len() {
        let mut j: usize = i + 1;
        while j < rows.len() {
            assert_ne!(rows[i], rows[j]);
            j += 1;
        }
        i += 1;
    }
}

#[test]
fn xor_table_contains_the_zero_row() {
    let rows = load_xor_table();
    assert_eq!(rows[0], (0, 0, 0));
}
