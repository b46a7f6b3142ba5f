use fibo_xor::oracle::get_sequence;
use fibo_xor::oracle::try_get_sequence;

#[test]
fn sequence_matches_reference() {
    let seq = get_sequence(1, 3, 2, 14);
    let expected: Vec<u64> = vec![1, 3, 2, 2, 3, 3, 2, 4, 9, 15, 10, 14, 19, 39];
    assert_eq!(seq, expected);
}

#[test]
fn sequence_opens_with_seeds() {
    let seq = get_sequence(5, 7, 9, 3);
    let expected: Vec<u64> = vec![5, 7, 9];
    assert_eq!(seq, expected);
}

#[test]
fn sequence_obeys_recurrence() {
    let seq = get_sequence(5, 7, 9, 20);
    assert_eq!(seq.len(), 20);
    assert_eq!(seq[0], 5);
    assert_eq!(seq[1], 7);
    assert_eq!(seq[2], 9);
    let mut i: usize = 3;
    while i < 20 {
        assert_eq!(seq[i], seq[i - 3] + (seq[i - 2] ^ seq[i - 1]));
        i += 1;
    }
}

#[test]
fn try_sequence_agrees_with_sequence() {
    let seq = try_get_sequence(1, 3, 2, 14).unwrap();
    assert_eq!(seq, get_sequence(1, 3, 2, 14));
}

#[test]
fn try_sequence_detects_overflow() {
    assert!(try_get_sequence(u64::MAX, 2, 1, 4).is_none());
}
