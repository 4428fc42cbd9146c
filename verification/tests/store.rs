use occ_sandbox::store::{contains_key, Conflict, Store, WriteRecord};

#[test]
fn test_commit_on_fresh_snapshot() {
    let mut store = Store::new();
    let base = store.take_snapshot();
    assert_eq!(base, 0);
    assert_eq!(store.commit(&vec![1, 2], &vec![2, 3], base), Ok(1));
    assert_eq!(store.version, 1);
    assert_eq!(
        store.log,
        vec![
            WriteRecord { key: 2, version: 1 },
            WriteRecord { key: 3, version: 1 }
        ]
    );
    assert_eq!(store.take_snapshot(), 1);
}

#[test]
fn test_overtaken_read_conflicts_and_changes_nothing() {
    let mut store = Store::new();
    let base = store.take_snapshot();
    assert_eq!(store.commit(&vec![], &vec![7], base), Ok(1));
    assert!(store.has_conflict(&vec![7], base));
    assert_eq!(store.commit(&vec![7], &vec![8], base), Err(Conflict));
    assert_eq!(store.version, 1);
    assert_eq!(store.log, vec![WriteRecord { key: 7, version: 1 }]);
    let fresh = store.take_snapshot();
    assert!(!store.has_conflict(&vec![7], fresh));
    assert_eq!(store.commit(&vec![7], &vec![8], fresh), Ok(2));
}

#[test]
fn test_disjoint_attempts_commit_in_either_order() {
    for first_is_a in [true, false] {
        let mut store = Store::new();
        let base_a = store.take_snapshot();
        let base_b = store.take_snapshot();
        let (reads_a, writes_a) = (vec![1u64, 2], vec![2u64]);
        let (reads_b, writes_b) = (vec![3u64], vec![3u64, 4]);
        if first_is_a {
            assert_eq!(store.commit(&reads_a, &writes_a, base_a), Ok(1));
            assert_eq!(store.commit(&reads_b, &writes_b, base_b), Ok(2));
        } else {
            assert_eq!(store.commit(&reads_b, &writes_b, base_b), Ok(1));
            assert_eq!(store.commit(&reads_a, &writes_a, base_a), Ok(2));
        }
        assert_eq!(store.log.len(), 3);
    }
}

#[test]
fn test_blind_writes_never_conflict() {
    let mut store = Store::new();
    assert_eq!(store.commit(&vec![], &vec![5], 0), Ok(1));
    assert_eq!(store.commit(&vec![], &vec![5], 0), Ok(2));
    assert_eq!(store.commit(&vec![6], &vec![5], 0), Ok(3));
    assert_eq!(store.commit(&vec![5], &vec![], 2), Err(Conflict));
    assert_eq!(store.commit(&vec![5], &vec![], 3), Ok(4));
}

#[test]
fn test_contains_key() {
    assert!(contains_key(&vec![1, 2, 3], 3));
    assert!(!contains_key(&vec![1, 2, 3], 4));
    assert!(!contains_key(&vec![], 0));
}
