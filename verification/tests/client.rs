use aleph::client::{find_transaction, first_block_of_session, h256_eq};
use aleph::types::H256;

#[test]
fn first_block_is_period_times_session() {
    assert_eq!(first_block_of_session(900, 0), 0);
    assert_eq!(first_block_of_session(900, 3), 2700);
    assert_eq!(first_block_of_session(900, 4) - first_block_of_session(900, 3), 900);
    assert_eq!(first_block_of_session(1, u32::MAX), u32::MAX);
}

#[test]
fn hashes_compare_bytewise() {
    let mut b = [5u8; 32];
    assert!(h256_eq(&H256(b), &H256(b)));
    b[31] = 6;
    assert!(!h256_eq(&H256([5u8; 32]), &H256(b)));
}

#[test]
fn transaction_found_at_first_match() {
    let hashes = vec![H256([1; 32]), H256([2; 32]), H256([3; 32]), H256([2; 32])];
    assert_eq!(find_transaction(&hashes, &H256([2; 32])), Some(1));
    assert_eq!(find_transaction(&hashes, &H256([1; 32])), Some(0));
    assert_eq!(find_transaction(&hashes, &H256([9; 32])), None);
    assert_eq!(find_transaction(&vec![], &H256([9; 32])), None);
}
