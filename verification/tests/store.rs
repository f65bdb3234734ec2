use incrementer::{AccountId, BalanceStore};

#[test]
fn unwritten_keys_read_as_zero() {
    let store = BalanceStore::new();
    assert_eq!(store.get(AccountId([1; 32]), 0), 0);
    assert_eq!(store.get(AccountId::zero(), u64::MAX), 0);
}

#[test]
fn set_overwrites_one_key_only() {
    let mut store = BalanceStore::new();
    let a = AccountId([1; 32]);
    let b = AccountId([2; 32]);
    store.set(a, 1, 10);
    store.set(b, 1, 20);
    store.set(a, 2, 30);
    assert_eq!(store.get(a, 1), 10);
    assert_eq!(store.get(b, 1), 20);
    assert_eq!(store.get(a, 2), 30);
    assert_eq!(store.get(b, 2), 0);
    store.set(a, 1, 11);
    assert_eq!(store.get(a, 1), 11);
    assert_eq!(store.get(b, 1), 20);
    assert_eq!(store.get(a, 2), 30);
    store.set(a, 1, 0);
    assert_eq!(store.get(a, 1), 0);
    store.set(a, 1, u128::MAX);
    assert_eq!(store.get(a, 1), u128::MAX);
}

#[test]
fn clone_is_independent() {
    let mut store = BalanceStore::new();
    let a = AccountId([1; 32]);
    store.set(a, 1, 10);
    let mut copy = store.clone();
    assert_eq!(copy.get(a, 1), 10);
    copy.set(a, 1, 99);
    copy.set(a, 2, 5);
    assert_eq!(store.get(a, 1), 10);
    assert_eq!(store.get(a, 2), 0);
    assert_eq!(copy.get(a, 1), 99);
}

#[test]
fn accounts_compare_by_all_their_bytes() {
    let mut bytes = [0u8; 32];
    assert!(AccountId(bytes) == AccountId::zero());
    assert!(AccountId(bytes).is_zero_address());
    bytes[31] = 1;
    assert!(AccountId(bytes) != AccountId::zero());
    assert!(!AccountId(bytes).is_zero_address());
    let mut other = [0u8; 32];
    other[0] = 1;
    assert!(AccountId(bytes) != AccountId(other));
    assert!(!AccountId(other).is_zero_address());
    assert_eq!(AccountId::from(bytes), AccountId(bytes));
}

#[test]
fn keys_differing_in_one_byte_are_kept_apart() {
    let mut store = BalanceStore::new();
    let mut first = [7u8; 32];
    let mut second = [7u8; 32];
    first[16] = 0;
    second[16] = 1;
    store.set(AccountId(first), 1, 1);
    store.set(AccountId(second), 1, 2);
    assert_eq!(store.get(AccountId(first), 1), 1);
    assert_eq!(store.get(AccountId(second), 1), 2);
    assert_eq!(store.get(AccountId([7u8; 32]), 1), 0);
}
