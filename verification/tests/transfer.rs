use incrementer::{AccountId, Error, Incrementer, ProbeOutcome, TransferSingle};

fn account(tag: u8) -> AccountId {
    AccountId([tag; 32])
}

fn magic() -> ProbeOutcome {
    ProbeOutcome::Returned(vec![0xF2, 0x3A, 0x6E, 0x61])
}

#[test]
fn example_scenario() {
    let a = account(1);
    let b = account(2);
    let plain = ProbeOutcome::NotCallable;
    let mut ledger = Incrementer::new();
    assert_eq!(ledger.create(a, 100), 1);
    assert_eq!(ledger.balance_of(a, 1), 100);
    assert_eq!(ledger.safe_batch_transfer_from(a, a, b, vec![1], vec![40], &plain), Ok(()));
    assert_eq!(ledger.balance_of(a, 1), 60);
    assert_eq!(ledger.balance_of(b, 1), 40);
    assert_eq!(
        ledger.safe_batch_transfer_from(a, a, b, vec![1], vec![1000], &plain),
        Err(Error::InsufficientBalance)
    );
    assert_eq!(ledger.balance_of(a, 1), 60);
    assert_eq!(ledger.balance_of(b, 1), 40);
    assert_eq!(ledger.mint(a, 99, 1), Err(Error::UnexistentToken));
    assert_eq!(ledger.token_id_nonce(), 1);
}

#[test]
fn transfer_conserves_the_supply() {
    let a = account(1);
    let b = account(2);
    let c = account(3);
    let mut ledger = Incrementer::new();
    ledger.create(a, 100);
    ledger.mint(b, 1, 11).unwrap();
    ledger.mint(c, 1, 5).unwrap();
    let total = |l: &Incrementer| l.balance_of(a, 1) + l.balance_of(b, 1) + l.balance_of(c, 1);
    assert_eq!(total(&ledger), 116);
    assert_eq!(ledger.safe_batch_transfer_from(a, a, b, vec![1], vec![25], &magic()), Ok(()));
    assert_eq!(ledger.balance_of(a, 1), 75);
    assert_eq!(ledger.balance_of(b, 1), 36);
    assert_eq!(ledger.balance_of(c, 1), 5);
    assert_eq!(total(&ledger), 116);
}

#[test]
fn batch_moves_every_pair() {
    let a = account(1);
    let b = account(2);
    let mut ledger = Incrementer::new();
    ledger.create(a, 100);
    ledger.create(a, 200);
    ledger.create(a, 300);
    ledger.take_events();
    assert_eq!(
        ledger.safe_batch_transfer_from(a, a, b, vec![3, 1, 3], vec![30, 10, 70], &magic()),
        Ok(())
    );
    assert_eq!(ledger.balance_of(a, 1), 90);
    assert_eq!(ledger.balance_of(a, 2), 200);
    assert_eq!(ledger.balance_of(a, 3), 200);
    assert_eq!(ledger.balance_of(b, 1), 10);
    assert_eq!(ledger.balance_of(b, 2), 0);
    assert_eq!(ledger.balance_of(b, 3), 100);
    let record = |token_id, value| TransferSingle {
        operator: Some(a),
        from: Some(a),
        to: Some(b),
        token_id,
        value,
    };
    assert_eq!(ledger.events(), &vec![record(3, 30), record(1, 10), record(3, 70)]);
}

#[test]
fn operator_is_the_caller() {
    let a = account(1);
    let b = account(2);
    let c = account(3);
    let mut ledger = Incrementer::new();
    ledger.create(a, 100);
    ledger.set_approval_for_all(a, c, true);
    ledger.take_events();
    assert_eq!(ledger.safe_batch_transfer_from(c, a, b, vec![1], vec![1], &magic()), Ok(()));
    assert_eq!(
        ledger.events(),
        &vec![TransferSingle {
            operator: Some(c),
            from: Some(a),
            to: Some(b),
            token_id: 1,
            value: 1
        }]
    );
    assert_eq!(ledger.balance_of(a, 1), 99);
    assert_eq!(ledger.balance_of(b, 1), 1);
    assert_eq!(ledger.balance_of(c, 1), 0);
}

#[test]
fn short_pair_stops_the_whole_batch() {
    let a = account(1);
    let b = account(2);
    let mut ledger = Incrementer::new();
    ledger.create(a, 100);
    ledger.create(a, 200);
    ledger.take_events();
    assert_eq!(
        ledger.safe_batch_transfer_from(a, a, b, vec![1, 2], vec![100, 201], &magic()),
        Err(Error::InsufficientBalance)
    );
    assert_eq!(
        ledger.safe_batch_transfer_from(a, a, b, vec![2, 1], vec![201, 100], &magic()),
        Err(Error::InsufficientBalance)
    );
    assert_eq!(ledger.balance_of(a, 1), 100);
    assert_eq!(ledger.balance_of(a, 2), 200);
    assert_eq!(ledger.balance_of(b, 1), 0);
    assert_eq!(ledger.balance_of(b, 2), 0);
    assert!(ledger.events().is_empty());
}

#[test]
fn pairs_of_one_token_add_up() {
    let a = account(1);
    let b = account(2);
    let mut ledger = Incrementer::new();
    ledger.create(a, 50);
    assert_eq!(
        ledger.safe_batch_transfer_from(a, a, b, vec![1, 1], vec![40, 40], &magic()),
        Err(Error::InsufficientBalance)
    );
    assert_eq!(ledger.balance_of(a, 1), 50);
    assert_eq!(ledger.balance_of(b, 1), 0);
    assert_eq!(
        ledger.safe_batch_transfer_from(a, a, b, vec![1, 1], vec![40, 10], &magic()),
        Ok(())
    );
    assert_eq!(ledger.balance_of(a, 1), 0);
    assert_eq!(ledger.balance_of(b, 1), 50);
}

#[test]
fn batch_to_oneself_changes_no_balance() {
    let a = account(1);
    let mut ledger = Incrementer::new();
    ledger.create(a, 50);
    ledger.take_events();
    assert_eq!(
        ledger.safe_batch_transfer_from(a, a, a, vec![1, 1], vec![40, 40], &magic()),
        Ok(())
    );
    assert_eq!(ledger.balance_of(a, 1), 50);
    assert_eq!(ledger.events().len(), 2);
    assert_eq!(
        ledger.safe_batch_transfer_from(a, a, a, vec![1, 1], vec![40, 51], &magic()),
        Err(Error::InsufficientBalance)
    );
    assert_eq!(ledger.balance_of(a, 1), 50);
    assert_eq!(ledger.events().len(), 2);
}

#[test]
fn nothing_can_be_moved_from_an_empty_balance() {
    let a = account(1);
    let b = account(2);
    let mut ledger = Incrementer::new();
    assert_eq!(
        ledger.safe_batch_transfer_from(a, a, b, vec![5], vec![0], &magic()),
        Ok(())
    );
    assert_eq!(ledger.balance_of(a, 5), 0);
    assert_eq!(ledger.balance_of(b, 5), 0);
    assert_eq!(
        ledger.safe_batch_transfer_from(a, a, b, vec![5], vec![1], &magic()),
        Err(Error::InsufficientBalance)
    );
}

#[test]
fn zero_address_is_refused_whatever_the_balances() {
    let a = account(1);
    let zero = AccountId::zero();
    let mut ledger = Incrementer::new();
    ledger.create(a, 100);
    for (ids, values) in [
        (vec![1], vec![40]),
        (vec![1], vec![1000]),
        (vec![], vec![]),
        (vec![1, 2], vec![1]),
    ] {
        assert_eq!(
            ledger.safe_batch_transfer_from(a, a, zero, ids, values, &magic()),
            Err(Error::ZeroAddressTransfer)
        );
    }
    assert_eq!(
        ledger.safe_batch_transfer_from(a, a, AccountId([0; 32]), vec![1], vec![1], &ProbeOutcome::Failed),
        Err(Error::ZeroAddressTransfer)
    );
    assert_eq!(ledger.balance_of(a, 1), 100);
    assert_eq!(ledger.balance_of(zero, 1), 0);
}

#[test]
fn mismatched_batch_is_refused() {
    let a = account(1);
    let b = account(2);
    let mut ledger = Incrementer::new();
    ledger.create(a, 100);
    ledger.take_events();
    for (ids, values) in [
        (vec![], vec![]),
        (vec![1], vec![]),
        (vec![], vec![1]),
        (vec![1, 1], vec![1]),
        (vec![1], vec![1000, 1]),
    ] {
        assert_eq!(
            ledger.safe_batch_transfer_from(a, a, b, ids, values, &magic()),
            Err(Error::BatchTransferMismatch)
        );
    }
    assert_eq!(ledger.balance_of(a, 1), 100);
    assert_eq!(ledger.balance_of(b, 1), 0);
    assert!(ledger.events().is_empty());
}

#[test]
fn rejecting_recipient_gets_nothing() {
    let a = account(1);
    let b = account(2);
    let mut ledger = Incrementer::new();
    ledger.create(a, 100);
    ledger.take_events();
    for outcome in [
        ProbeOutcome::Returned(vec![1, 2, 3, 4]),
        ProbeOutcome::Returned(vec![]),
        ProbeOutcome::Malformed,
        ProbeOutcome::Failed,
    ] {
        assert_eq!(
            ledger.safe_batch_transfer_from(a, a, b, vec![1], vec![40], &outcome),
            Err(Error::TransferRejected)
        );
        assert_eq!(ledger.balance_of(a, 1), 100);
        assert_eq!(ledger.balance_of(b, 1), 0);
        assert!(ledger.events().is_empty());
    }
}

#[test]
fn recipient_without_code_gets_any_payload() {
    let a = account(1);
    let b = account(2);
    let mut ledger = Incrementer::new();
    ledger.create(a, 100);
    assert_eq!(
        ledger.safe_batch_transfer_from(a, a, b, vec![1], vec![40], &ProbeOutcome::CodeNotFound),
        Ok(())
    );
    assert_eq!(
        ledger.safe_batch_transfer_from(a, a, b, vec![1, 1], vec![0, 60], &ProbeOutcome::NotCallable),
        Ok(())
    );
    assert_eq!(ledger.balance_of(a, 1), 0);
    assert_eq!(ledger.balance_of(b, 1), 100);
}

#[test]
fn shortage_is_told_before_rejection() {
    let a = account(1);
    let b = account(2);
    let mut ledger = Incrementer::new();
    ledger.create(a, 100);
    assert_eq!(
        ledger.safe_batch_transfer_from(a, a, b, vec![1], vec![101], &ProbeOutcome::Failed),
        Err(Error::InsufficientBalance)
    );
    assert_eq!(
        ledger.safe_batch_transfer_from(a, a, b, vec![], vec![], &ProbeOutcome::Failed),
        Err(Error::BatchTransferMismatch)
    );
}

#[test]
fn recipient_without_room_stops_the_whole_batch() {
    let a = account(1);
    let b = account(2);
    let mut ledger = Incrementer::new();
    ledger.create(a, 100);
    ledger.create(a, 100);
    ledger.mint(b, 2, u128::MAX - 5).unwrap();
    ledger.take_events();
    assert_eq!(
        ledger.safe_batch_transfer_from(a, a, b, vec![1, 2], vec![10, 6], &magic()),
        Err(Error::BalanceOverflow)
    );
    assert_eq!(
        ledger.safe_batch_transfer_from(a, a, b, vec![2, 2], vec![3, 3], &magic()),
        Err(Error::BalanceOverflow)
    );
    assert_eq!(ledger.balance_of(a, 1), 100);
    assert_eq!(ledger.balance_of(a, 2), 100);
    assert_eq!(ledger.balance_of(b, 1), 0);
    assert_eq!(ledger.balance_of(b, 2), u128::MAX - 5);
    assert!(ledger.events().is_empty());
    assert_eq!(
        ledger.safe_batch_transfer_from(a, a, b, vec![2, 1, 2], vec![3, 10, 2], &magic()),
        Ok(())
    );
    assert_eq!(ledger.balance_of(b, 2), u128::MAX);
    assert_eq!(ledger.balance_of(a, 2), 95);
    assert_eq!(ledger.balance_of(b, 1), 10);
}

#[test]
fn shortage_is_told_before_overflow() {
    let a = account(1);
    let b = account(2);
    let mut ledger = Incrementer::new();
    ledger.create(a, 100);
    ledger.create(a, 100);
    ledger.mint(b, 1, u128::MAX).unwrap();
    assert_eq!(
        ledger.safe_batch_transfer_from(a, a, b, vec![1, 2], vec![1, 101], &magic()),
        Err(Error::InsufficientBalance)
    );
    assert_eq!(
        ledger.safe_batch_transfer_from(a, a, b, vec![1, 2], vec![1, 100], &magic()),
        Err(Error::BalanceOverflow)
    );
}

#[test]
fn operator_that_nobody_approved_is_refused() {
    let a = account(1);
    let b = account(2);
    let c = account(3);
    let mut ledger = Incrementer::new();
    ledger.create(a, 100);
    ledger.take_events();
    assert_eq!(
        ledger.safe_batch_transfer_from(c, a, b, vec![1], vec![40], &magic()),
        Err(Error::NotApproved)
    );
    assert_eq!(
        ledger.safe_batch_transfer_from(b, a, b, vec![1], vec![40], &ProbeOutcome::NotCallable),
        Err(Error::NotApproved)
    );
    assert_eq!(ledger.balance_of(a, 1), 100);
    assert_eq!(ledger.balance_of(b, 1), 0);
    assert_eq!(ledger.balance_of(c, 1), 0);
    assert!(ledger.events().is_empty());
}

#[test]
fn approval_is_looked_at_before_anything_else() {
    let a = account(1);
    let b = account(2);
    let c = account(3);
    let mut ledger = Incrementer::new();
    ledger.create(a, 100);
    for (to, ids, values) in [
        (AccountId::zero(), vec![1], vec![1]),
        (b, vec![], vec![]),
        (b, vec![1, 1], vec![1]),
        (b, vec![1], vec![1000]),
    ] {
        assert_eq!(
            ledger.safe_batch_transfer_from(c, a, to, ids, values, &ProbeOutcome::Failed),
            Err(Error::NotApproved)
        );
    }
    ledger.set_approval_for_all(a, c, true);
    assert_eq!(
        ledger.safe_batch_transfer_from(c, a, AccountId::zero(), vec![1], vec![1], &magic()),
        Err(Error::ZeroAddressTransfer)
    );
    assert_eq!(
        ledger.safe_batch_transfer_from(c, a, b, vec![], vec![], &magic()),
        Err(Error::BatchTransferMismatch)
    );
    assert_eq!(
        ledger.safe_batch_transfer_from(c, a, b, vec![1], vec![1000], &magic()),
        Err(Error::InsufficientBalance)
    );
}

#[test]
fn approval_is_by_owner_and_operator() {
    let a = account(1);
    let b = account(2);
    let c = account(3);
    let mut ledger = Incrementer::new();
    ledger.create(a, 100);
    ledger.mint(b, 1, 50).unwrap();
    ledger.set_approval_for_all(a, c, true);
    assert_eq!(
        ledger.safe_batch_transfer_from(c, b, a, vec![1], vec![1], &magic()),
        Err(Error::NotApproved)
    );
    assert_eq!(
        ledger.safe_batch_transfer_from(a, c, b, vec![1], vec![0], &magic()),
        Err(Error::NotApproved)
    );
    assert_eq!(ledger.safe_batch_transfer_from(c, a, b, vec![1], vec![10], &magic()), Ok(()));
    assert_eq!(ledger.balance_of(a, 1), 90);
    assert_eq!(ledger.balance_of(b, 1), 60);
    ledger.set_approval_for_all(a, c, false);
    assert_eq!(
        ledger.safe_batch_transfer_from(c, a, b, vec![1], vec![10], &magic()),
        Err(Error::NotApproved)
    );
    assert_eq!(ledger.balance_of(a, 1), 90);
    assert_eq!(ledger.balance_of(b, 1), 60);
}

#[test]
fn sender_needs_no_approval() {
    let a = account(1);
    let b = account(2);
    let mut ledger = Incrementer::new();
    ledger.create(a, 100);
    assert!(!ledger.is_approved_for_all(a, a));
    assert_eq!(ledger.safe_batch_transfer_from(a, a, b, vec![1], vec![10], &magic()), Ok(()));
    assert_eq!(ledger.balance_of(b, 1), 10);
}
