use anchor_lang::prelude::Pubkey;
use multisig_verified::state::MAX_OWNERS;
use multisig_verified::{
    approve, create_transaction, execute_transaction, initialize, ErrorCode, Multisig,
    Transaction, TransactionAccount, TransactionInstruction,
};

fn key(n: u8) -> Pubkey {
    Pubkey::new_from_array([n; 32])
}

fn keys(count: u8) -> Vec<Pubkey> {
    (1..=count).map(key).collect()
}

fn group_of(count: u8, threshold: u8) -> Multisig {
    initialize(keys(count), threshold).unwrap()
}

fn transfer() -> TransactionInstruction {
    TransactionInstruction {
        program_id: key(200),
        accounts: vec![
            TransactionAccount { pubkey: key(201), is_signer: true, is_writable: true },
            TransactionAccount { pubkey: key(202), is_signer: false, is_writable: true },
        ],
        data: vec![2, 0, 0, 0, 7],
    }
}

#[test]
fn initialize_keeps_owners_threshold_and_zero_nonce() {
    let group = initialize(vec![key(3), key(1), key(2)], 2).unwrap();
    assert_eq!(group.owners, vec![key(3), key(1), key(2)]);
    assert_eq!(group.threshold, 2);
    assert_eq!(group.nonce, 0);
}

#[test]
fn initialize_accepts_ten_owners() {
    let group = initialize(keys(10), 10).unwrap();
    assert_eq!(group.owners.len(), 10);
    assert_eq!(group.threshold, 10);
}

#[test]
fn initialize_rejects_eleven_owners() {
    assert_eq!(initialize(keys(11), 1), Err(ErrorCode::TooManyOwners));
}

#[test]
fn initialize_rejects_many_owners_whatever_the_threshold() {
    assert_eq!(initialize(keys(11), 0), Err(ErrorCode::TooManyOwners));
    assert_eq!(initialize(keys(11), 11), Err(ErrorCode::TooManyOwners));
    assert_eq!(initialize(keys(40), 255), Err(ErrorCode::TooManyOwners));
}

#[test]
fn initialize_reports_too_many_owners_before_the_threshold() {
    assert_eq!(initialize(keys(11), 12), Err(ErrorCode::TooManyOwners));
}

#[test]
fn initialize_rejects_threshold_above_owner_count() {
    assert_eq!(initialize(vec![key(1), key(2)], 3), Err(ErrorCode::InvalidThreshold));
}

#[test]
fn initialize_rejects_each_threshold_above_each_owner_count() {
    for count in 0u8..=10 {
        for threshold in (count + 1)..=12 {
            assert_eq!(initialize(keys(count), threshold), Err(ErrorCode::InvalidThreshold));
        }
        for threshold in 0..=count {
            assert!(initialize(keys(count), threshold).is_ok());
        }
    }
}

#[test]
fn initialize_accepts_threshold_equal_to_owner_count() {
    assert!(initialize(keys(4), 4).is_ok());
}

#[test]
fn initialize_accepts_threshold_zero() {
    let group = initialize(keys(3), 0).unwrap();
    assert_eq!(group.threshold, 0);
}

#[test]
fn initialize_accepts_no_owners_with_threshold_zero() {
    let group = initialize(Vec::new(), 0).unwrap();
    assert!(group.owners.is_empty());
    assert_eq!(initialize(Vec::new(), 1), Err(ErrorCode::InvalidThreshold));
}

#[test]
fn initialize_keeps_duplicate_owners() {
    let group = initialize(vec![key(1), key(2), key(1)], 3).unwrap();
    assert_eq!(group.owners, vec![key(1), key(2), key(1)]);
}

#[test]
fn owner_limit_is_ten() {
    assert_eq!(MAX_OWNERS, 10);
}

#[test]
fn record_sizes() {
    assert_eq!(Multisig::MAX_SIZE, 429);
    assert_eq!(Transaction::MAX_SIZE, 1233);
}

#[test]
fn fresh_transaction_has_one_unset_entry_per_owner() {
    for count in 0u8..=10 {
        let group = group_of(count, 0);
        let transaction = create_transaction(key(99), &group, vec![transfer()]);
        assert_eq!(transaction.signers, vec![false; count as usize]);
        assert!(!transaction.did_execute);
        assert_eq!(transaction.approval_count(), 0);
    }
}

#[test]
fn fresh_transaction_keeps_group_key_and_instructions() {
    let group = group_of(3, 2);
    let transaction = create_transaction(key(99), &group, vec![transfer(), transfer()]);
    assert_eq!(transaction.multisig, key(99));
    assert_eq!(transaction.instructions, vec![transfer(), transfer()]);
}

#[test]
fn fresh_transaction_may_hold_no_instructions() {
    let group = group_of(2, 1);
    let transaction = create_transaction(key(99), &group, Vec::new());
    assert!(transaction.instructions.is_empty());
    assert_eq!(transaction.signers, vec![false, false]);
}

#[test]
fn owner_index_finds_each_owner() {
    let group = group_of(4, 2);
    assert_eq!(group.owner_index(&key(1)), Some(0));
    assert_eq!(group.owner_index(&key(2)), Some(1));
    assert_eq!(group.owner_index(&key(4)), Some(3));
    assert_eq!(group.owner_index(&key(5)), None);
}

#[test]
fn owner_index_gives_the_first_of_two_equal_owners() {
    let group = initialize(vec![key(7), key(8), key(8), key(7)], 1).unwrap();
    assert_eq!(group.owner_index(&key(8)), Some(1));
    assert_eq!(group.owner_index(&key(7)), Some(0));
}

#[test]
fn owner_index_tells_keys_apart_by_every_byte() {
    let mut bytes = [5u8; 32];
    let first = Pubkey::new_from_array(bytes);
    bytes[31] = 6;
    let second = Pubkey::new_from_array(bytes);
    let group = initialize(vec![first, second], 1).unwrap();
    assert_eq!(group.owner_index(&second), Some(1));
    bytes[0] = 4;
    assert_eq!(group.owner_index(&Pubkey::new_from_array(bytes)), None);
}

#[test]
fn approve_sets_the_owners_entry() {
    let group = group_of(3, 2);
    let mut transaction = create_transaction(key(99), &group, vec![transfer()]);
    assert_eq!(approve(&group, &mut transaction, &key(2)), Ok(()));
    assert_eq!(transaction.signers, vec![false, true, false]);
    assert_eq!(approve(&group, &mut transaction, &key(3)), Ok(()));
    assert_eq!(transaction.signers, vec![false, true, true]);
    assert_eq!(transaction.multisig, key(99));
    assert_eq!(transaction.instructions, vec![transfer()]);
    assert!(!transaction.did_execute);
}

#[test]
fn approve_by_stranger_is_refused_and_changes_nothing() {
    let group = group_of(3, 2);
    let mut transaction = create_transaction(key(99), &group, vec![transfer()]);
    approve(&group, &mut transaction, &key(1)).unwrap();
    let before = create_transaction(key(99), &group, vec![transfer()]);
    assert_eq!(approve(&group, &mut transaction, &key(9)), Err(ErrorCode::InvalidOwner));
    assert_eq!(transaction.signers, vec![true, false, false]);
    assert_eq!(transaction.instructions, before.instructions);
    assert_eq!(transaction.multisig, before.multisig);
    assert!(!transaction.did_execute);
}

#[test]
fn approve_in_a_group_without_owners_is_refused() {
    let group = group_of(0, 0);
    let mut transaction = create_transaction(key(99), &group, Vec::new());
    assert_eq!(approve(&group, &mut transaction, &key(1)), Err(ErrorCode::InvalidOwner));
    assert!(transaction.signers.is_empty());
}

#[test]
fn approve_twice_is_the_same_as_once() {
    let group = group_of(3, 2);
    let mut once = create_transaction(key(99), &group, vec![transfer()]);
    approve(&group, &mut once, &key(3)).unwrap();
    let mut many = create_transaction(key(99), &group, vec![transfer()]);
    for _ in 0..5 {
        assert_eq!(approve(&group, &mut many, &key(3)), Ok(()));
        assert_eq!(many, once);
    }
    assert_eq!(many.signers, vec![false, false, true]);
    assert_eq!(many.approval_count(), 1);
}

#[test]
fn approve_by_duplicate_owner_sets_only_the_first_entry() {
    let group = initialize(vec![key(1), key(2), key(1)], 2).unwrap();
    let mut transaction = create_transaction(key(99), &group, Vec::new());
    approve(&group, &mut transaction, &key(1)).unwrap();
    approve(&group, &mut transaction, &key(1)).unwrap();
    assert_eq!(transaction.signers, vec![true, false, false]);
    assert_eq!(execute_transaction(&group, &mut transaction), Err(ErrorCode::NotEnoughSigners));
}

#[test]
fn approve_is_accepted_after_execution() {
    let group = group_of(3, 1);
    let mut transaction = create_transaction(key(99), &group, Vec::new());
    approve(&group, &mut transaction, &key(1)).unwrap();
    execute_transaction(&group, &mut transaction).unwrap();
    assert_eq!(approve(&group, &mut transaction, &key(2)), Ok(()));
    assert_eq!(transaction.signers, vec![true, true, false]);
    assert!(transaction.did_execute);
}

#[test]
fn approval_count_counts_set_entries() {
    let transaction = Transaction {
        multisig: key(99),
        instructions: Vec::new(),
        signers: vec![true, false, true, true, false],
        did_execute: false,
    };
    assert_eq!(transaction.approval_count(), 3);
    let none = Transaction {
        multisig: key(99),
        instructions: Vec::new(),
        signers: Vec::new(),
        did_execute: false,
    };
    assert_eq!(none.approval_count(), 0);
}

#[test]
fn execute_succeeds_exactly_at_quorum() {
    for threshold in 0u8..=4 {
        let group = group_of(4, threshold);
        let mut transaction = create_transaction(key(99), &group, vec![transfer()]);
        for approvals in 0u8..=4 {
            if approvals > 0 {
                approve(&group, &mut transaction, &key(approvals)).unwrap();
            }
            let mut attempt = Transaction {
                multisig: transaction.multisig,
                instructions: transaction.instructions.clone(),
                signers: transaction.signers.clone(),
                did_execute: false,
            };
            let outcome = execute_transaction(&group, &mut attempt);
            if approvals >= threshold {
                assert_eq!(outcome, Ok(()));
                assert!(attempt.did_execute);
            } else {
                assert_eq!(outcome, Err(ErrorCode::NotEnoughSigners));
                assert!(!attempt.did_execute);
            }
            assert_eq!(attempt.signers, transaction.signers);
            assert_eq!(attempt.instructions, transaction.instructions);
        }
    }
}

#[test]
fn execute_with_threshold_zero_needs_no_approval() {
    let group = group_of(2, 0);
    let mut transaction = create_transaction(key(99), &group, Vec::new());
    assert_eq!(execute_transaction(&group, &mut transaction), Ok(()));
    assert!(transaction.did_execute);
    assert_eq!(transaction.signers, vec![false, false]);
}

#[test]
fn execute_twice_is_refused() {
    let group = group_of(3, 2);
    let mut transaction = create_transaction(key(99), &group, vec![transfer()]);
    approve(&group, &mut transaction, &key(1)).unwrap();
    approve(&group, &mut transaction, &key(2)).unwrap();
    assert_eq!(execute_transaction(&group, &mut transaction), Ok(()));
    assert_eq!(execute_transaction(&group, &mut transaction), Err(ErrorCode::AlreadyExecuted));
    approve(&group, &mut transaction, &key(3)).unwrap();
    assert_eq!(approve(&group, &mut transaction, &key(9)), Err(ErrorCode::InvalidOwner));
    assert_eq!(execute_transaction(&group, &mut transaction), Err(ErrorCode::AlreadyExecuted));
    assert!(transaction.did_execute);
    assert_eq!(transaction.signers, vec![true, true, true]);
}

#[test]
fn execute_reports_already_executed_before_the_count() {
    let group = group_of(3, 3);
    let mut transaction = Transaction {
        multisig: key(99),
        instructions: Vec::new(),
        signers: vec![false, false, false],
        did_execute: true,
    };
    assert_eq!(execute_transaction(&group, &mut transaction), Err(ErrorCode::AlreadyExecuted));
}

#[test]
fn scenario_two_of_three() {
    let (a, b, c) = (key(1), key(2), key(3));
    let group = initialize(vec![a, b, c], 2).unwrap();
    let mut x = create_transaction(key(99), &group, vec![transfer()]);

    assert_eq!(approve(&group, &mut x, &a), Ok(()));
    assert_eq!(x.signers, vec![true, false, false]);
    assert_eq!(execute_transaction(&group, &mut x), Err(ErrorCode::NotEnoughSigners));
    assert!(!x.did_execute);

    assert_eq!(approve(&group, &mut x, &b), Ok(()));
    assert_eq!(x.signers, vec![true, true, false]);
    assert_eq!(execute_transaction(&group, &mut x), Ok(()));
    assert!(x.did_execute);

    assert_eq!(execute_transaction(&group, &mut x), Err(ErrorCode::AlreadyExecuted));
}

#[test]
fn scenario_two_owners_threshold_three() {
    assert_eq!(initialize(vec![key(1), key(2)], 3), Err(ErrorCode::InvalidThreshold));
}

#[test]
fn scenario_eleven_owners() {
    let owners: Vec<Pubkey> = (1u8..=11).map(key).collect();
    assert_eq!(owners.len(), 11);
    assert_eq!(initialize(owners, 2), Err(ErrorCode::TooManyOwners));
}

#[test]
fn instruction_clone_is_equal() {
    let first = transfer();
    let copy = first.clone();
    assert_eq!(copy, first);
    assert_eq!(copy.program_id, key(200));
    assert_eq!(copy.accounts.len(), 2);
    assert_eq!(copy.accounts[1].pubkey, key(202));
    assert!(copy.accounts[0].is_signer);
    assert!(!copy.accounts[1].is_signer);
    assert_eq!(copy.data, vec![2, 0, 0, 0, 7]);
}

#[test]
fn account_clone_is_equal() {
    let first = TransactionAccount { pubkey: key(5), is_signer: false, is_writable: true };
    let copy = first.clone();
    assert_eq!(copy, first);
    assert_eq!(copy.pubkey, key(5));
    assert!(copy.is_writable);
}

#[test]
fn error_codes_are_distinct() {
    let all = [
        ErrorCode::TooManyOwners,
        ErrorCode::InvalidThreshold,
        ErrorCode::InvalidOwner,
        ErrorCode::NotEnoughSigners,
        ErrorCode::AlreadyExecuted,
    ];
    for (i, a) in all.iter().enumerate() {
        for (j, b) in all.iter().enumerate() {
            assert_eq!(a == b, i == j);
        }
    }
}
