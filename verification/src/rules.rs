//! The rules of the engine, as functions on the models of its records.
//!
//! Each operation is described here as a mathematical function from the
//! state before it to its outcome: the state after it, or the error with
//! which it is refused. The executable operations are held to these.

use vstd::prelude::*;
use anchor_lang::prelude::Pubkey;
use crate::error::ErrorCode;
use crate::state::{MultisigView, TransactionView, TransactionInstruction, MAX_OWNERS};

verus! {

/// Whether `i` is the first position of `owners` that holds `key`.
pub open spec fn first_at(owners: Seq<Pubkey>, key: Pubkey, i: int) -> bool {
    &&& 0 <= i < owners.len()
    &&& owners[i] == key
    &&& forall|j: int| 0 <= j < i ==> owners[j] != key
}

/// The first position of `owners` that holds `key`, if any does.
pub open spec fn position_of(owners: Seq<Pubkey>, key: Pubkey) -> Option<int> {
    if exists|i: int| first_at(owners, key, i) {
        Some(choose|i: int| first_at(owners, key, i))
    } else {
        None
    }
}

/// The outcome of creating a group from `owners` and `threshold`.
pub open spec fn initialized(owners: Seq<Pubkey>, threshold: nat) -> Result<
    MultisigView,
    ErrorCode,
> {
    if owners.len() > MAX_OWNERS {
        Err(ErrorCode::TooManyOwners)
    } else if threshold > owners.len() {
        Err(ErrorCode::InvalidThreshold)
    } else {
        Ok(MultisigView { owners, threshold, nonce: 0 })
    }
}

/// The transaction that proposing `instructions` to `group`, which is known
/// by `group_key`, creates.
pub open spec fn proposed(
    group_key: Pubkey,
    group: MultisigView,
    instructions: Seq<TransactionInstruction>,
) -> TransactionView {
    TransactionView {
        multisig: group_key,
        instructions,
        signers: Seq::new(group.owners.len(), |i: int| false),
        did_execute: false,
    }
}

/// The outcome of an approval of `transaction` by `key`.
pub open spec fn approved(group: MultisigView, transaction: TransactionView, key: Pubkey) -> Result<
    TransactionView,
    ErrorCode,
> {
    match position_of(group.owners, key) {
        Some(i) => Ok(
            TransactionView { signers: transaction.signers.update(i, true), ..transaction },
        ),
        None => Err(ErrorCode::InvalidOwner),
    }
}

/// The outcome of executing `transaction`.
pub open spec fn executed(group: MultisigView, transaction: TransactionView) -> Result<
    TransactionView,
    ErrorCode,
> {
    if transaction.did_execute {
        Err(ErrorCode::AlreadyExecuted)
    } else if !transaction.has_quorum(group) {
        Err(ErrorCode::NotEnoughSigners)
    } else {
        Ok(TransactionView { did_execute: true, ..transaction })
    }
}

/// The state after an attempt to approve: the outcome of the approval, or the
/// state as it was where the approval is refused.
pub open spec fn after_approve(group: MultisigView, transaction: TransactionView, key: Pubkey) -> TransactionView {
    match approved(group, transaction, key) {
        Ok(next) => next,
        Err(_) => transaction,
    }
}

/// The state after an attempt to execute: the outcome of the execution, or
/// the state as it was where the execution is refused.
pub open spec fn after_execute(group: MultisigView, transaction: TransactionView) -> TransactionView {
    match executed(group, transaction) {
        Ok(next) => next,
        Err(_) => transaction,
    }
}

/// A key has at most one first position: where `i` is one, it is the
/// position that `position_of` gives.
pub proof fn lemma_first_at_is_position(owners: Seq<Pubkey>, key: Pubkey, i: int)
    requires
        first_at(owners, key, i),
    ensures
        position_of(owners, key) == Some(i),
{
    let c = choose|c: int| first_at(owners, key, c);
    assert(first_at(owners, key, c));
    if c < i {
        assert(owners[c] != key);
    }
    if i < c {
        assert(owners[i] != key);
    }
}

/// A key that no position of `owners` holds has no first position.
pub proof fn lemma_absent_has_no_position(owners: Seq<Pubkey>, key: Pubkey)
    requires
        forall|j: int| 0 <= j < owners.len() ==> owners[j] != key,
    ensures
        position_of(owners, key) == None::<int>,
{
    assert forall|i: int| !first_at(owners, key, i) by {
        if 0 <= i < owners.len() {
            assert(owners[i] != key);
        }
    }
}

/// The position that `position_of` gives is a first position.
pub proof fn lemma_position_is_first(owners: Seq<Pubkey>, key: Pubkey)
    ensures
        match position_of(owners, key) {
            Some(i) => first_at(owners, key, i),
            None => !owners.contains(key),
        },
{
    if exists|i: int| first_at(owners, key, i) {
    } else {
        if owners.contains(key) {
            let k = choose|k: int| 0 <= k < owners.len() && owners[k] == key;
            lemma_first_exists(owners, key, k);
        }
    }
}

/// Where position `k` holds `key`, some position at or below `k` is the first
/// that does.
proof fn lemma_first_exists(owners: Seq<Pubkey>, key: Pubkey, k: int)
    requires
        0 <= k < owners.len(),
        owners[k] == key,
    ensures
        exists|i: int| first_at(owners, key, i),
    decreases k,
{
    if exists|j: int| 0 <= j < k && owners[j] == key {
        let j = choose|j: int| 0 <= j < k && owners[j] == key;
        lemma_first_exists(owners, key, j);
    } else {
        assert(first_at(owners, key, k));
    }
}

} // verus!
