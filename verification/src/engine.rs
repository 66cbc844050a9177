//! The four operations of the engine.
//!
//! `initialize` creates a group, `create_transaction` proposes a
//! transaction to it, `approve` records one owner's consent, and
//! `execute_transaction` marks a transaction executed once enough owners
//! have approved. Each either completes or is refused with an error and
//! leaves everything as it was.

use vstd::prelude::*;
use anchor_lang::prelude::Pubkey;
use crate::error::ErrorCode;
use crate::keys::same_key;
use crate::rules::{
    approved, executed, initialized, lemma_absent_has_no_position, lemma_first_at_is_position,
    lemma_position_is_first, position_of, proposed,
};
use crate::state::{
    count_true, Multisig, MultisigView, Transaction, TransactionInstruction, TransactionView,
    MAX_OWNERS,
};

verus! {

impl Multisig {
    /// The first position in the owner list that holds `key`, or `None`
    /// where `key` is not an owner.
    pub fn owner_index(&self, key: &Pubkey) -> (r: Option<usize>)
        ensures
            match r {
                Some(i) => position_of(self@.owners, *key) == Some(i as int),
                None => position_of(self@.owners, *key) == None::<int>,
            },
    {
        let mut i: usize = 0;
        while i < self.owners.len()
            invariant
                i <= self.owners.len(),
                forall|j: int| 0 <= j < i ==> self.owners@[j] != *key,
            decreases self.owners.len() - i,
        {
            if same_key(&self.owners[i], key) {
                proof {
                    lemma_first_at_is_position(self@.owners, *key, i as int);
                }
                return Some(i);
            }
            i += 1;
        }
        proof {
            lemma_absent_has_no_position(self@.owners, *key);
        }
        None
    }
}

impl Transaction {
    /// How many owners have approved.
    pub fn approval_count(&self) -> (n: usize)
        ensures
            n == self@.approval_count(),
    {
        let mut n: usize = 0;
        let mut i: usize = 0;
        while i < self.signers.len()
            invariant
                i <= self.signers.len(),
                n <= i,
                n == count_true(self.signers@.take(i as int)),
            decreases self.signers.len() - i,
        {
            proof {
                assert(self.signers@.take(i + 1).drop_last() =~= self.signers@.take(i as int));
            }
            if self.signers[i] {
                n += 1;
            }
            i += 1;
        }
        proof {
            assert(self.signers@.take(i as int) =~= self.signers@);
        }
        n
    }
}

/// Creates a group from `owners`, in the order given, and `threshold`.
///
/// Refused with `TooManyOwners` where more than ten owners are given, else
/// with `InvalidThreshold` where `threshold` is above the number of owners.
/// A key that is given twice holds two positions; a threshold of zero is
/// accepted.
pub fn initialize(owners: Vec<Pubkey>, threshold: u8) -> (r: Result<Multisig, ErrorCode>)
    ensures
        match r {
            Ok(group) => initialized(owners@, threshold as nat) == Ok::<MultisigView, ErrorCode>(
                group@,
            ) && group.well_formed(),
            Err(e) => initialized(owners@, threshold as nat) == Err::<MultisigView, ErrorCode>(e),
        },
{
    if owners.len() > MAX_OWNERS {
        return Err(ErrorCode::TooManyOwners);
    }
    if threshold as usize > owners.len() {
        return Err(ErrorCode::InvalidThreshold);
    }
    Ok(Multisig { owners, threshold, nonce: 0 })
}

/// Proposes `instructions` to the group `multisig`, which is known by
/// `multisig_key`. The new transaction has no approval yet and has not been
/// executed. The instructions are stored as given, an empty list too.
pub fn create_transaction(
    multisig_key: Pubkey,
    multisig: &Multisig,
    instructions: Vec<TransactionInstruction>,
) -> (transaction: Transaction)
    ensures
        transaction@ == proposed(multisig_key, multisig@, instructions@),
        transaction.aligned_with(multisig),
{
    let mut signers: Vec<bool> = Vec::new();
    let mut i: usize = 0;
    while i < multisig.owners.len()
        invariant
            i <= multisig.owners.len(),
            signers@.len() == i,
            forall|j: int| 0 <= j < i ==> !signers@[j],
        decreases multisig.owners.len() - i,
    {
        signers.push(false);
        i += 1;
    }
    let transaction = Transaction {
        multisig: multisig_key,
        instructions,
        signers,
        did_execute: false,
    };
    proof {
        assert(transaction@.signers =~= proposed(multisig_key, multisig@, instructions@).signers);
    }
    transaction
}

/// Records that `owner` approves `transaction`.
///
/// Refused with `InvalidOwner` where `owner` is not an owner of the group.
/// Else the entry at the owner's first position in the owner list is set;
/// an approval that is already recorded stays recorded. Whether the
/// transaction has been executed is not asked.
pub fn approve(multisig: &Multisig, transaction: &mut Transaction, owner: &Pubkey) -> (r: Result<
    (),
    ErrorCode,
>)
    requires
        old(transaction).aligned_with(multisig),
    ensures
        match r {
            Ok(()) => approved(multisig@, old(transaction)@, *owner) == Ok::<
                TransactionView,
                ErrorCode,
            >(final(transaction)@) && final(transaction).aligned_with(multisig),
            Err(e) => approved(multisig@, old(transaction)@, *owner) == Err::<
                TransactionView,
                ErrorCode,
            >(e) && *final(transaction) == *old(transaction),
        },
{
    match multisig.owner_index(owner) {
        Some(owner_index) => {
            proof {
                lemma_position_is_first(multisig@.owners, *owner);
            }
            transaction.signers.set(owner_index, true);
            Ok(())
        },
        None => Err(ErrorCode::InvalidOwner),
    }
}

/// Marks `transaction` executed where enough owners have approved it.
///
/// Refused with `AlreadyExecuted` where it has been executed before, else
/// with `NotEnoughSigners` where fewer owners have approved than the group's
/// threshold. The instructions themselves are not carried out here.
pub fn execute_transaction(multisig: &Multisig, transaction: &mut Transaction) -> (r: Result<
    (),
    ErrorCode,
>)
    ensures
        match r {
            Ok(()) => executed(multisig@, old(transaction)@) == Ok::<TransactionView, ErrorCode>(
                final(transaction)@,
            ),
            Err(e) => executed(multisig@, old(transaction)@) == Err::<TransactionView, ErrorCode>(
                e,
            ) && *final(transaction) == *old(transaction),
        },
{
    if transaction.did_execute {
        return Err(ErrorCode::AlreadyExecuted);
    }
    let sig_count = transaction.approval_count();
    if sig_count < multisig.threshold as usize {
        return Err(ErrorCode::NotEnoughSigners);
    }
    transaction.did_execute = true;
    Ok(())
}

} // verus!
