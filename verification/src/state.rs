//! The records of the engine and their mathematical models.
//!
//! A `Multisig` is the registry of one group: its owners, in the order in
//! which they were given, and the number of approvals it asks for. A
//! `Transaction` is a proposed batch of instructions that waits for the
//! approval of one group. Contracts speak of both through their views.

use vstd::prelude::*;
use anchor_lang::prelude::Pubkey;

verus! {

/// The largest number of owners that a group can hold.
pub const MAX_OWNERS: usize = 10;

/// One participant of an instruction, with its role flags.
#[derive(Debug, PartialEq, Eq)]
pub struct TransactionAccount {
    pub pubkey: Pubkey,
    pub is_signer: bool,
    pub is_writable: bool,
}

impl Clone for TransactionAccount {
    fn clone(&self) -> (copy: Self)
        ensures
            copy == *self,
    {
        TransactionAccount {
            pubkey: self.pubkey,
            is_signer: self.is_signer,
            is_writable: self.is_writable,
        }
    }
}

/// One proposed operation: its target, its participants and its payload.
/// The engine stores it and never reads it.
#[derive(Debug, PartialEq, Eq)]
pub struct TransactionInstruction {
    pub program_id: Pubkey,
    pub accounts: Vec<TransactionAccount>,
    pub data: Vec<u8>,
}

impl Clone for TransactionInstruction {
    fn clone(&self) -> (copy: Self)
        ensures
            copy.program_id == self.program_id,
            copy.accounts@ == self.accounts@,
            copy.data@ == self.data@,
    {
        let mut accounts: Vec<TransactionAccount> = Vec::new();
        let mut i: usize = 0;
        while i < self.accounts.len()
            invariant
                i <= self.accounts.len(),
                accounts@ == self.accounts@.take(i as int),
            decreases self.accounts.len() - i,
        {
            accounts.push(self.accounts[i].clone());
            proof {
                assert(accounts@ =~= self.accounts@.take(i + 1));
            }
            i += 1;
        }
        let data = self.data.clone();
        proof {
            assert(self.accounts@.take(i as int) =~= self.accounts@);
            assert(data@ =~= self.data@);
        }
        TransactionInstruction { program_id: self.program_id, accounts, data }
    }
}

/// The registry of a group of owners.
#[derive(Debug, PartialEq, Eq)]
pub struct Multisig {
    /// The owners, in the order in which they were given.
    pub owners: Vec<Pubkey>,
    /// How many owners must approve a transaction before it can be executed.
    pub threshold: u8,
    /// A counter kept for later use. No operation reads or changes it.
    pub nonce: u64,
}

/// What a `Multisig` holds, as mathematical values.
pub struct MultisigView {
    pub owners: Seq<Pubkey>,
    pub threshold: nat,
    pub nonce: nat,
}

impl View for Multisig {
    type V = MultisigView;

    open spec fn view(&self) -> MultisigView {
        MultisigView {
            owners: self.owners@,
            threshold: self.threshold as nat,
            nonce: self.nonce as nat,
        }
    }
}

impl MultisigView {
    /// The bounds that every group meets from its creation on.
    pub open spec fn well_formed(self) -> bool {
        &&& self.owners.len() <= MAX_OWNERS
        &&& self.threshold <= self.owners.len()
    }

    /// Whether `key` is one of the owners.
    pub open spec fn is_owner(self, key: Pubkey) -> bool {
        self.owners.contains(key)
    }
}

impl Multisig {
    /// Bytes to set aside for the stored record of a group.
    pub const MAX_SIZE: usize = 32 * 10 + 1 + 8 + 100;

    /// The bounds that every group meets from its creation on.
    pub open spec fn well_formed(&self) -> bool {
        self@.well_formed()
    }
}

/// A proposed batch of instructions that waits for a group's approval.
#[derive(Debug, PartialEq, Eq)]
pub struct Transaction {
    /// The key of the group that this transaction belongs to.
    pub multisig: Pubkey,
    /// The proposed instructions, in the order in which they were given.
    pub instructions: Vec<TransactionInstruction>,
    /// One entry for each owner of the group, in the owners' order: whether
    /// that owner has approved.
    pub signers: Vec<bool>,
    /// Whether the transaction has been executed.
    pub did_execute: bool,
}

/// What a `Transaction` holds, as mathematical values.
pub struct TransactionView {
    pub multisig: Pubkey,
    pub instructions: Seq<TransactionInstruction>,
    pub signers: Seq<bool>,
    pub did_execute: bool,
}

impl View for Transaction {
    type V = TransactionView;

    open spec fn view(&self) -> TransactionView {
        TransactionView {
            multisig: self.multisig,
            instructions: self.instructions@,
            signers: self.signers@,
            did_execute: self.did_execute,
        }
    }
}

/// How many entries of `flags` are `true`.
pub open spec fn count_true(flags: Seq<bool>) -> nat
    decreases flags.len(),
{
    if flags.len() == 0 {
        0
    } else {
        count_true(flags.drop_last()) + if flags.last() {
            1nat
        } else {
            0nat
        }
    }
}

impl TransactionView {
    /// Whether the approvals line up with the owners of `group`, one entry
    /// for each owner.
    pub open spec fn aligned_with(self, group: MultisigView) -> bool {
        self.signers.len() == group.owners.len()
    }

    /// How many owners have approved.
    pub open spec fn approval_count(self) -> nat {
        count_true(self.signers)
    }

    /// Whether enough owners have approved for `group`.
    pub open spec fn has_quorum(self, group: MultisigView) -> bool {
        self.approval_count() >= group.threshold
    }
}

impl Transaction {
    /// Bytes to set aside for the stored record of a transaction.
    pub const MAX_SIZE: usize = 32 + 1000 + 100 + 1 + 100;

    /// Whether the approvals line up with the owners of `group`, one entry
    /// for each owner.
    pub open spec fn aligned_with(&self, group: &Multisig) -> bool {
        self@.aligned_with(group@)
    }
}

} // verus!
