//! What holds of the engine on every input, proved from its rules.

use vstd::prelude::*;
use anchor_lang::prelude::Pubkey;
use crate::error::ErrorCode;
use crate::rules::{
    after_approve, after_execute, approved, executed, initialized, lemma_position_is_first,
    position_of, proposed,
};
use crate::state::{count_true, MultisigView, TransactionInstruction, TransactionView, MAX_OWNERS};

verus! {

/// The state after `key` has tried to approve `times` times in a row.
pub open spec fn approve_repeatedly(
    group: MultisigView,
    transaction: TransactionView,
    key: Pubkey,
    times: nat,
) -> TransactionView
    decreases times,
{
    if times == 0 {
        transaction
    } else {
        after_approve(group, approve_repeatedly(group, transaction, key, (times - 1) as nat), key)
    }
}

/// The state after each of `keys` has tried to approve, in their order.
pub open spec fn approve_each(
    group: MultisigView,
    transaction: TransactionView,
    keys: Seq<Pubkey>,
) -> TransactionView
    decreases keys.len(),
{
    if keys.len() == 0 {
        transaction
    } else {
        after_approve(group, approve_each(group, transaction, keys.drop_last()), keys.last())
    }
}

/// A group of more than ten owners is refused with `TooManyOwners`, whatever
/// the threshold.
pub proof fn law_too_many_owners_refused(owners: Seq<Pubkey>, threshold: nat)
    requires
        owners.len() > MAX_OWNERS,
    ensures
        initialized(owners, threshold) == Err::<MultisigView, ErrorCode>(ErrorCode::TooManyOwners),
{
}

/// A threshold above the number of owners is refused: with
/// `InvalidThreshold` where the owners are ten or fewer, with
/// `TooManyOwners` where they are more.
pub proof fn law_threshold_above_owners_refused(owners: Seq<Pubkey>, threshold: nat)
    requires
        threshold > owners.len(),
    ensures
        initialized(owners, threshold) is Err,
        owners.len() <= MAX_OWNERS ==> initialized(owners, threshold) == Err::<
            MultisigView,
            ErrorCode,
        >(ErrorCode::InvalidThreshold),
        owners.len() > MAX_OWNERS ==> initialized(owners, threshold) == Err::<
            MultisigView,
            ErrorCode,
        >(ErrorCode::TooManyOwners),
{
}

/// A group is created exactly where the owners are ten or fewer and the
/// threshold is not above their number. It then holds the owners and the
/// threshold as given, a counter of zero, and is well formed.
pub proof fn law_initialized_group(owners: Seq<Pubkey>, threshold: nat)
    ensures
        initialized(owners, threshold) is Ok <==> owners.len() <= MAX_OWNERS && threshold
            <= owners.len(),
        initialized(owners, threshold) matches Ok(group) ==> {
            &&& group.owners == owners
            &&& group.threshold == threshold
            &&& group.nonce == 0
            &&& group.well_formed()
        },
{
}

/// A transaction that is proposed to a newly created group has one approval
/// entry for each owner, all of them unset, and has not been executed.
pub proof fn law_fresh_transaction_is_blank(
    owners: Seq<Pubkey>,
    threshold: nat,
    group_key: Pubkey,
    instructions: Seq<TransactionInstruction>,
)
    requires
        initialized(owners, threshold) is Ok,
    ensures
        ({
            let group = initialized(owners, threshold)->Ok_0;
            let fresh = proposed(group_key, group, instructions);
            &&& fresh.signers.len() == owners.len()
            &&& forall|i: int| 0 <= i < owners.len() ==> !(#[trigger] fresh.signers[i])
            &&& fresh.approval_count() == 0
            &&& !fresh.did_execute
            &&& fresh.aligned_with(group)
            &&& fresh.multisig == group_key
            &&& fresh.instructions == instructions
        }),
{
    let group = initialized(owners, threshold)->Ok_0;
    let fresh = proposed(group_key, group, instructions);
    lemma_count_true_of_unset(fresh.signers);
}

/// A run of unset entries counts zero approvals.
pub proof fn lemma_count_true_of_unset(flags: Seq<bool>)
    requires
        forall|i: int| 0 <= i < flags.len() ==> !flags[i],
    ensures
        count_true(flags) == 0,
    decreases flags.len(),
{
    if flags.len() > 0 {
        lemma_count_true_of_unset(flags.drop_last());
    }
}

/// An approval by a key that is not an owner is refused with
/// `InvalidOwner`, and the state stays as it was.
pub proof fn law_stranger_cannot_approve(
    group: MultisigView,
    transaction: TransactionView,
    key: Pubkey,
)
    requires
        !group.is_owner(key),
    ensures
        approved(group, transaction, key) == Err::<TransactionView, ErrorCode>(
            ErrorCode::InvalidOwner,
        ),
        after_approve(group, transaction, key) == transaction,
{
    lemma_position_is_first(group.owners, key);
}

/// An approval by an owner succeeds. It sets the entry at the owner's first
/// position and changes nothing else.
pub proof fn law_owner_can_approve(group: MultisigView, transaction: TransactionView, key: Pubkey)
    requires
        group.is_owner(key),
        transaction.aligned_with(group),
    ensures
        position_of(group.owners, key) is Some,
        approved(group, transaction, key) matches Ok(next) && {
            let i = position_of(group.owners, key)->Some_0;
            &&& 0 <= i < group.owners.len()
            &&& group.owners[i] == key
            &&& next.signers.len() == transaction.signers.len()
            &&& next.signers[i]
            &&& forall|j: int|
                0 <= j < transaction.signers.len() && j != i ==> next.signers[j]
                    == transaction.signers[j]
            &&& next.multisig == transaction.multisig
            &&& next.instructions == transaction.instructions
            &&& next.did_execute == transaction.did_execute
            &&& next.aligned_with(group)
        },
{
    lemma_position_is_first(group.owners, key);
}

/// Approving again changes nothing: the state after one attempt by a key
/// is the state after any number of attempts by it, one or more.
pub proof fn law_approve_is_idempotent(
    group: MultisigView,
    transaction: TransactionView,
    key: Pubkey,
    times: nat,
)
    requires
        transaction.aligned_with(group),
        times >= 1,
    ensures
        approve_repeatedly(group, transaction, key, times) == approve_repeatedly(
            group,
            transaction,
            key,
            1,
        ),
    decreases times,
{
    reveal_with_fuel(approve_repeatedly, 2);
    if times > 1 {
        law_approve_is_idempotent(group, transaction, key, (times - 1) as nat);
        let once = after_approve(group, transaction, key);
        assert(approve_repeatedly(group, transaction, key, (times - 1) as nat) == once);
        lemma_position_is_first(group.owners, key);
        match position_of(group.owners, key) {
            Some(i) => {
                assert(once.signers.update(i, true) =~= once.signers);
            },
            None => {},
        }
    }
}

/// Execution succeeds exactly where the transaction has not been executed
/// and the approvals that are set are at least the threshold. Of a
/// transaction that has not been executed it is refused with
/// `NotEnoughSigners` otherwise. It then marks the transaction executed and
/// changes nothing else.
pub proof fn law_execute_needs_quorum(group: MultisigView, transaction: TransactionView)
    ensures
        executed(group, transaction) is Ok <==> !transaction.did_execute && count_true(
            transaction.signers,
        ) >= group.threshold,
        !transaction.did_execute && count_true(transaction.signers) < group.threshold ==> executed(
            group,
            transaction,
        ) == Err::<TransactionView, ErrorCode>(ErrorCode::NotEnoughSigners),
        executed(group, transaction) matches Ok(next) ==> {
            &&& next.did_execute
            &&& next.signers == transaction.signers
            &&& next.multisig == transaction.multisig
            &&& next.instructions == transaction.instructions
        },
{
}

/// Setting one entry adds one to the number of approvals where the entry was
/// unset, and leaves the number as it was where the entry was set.
pub proof fn lemma_count_true_after_set(flags: Seq<bool>, i: int)
    requires
        0 <= i < flags.len(),
    ensures
        count_true(flags.update(i, true)) == count_true(flags) + if flags[i] {
            0nat
        } else {
            1nat
        },
    decreases flags.len(),
{
    let set = flags.update(i, true);
    if i == flags.len() - 1 {
        assert(set.drop_last() =~= flags.drop_last());
    } else {
        assert(set.drop_last() =~= flags.drop_last().update(i, true));
        lemma_count_true_after_set(flags.drop_last(), i);
    }
}

/// There are never more set entries than entries.
pub proof fn lemma_count_true_bounded(flags: Seq<bool>)
    ensures
        count_true(flags) <= flags.len(),
    decreases flags.len(),
{
    if flags.len() > 0 {
        lemma_count_true_bounded(flags.drop_last());
    }
}

/// A transaction never has more approvals than its group has owners.
pub proof fn law_approvals_bounded_by_owners(group: MultisigView, transaction: TransactionView)
    requires
        transaction.aligned_with(group),
    ensures
        transaction.approval_count() <= group.owners.len(),
{
    lemma_count_true_bounded(transaction.signers);
}

/// An owner's approval counts once: the first adds one to the number of
/// approvals, a further one adds nothing. No approval takes one away.
pub proof fn law_approval_counts_once(
    group: MultisigView,
    transaction: TransactionView,
    key: Pubkey,
)
    requires
        group.is_owner(key),
        transaction.aligned_with(group),
    ensures
        ({
            let i = position_of(group.owners, key)->Some_0;
            let next = after_approve(group, transaction, key);
            next.approval_count() == transaction.approval_count() + if transaction.signers[i] {
                0nat
            } else {
                1nat
            }
        }),
{
    lemma_position_is_first(group.owners, key);
    lemma_count_true_after_set(transaction.signers, position_of(group.owners, key)->Some_0);
}

/// The approval entries stay lined up with the owners through every attempt
/// to approve and to execute.
pub proof fn law_alignment_is_kept(group: MultisigView, transaction: TransactionView, key: Pubkey)
    requires
        transaction.aligned_with(group),
    ensures
        after_approve(group, transaction, key).aligned_with(group),
        after_execute(group, transaction).aligned_with(group),
{
    lemma_position_is_first(group.owners, key);
}

/// No attempt to approve changes whether a transaction has been executed.
pub proof fn lemma_approvals_keep_execution(
    group: MultisigView,
    transaction: TransactionView,
    keys: Seq<Pubkey>,
)
    ensures
        approve_each(group, transaction, keys).did_execute == transaction.did_execute,
    decreases keys.len(),
{
    if keys.len() > 0 {
        lemma_approvals_keep_execution(group, transaction, keys.drop_last());
    }
}

/// A transaction is executed at most once: after a successful execution
/// every further execution is refused with `AlreadyExecuted`, whichever keys
/// try to approve in between.
pub proof fn law_executes_only_once(
    group: MultisigView,
    transaction: TransactionView,
    keys: Seq<Pubkey>,
)
    requires
        executed(group, transaction) is Ok,
    ensures
        executed(group, approve_each(group, executed(group, transaction)->Ok_0, keys)) == Err::<
            TransactionView,
            ErrorCode,
        >(ErrorCode::AlreadyExecuted),
{
    lemma_approvals_keep_execution(group, executed(group, transaction)->Ok_0, keys);
}

} // verus!
