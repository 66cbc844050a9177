//! The ways an operation on a group or on a pending transaction can fail.

use vstd::prelude::*;

verus! {

/// Why an operation was refused. Every refusal leaves all state as it was.
#[derive(Clone, Copy, Debug, PartialEq, Eq, Structural)]
pub enum ErrorCode {
    /// A group was asked for with more owners than a group can hold.
    TooManyOwners,
    /// A group was asked for with a threshold above its number of owners.
    InvalidThreshold,
    /// An approval came from a key that is not an owner of the group.
    InvalidOwner,
    /// Fewer owners have approved than the group's threshold asks for.
    NotEnoughSigners,
    /// The transaction has been executed before.
    AlreadyExecuted,
}

} // verus!
