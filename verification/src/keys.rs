//! Identity keys.
//!
//! An owner, a group and the target of an operation are each named by a
//! `Pubkey`. The type belongs to `anchor_lang`; nothing in this crate looks
//! inside one. The only question asked of two keys is whether they are the
//! same key.

use vstd::prelude::*;

verus! {

/// `anchor_lang::prelude::Pubkey`, carried through as an opaque value.
#[verifier::external_type_specification]
#[verifier::external_body]
pub struct ExPubkey(anchor_lang::prelude::Pubkey);

/// Whether two keys are the same key.
///
/// Trusted: calls `==` of `anchor_lang::prelude::Pubkey`, which is the derived
/// `PartialEq` of a wrapper around one `[u8; 32]`. The contract claims that it
/// answers `true` exactly when both keys are the same value.
#[verifier::external_body]
pub(crate) fn same_key(a: &anchor_lang::prelude::Pubkey, b: &anchor_lang::prelude::Pubkey) -> (r: bool)
    ensures
        r == (*a == *b),
{
    a == b
}

} // verus!
