//! Identities of the parties and of the tokens.
//!
//! An identity is a 32-byte account address. The crate only ever carries
//! addresses through and compares them, so the type stays opaque here.

use anchor_lang::prelude::Pubkey;
use vstd::prelude::*;

verus! {

/// `anchor_lang::prelude::Pubkey`, which is `solana_address::Address`: a
/// wrapper around 32 bytes. Nothing is said of what is inside a value.
#[verifier::external_type_specification]
#[verifier::external_body]
pub struct ExPubkey(anchor_lang::prelude::Pubkey);

/// Calls `==` of `Pubkey`, that is the `PartialEq` which `solana_address`
/// derives for `Address`. It compares the 32 bytes, so two addresses are found
/// equal exactly when they are the same address.
#[verifier::external_body]
pub(crate) fn same_key(a: &Pubkey, b: &Pubkey) -> (same: bool)
    ensures
        same == (*a == *b),
{
    a == b
}

} // verus!
