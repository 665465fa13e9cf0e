//! Participant and account identities.

use vstd::prelude::*;
use anchor_lang::prelude::Pubkey;

verus! {

/// `anchor_lang::prelude::Pubkey`, the 32-byte account address. The rules in
/// this crate never look inside an address: they store it and hand it back,
/// so nothing is assumed about what it holds.
#[verifier::external_type_specification]
#[verifier::external_body]
pub struct ExPubkey(Pubkey);

} // verus!
