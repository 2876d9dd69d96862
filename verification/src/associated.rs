//! The token account that a wallet holds for a mint.

use vstd::prelude::*;
use crate::address::Address;

verus! {

/// The address of the token account associated with `wallet` for `mint`:
/// a deterministic derivation from the two addresses and nothing else.
pub uninterp spec fn associated_token_address(wallet: Seq<u8>, mint: Seq<u8>) -> Seq<u8>;

/// Calls `anchor_spl::associated_token::get_associated_token_address`.
///
/// Trusted: the result is the derivation named by
/// [`associated_token_address`], applied to the bytes of the two arguments.
/// The outside function searches 255 bump seeds for an off-curve hash and
/// aborts if none is found; no input with that outcome is known.
#[verifier::external_body]
pub(crate) fn derive_associated_token_address(wallet: &Address, mint: &Address) -> (r: Address)
    ensures
        r@ == associated_token_address(wallet@, mint@),
{
    let w = anchor_lang::prelude::Pubkey::new_from_array(wallet.bytes);
    let m = anchor_lang::prelude::Pubkey::new_from_array(mint.bytes);
    Address { bytes: anchor_spl::associated_token::get_associated_token_address(&w, &m).to_bytes() }
}

} // verus!
