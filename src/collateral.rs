use vstd::prelude::*;

use crate::pubkey::Pubkey;

verus! {

/// The address of the bond account that the Stablebond program derives from a bond mint.
pub uninterp spec fn bond_account_of(mint: Seq<u8>) -> Seq<u8>;

/// Relies on stablebond_sdk::find_bond_pda: the bond account's address is
/// derived from the mint's bytes alone. It panics only where none of the 256
/// bump seeds yields an address off the curve.
#[verifier::external_body]
pub(crate) fn find_bond_account(mint: &Pubkey) -> (r: Pubkey)
    ensures
        r@ == bond_account_of(mint@),
{
    let (pda, _bump) = stablebond_sdk::find_bond_pda(anchor_lang::prelude::Pubkey::new_from_array(mint.bytes));
    Pubkey { bytes: pda.to_bytes() }
}

} // verus!
