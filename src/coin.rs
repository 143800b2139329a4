use vstd::prelude::*;

use crate::pubkey::Pubkey;

verus! {

/// The record of one sovereign coin, filled in by the steps of its setup.
#[derive(Clone, Copy, Debug)]
pub struct SovereignCoin {
    pub bump: u8,
    /// The issuer, who must sign every later step of the setup.
    pub authority: Pubkey,
    /// The factory that created the coin.
    pub factory: Pubkey,
    pub name: [u8; 32],
    pub symbol: [u8; 8],
    pub decimals: u8,
    pub uri: [u8; 200],
    pub target_fiat_currency: [u8; 8],
    /// The bond mint that collateralizes the coin.
    pub bond_mint: Pubkey,
    /// The bond's account, derived from its mint.
    pub bond_account: Pubkey,
    /// The coin's own token mint.
    pub mint: Pubkey,
    /// The account that holds the fiat reserve.
    pub fiat_reserve: Pubkey,
    /// The account that holds the bond collateral.
    pub bond_holding: Pubkey,
    pub total_supply: u64,
    pub bond_rating: u8,
    pub required_reserve_percentage: u8,
    pub fiat_amount: u64,
    pub bond_amount: u64,
}

impl SovereignCoin {
    /// A freshly allocated record: every byte zero.
    pub fn zeroed() -> (r: SovereignCoin)
        ensures
            r.bump == 0,
            r.decimals == 0,
            r.total_supply == 0,
            r.bond_rating == 0,
            r.required_reserve_percentage == 0,
            r.fiat_amount == 0,
            r.bond_amount == 0,
            r.mint@ == Seq::new(32, |i: int| 0u8),
            r.fiat_reserve@ == Seq::new(32, |i: int| 0u8),
            r.bond_holding@ == Seq::new(32, |i: int| 0u8),
            r.authority@ == Seq::new(32, |i: int| 0u8),
    {
        SovereignCoin {
            bump: 0,
            authority: Pubkey::default_key(),
            factory: Pubkey::default_key(),
            name: [0u8; 32],
            symbol: [0u8; 8],
            decimals: 0,
            uri: [0u8; 200],
            target_fiat_currency: [0u8; 8],
            bond_mint: Pubkey::default_key(),
            bond_account: Pubkey::default_key(),
            mint: Pubkey::default_key(),
            fiat_reserve: Pubkey::default_key(),
            bond_holding: Pubkey::default_key(),
            total_supply: 0,
            bond_rating: 0,
            required_reserve_percentage: 0,
            fiat_amount: 0,
            bond_amount: 0,
        }
    }
}

} // verus!
