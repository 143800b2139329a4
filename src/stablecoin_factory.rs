use vstd::prelude::*;
use vstd::utf8::encode_utf8;

use crate::codec::decoded_text;
use crate::coin::SovereignCoin;
use crate::error::StablecoinError;
use crate::events::{
    BondMappingRegisteredEvent, FactoryInitializedEvent, SovereignCoinCreatedEvent, SovereignCoinInitializedEvent,
    SovereignCoinSetupMintEvent, SovereignCoinTokenAccountsEvent,
};
use crate::instructions::{
    bind_error, finalize_error, is_bound_coin, is_initialized_factory, register_mapping_error, signed_by_issuer,
    valid_yield_split, FinalizeSetup, InitSovereignCoin, InitializeFactory, RegisterBondMapping, SetupMint,
    SetupTokenAccounts, SovereignCoinArgs,
};
use crate::pubkey::Pubkey;
use crate::state::{registered, Factory};

verus! {

/// Creates the factory, with the bump seed found for its address.
pub fn initialize_factory(
    ctx: &mut InitializeFactory,
    min_fiat_reserve: u8,
    bond_reserve_multiplier: u8,
    yield_share_protocol: u8,
    yield_share_issuer: u8,
    yield_share_holders: u8,
    timestamp: i64,
) -> (r: Result<FactoryInitializedEvent, StablecoinError>)
    ensures
        r is Ok <==> valid_yield_split(yield_share_protocol, yield_share_issuer, yield_share_holders),
        r is Err ==> r == Err::<FactoryInitializedEvent, StablecoinError>(StablecoinError::InvalidYieldDistribution)
            && *final(ctx) == *old(ctx),
        r is Ok ==> is_initialized_factory(
            final(ctx).factory,
            old(ctx).authority,
            old(ctx).bump,
            min_fiat_reserve,
            bond_reserve_multiplier,
            yield_share_protocol,
            yield_share_issuer,
            yield_share_holders,
        ),
        r is Ok ==> final(ctx).authority == old(ctx).authority && final(ctx).factory_key == old(ctx).factory_key
            && final(ctx).bump == old(ctx).bump,
        r matches Ok(ev) ==> ev == (FactoryInitializedEvent {
            authority: old(ctx).authority,
            factory: old(ctx).factory_key,
            min_fiat_reserve,
            bond_reserve_multiplier,
            yield_share_protocol,
            yield_share_issuer,
            yield_share_holders,
            timestamp,
        }),
{
    let bump = ctx.bump;
    ctx.handler(
        bump,
        min_fiat_reserve,
        bond_reserve_multiplier,
        yield_share_protocol,
        yield_share_issuer,
        yield_share_holders,
        timestamp,
    )
}

/// Registers a bond mapping in the factory.
pub fn register_bond_maps(
    ctx: &mut RegisterBondMapping,
    fiat_currency: String,
    bond_mint: Pubkey,
    bond_rating: u8,
    timestamp: i64,
) -> (r: Result<BondMappingRegisteredEvent, StablecoinError>)
    requires
        old(ctx).factory.wf(),
    ensures
        final(ctx).factory.wf(),
        r is Ok <==> register_mapping_error(
            old(ctx).authority,
            old(ctx).factory,
            encode_utf8(fiat_currency@),
            bond_rating,
        ) is None,
        r matches Err(e) ==> Some(e) == register_mapping_error(
            old(ctx).authority,
            old(ctx).factory,
            encode_utf8(fiat_currency@),
            bond_rating,
        ) && *final(ctx) == *old(ctx),
        r is Ok ==> registered(old(ctx).factory, final(ctx).factory, encode_utf8(fiat_currency@), bond_mint, bond_rating)
            && final(ctx).authority == old(ctx).authority && final(ctx).factory_key == old(ctx).factory_key,
        r matches Ok(ev) ==> ev.authority == old(ctx).authority && ev.factory == old(ctx).factory_key
            && ev.fiat_currency@ == fiat_currency@ && ev.bond_mint == bond_mint && ev.bond_rating == bond_rating
            && ev.timestamp == timestamp,
{
    ctx.handler(fiat_currency, bond_mint, bond_rating, timestamp)
}

/// Binds a new sovereign coin, after validating its arguments.
pub fn init_sovereign_coin(
    ctx: &mut InitSovereignCoin,
    args: SovereignCoinArgs,
    timestamp: i64,
) -> (r: Result<SovereignCoinInitializedEvent, StablecoinError>)
    requires
        old(ctx).factory.wf(),
    ensures
        r is Ok <==> bind_error(*old(ctx), args) is None,
        r matches Err(e) ==> Some(e) == bind_error(*old(ctx), args) && *final(ctx) == *old(ctx),
        r is Ok ==> is_bound_coin(final(ctx).sovereign_coin, *old(ctx), args),
        r is Ok ==> (InitSovereignCoin { sovereign_coin: old(ctx).sovereign_coin, ..*final(ctx) }) == *old(ctx),
        r matches Ok(ev) ==> {
            let c = final(ctx).sovereign_coin;
            &&& ev.authority == old(ctx).authority
            &&& ev.sovereign_coin == old(ctx).sovereign_coin_key
            &&& ev.name@ == args.name@
            &&& ev.symbol@ == args.symbol@
            &&& ev.fiat_currency@ == args.fiat_currency@
            &&& ev.bond_mint == c.bond_mint
            &&& ev.bond_account == c.bond_account
            &&& ev.bond_rating == c.bond_rating
            &&& ev.decimals == c.decimals
            &&& ev.total_supply == 0
            &&& ev.required_reserve_percentage == c.required_reserve_percentage
            &&& ev.fiat_amount == 0
            &&& ev.bond_amount == 0
            &&& ev.timestamp == timestamp
        },
{
    match ctx.validate(&args) {
        Ok(()) => {},
        Err(e) => {
            return Err(e);
        },
    }
    ctx.handler(args, timestamp)
}

/// Records a coin's new mint.
pub fn setup_mint(
    ctx: &mut SetupMint,
    timestamp: i64,
) -> (r: Result<SovereignCoinSetupMintEvent, StablecoinError>)
    ensures
        r is Ok <==> signed_by_issuer(old(ctx).sovereign_coin, old(ctx).authority),
        r is Err ==> r == Err::<SovereignCoinSetupMintEvent, StablecoinError>(StablecoinError::Unauthorized)
            && *final(ctx) == *old(ctx),
        r is Ok ==> final(ctx).sovereign_coin == (SovereignCoin { mint: old(ctx).mint, ..old(ctx).sovereign_coin })
            && final(ctx).authority == old(ctx).authority && final(ctx).mint == old(ctx).mint,
        r matches Ok(ev) ==> ev == (SovereignCoinSetupMintEvent { mint: old(ctx).mint, timestamp }),
{
    ctx.handler(timestamp)
}

/// Records a coin's new reserve accounts.
pub fn setup_token_accounts(
    ctx: &mut SetupTokenAccounts,
    timestamp: i64,
) -> (r: Result<SovereignCoinTokenAccountsEvent, StablecoinError>)
    ensures
        r is Ok <==> signed_by_issuer(old(ctx).sovereign_coin, old(ctx).authority),
        r is Err ==> r == Err::<SovereignCoinTokenAccountsEvent, StablecoinError>(StablecoinError::Unauthorized)
            && *final(ctx) == *old(ctx),
        r is Ok ==> final(ctx).sovereign_coin == (SovereignCoin {
            fiat_reserve: old(ctx).fiat_reserve,
            bond_holding: old(ctx).bond_holding,
            ..old(ctx).sovereign_coin
        }) && (SetupTokenAccounts { sovereign_coin: old(ctx).sovereign_coin, ..*final(ctx) }) == *old(ctx),
        r matches Ok(ev) ==> ev == (SovereignCoinTokenAccountsEvent {
            fiat_reserve: old(ctx).fiat_reserve,
            bond_holding: old(ctx).bond_holding,
            timestamp,
        }),
{
    ctx.handler(timestamp)
}

/// Completes a coin's setup and counts it in the factory.
pub fn finalize_setup(
    ctx: &mut FinalizeSetup,
    timestamp: i64,
) -> (r: Result<SovereignCoinCreatedEvent, StablecoinError>)
    ensures
        r is Ok <==> finalize_error(*old(ctx)) is None,
        r matches Err(e) ==> Some(e) == finalize_error(*old(ctx)) && *final(ctx) == *old(ctx),
        r is Ok ==> final(ctx).factory.total_sovereign_coins == old(ctx).factory.total_sovereign_coins + 1,
        r is Ok ==> final(ctx).factory == (Factory {
            total_sovereign_coins: final(ctx).factory.total_sovereign_coins,
            ..old(ctx).factory
        }) && (FinalizeSetup { factory: old(ctx).factory, ..*final(ctx) }) == *old(ctx),
        r matches Ok(ev) ==> {
            let c = old(ctx).sovereign_coin;
            &&& ev.authority == old(ctx).authority
            &&& ev.sovereign_coin == old(ctx).sovereign_coin_key
            &&& ev.mint == old(ctx).mint
            &&& ev.name@ == decoded_text(c.name@)
            &&& ev.symbol@ == decoded_text(c.symbol@)
            &&& ev.fiat_currency@ == decoded_text(c.target_fiat_currency@)
            &&& ev.bond_mint == c.bond_mint
            &&& ev.bond_account == c.bond_account
            &&& ev.bond_rating == c.bond_rating
            &&& ev.timestamp == timestamp
        },
{
    ctx.handler(timestamp)
}

} // verus!
