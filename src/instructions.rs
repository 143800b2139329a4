use vstd::prelude::*;
use vstd::utf8::encode_utf8;

use crate::codec::{decode_fixed, decoded_text, encode_fixed, padded};
use crate::coin::SovereignCoin;
use crate::collateral::{bond_account_of, find_bond_account};
use crate::error::StablecoinError;
use crate::events::{
    BondMappingRegisteredEvent, FactoryInitializedEvent, SovereignCoinCreatedEvent, SovereignCoinInitializedEvent,
    SovereignCoinSetupMintEvent, SovereignCoinTokenAccountsEvent,
};
use crate::pubkey::Pubkey;
use crate::reserve::{calculate_required_reserve, required_reserve};
use crate::state::{
    empty_mapping, first_match, has_match, register_error, registered, BondCurrencyMapping, Factory,
    COIN_DECIMALS, MAX_BOND_MAPPINGS,
};

verus! {

/// Whether three yield shares split the whole yield.
pub open spec fn valid_yield_split(protocol: u8, issuer: u8, holders: u8) -> bool {
    protocol + issuer + holders == 100
}

/// Whether `f` is the record that initialization with these parameters makes:
/// the authority is also the treasury, counters and fees are zero, the rating
/// table runs from 1 to 10 and the registry is empty.
pub open spec fn is_initialized_factory(
    f: Factory,
    authority: Pubkey,
    bump: u8,
    min_fiat_reserve: u8,
    bond_reserve_multiplier: u8,
    yield_share_protocol: u8,
    yield_share_issuer: u8,
    yield_share_holders: u8,
) -> bool {
    &&& f.wf()
    &&& f.bump == bump
    &&& f.authority == authority
    &&& f.treasury == authority
    &&& f.total_sovereign_coins == 0
    &&& f.total_supply_all_coins == 0
    &&& f.bond_rating_ordinals@ == seq![1u8, 2, 3, 4, 5, 6, 7, 8, 9, 10]
    &&& f.min_fiat_reserve_percentage == min_fiat_reserve
    &&& f.bond_reserve_multiplier == bond_reserve_multiplier
    &&& f.yield_share_protocol == yield_share_protocol
    &&& f.yield_share_issuer == yield_share_issuer
    &&& f.yield_share_holders == yield_share_holders
    &&& f.mint_fee_bps == 0
    &&& f.burn_fee_bps == 0
    &&& f.bond_mappings_count == 0
}

/// The accounts of factory creation: the signing protocol authority and the
/// factory record at its singleton address.
#[derive(Clone, Copy, Debug)]
pub struct InitializeFactory {
    pub authority: Pubkey,
    /// The factory record's address.
    pub factory_key: Pubkey,
    /// The bump seed of the factory record's address.
    pub bump: u8,
    pub factory: Factory,
}

impl InitializeFactory {
    /// Creates the factory with the given reserve parameters and yield split.
    /// Fails with `InvalidYieldDistribution`, changing nothing, unless the
    /// three shares sum to exactly 100.
    pub fn handler(
        &mut self,
        bump: u8,
        min_fiat_reserve: u8,
        bond_reserve_multiplier: u8,
        yield_share_protocol: u8,
        yield_share_issuer: u8,
        yield_share_holders: u8,
        timestamp: i64,
    ) -> (r: Result<FactoryInitializedEvent, StablecoinError>)
        ensures
            r is Ok <==> valid_yield_split(yield_share_protocol, yield_share_issuer, yield_share_holders),
            r is Err ==> r == Err::<FactoryInitializedEvent, StablecoinError>(StablecoinError::InvalidYieldDistribution)
                && *final(self) == *old(self),
            r is Ok ==> is_initialized_factory(
                final(self).factory,
                old(self).authority,
                bump,
                min_fiat_reserve,
                bond_reserve_multiplier,
                yield_share_protocol,
                yield_share_issuer,
                yield_share_holders,
            ),
            r is Ok ==> final(self).authority == old(self).authority && final(self).factory_key == old(self).factory_key
                && final(self).bump == old(self).bump,
            r matches Ok(ev) ==> ev == (FactoryInitializedEvent {
                authority: old(self).authority,
                factory: old(self).factory_key,
                min_fiat_reserve,
                bond_reserve_multiplier,
                yield_share_protocol,
                yield_share_issuer,
                yield_share_holders,
                timestamp,
            }),
    {
        let total: u32 = yield_share_protocol as u32 + yield_share_issuer as u32 + yield_share_holders as u32;
        if total != 100 {
            return Err(StablecoinError::InvalidYieldDistribution);
        }
        let ordinals: [u8; 10] = [1, 2, 3, 4, 5, 6, 7, 8, 9, 10];
        assert(ordinals@ =~= seq![1u8, 2, 3, 4, 5, 6, 7, 8, 9, 10]);
        let empty = empty_mapping();
        self.factory = Factory {
            bump,
            authority: self.authority,
            treasury: self.authority,
            total_sovereign_coins: 0,
            total_supply_all_coins: 0,
            bond_rating_ordinals: ordinals,
            min_fiat_reserve_percentage: min_fiat_reserve,
            bond_reserve_multiplier,
            yield_share_protocol,
            yield_share_issuer,
            yield_share_holders,
            mint_fee_bps: 0,
            burn_fee_bps: 0,
            bond_mappings_count: 0,
            bond_mappings: [empty; MAX_BOND_MAPPINGS],
        };
        Ok(FactoryInitializedEvent {
            authority: self.authority,
            factory: self.factory_key,
            min_fiat_reserve,
            bond_reserve_multiplier,
            yield_share_protocol,
            yield_share_issuer,
            yield_share_holders,
            timestamp,
        })
    }
}

/// The error with which a registration signed by `authority` fails, or `None`.
pub open spec fn register_mapping_error(
    authority: Pubkey,
    factory: Factory,
    q: Seq<u8>,
    rating: u8,
) -> Option<StablecoinError> {
    if authority@ != factory.authority@ {
        Some(StablecoinError::Unauthorized)
    } else {
        register_error(factory, q, rating)
    }
}

/// The accounts of a bond mapping registration: the signer, who must be the
/// factory's authority, and the factory record.
#[derive(Clone, Copy, Debug)]
pub struct RegisterBondMapping {
    pub authority: Pubkey,
    /// The factory record's address.
    pub factory_key: Pubkey,
    pub factory: Factory,
}

impl RegisterBondMapping {
    /// Appends a registry entry binding `fiat_currency` to `bond_mint` at
    /// `bond_rating`. Fails, changing nothing, where the signer is not the
    /// factory's authority, the rating is outside 1 to 10, the registry is
    /// full, or the currency code is over 8 bytes.
    pub fn handler(
        &mut self,
        fiat_currency: String,
        bond_mint: Pubkey,
        bond_rating: u8,
        timestamp: i64,
    ) -> (r: Result<BondMappingRegisteredEvent, StablecoinError>)
        requires
            old(self).factory.wf(),
        ensures
            final(self).factory.wf(),
            r is Ok <==> register_mapping_error(
                old(self).authority,
                old(self).factory,
                encode_utf8(fiat_currency@),
                bond_rating,
            ) is None,
            r matches Err(e) ==> Some(e) == register_mapping_error(
                old(self).authority,
                old(self).factory,
                encode_utf8(fiat_currency@),
                bond_rating,
            ) && *final(self) == *old(self),
            r is Ok ==> registered(old(self).factory, final(self).factory, encode_utf8(fiat_currency@), bond_mint, bond_rating)
                && final(self).authority == old(self).authority && final(self).factory_key == old(self).factory_key,
            r matches Ok(ev) ==> ev.authority == old(self).authority && ev.factory == old(self).factory_key
                && ev.fiat_currency@ == fiat_currency@ && ev.bond_mint == bond_mint && ev.bond_rating == bond_rating
                && ev.timestamp == timestamp,
    {
        if !self.authority.key_eq(&self.factory.authority) {
            return Err(StablecoinError::Unauthorized);
        }
        match self.factory.register(fiat_currency.as_str(), bond_mint, bond_rating) {
            Ok(()) => {},
            Err(e) => {
                return Err(e);
            },
        }
        Ok(BondMappingRegisteredEvent {
            authority: self.authority,
            factory: self.factory_key,
            fiat_currency,
            bond_mint,
            bond_rating,
            timestamp,
        })
    }
}

/// The text fields of a new coin.
#[derive(Clone, Debug)]
pub struct SovereignCoinArgs {
    pub name: String,
    pub symbol: String,
    pub uri: String,
    pub fiat_currency: String,
}

/// The error that the text fields alone give, checked in this order, or `None`.
pub open spec fn args_error(args: SovereignCoinArgs) -> Option<StablecoinError> {
    if encode_utf8(args.name@).len() > 32 {
        Some(StablecoinError::NameTooLong)
    } else if encode_utf8(args.symbol@).len() > 8 {
        Some(StablecoinError::SymbolTooLong)
    } else if encode_utf8(args.uri@).len() > 200 {
        Some(StablecoinError::UriTooLong)
    } else if encode_utf8(args.fiat_currency@).len() > 8 {
        Some(StablecoinError::FiatCurrencyTooLong)
    } else if encode_utf8(args.fiat_currency@).len() == 0 {
        Some(StablecoinError::InvalidFiatCurrency)
    } else {
        None
    }
}

/// The error with which validating `args` against `factory` fails, or `None`.
pub open spec fn validate_error(factory: Factory, args: SovereignCoinArgs) -> Option<StablecoinError> {
    if args_error(args) is Some {
        args_error(args)
    } else if !has_match(factory.registry(), encode_utf8(args.fiat_currency@)) {
        Some(StablecoinError::NoBondMappingForCurrency)
    } else {
        None
    }
}

/// The registry entry that a coin targeting the currency of `args` is bound to.
pub open spec fn selected_mapping(factory: Factory, args: SovereignCoinArgs) -> BondCurrencyMapping {
    let q = encode_utf8(args.fiat_currency@);
    factory.registry()[first_match(factory.registry(), q)]
}

/// The error with which binding a coin fails, or `None`.
pub open spec fn bind_error(ctx: InitSovereignCoin, args: SovereignCoinArgs) -> Option<StablecoinError> {
    if validate_error(ctx.factory, args) is Some {
        validate_error(ctx.factory, args)
    } else if ctx.bond_token_mint@ != selected_mapping(ctx.factory, args).bond_mint@ {
        Some(StablecoinError::InvalidBondMint)
    } else {
        None
    }
}

/// Whether `c` is the coin record that binding `args` in `ctx` makes: its
/// text zero-padded, bound to the selected entry's bond, with the reserve
/// requirement that the entry's rating gives, and zero supply and reserves.
/// The mint and reserve accounts stay as the fresh record had them.
pub open spec fn is_bound_coin(c: SovereignCoin, ctx: InitSovereignCoin, args: SovereignCoinArgs) -> bool {
    let m = selected_mapping(ctx.factory, args);
    &&& c.bump == ctx.bump
    &&& c.authority == ctx.authority
    &&& c.factory == ctx.factory_key
    &&& c.name@ == padded(encode_utf8(args.name@), 32)
    &&& c.symbol@ == padded(encode_utf8(args.symbol@), 8)
    &&& c.uri@ == padded(encode_utf8(args.uri@), 200)
    &&& c.target_fiat_currency@ == padded(encode_utf8(args.fiat_currency@), 8)
    &&& c.decimals == COIN_DECIMALS
    &&& c.bond_mint == m.bond_mint
    &&& c.bond_account@ == bond_account_of(m.bond_mint@)
    &&& c.bond_rating == m.bond_rating
    &&& c.required_reserve_percentage == required_reserve(
        ctx.factory.min_fiat_reserve_percentage,
        m.bond_rating,
        ctx.factory.bond_reserve_multiplier,
    )
    &&& c.total_supply == 0
    &&& c.fiat_amount == 0
    &&& c.bond_amount == 0
    &&& c.mint == ctx.sovereign_coin.mint
    &&& c.fiat_reserve == ctx.sovereign_coin.fiat_reserve
    &&& c.bond_holding == ctx.sovereign_coin.bond_holding
}

/// The accounts of the first setup step: the issuer, the factory, the new
/// coin record, and the fiat and bond token mints that the coin will hold.
#[derive(Clone, Copy, Debug)]
pub struct InitSovereignCoin {
    pub authority: Pubkey,
    pub factory_key: Pubkey,
    pub factory: Factory,
    /// The coin record's address, derived from the issuer and the symbol.
    pub sovereign_coin_key: Pubkey,
    /// The bump seed of the coin record's address.
    pub bump: u8,
    pub sovereign_coin: SovereignCoin,
    pub fiat_token_mint: Pubkey,
    pub bond_token_mint: Pubkey,
}

impl InitSovereignCoin {
    /// Checks the lengths of the text fields and that some active registry
    /// entry serves the target currency.
    pub fn validate(&self, args: &SovereignCoinArgs) -> (r: Result<(), StablecoinError>)
        requires
            self.factory.wf(),
        ensures
            r is Ok <==> validate_error(self.factory, *args) is None,
            r matches Err(e) ==> Some(e) == validate_error(self.factory, *args),
    {
        if args.name.as_str().as_bytes().len() > 32 {
            return Err(StablecoinError::NameTooLong);
        }
        if args.symbol.as_str().as_bytes().len() > 8 {
            return Err(StablecoinError::SymbolTooLong);
        }
        if args.uri.as_str().as_bytes().len() > 200 {
            return Err(StablecoinError::UriTooLong);
        }
        if args.fiat_currency.as_str().as_bytes().len() > 8 {
            return Err(StablecoinError::FiatCurrencyTooLong);
        }
        if args.fiat_currency.as_str().as_bytes().len() == 0 {
            return Err(StablecoinError::InvalidFiatCurrency);
        }
        match self.factory.lookup_bond_mapping(args.fiat_currency.as_str().as_bytes()) {
            Ok(_) => Ok(()),
            Err(e) => Err(e),
        }
    }

    /// Binds a new coin to its currency and collateral: stores its text,
    /// copies the bond and rating of the first registry entry for the target
    /// currency, derives the bond account and computes the reserve
    /// requirement. Fails, changing nothing, on an invalid text field, a
    /// currency without an entry, or a bond mint other than the entry's.
    pub fn handler(&mut self, args: SovereignCoinArgs, timestamp: i64) -> (r: Result<
        SovereignCoinInitializedEvent,
        StablecoinError,
    >)
        requires
            old(self).factory.wf(),
        ensures
            r is Ok <==> bind_error(*old(self), args) is None,
            r matches Err(e) ==> Some(e) == bind_error(*old(self), args) && *final(self) == *old(self),
            r is Ok ==> is_bound_coin(final(self).sovereign_coin, *old(self), args),
            r is Ok ==> (InitSovereignCoin { sovereign_coin: old(self).sovereign_coin, ..*final(self) }) == *old(self),
            r matches Ok(ev) ==> {
                let c = final(self).sovereign_coin;
                &&& ev.authority == old(self).authority
                &&& ev.sovereign_coin == old(self).sovereign_coin_key
                &&& ev.name@ == args.name@
                &&& ev.symbol@ == args.symbol@
                &&& ev.fiat_currency@ == args.fiat_currency@
                &&& ev.bond_mint == c.bond_mint
                &&& ev.bond_account == c.bond_account
                &&& ev.bond_rating == c.bond_rating
                &&& ev.decimals == c.decimals
                &&& ev.total_supply == 0
                &&& ev.required_reserve_percentage == c.required_reserve_percentage
                &&& ev.fiat_amount == 0
                &&& ev.bond_amount == 0
                &&& ev.timestamp == timestamp
            },
    {
        match self.validate(&args) {
            Ok(()) => {},
            Err(e) => {
                return Err(e);
            },
        }
        let name: [u8; 32] = match encode_fixed::<32>(args.name.as_str()) {
            Some(b) => b,
            None => {
                return Err(StablecoinError::NameTooLong);
            },
        };
        let symbol: [u8; 8] = match encode_fixed::<8>(args.symbol.as_str()) {
            Some(b) => b,
            None => {
                return Err(StablecoinError::SymbolTooLong);
            },
        };
        let uri: [u8; 200] = match encode_fixed::<200>(args.uri.as_str()) {
            Some(b) => b,
            None => {
                return Err(StablecoinError::UriTooLong);
            },
        };
        let currency: [u8; 8] = match encode_fixed::<8>(args.fiat_currency.as_str()) {
            Some(b) => b,
            None => {
                return Err(StablecoinError::FiatCurrencyTooLong);
            },
        };
        let mapping = match self.factory.lookup_bond_mapping(args.fiat_currency.as_str().as_bytes()) {
            Ok(m) => m,
            Err(e) => {
                return Err(e);
            },
        };
        if !self.bond_token_mint.key_eq(&mapping.bond_mint) {
            return Err(StablecoinError::InvalidBondMint);
        }
        let bond_account = find_bond_account(&mapping.bond_mint);
        let required = calculate_required_reserve(
            self.factory.min_fiat_reserve_percentage,
            mapping.bond_rating,
            self.factory.bond_reserve_multiplier,
        );
        let coin = SovereignCoin {
            bump: self.bump,
            authority: self.authority,
            factory: self.factory_key,
            name,
            symbol,
            decimals: COIN_DECIMALS,
            uri,
            target_fiat_currency: currency,
            bond_mint: mapping.bond_mint,
            bond_account,
            mint: self.sovereign_coin.mint,
            fiat_reserve: self.sovereign_coin.fiat_reserve,
            bond_holding: self.sovereign_coin.bond_holding,
            total_supply: 0,
            bond_rating: mapping.bond_rating,
            required_reserve_percentage: required,
            fiat_amount: 0,
            bond_amount: 0,
        };
        self.sovereign_coin = coin;
        Ok(SovereignCoinInitializedEvent {
            authority: self.authority,
            sovereign_coin: self.sovereign_coin_key,
            name: args.name,
            symbol: args.symbol,
            fiat_currency: args.fiat_currency,
            bond_mint: coin.bond_mint,
            bond_account: coin.bond_account,
            bond_rating: coin.bond_rating,
            decimals: coin.decimals,
            total_supply: 0,
            required_reserve_percentage: coin.required_reserve_percentage,
            fiat_amount: 0,
            bond_amount: 0,
            timestamp,
        })
    }
}

/// Whether `signer` is the authority recorded on `coin`.
pub open spec fn signed_by_issuer(coin: SovereignCoin, signer: Pubkey) -> bool {
    coin.authority@ == signer@
}

/// The accounts of the second setup step: the issuer, the coin record, and
/// the new token mint, made with 6 decimals and the issuer as its authority.
#[derive(Clone, Copy, Debug)]
pub struct SetupMint {
    pub authority: Pubkey,
    pub sovereign_coin: SovereignCoin,
    pub mint: Pubkey,
}

impl SetupMint {
    /// Records the coin's mint. Fails with `Unauthorized`, changing nothing,
    /// where the signer is not the coin's issuer.
    pub fn handler(&mut self, timestamp: i64) -> (r: Result<SovereignCoinSetupMintEvent, StablecoinError>)
        ensures
            r is Ok <==> signed_by_issuer(old(self).sovereign_coin, old(self).authority),
            r is Err ==> r == Err::<SovereignCoinSetupMintEvent, StablecoinError>(StablecoinError::Unauthorized)
                && *final(self) == *old(self),
            r is Ok ==> final(self).sovereign_coin == (SovereignCoin { mint: old(self).mint, ..old(self).sovereign_coin })
                && final(self).authority == old(self).authority && final(self).mint == old(self).mint,
            r matches Ok(ev) ==> ev == (SovereignCoinSetupMintEvent { mint: old(self).mint, timestamp }),
    {
        if !self.sovereign_coin.authority.key_eq(&self.authority) {
            return Err(StablecoinError::Unauthorized);
        }
        self.sovereign_coin.mint = self.mint;
        Ok(SovereignCoinSetupMintEvent { mint: self.sovereign_coin.mint, timestamp })
    }
}

/// The accounts of the third setup step: the issuer, the coin record, and the
/// two new token accounts, holding the fiat token and the bond token, both
/// owned by the issuer.
#[derive(Clone, Copy, Debug)]
pub struct SetupTokenAccounts {
    pub authority: Pubkey,
    pub sovereign_coin: SovereignCoin,
    pub fiat_reserve: Pubkey,
    pub bond_holding: Pubkey,
    pub fiat_token_mint: Pubkey,
    pub bond_token_mint: Pubkey,
}

impl SetupTokenAccounts {
    /// Records the coin's reserve accounts. Fails with `Unauthorized`,
    /// changing nothing, where the signer is not the coin's issuer.
    pub fn handler(&mut self, timestamp: i64) -> (r: Result<SovereignCoinTokenAccountsEvent, StablecoinError>)
        ensures
            r is Ok <==> signed_by_issuer(old(self).sovereign_coin, old(self).authority),
            r is Err ==> r == Err::<SovereignCoinTokenAccountsEvent, StablecoinError>(StablecoinError::Unauthorized)
                && *final(self) == *old(self),
            r is Ok ==> final(self).sovereign_coin == (SovereignCoin {
                fiat_reserve: old(self).fiat_reserve,
                bond_holding: old(self).bond_holding,
                ..old(self).sovereign_coin
            }) && (SetupTokenAccounts { sovereign_coin: old(self).sovereign_coin, ..*final(self) }) == *old(self),
            r matches Ok(ev) ==> ev == (SovereignCoinTokenAccountsEvent {
                fiat_reserve: old(self).fiat_reserve,
                bond_holding: old(self).bond_holding,
                timestamp,
            }),
    {
        if !self.sovereign_coin.authority.key_eq(&self.authority) {
            return Err(StablecoinError::Unauthorized);
        }
        self.sovereign_coin.fiat_reserve = self.fiat_reserve;
        self.sovereign_coin.bond_holding = self.bond_holding;
        Ok(SovereignCoinTokenAccountsEvent {
            fiat_reserve: self.sovereign_coin.fiat_reserve,
            bond_holding: self.sovereign_coin.bond_holding,
            timestamp,
        })
    }
}

/// The error with which finalizing fails, or `None`.
pub open spec fn finalize_error(ctx: FinalizeSetup) -> Option<StablecoinError> {
    if !signed_by_issuer(ctx.sovereign_coin, ctx.authority) {
        Some(StablecoinError::Unauthorized)
    } else if ctx.factory.total_sovereign_coins == u64::MAX {
        Some(StablecoinError::ArithmeticOverflow)
    } else {
        None
    }
}

/// The accounts of the last setup step: the issuer, the coin record, the
/// factory, and the coin's mint, to which the metadata is attached.
#[derive(Clone, Copy, Debug)]
pub struct FinalizeSetup {
    pub authority: Pubkey,
    pub sovereign_coin_key: Pubkey,
    pub sovereign_coin: SovereignCoin,
    pub factory: Factory,
    pub mint: Pubkey,
}

impl FinalizeSetup {
    /// Completes the coin's setup: reads its stored text back and counts the
    /// coin in the factory. Fails, changing nothing, with `Unauthorized` where
    /// the signer is not the coin's issuer, and with `ArithmeticOverflow`
    /// where the factory's count is at its maximum.
    pub fn handler(&mut self, timestamp: i64) -> (r: Result<SovereignCoinCreatedEvent, StablecoinError>)
        ensures
            r is Ok <==> finalize_error(*old(self)) is None,
            r matches Err(e) ==> Some(e) == finalize_error(*old(self)) && *final(self) == *old(self),
            r is Ok ==> final(self).factory.total_sovereign_coins == old(self).factory.total_sovereign_coins + 1,
            r is Ok ==> final(self).factory == (Factory {
                total_sovereign_coins: final(self).factory.total_sovereign_coins,
                ..old(self).factory
            }) && (FinalizeSetup { factory: old(self).factory, ..*final(self) }) == *old(self),
            r matches Ok(ev) ==> {
                let c = old(self).sovereign_coin;
                &&& ev.authority == old(self).authority
                &&& ev.sovereign_coin == old(self).sovereign_coin_key
                &&& ev.mint == old(self).mint
                &&& ev.name@ == decoded_text(c.name@)
                &&& ev.symbol@ == decoded_text(c.symbol@)
                &&& ev.fiat_currency@ == decoded_text(c.target_fiat_currency@)
                &&& ev.bond_mint == c.bond_mint
                &&& ev.bond_account == c.bond_account
                &&& ev.bond_rating == c.bond_rating
                &&& ev.timestamp == timestamp
            },
    {
        if !self.sovereign_coin.authority.key_eq(&self.authority) {
            return Err(StablecoinError::Unauthorized);
        }
        let name = decode_fixed(self.sovereign_coin.name.as_slice());
        let symbol = decode_fixed(self.sovereign_coin.symbol.as_slice());
        let total = match self.factory.total_sovereign_coins.checked_add(1) {
            Some(t) => t,
            None => {
                return Err(StablecoinError::ArithmeticOverflow);
            },
        };
        self.factory.total_sovereign_coins = total;
        let fiat_currency = decode_fixed(self.sovereign_coin.target_fiat_currency.as_slice());
        Ok(SovereignCoinCreatedEvent {
            authority: self.authority,
            sovereign_coin: self.sovereign_coin_key,
            mint: self.mint,
            name,
            symbol,
            fiat_currency,
            bond_mint: self.sovereign_coin.bond_mint,
            bond_account: self.sovereign_coin.bond_account,
            bond_rating: self.sovereign_coin.bond_rating,
            timestamp,
        })
    }
}

} // verus!
