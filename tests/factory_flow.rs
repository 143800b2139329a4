use stablecoin_factory::codec::{decode_fixed, encode_fixed};
use stablecoin_factory::{
    calculate_required_reserve, finalize_setup, init_sovereign_coin, initialize_factory, register_bond_maps,
    setup_mint, setup_token_accounts, Factory, FinalizeSetup, InitSovereignCoin, InitializeFactory, Pubkey,
    RegisterBondMapping, SetupMint, SetupTokenAccounts, SovereignCoin, SovereignCoinArgs, StablecoinError,
    MAX_BOND_MAPPINGS,
};

fn key(n: u8) -> Pubkey {
    Pubkey::new_from_array([n; 32])
}

const ADMIN: u8 = 1;
const ISSUER: u8 = 2;
const USDC: u8 = 3;
const BOND_X: u8 = 4;
const BOND_Y: u8 = 5;

fn new_factory(min: u8, mult: u8, p: u8, i: u8, h: u8) -> Result<Factory, StablecoinError> {
    let mut ctx = InitializeFactory {
        authority: key(ADMIN),
        factory_key: key(90),
        bump: 254,
        factory: Factory::zeroed(),
    };
    initialize_factory(&mut ctx, min, mult, p, i, h, 1_000).map(|_| ctx.factory)
}

fn register(factory: &mut Factory, signer: u8, currency: &str, bond: u8, rating: u8) -> Result<(), StablecoinError> {
    let mut ctx = RegisterBondMapping { authority: key(signer), factory_key: key(90), factory: *factory };
    let r = register_bond_maps(&mut ctx, currency.to_string(), key(bond), rating, 1_001);
    *factory = ctx.factory;
    r.map(|_| ())
}

fn args(name: &str, symbol: &str, uri: &str, currency: &str) -> SovereignCoinArgs {
    SovereignCoinArgs {
        name: name.to_string(),
        symbol: symbol.to_string(),
        uri: uri.to_string(),
        fiat_currency: currency.to_string(),
    }
}

fn bind_ctx(factory: Factory, bond_mint: u8) -> InitSovereignCoin {
    InitSovereignCoin {
        authority: key(ISSUER),
        factory_key: key(90),
        factory,
        sovereign_coin_key: key(91),
        bump: 253,
        sovereign_coin: SovereignCoin::zeroed(),
        fiat_token_mint: key(USDC),
        bond_token_mint: key(bond_mint),
    }
}

fn usd_factory() -> Factory {
    let mut f = new_factory(20, 27, 40, 30, 30).unwrap();
    register(&mut f, ADMIN, "USD", BOND_X, 3).unwrap();
    f
}

fn bound_coin(factory: Factory) -> SovereignCoin {
    let mut ctx = bind_ctx(factory, BOND_X);
    init_sovereign_coin(&mut ctx, args("Dollar", "USDe", "https://x.io/m.json", "USD"), 5).unwrap();
    ctx.sovereign_coin
}

#[test]
fn factory_initializes_when_shares_sum_to_hundred() {
    for (p, i, h) in [(40u8, 30u8, 30u8), (100, 0, 0), (0, 0, 100), (33, 33, 34)] {
        let f = new_factory(20, 27, p, i, h).unwrap();
        assert_eq!(f.yield_share_protocol, p);
        assert_eq!(f.yield_share_issuer, i);
        assert_eq!(f.yield_share_holders, h);
        assert_eq!(f.authority.bytes, key(ADMIN).bytes);
        assert_eq!(f.treasury.bytes, key(ADMIN).bytes);
        assert_eq!(f.bond_rating_ordinals, [1, 2, 3, 4, 5, 6, 7, 8, 9, 10]);
        assert_eq!(f.bump, 254);
        assert_eq!(f.total_sovereign_coins, 0);
        assert_eq!(f.bond_mappings_count, 0);
        assert_eq!(f.mint_fee_bps, 0);
    }
}

#[test]
fn factory_rejects_other_share_sums() {
    for (p, i, h) in [(40u8, 30u8, 29u8), (40, 30, 31), (0, 0, 0), (255, 255, 255), (100, 100, 56)] {
        assert_eq!(new_factory(20, 27, p, i, h).err(), Some(StablecoinError::InvalidYieldDistribution));
    }
}

#[test]
fn initialize_event_carries_parameters() {
    let mut ctx = InitializeFactory { authority: key(ADMIN), factory_key: key(90), bump: 7, factory: Factory::zeroed() };
    let ev = initialize_factory(&mut ctx, 20, 27, 40, 30, 30, 42).unwrap();
    assert_eq!(ev.min_fiat_reserve, 20);
    assert_eq!(ev.bond_reserve_multiplier, 27);
    assert_eq!(ev.timestamp, 42);
    assert_eq!(ev.factory.bytes, key(90).bytes);
    assert_eq!(ctx.factory.bump, 7);
}

#[test]
fn reserve_exact_values() {
    assert_eq!(calculate_required_reserve(20, 3, 27), 80);
    // 20 + floor(9 * 27 * 10 / 9) = 290, capped
    assert_eq!(calculate_required_reserve(20, 10, 27), 255);
    // 20 + floor(8 * 27 * 10 / 9) = 260, capped
    assert_eq!(calculate_required_reserve(20, 9, 27), 255);
    // 0 + floor(9 * 27 * 10 / 9) = 270, capped
    assert_eq!(calculate_required_reserve(0, 10, 27), 255);
    // 0 + floor(8 * 25 * 10 / 9) = 222
    assert_eq!(calculate_required_reserve(0, 9, 25), 222);
}

#[test]
fn reserve_best_rating_keeps_base() {
    for base in [0u8, 1, 20, 200, 255] {
        for m in [0u8, 1, 27, 255] {
            assert_eq!(calculate_required_reserve(base, 1, m), base);
        }
    }
}

#[test]
fn reserve_zero_rating_counts_as_best() {
    assert_eq!(calculate_required_reserve(20, 0, 27), 20);
}

#[test]
fn reserve_formula_values() {
    // 20 + floor(9 * 30 * 10 / 9) = 320, capped
    assert_eq!(calculate_required_reserve(20, 10, 30), 255);
    // 10 + floor(1 * 1 * 10 / 9) = 11
    assert_eq!(calculate_required_reserve(10, 2, 1), 11);
    // 0 + floor(4 * 20 * 10 / 9) = 88
    assert_eq!(calculate_required_reserve(0, 5, 20), 88);
}

#[test]
fn reserve_monotone_and_saturating() {
    for base in [0u8, 20, 100, 250, 255] {
        for m in [0u8, 1, 9, 27, 200, 255] {
            let mut prev = calculate_required_reserve(base, 0, m);
            for rating in 1..=255u8 {
                let r = calculate_required_reserve(base, rating, m);
                assert!(r >= prev);
                assert!(r >= base);
                prev = r;
            }
        }
    }
    assert_eq!(calculate_required_reserve(255, 10, 255), 255);
    assert_eq!(calculate_required_reserve(250, 255, 255), 255);
}

#[test]
fn registry_accepts_up_to_capacity() {
    let mut f = new_factory(20, 27, 40, 30, 30).unwrap();
    for i in 0..MAX_BOND_MAPPINGS {
        assert_eq!(register(&mut f, ADMIN, "USD", 10 + i as u8, 3), Ok(()));
        assert_eq!(f.bond_mappings_count as usize, i + 1);
    }
    assert_eq!(register(&mut f, ADMIN, "MXN", BOND_Y, 3), Err(StablecoinError::MaxBondMappingsReached));
    assert_eq!(f.bond_mappings_count as usize, MAX_BOND_MAPPINGS);
}

#[test]
fn registry_rejects_bad_ratings_and_codes() {
    let mut f = new_factory(20, 27, 40, 30, 30).unwrap();
    assert_eq!(register(&mut f, ADMIN, "USD", BOND_X, 0), Err(StablecoinError::InvalidBondRating));
    assert_eq!(register(&mut f, ADMIN, "USD", BOND_X, 11), Err(StablecoinError::InvalidBondRating));
    assert_eq!(register(&mut f, ADMIN, "USDOLLARS", BOND_X, 3), Err(StablecoinError::FiatCurrencyTooLong));
    assert_eq!(register(&mut f, ADMIN, "USDOLLAR", BOND_X, 10), Ok(()));
    assert_eq!(register(&mut f, ADMIN, "EUR", BOND_X, 1), Ok(()));
    assert_eq!(f.bond_mappings_count, 2);
    assert_eq!(f.bond_mappings[0].fiat_currency, *b"USDOLLAR");
    assert_eq!(f.bond_mappings[1].fiat_currency, [b'E', b'U', b'R', 0, 0, 0, 0, 0]);
    assert!(f.bond_mappings[1].active);
    assert_eq!(f.bond_mappings[1].bond_rating, 1);
}

#[test]
fn registry_requires_factory_authority() {
    let mut f = new_factory(20, 27, 40, 30, 30).unwrap();
    assert_eq!(register(&mut f, ISSUER, "USD", BOND_X, 3), Err(StablecoinError::Unauthorized));
    assert_eq!(f.bond_mappings_count, 0);
}

#[test]
fn register_event_carries_entry() {
    let f = new_factory(20, 27, 40, 30, 30).unwrap();
    let mut ctx = RegisterBondMapping { authority: key(ADMIN), factory_key: key(90), factory: f };
    let ev = register_bond_maps(&mut ctx, "MXN".to_string(), key(BOND_Y), 4, 77).unwrap();
    assert_eq!(ev.fiat_currency, "MXN");
    assert_eq!(ev.bond_rating, 4);
    assert_eq!(ev.bond_mint.bytes, key(BOND_Y).bytes);
    assert_eq!(ev.timestamp, 77);
}

#[test]
fn lookup_without_mapping_fails() {
    let f = new_factory(20, 27, 40, 30, 30).unwrap();
    assert_eq!(f.lookup_bond_mapping(b"USD").err(), Some(StablecoinError::NoBondMappingForCurrency));
    let f = usd_factory();
    assert_eq!(f.lookup_bond_mapping(b"MXN").err(), Some(StablecoinError::NoBondMappingForCurrency));
    assert_eq!(f.lookup_bond_mapping(b"US").err(), Some(StablecoinError::NoBondMappingForCurrency));
    assert_eq!(f.lookup_bond_mapping(b"USDX").err(), Some(StablecoinError::NoBondMappingForCurrency));
}

#[test]
fn lookup_returns_first_registered_duplicate() {
    let mut f = new_factory(20, 27, 40, 30, 30).unwrap();
    register(&mut f, ADMIN, "EUR", BOND_Y, 2).unwrap();
    register(&mut f, ADMIN, "USD", BOND_X, 3).unwrap();
    register(&mut f, ADMIN, "USD", BOND_Y, 7).unwrap();
    let m = f.lookup_bond_mapping(b"USD").unwrap();
    assert_eq!(m.bond_mint.bytes, key(BOND_X).bytes);
    assert_eq!(m.bond_rating, 3);
    let e = f.lookup_bond_mapping(b"EUR").unwrap();
    assert_eq!(e.bond_rating, 2);
}

#[test]
fn bind_end_to_end_reserve() {
    let f = usd_factory();
    let mut ctx = bind_ctx(f, BOND_X);
    let ev = init_sovereign_coin(&mut ctx, args("Dollar", "USDe", "https://x.io/m.json", "USD"), 5).unwrap();
    let c = ctx.sovereign_coin;
    assert_eq!(c.required_reserve_percentage, 80);
    assert_eq!(ev.required_reserve_percentage, 80);
    assert_eq!(c.bond_rating, 3);
    assert_eq!(c.decimals, 6);
    assert_eq!(c.bond_mint.bytes, key(BOND_X).bytes);
    assert_eq!(c.authority.bytes, key(ISSUER).bytes);
    assert_eq!(c.bump, 253);
    assert_eq!(&c.symbol, b"USDe\0\0\0\0");
    assert_eq!(&c.target_fiat_currency, b"USD\0\0\0\0\0");
    assert_eq!(&c.name[..7], b"Dollar\0");
    assert_eq!(c.total_supply, 0);
    assert_eq!(ev.name, "Dollar");
    assert_eq!(ev.fiat_currency, "USD");
}

#[test]
fn bind_derives_bond_account_from_mint() {
    let c = bound_coin(usd_factory());
    assert_ne!(c.bond_account.bytes, c.bond_mint.bytes);
    let c2 = bound_coin(usd_factory());
    assert_eq!(c.bond_account.bytes, c2.bond_account.bytes);
    let mut f = new_factory(20, 27, 40, 30, 30).unwrap();
    register(&mut f, ADMIN, "USD", BOND_Y, 3).unwrap();
    let mut ctx = bind_ctx(f, BOND_Y);
    init_sovereign_coin(&mut ctx, args("Dollar", "USDe", "u", "USD"), 5).unwrap();
    assert_ne!(ctx.sovereign_coin.bond_account.bytes, c.bond_account.bytes);
}

#[test]
fn bind_without_mapping_fails() {
    let f = usd_factory();
    let mut ctx = bind_ctx(f, BOND_X);
    let r = init_sovereign_coin(&mut ctx, args("Peso", "MXNe", "u", "MXN"), 5);
    assert_eq!(r.err(), Some(StablecoinError::NoBondMappingForCurrency));
    assert_eq!(ctx.sovereign_coin.bond_rating, 0);
}

#[test]
fn bind_with_other_bond_mint_fails() {
    let f = usd_factory();
    let mut ctx = bind_ctx(f, BOND_Y);
    let r = init_sovereign_coin(&mut ctx, args("Dollar", "USDe", "u", "USD"), 5);
    assert_eq!(r.err(), Some(StablecoinError::InvalidBondMint));
    assert_eq!(ctx.sovereign_coin.required_reserve_percentage, 0);
}

#[test]
fn bind_rejects_bad_text() {
    let f = usd_factory();
    let long_name = "N".repeat(33);
    let long_uri = "u".repeat(201);
    let cases = [
        (args(&long_name, "USDe", "u", "USD"), StablecoinError::NameTooLong),
        (args("Dollar", "USDOLLARS", "u", "USD"), StablecoinError::SymbolTooLong),
        (args("Dollar", "USDe", &long_uri, "USD"), StablecoinError::UriTooLong),
        (args("Dollar", "USDe", "u", "USDOLLARS"), StablecoinError::FiatCurrencyTooLong),
        (args("Dollar", "USDe", "u", ""), StablecoinError::InvalidFiatCurrency),
    ];
    for (a, e) in cases {
        let mut ctx = bind_ctx(f, BOND_X);
        assert_eq!(ctx.validate(&a).err(), Some(e));
        assert_eq!(init_sovereign_coin(&mut ctx, a, 5).err(), Some(e));
    }
    let mut ctx = bind_ctx(f, BOND_X);
    let ok = args(&"N".repeat(32), "USDOLLAR", &"u".repeat(200), "USD");
    assert!(init_sovereign_coin(&mut ctx, ok, 5).is_ok());
}

#[test]
fn later_steps_require_issuer() {
    let c = bound_coin(usd_factory());
    let mut mint = SetupMint { authority: key(ADMIN), sovereign_coin: c, mint: key(60) };
    assert_eq!(setup_mint(&mut mint, 6).err(), Some(StablecoinError::Unauthorized));
    assert_eq!(mint.sovereign_coin.mint.bytes, [0u8; 32]);
    let mut accounts = SetupTokenAccounts {
        authority: key(ADMIN),
        sovereign_coin: c,
        fiat_reserve: key(61),
        bond_holding: key(62),
        fiat_token_mint: key(USDC),
        bond_token_mint: key(BOND_X),
    };
    assert_eq!(setup_token_accounts(&mut accounts, 7).err(), Some(StablecoinError::Unauthorized));
    let mut fin = FinalizeSetup {
        authority: key(ADMIN),
        sovereign_coin_key: key(91),
        sovereign_coin: c,
        factory: usd_factory(),
        mint: key(60),
    };
    assert_eq!(finalize_setup(&mut fin, 8).err(), Some(StablecoinError::Unauthorized));
    assert_eq!(fin.factory.total_sovereign_coins, 0);
}

#[test]
fn later_steps_record_identities() {
    let c = bound_coin(usd_factory());
    let mut mint = SetupMint { authority: key(ISSUER), sovereign_coin: c, mint: key(60) };
    let ev = setup_mint(&mut mint, 6).unwrap();
    assert_eq!(ev.mint.bytes, key(60).bytes);
    assert_eq!(mint.sovereign_coin.mint.bytes, key(60).bytes);
    let mut accounts = SetupTokenAccounts {
        authority: key(ISSUER),
        sovereign_coin: mint.sovereign_coin,
        fiat_reserve: key(61),
        bond_holding: key(62),
        fiat_token_mint: key(USDC),
        bond_token_mint: key(BOND_X),
    };
    let ev = setup_token_accounts(&mut accounts, 7).unwrap();
    assert_eq!(ev.fiat_reserve.bytes, key(61).bytes);
    assert_eq!(accounts.sovereign_coin.bond_holding.bytes, key(62).bytes);
    assert_eq!(accounts.sovereign_coin.mint.bytes, key(60).bytes);
}

#[test]
fn finalize_counts_each_coin_once() {
    let f = usd_factory();
    let c1 = bound_coin(f);
    let mut fin = FinalizeSetup { authority: key(ISSUER), sovereign_coin_key: key(91), sovereign_coin: c1, factory: f, mint: key(60) };
    let ev = finalize_setup(&mut fin, 8).unwrap();
    assert_eq!(fin.factory.total_sovereign_coins, 1);
    assert_eq!(ev.name, "Dollar");
    assert_eq!(ev.symbol, "USDe");
    assert_eq!(ev.fiat_currency, "USD");
    assert_eq!(ev.bond_rating, 3);
    let mut ctx = bind_ctx(fin.factory, BOND_X);
    init_sovereign_coin(&mut ctx, args("Dollar Two", "USD2", "u", "USD"), 9).unwrap();
    let mut fin2 = FinalizeSetup {
        authority: key(ISSUER),
        sovereign_coin_key: key(92),
        sovereign_coin: ctx.sovereign_coin,
        factory: fin.factory,
        mint: key(63),
    };
    finalize_setup(&mut fin2, 10).unwrap();
    assert_eq!(fin2.factory.total_sovereign_coins, 2);
}

#[test]
fn finalize_overflow_fails() {
    let mut f = usd_factory();
    f.total_sovereign_coins = u64::MAX;
    let c = bound_coin(f);
    let mut fin = FinalizeSetup { authority: key(ISSUER), sovereign_coin_key: key(91), sovereign_coin: c, factory: f, mint: key(60) };
    assert_eq!(finalize_setup(&mut fin, 8).err(), Some(StablecoinError::ArithmeticOverflow));
    assert_eq!(fin.factory.total_sovereign_coins, u64::MAX);
}

#[test]
fn steps_out_of_order_are_not_guarded() {
    // finalizing before the mint and reserve steps is accepted: no phase is recorded
    let f = usd_factory();
    let c = bound_coin(f);
    let mut fin = FinalizeSetup { authority: key(ISSUER), sovereign_coin_key: key(91), sovereign_coin: c, factory: f, mint: key(60) };
    assert!(finalize_setup(&mut fin, 8).is_ok());
    assert_eq!(fin.sovereign_coin.mint.bytes, [0u8; 32]);
    // repeating the mint step overwrites the recorded mint
    let mut mint = SetupMint { authority: key(ISSUER), sovereign_coin: c, mint: key(60) };
    setup_mint(&mut mint, 6).unwrap();
    let mut again = SetupMint { authority: key(ISSUER), sovereign_coin: mint.sovereign_coin, mint: key(64) };
    setup_mint(&mut again, 7).unwrap();
    assert_eq!(again.sovereign_coin.mint.bytes, key(64).bytes);
}

#[test]
fn codec_pads_and_trims() {
    let b: [u8; 8] = encode_fixed::<8>("USD").unwrap();
    assert_eq!(b, [b'U', b'S', b'D', 0, 0, 0, 0, 0]);
    assert_eq!(decode_fixed(&b), "USD");
    assert!(encode_fixed::<8>("TOOLONGXX").is_none());
    assert_eq!(encode_fixed::<8>("EIGHTCHR").unwrap(), *b"EIGHTCHR");
    assert_eq!(decode_fixed(b"EIGHTCHR"), "EIGHTCHR");
    assert_eq!(decode_fixed(&[0u8; 8]), "");
    assert_eq!(decode_fixed(&[b'A', 0, b'B', 0]), "A");
}

#[test]
fn codec_multibyte_text() {
    let b: [u8; 8] = encode_fixed::<8>("€uro").unwrap();
    assert_eq!(decode_fixed(&b), "€uro");
    assert!(encode_fixed::<4>("€uro").is_none());
}

#[test]
fn codec_invalid_utf8_decodes_empty() {
    assert_eq!(decode_fixed(&[0xff, 0xfe, 0]), "");
    assert_eq!(decode_fixed(&[b'a', 0xc3, 0, b'b']), "");
}

#[test]
fn error_messages() {
    assert_eq!(StablecoinError::Unauthorized.message(), "Unauthorized");
    assert_eq!(StablecoinError::InvalidYieldDistribution.message(), "Invalid yield distribution. Must sum to 100%");
}

#[test]
fn key_equality() {
    assert!(key(3).key_eq(&key(3)));
    assert!(!key(3).key_eq(&key(4)));
    let mut b = [7u8; 32];
    b[31] = 8;
    assert!(!Pubkey::new_from_array(b).key_eq(&key(7)));
}

#[test]
fn codec_round_trip_various() {
    for text in ["", "A", "Dollar", "Peso Mexicano", "ünïcødé ✓", &"x".repeat(32)] {
        let b: [u8; 32] = encode_fixed::<32>(text).unwrap();
        assert_eq!(decode_fixed(&b), text);
    }
    assert!(encode_fixed::<32>(&"x".repeat(33)).is_none());
}

#[test]
fn factory_capacity_check() {
    let mut f = Factory::zeroed();
    assert!(f.is_wf());
    f.bond_mappings_count = MAX_BOND_MAPPINGS as u8;
    assert!(f.is_wf());
    f.bond_mappings_count = MAX_BOND_MAPPINGS as u8 + 1;
    assert!(!f.is_wf());
}
