//! Registry and issuance state machine of a factory for fiat-pegged
//! "sovereign coins" backed by fiat reserves and bond collateral.
pub mod codec;
pub mod coin;
pub mod collateral;
pub mod error;
pub mod events;
pub mod instructions;
pub mod laws;
pub mod pubkey;
pub mod reserve;
pub mod stablecoin_factory;
pub mod state;

pub use coin::SovereignCoin;
pub use error::StablecoinError;
pub use events::{
    BondMappingRegisteredEvent, FactoryInitializedEvent, SovereignCoinCreatedEvent, SovereignCoinInitializedEvent,
    SovereignCoinSetupMintEvent, SovereignCoinTokenAccountsEvent,
};
pub use instructions::{
    FinalizeSetup, InitSovereignCoin, InitializeFactory, RegisterBondMapping, SetupMint, SetupTokenAccounts,
    SovereignCoinArgs,
};
pub use pubkey::Pubkey;
pub use reserve::calculate_required_reserve;
pub use stablecoin_factory::{
    finalize_setup, init_sovereign_coin, initialize_factory, register_bond_maps, setup_mint, setup_token_accounts,
};
pub use state::{BondCurrencyMapping, Factory, MAX_BOND_MAPPINGS};
