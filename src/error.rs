use vstd::prelude::*;

verus! {

/// Every way an operation of the factory can be rejected.
#[derive(PartialEq, Eq, Structural, Debug, Clone, Copy)]
pub enum StablecoinError {
    AssertFailed,
    InvalidYieldDistribution,
    BumpNotFound,
    Unauthorized,
    NameTooLong,
    SymbolTooLong,
    UriTooLong,
    ArithmeticOverflow,
    InvalidBondRating,
    FiatCurrencyTooLong,
    MaxBondMappingsReached,
    NoBondMappingForCurrency,
    InvalidFiatCurrency,
    InvalidBondMint,
}

impl StablecoinError {
    /// The human-readable message of the error.
    pub fn message(&self) -> (r: &'static str) {
        match self {
            StablecoinError::AssertFailed => "An assertion failed",
            StablecoinError::InvalidYieldDistribution => "Invalid yield distribution. Must sum to 100%",
            StablecoinError::BumpNotFound => "Bump not found",
            StablecoinError::Unauthorized => "Unauthorized",
            StablecoinError::NameTooLong => "Name is too long",
            StablecoinError::SymbolTooLong => "Symbol is too long",
            StablecoinError::UriTooLong => "URI is too long",
            StablecoinError::ArithmeticOverflow => "There has been an arithmetic overflow error",
            StablecoinError::InvalidBondRating => "Bond Rating is Invalid",
            StablecoinError::FiatCurrencyTooLong => "Fiat currency is too long",
            StablecoinError::MaxBondMappingsReached => "The maximum bond mapping limit has been reached",
            StablecoinError::NoBondMappingForCurrency => "No bond mapping found for the specified fiat currency",
            StablecoinError::InvalidFiatCurrency => "Invalid fiat currency",
            StablecoinError::InvalidBondMint => "The provided bond mint does not match the expected one for this currency",
        }
    }
}

} // verus!
