use vstd::prelude::*;
use vstd::string::StringSliceAdditionalSpecFns;

use crate::codec::{encode_fixed, padded, same_text, text_of};
use crate::error::StablecoinError;
use crate::pubkey::Pubkey;

verus! {

/// How many bond mappings the factory's registry can hold.
pub const MAX_BOND_MAPPINGS: usize = 10;

/// The lowest bond rating ordinal (the best credit quality).
pub const MIN_BOND_RATING: u8 = 1;

/// The highest bond rating ordinal.
pub const MAX_BOND_RATING: u8 = 10;

/// The decimals of every sovereign coin's mint.
pub const COIN_DECIMALS: u8 = 6;

/// A registry entry: a fiat currency code bound to a bond mint and its rating.
#[derive(Clone, Copy, Debug)]
pub struct BondCurrencyMapping {
    pub active: bool,
    /// The currency code ("USD", "MXN"), zero-padded.
    pub fiat_currency: [u8; 8],
    /// The bond token mint that collateralizes coins of this currency.
    pub bond_mint: Pubkey,
    /// The bond's rating ordinal, from 1 to 10.
    pub bond_rating: u8,
}

/// Whether an entry is active and its stored currency code is the text of `q`.
pub open spec fn mapping_matches(m: BondCurrencyMapping, q: Seq<u8>) -> bool {
    m.active && text_of(m.fiat_currency@) == text_of(q)
}

/// Whether some entry of `s` matches currency `q`.
pub open spec fn has_match(s: Seq<BondCurrencyMapping>, q: Seq<u8>) -> bool {
    exists|i: int| 0 <= i < s.len() && mapping_matches(#[trigger] s[i], q)
}

/// Whether entry `i` of `s` is the first one that matches currency `q`.
pub open spec fn is_first_match(s: Seq<BondCurrencyMapping>, q: Seq<u8>, i: int) -> bool {
    &&& 0 <= i < s.len()
    &&& mapping_matches(s[i], q)
    &&& forall|j: int| 0 <= j < i ==> !mapping_matches(#[trigger] s[j], q)
}

/// The position of the first entry of `s` that matches currency `q`.
pub open spec fn first_match(s: Seq<BondCurrencyMapping>, q: Seq<u8>) -> int {
    choose|i: int| is_first_match(s, q, i)
}

/// Whether `m` is the entry that registering currency `q` with the given bond makes.
pub open spec fn is_new_mapping(m: BondCurrencyMapping, q: Seq<u8>, bond_mint: Pubkey, bond_rating: u8) -> bool {
    &&& m.active
    &&& m.fiat_currency@ == padded(q, 8)
    &&& m.bond_mint == bond_mint
    &&& m.bond_rating == bond_rating
}

/// The error with which registering currency `q` at `rating` into `f` fails,
/// checked in this order, or `None` where it succeeds.
pub open spec fn register_error(f: Factory, q: Seq<u8>, rating: u8) -> Option<StablecoinError> {
    if !(MIN_BOND_RATING <= rating <= MAX_BOND_RATING) {
        Some(StablecoinError::InvalidBondRating)
    } else if f.bond_mappings_count >= MAX_BOND_MAPPINGS {
        Some(StablecoinError::MaxBondMappingsReached)
    } else if q.len() > 8 {
        Some(StablecoinError::FiatCurrencyTooLong)
    } else {
        None
    }
}

/// If the first match of `q` in `s` sits at `i`, `first_match` names it.
pub proof fn lemma_first_match_unique(s: Seq<BondCurrencyMapping>, q: Seq<u8>, i: int)
    requires
        is_first_match(s, q, i),
    ensures
        first_match(s, q) == i,
{
    let k = first_match(s, q);
    assert(is_first_match(s, q, k));
    if k < i {
        assert(!mapping_matches(s[k], q));
    } else if i < k {
        assert(!mapping_matches(s[i], q));
    }
}

/// Where some entry matches, a first one does.
pub proof fn lemma_first_match_exists(s: Seq<BondCurrencyMapping>, q: Seq<u8>)
    requires
        has_match(s, q),
    ensures
        is_first_match(s, q, first_match(s, q)),
    decreases s.len(),
{
    let last = (s.len() - 1) as int;
    let init = s.take(last);
    if has_match(init, q) {
        lemma_first_match_exists(init, q);
        let k = first_match(init, q);
        assert forall|j: int| 0 <= j < k implies !mapping_matches(#[trigger] s[j], q) by {
            assert(s[j] == init[j]);
        }
        assert(is_first_match(s, q, k));
    } else {
        assert forall|j: int| 0 <= j < last implies !mapping_matches(#[trigger] s[j], q) by {
            assert(s[j] == init[j]);
            if mapping_matches(s[j], q) {
                assert(mapping_matches(init[j], q));
            }
        }
        assert(is_first_match(s, q, last));
    }
}

/// The factory: the protocol's singleton record of parameters, counters and
/// the bond mapping registry.
#[derive(Clone, Copy, Debug)]
pub struct Factory {
    pub bump: u8,
    /// The administrator, who may register bond mappings.
    pub authority: Pubkey,
    /// Where fees would be collected.
    pub treasury: Pubkey,
    /// How many sovereign coins finished their setup.
    pub total_sovereign_coins: u64,
    /// The combined supply of all coins.
    pub total_supply_all_coins: u128,
    /// The rating ordinals in use, best first.
    pub bond_rating_ordinals: [u8; 10],
    /// The base fiat reserve percentage.
    pub min_fiat_reserve_percentage: u8,
    /// The uplift per rating step, scaled by 10/9.
    pub bond_reserve_multiplier: u8,
    pub yield_share_protocol: u8,
    pub yield_share_issuer: u8,
    pub yield_share_holders: u8,
    pub mint_fee_bps: u16,
    pub burn_fee_bps: u16,
    /// How many entries of `bond_mappings` are registered.
    pub bond_mappings_count: u8,
    pub bond_mappings: [BondCurrencyMapping; MAX_BOND_MAPPINGS],
}

/// A registry slot that holds no entry.
pub fn empty_mapping() -> (r: BondCurrencyMapping)
    ensures
        !r.active,
        r.bond_rating == 0,
{
    BondCurrencyMapping {
        active: false,
        fiat_currency: [0u8; 8],
        bond_mint: Pubkey::default_key(),
        bond_rating: 0,
    }
}

/// `after` is `before` with one more registry entry, the one that registering
/// currency `q` with the given bond makes.
pub open spec fn registered(before: Factory, after: Factory, q: Seq<u8>, bond_mint: Pubkey, bond_rating: u8) -> bool {
    &&& after.bond_mappings_count == before.bond_mappings_count + 1
    &&& after.registry() == before.registry().push(after.registry().last())
    &&& is_new_mapping(after.registry().last(), q, bond_mint, bond_rating)
    &&& after.same_but_registry(&before)
}

impl Factory {
    /// A freshly allocated record: every byte zero, with an empty registry.
    pub fn zeroed() -> (r: Factory)
        ensures
            r.wf(),
            r.bond_mappings_count == 0,
            r.total_sovereign_coins == 0,
    {
        let empty = empty_mapping();
        Factory {
            bump: 0,
            authority: Pubkey::default_key(),
            treasury: Pubkey::default_key(),
            total_sovereign_coins: 0,
            total_supply_all_coins: 0,
            bond_rating_ordinals: [0u8; 10],
            min_fiat_reserve_percentage: 0,
            bond_reserve_multiplier: 0,
            yield_share_protocol: 0,
            yield_share_issuer: 0,
            yield_share_holders: 0,
            mint_fee_bps: 0,
            burn_fee_bps: 0,
            bond_mappings_count: 0,
            bond_mappings: [empty; MAX_BOND_MAPPINGS],
        }
    }

    /// The registry holds no more than its capacity.
    pub open spec fn wf(&self) -> bool {
        self.bond_mappings_count <= MAX_BOND_MAPPINGS
    }

    /// Whether the record is well formed, as a record read from storage may not be.
    pub fn is_wf(&self) -> (r: bool)
        ensures
            r == self.wf(),
    {
        self.bond_mappings_count as usize <= MAX_BOND_MAPPINGS
    }

    /// The registered entries, in the order of registration.
    pub open spec fn registry(&self) -> Seq<BondCurrencyMapping> {
        self.bond_mappings@.take(self.bond_mappings_count as int)
    }

    /// The two records agree on everything but the registry.
    pub open spec fn same_but_registry(&self, other: &Factory) -> bool {
        &&& self.bump == other.bump
        &&& self.authority == other.authority
        &&& self.treasury == other.treasury
        &&& self.total_sovereign_coins == other.total_sovereign_coins
        &&& self.total_supply_all_coins == other.total_supply_all_coins
        &&& self.bond_rating_ordinals == other.bond_rating_ordinals
        &&& self.min_fiat_reserve_percentage == other.min_fiat_reserve_percentage
        &&& self.bond_reserve_multiplier == other.bond_reserve_multiplier
        &&& self.yield_share_protocol == other.yield_share_protocol
        &&& self.yield_share_issuer == other.yield_share_issuer
        &&& self.yield_share_holders == other.yield_share_holders
        &&& self.mint_fee_bps == other.mint_fee_bps
        &&& self.burn_fee_bps == other.burn_fee_bps
    }

    /// Finds the first active registry entry whose currency code is the text
    /// of `fiat_currency` (both read up to their first zero byte).
    pub fn lookup_bond_mapping(&self, fiat_currency: &[u8]) -> (r: Result<BondCurrencyMapping, StablecoinError>)
        requires
            self.wf(),
        ensures
            r is Ok <==> has_match(self.registry(), fiat_currency@),
            r matches Ok(m) ==> m == self.registry()[first_match(self.registry(), fiat_currency@)],
            r matches Err(e) ==> e == StablecoinError::NoBondMappingForCurrency,
    {
        let count: usize = self.bond_mappings_count as usize;
        let mut i: usize = 0;
        while i < count
            invariant
                self.wf(),
                count == self.bond_mappings_count,
                0 <= i <= count,
                forall|j: int| 0 <= j < i ==> !mapping_matches(#[trigger] self.registry()[j], fiat_currency@),
            decreases count - i,
        {
            let m = self.bond_mappings[i];
            if m.active && same_text(m.fiat_currency.as_slice(), fiat_currency) {
                proof {
                    assert(self.registry()[i as int] == m);
                    assert(is_first_match(self.registry(), fiat_currency@, i as int));
                    lemma_first_match_unique(self.registry(), fiat_currency@, i as int);
                }
                return Ok(m);
            }
            assert(self.registry()[i as int] == m);
            i = i + 1;
        }
        Err(StablecoinError::NoBondMappingForCurrency)
    }

    /// Appends an active entry binding `fiat_currency` to `bond_mint` at
    /// `bond_rating`. Fails, leaving the record as it was, where the rating
    /// is outside 1 to 10, the registry is full, or the code is over 8 bytes.
    pub fn register(&mut self, fiat_currency: &str, bond_mint: Pubkey, bond_rating: u8) -> (r: Result<(), StablecoinError>)
        requires
            old(self).wf(),
        ensures
            final(self).wf(),
            r is Ok <==> register_error(*old(self), fiat_currency.spec_bytes(), bond_rating) is None,
            r matches Err(e) ==> Some(e) == register_error(*old(self), fiat_currency.spec_bytes(), bond_rating)
                && *final(self) == *old(self),
            r is Ok ==> registered(*old(self), *final(self), fiat_currency.spec_bytes(), bond_mint, bond_rating),
    {
        if !(MIN_BOND_RATING <= bond_rating && bond_rating <= MAX_BOND_RATING) {
            return Err(StablecoinError::InvalidBondRating);
        }
        if self.bond_mappings_count as usize >= MAX_BOND_MAPPINGS {
            return Err(StablecoinError::MaxBondMappingsReached);
        }
        let code: [u8; 8] = match encode_fixed::<8>(fiat_currency) {
            Some(code) => code,
            None => {
                return Err(StablecoinError::FiatCurrencyTooLong);
            },
        };
        let index: usize = self.bond_mappings_count as usize;
        let ghost before = *self;
        self.bond_mappings[index] = BondCurrencyMapping {
            active: true,
            fiat_currency: code,
            bond_mint,
            bond_rating,
        };
        self.bond_mappings_count = self.bond_mappings_count + 1;
        assert(self.registry() =~= before.registry().push(self.registry().last()));
        Ok(())
    }
}

} // verus!
