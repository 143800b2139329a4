use vstd::arithmetic::div_mod::lemma_div_is_ordered;
use vstd::prelude::*;

use crate::codec::{lemma_text_of_padded, text_of};
use crate::error::StablecoinError;
use crate::pubkey::Pubkey;
use crate::reserve::{required_reserve, reserve_uplift};
use crate::state::{
    first_match, has_match, is_first_match, lemma_first_match_exists, lemma_first_match_unique, mapping_matches,
    register_error, registered, Factory, MAX_BOND_MAPPINGS, MAX_BOND_RATING, MIN_BOND_RATING,
};

verus! {

/// A bond of the best rating ordinal adds nothing to the base reserve.
pub proof fn law_best_rating_keeps_base(base: u8, multiplier: u8)
    ensures
        required_reserve(base, 1, multiplier) == base,
{
    let s: int = 1u8 - 1;
    assert(s * multiplier * 10 == 0) by (nonlinear_arith)
        requires
            s == 0,
    ;
    assert(reserve_uplift(1, multiplier) == 0);
}

/// For a fixed base and multiplier, a larger rating ordinal never lowers
/// the required reserve.
pub proof fn law_reserve_monotone_in_rating(base: u8, low: u8, high: u8, multiplier: u8)
    requires
        low <= high,
    ensures
        required_reserve(base, low, multiplier) <= required_reserve(base, high, multiplier),
{
    let s1: int = if low >= 1 { low - 1 } else { 0 };
    let s2: int = if high >= 1 { high - 1 } else { 0 };
    assert(s1 * multiplier * 10 <= s2 * multiplier * 10) by (nonlinear_arith)
        requires
            0 <= s1 <= s2,
            0 <= multiplier,
    ;
    assert(s1 * multiplier * 10 >= 0) by (nonlinear_arith)
        requires
            0 <= s1,
            0 <= multiplier,
    ;
    lemma_div_is_ordered(s1 * multiplier * 10, s2 * multiplier * 10, 9);
}

/// The required reserve never falls below the base, and where the base plus
/// the uplift passes `u8::MAX` it stops there instead of wrapping around.
pub proof fn law_reserve_saturates(base: u8, rating: u8, multiplier: u8)
    ensures
        base <= required_reserve(base, rating, multiplier) <= u8::MAX,
        base + reserve_uplift(rating, multiplier) >= u8::MAX ==> required_reserve(base, rating, multiplier)
            == u8::MAX,
        base + reserve_uplift(rating, multiplier) <= u8::MAX ==> required_reserve(base, rating, multiplier)
            == base + reserve_uplift(rating, multiplier),
{
    let s: int = if rating >= 1 { rating - 1 } else { 0 };
    assert(s * multiplier * 10 >= 0) by (nonlinear_arith)
        requires
            0 <= s,
            0 <= multiplier,
    ;
}

/// With a valid rating and currency code, a registration succeeds while the
/// registry holds fewer than `MAX_BOND_MAPPINGS` entries, so the last slot can
/// still be filled, and fails with `MaxBondMappingsReached` once it is full.
pub proof fn law_registry_capacity(f: Factory, q: Seq<u8>, rating: u8)
    requires
        f.wf(),
        MIN_BOND_RATING <= rating <= MAX_BOND_RATING,
        q.len() <= 8,
    ensures
        f.bond_mappings_count < MAX_BOND_MAPPINGS ==> register_error(f, q, rating) is None,
        f.bond_mappings_count == MAX_BOND_MAPPINGS ==> register_error(f, q, rating) == Some(
            StablecoinError::MaxBondMappingsReached,
        ),
{
}

/// An empty registry serves no currency.
pub proof fn law_empty_registry_has_no_match(f: Factory, q: Seq<u8>)
    requires
        f.bond_mappings_count == 0,
    ensures
        !has_match(f.registry(), q),
{
}

/// After a currency code is registered, a lookup of that code succeeds; it
/// yields the entry registered first for the code, which is the new one
/// only where no earlier entry served it.
pub proof fn law_lookup_after_register(before: Factory, after: Factory, q: Seq<u8>, bond_mint: Pubkey, rating: u8)
    requires
        registered(before, after, q, bond_mint, rating),
        q.len() <= 8,
    ensures
        has_match(after.registry(), q),
        has_match(before.registry(), q) ==> after.registry()[first_match(after.registry(), q)]
            == before.registry()[first_match(before.registry(), q)],
        !has_match(before.registry(), q) ==> after.registry()[first_match(after.registry(), q)]
            == after.registry().last(),
{
    let old_reg = before.registry();
    let reg = after.registry();
    let n = old_reg.len() as int;
    let m = reg.last();
    lemma_text_of_padded(q, 8);
    assert(text_of(m.fiat_currency@) == text_of(q));
    assert(reg[n] == m);
    assert(mapping_matches(reg[n], q));
    assert(has_match(reg, q));
    if has_match(old_reg, q) {
        lemma_first_match_exists(old_reg, q);
        let k = first_match(old_reg, q);
        assert forall|j: int| 0 <= j < k implies !mapping_matches(#[trigger] reg[j], q) by {
            assert(reg[j] == old_reg[j]);
        }
        assert(reg[k] == old_reg[k]);
        assert(is_first_match(reg, q, k));
        lemma_first_match_unique(reg, q, k);
    } else {
        assert forall|j: int| 0 <= j < n implies !mapping_matches(#[trigger] reg[j], q) by {
            assert(reg[j] == old_reg[j]);
            if mapping_matches(reg[j], q) {
                assert(mapping_matches(old_reg[j], q));
            }
        }
        assert(is_first_match(reg, q, n));
        lemma_first_match_unique(reg, q, n);
    }
}

} // verus!
