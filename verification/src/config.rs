//! The numbers of the offering: the initial issue and price, the price
//! formula, and the split of a payment.

use vstd::prelude::*;

verus! {

/// Tokens that the first sale round offers.
pub const INITIAL_ISSUE: u64 = 10_000;

/// Price of one token in the first sale round.
pub const INITIAL_PRICE: u64 = 100_000;

/// Price of the sale round that follows one held at `prev_price`: the old
/// price times 103, divided by 100, plus two fifths of the initial price,
/// every division rounding down.
pub open spec fn next_sale_price(prev_price: int) -> int {
    prev_price * 103 / 100 + INITIAL_PRICE as int * 2 / 5
}

/// The next sale price, for a price whose product with 103 fits in `u64`.
pub fn sale_price_formula(prev_price: u64) -> (price: u64)
    requires
        prev_price * 103 <= u64::MAX,
    ensures
        price == next_sale_price(prev_price as int),
{
    prev_price * 103 / 100 + INITIAL_PRICE * 2 / 5
}

/// The next sale price for every `prev_price`: `None` exactly where the
/// product with 103 leaves the range of `u64`.
pub fn checked_sale_price(prev_price: u64) -> (price: Option<u64>)
    ensures
        price == (if prev_price * 103 <= u64::MAX {
            Some(next_sale_price(prev_price as int) as u64)
        } else {
            None
        }),
        price is Some ==> price.unwrap() == next_sale_price(prev_price as int),
        price is Some ==> price.unwrap() >= 40_000,
{
    match prev_price.checked_mul(103) {
        Some(_) => Some(sale_price_formula(prev_price)),
        None => None,
    }
}

/// The platform fee on a payment of `gross`: a twentieth, rounded down.
pub open spec fn platform_fee(gross: u64) -> u64 {
    gross / 20
}

/// The first referrer's share of the fee on `gross`: half the fee, rounded
/// down.
pub open spec fn first_tier_share(gross: u64) -> u64 {
    platform_fee(gross) / 2
}

/// The second referrer's share of the fee on `gross`: the other half.
pub open spec fn second_tier_share(gross: u64) -> u64 {
    (platform_fee(gross) - first_tier_share(gross)) as u64
}

/// How a payment of `gross` is divided.
#[derive(Copy, Clone, Debug, PartialEq, Eq)]
pub struct FeeSplit {
    /// The platform fee, which holds the two shares below.
    pub fee: u64,
    /// The first referrer's share.
    pub to_referer: u64,
    /// The second referrer's share.
    pub to_referer2: u64,
    /// What is left of the payment after the fee.
    pub rest: u64,
}

/// Divides a payment of `gross` into the platform fee, the two referrers'
/// shares of the fee, and the rest.
pub fn split_fee(gross: u64) -> (split: FeeSplit)
    ensures
        split.fee == platform_fee(gross),
        split.to_referer == first_tier_share(gross),
        split.to_referer2 == second_tier_share(gross),
        split.rest == gross - platform_fee(gross),
{
    let fee = gross / 20;
    let to_referer = fee / 2;
    FeeSplit { fee, to_referer, to_referer2: fee - to_referer, rest: gross - fee }
}

} // verus!
