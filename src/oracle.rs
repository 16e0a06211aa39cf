use vstd::arithmetic::power::pow;
use vstd::prelude::*;

use crate::constants::{MAX_PRICE_MANTISSA, MAX_PRICE_SCALE, PRICE_BOUND_SCALE};
use crate::error::VaultError;
use crate::pubkey::Pubkey;
use crate::state::PriceCondition;

verus! {

/// A price as an oracle reported it: `price * 10^-scale`, read from `feed`,
/// `staleness` units old (seconds or slots, as the condition counts them).
#[derive(Clone, Copy, Debug)]
pub struct PriceReading {
    pub feed: Pubkey,
    pub price: i128,
    pub scale: u32,
    pub staleness: u64,
}

/// `a * 10^-a_scale <= b * 10^-b_scale`, over exact rationals.
pub open spec fn fixed_le(a: int, a_scale: nat, b: int, b_scale: nat) -> bool {
    a * pow(10, b_scale) <= b * pow(10, a_scale)
}

/// Whether a price's mantissa and scale fit a decimal: at most 96 bits of
/// magnitude and 28 fractional digits.
pub open spec fn price_fits(price: int, scale: nat) -> bool {
    -MAX_PRICE_MANTISSA <= price <= MAX_PRICE_MANTISSA && scale <= MAX_PRICE_SCALE
}

/// Relies on rust_decimal: `Decimal::from_i128_with_scale(m, s)` is exactly
/// `m * 10^-s` where `|m| < 2^96` and `s <= 28` (it panics outside), and `<=`
/// between two decimals compares their exact values, rescaling the one with
/// fewer digits.
#[verifier::external_body]
fn decimal_le(a: i128, a_scale: u32, b: i128, b_scale: u32) -> (r: bool)
    requires
        price_fits(a as int, a_scale as nat),
        price_fits(b as int, b_scale as nat),
    ensures
        r == fixed_le(a as int, a_scale as nat, b as int, b_scale as nat),
{
    rust_decimal::Decimal::from_i128_with_scale(a, a_scale) <= rust_decimal::Decimal::from_i128_with_scale(b, b_scale)
}

/// What the price gate decides: `None` lets execution go on.
///
/// With no condition there is nothing to check. Otherwise a reading of the
/// condition's feed must be given, its price must fit a decimal and it must
/// be fresh enough, and it must lie within the bounds set.
pub open spec fn price_gate(condition: Option<PriceCondition>, reading: Option<PriceReading>) -> Option<VaultError> {
    match condition {
        None => None,
        Some(c) => match reading {
            None => Some(VaultError::PriceConditionNotMet),
            Some(p) => if p.feed != c.feed {
                Some(VaultError::PriceConditionNotMet)
            } else if !price_fits(p.price as int, p.scale as nat) || p.staleness > c.max_staleness {
                Some(VaultError::StalePriceFeed)
            } else if c.min_price matches Some(min) && !fixed_le(min as int, PRICE_BOUND_SCALE as nat, p.price as int, p.scale as nat) {
                Some(VaultError::PriceConditionNotMet)
            } else if c.max_price matches Some(max) && !fixed_le(p.price as int, p.scale as nat, max as int, PRICE_BOUND_SCALE as nat) {
                Some(VaultError::PriceConditionNotMet)
            } else {
                None
            },
        },
    }
}

/// Checks a reading against a price condition.
pub fn check_price(condition: &Option<PriceCondition>, reading: &Option<PriceReading>) -> (r: Result<(), VaultError>)
    ensures
        r matches Err(e) ==> price_gate(*condition, *reading) == Some(e),
        r is Ok <==> price_gate(*condition, *reading) is None,
{
    let c = match condition {
        None => return Ok(()),
        Some(c) => c,
    };
    let p = match reading {
        None => return Err(VaultError::PriceConditionNotMet),
        Some(p) => p,
    };
    if p.feed != c.feed {
        return Err(VaultError::PriceConditionNotMet);
    }
    if p.price > MAX_PRICE_MANTISSA || p.price < -MAX_PRICE_MANTISSA || p.scale > MAX_PRICE_SCALE
        || p.staleness > c.max_staleness {
        return Err(VaultError::StalePriceFeed);
    }
    if let Some(min) = c.min_price {
        if !decimal_le(min as i128, PRICE_BOUND_SCALE, p.price, p.scale) {
            return Err(VaultError::PriceConditionNotMet);
        }
    }
    if let Some(max) = c.max_price {
        if !decimal_le(p.price, p.scale, max as i128, PRICE_BOUND_SCALE) {
            return Err(VaultError::PriceConditionNotMet);
        }
    }
    Ok(())
}

} // verus!
