use vstd::prelude::*;

verus! {

/// Largest number of signers a vault may have.
pub const MAX_SIGNERS: usize = 10;

/// Largest length of a proposal's description, in bytes of UTF-8.
pub const MAX_DESCRIPTION_LEN: usize = 200;

/// Largest number of fractional decimal digits a price may carry.
pub const MAX_PRICE_SCALE: u32 = 28;

/// Largest magnitude of a price's mantissa: 2^96 - 1.
pub const MAX_PRICE_MANTISSA: i128 = 0xFFFF_FFFF_FFFF_FFFF_FFFF_FFFF;

/// Fractional decimal digits of a price condition's bounds.
pub const PRICE_BOUND_SCALE: u32 = 8;

} // verus!
