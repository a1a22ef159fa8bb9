//! Pure pricing rules: mint cost, the price bound, and the commission split.

use vstd::prelude::*;
use crate::error::NFTPixelboardError;

verus! {

/// The maximum price that can be set for one pixel.
///
/// A canvas holds fewer than 2^32 pixels (each side is a `u16`), and a
/// commission computation multiplies a total by a percentage of at most 100,
/// so every product this crate forms stays within `u128` as long as no pixel
/// price exceeds 2^96 / 100.
pub const MAX_PIXEL_PRICE: u128 = 79228162514264337593543950336 / 100;

/// Accepts a per-pixel price if and only if it does not exceed
/// [`MAX_PIXEL_PRICE`].
pub fn validate_price(price: u128) -> (r: Result<(), NFTPixelboardError>)
    ensures
        r is Ok <==> price <= MAX_PIXEL_PRICE,
        r is Err ==> r->Err_0 == NFTPixelboardError::PriceTooHigh,
{
    if price <= MAX_PIXEL_PRICE {
        Ok(())
    } else {
        Err(NFTPixelboardError::PriceTooHigh)
    }
}

/// The cost of minting a territory of `area` pixels at `pixel_price` per
/// pixel: their exact product, or `Overflow` where the product would not fit
/// the value type.
pub fn mint_cost(area: u64, pixel_price: u128) -> (r: Result<u128, NFTPixelboardError>)
    ensures
        r is Ok <==> area * pixel_price <= u128::MAX,
        r is Ok ==> r->Ok_0 == area * pixel_price,
        r is Err ==> r->Err_0 == NFTPixelboardError::Overflow,
{
    if pixel_price == 0 {
        Ok(0)
    } else if (area as u128) <= u128::MAX / pixel_price {
        proof {
            vstd::arithmetic::mul::lemma_mul_inequality(
                area as int,
                (u128::MAX / pixel_price) as int,
                pixel_price as int,
            );
            vstd::arithmetic::div_mod::lemma_fundamental_div_mod(u128::MAX as int, pixel_price as int);
            vstd::arithmetic::div_mod::lemma_mod_division_less_than_divisor(u128::MAX as int, pixel_price as int);
        }
        Ok((area as u128) * pixel_price)
    } else {
        proof {
            if area * pixel_price <= u128::MAX {
                vstd::arithmetic::div_mod::lemma_div_is_ordered(
                    area * pixel_price,
                    u128::MAX as int,
                    pixel_price as int,
                );
                vstd::arithmetic::div_mod::lemma_div_by_multiple(area as int, pixel_price as int);
            }
        }
        Err(NFTPixelboardError::Overflow)
    }
}

/// Splits a resale total between the platform owner and the seller.
///
/// The commission is the truncated percentage share and goes to the platform
/// owner; the seller receives the remainder, so rounding always favors the
/// commission recipient. The two parts always rebuild the total exactly.
pub fn split_commission(total: u128, percentage: u8) -> (split: (u128, u128))
    requires
        percentage <= 100,
        total * percentage <= u128::MAX,
    ensures
        split.0 == (total * percentage) / 100,
        split.1 == total - split.0,
        split.0 + split.1 == total,
        split.0 <= total,
{
    proof {
        vstd::arithmetic::mul::lemma_mul_inequality(percentage as int, 100, total as int);
        vstd::arithmetic::div_mod::lemma_div_is_ordered(
            (total * percentage) as int,
            100 * total,
            100,
        );
        vstd::arithmetic::div_mod::lemma_div_multiples_vanish(total as int, 100);
    }
    let commission = total * (percentage as u128) / 100;
    (commission, total - commission)
}

} // verus!
