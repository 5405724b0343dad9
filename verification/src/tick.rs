use vstd::prelude::*;

use anchor_lang::error::Error as AnchorLangError;

verus! {

#[verifier::external_type_specification]
#[verifier::external_body]
pub struct ExAnchorLangError(AnchorLangError);

/// The square root of 1.0001^tick as a Q64.64 number, as raydium's tick math
/// computes it.
pub uninterp spec fn sqrt_price_x64_at_tick(tick: i32) -> u128;

/// The greatest tick that raydium's tick math accepts in either direction.
pub open spec fn max_tick() -> int {
    443636
}

/// `raydium_amm_v3::libraries::tick_math::get_sqrt_price_at_tick`. Claimed: it
/// fails exactly when the tick lies beyond `max_tick()` in either direction;
/// otherwise its result depends on the tick alone, and at tick 0 it is 2^64
/// (the price 1.0). The values at other ticks are not stated.
#[verifier::external_body]
pub(crate) fn get_sqrt_price_at_tick(tick: i32) -> (r: Result<u128, AnchorLangError>)
    requires
        tick != i32::MIN,
    ensures
        (r is Ok) == (-max_tick() <= tick && tick <= max_tick()),
        r matches Ok(p) ==> p == sqrt_price_x64_at_tick(tick),
        r matches Ok(p) ==> (tick == 0 ==> p == 0x1_0000_0000_0000_0000u128),
{
    raydium_amm_v3::libraries::tick_math::get_sqrt_price_at_tick(tick)
}

} // verus!
