//! Basis-point arithmetic: how a price is split between seller, artist and
//! platform.
//!
//! A share is rounded down, and whatever the rounding leaves over stays with
//! the seller, so the three amounts always add up to the price.

use crate::errors::ErrorCode;
use vstd::prelude::*;

verus! {

/// Basis points that make up the whole of an amount.
pub const BPS_DENOMINATOR: u64 = 10000;

/// The highest royalty an artist can ask for, in basis points.
pub const MAX_ROYALTY_BPS: u16 = 5000;

/// The share of `amount` that `bps` basis points stand for, rounded down.
pub open spec fn bps_share(amount: nat, bps: nat) -> nat {
    amount * bps / 10000
}

/// Whether a royalty and a platform fee may stand together in a record: the
/// royalty is at most half, and both together at most the whole.
pub open spec fn config_ok(royalty_bps: u16, platform_fee_bps: u16) -> bool {
    royalty_bps <= MAX_ROYALTY_BPS && royalty_bps + platform_fee_bps <= BPS_DENOMINATOR
}

/// What each party receives from one purchase.
#[derive(Clone, Copy, Debug, PartialEq, Eq, Structural)]
pub struct PriceSplit {
    /// What is left for the seller.
    pub seller_amount: u64,
    /// The artist's royalty.
    pub royalty_amount: u64,
    /// The platform's fee.
    pub platform_amount: u64,
}

/// The split of `price` under a royalty and a platform fee: both shares rounded
/// down, the rest to the seller.
pub open spec fn split_of(price: u64, royalty_bps: u16, platform_fee_bps: u16) -> PriceSplit {
    let royalty = bps_share(price as nat, royalty_bps as nat);
    let platform = bps_share(price as nat, platform_fee_bps as nat);
    PriceSplit {
        seller_amount: (price - royalty - platform) as u64,
        royalty_amount: royalty as u64,
        platform_amount: platform as u64,
    }
}

/// Two shares whose basis points add up to at most the whole fit into the
/// amount together; so does, then, each of them alone.
pub proof fn lemma_share_within_amount(amount: nat, bps_a: nat, bps_b: nat)
    requires
        bps_a + bps_b <= 10000,
    ensures
        bps_share(amount, bps_a) + bps_share(amount, bps_b) <= amount,
        bps_share(amount, bps_a) <= amount,
        bps_share(amount, bps_b) <= amount,
{
    assert(amount * bps_a + amount * bps_b == amount * (bps_a + bps_b)) by (nonlinear_arith);
    assert(amount * (bps_a + bps_b) <= amount * 10000) by (nonlinear_arith)
        requires
            bps_a + bps_b <= 10000,
    ;
    assert(0 <= amount * bps_a) by (nonlinear_arith);
    assert(0 <= amount * bps_b) by (nonlinear_arith);
}

/// The three amounts of a split add up to the price exactly, for every price
/// and every royalty and fee that together stay within the whole.
pub proof fn lemma_split_is_exact(price: u64, royalty_bps: u16, platform_fee_bps: u16)
    requires
        royalty_bps + platform_fee_bps <= BPS_DENOMINATOR,
    ensures
        ({
            let split = split_of(price, royalty_bps, platform_fee_bps);
            &&& split.seller_amount + split.royalty_amount + split.platform_amount == price
            &&& split.royalty_amount == bps_share(price as nat, royalty_bps as nat)
            &&& split.platform_amount == bps_share(price as nat, platform_fee_bps as nat)
        }),
{
    lemma_share_within_amount(price as nat, royalty_bps as nat, platform_fee_bps as nat);
}

/// The share of `amount` that `bps` basis points stand for, rounded down. The
/// product is taken in 128 bits, so no amount is too large.
pub fn share_of(amount: u64, bps: u16) -> (share: u64)
    requires
        bps <= BPS_DENOMINATOR,
    ensures
        share == bps_share(amount as nat, bps as nat),
        share <= amount,
{
    proof {
        lemma_share_within_amount(amount as nat, bps as nat, 0);
        assert(amount * bps <= 0xffff_ffff_ffff_ffff * 0xffff) by (nonlinear_arith)
            requires
                amount <= 0xffff_ffff_ffff_ffff,
                bps <= 0xffff,
        ;
    }
    let product: u128 = (amount as u128) * (bps as u128);
    (product / 10000) as u64
}

/// Splits `price` between seller, artist and platform.
///
/// Refused with `InvalidConfig` when the royalty is above `MAX_ROYALTY_BPS` or
/// royalty and fee together are above the whole; no other input is refused.
pub fn split_price(price: u64, royalty_bps: u16, platform_fee_bps: u16) -> (result: Result<
    PriceSplit,
    ErrorCode,
>)
    ensures
        config_ok(royalty_bps, platform_fee_bps) ==> result == Ok::<PriceSplit, ErrorCode>(
            split_of(price, royalty_bps, platform_fee_bps),
        ),
        !config_ok(royalty_bps, platform_fee_bps) ==> result == Err::<PriceSplit, ErrorCode>(
            ErrorCode::InvalidConfig,
        ),
        result matches Ok(split) ==> split.seller_amount + split.royalty_amount
            + split.platform_amount == price,
{
    if royalty_bps > MAX_ROYALTY_BPS || platform_fee_bps > 10000 - royalty_bps {
        return Err(ErrorCode::InvalidConfig);
    }
    proof {
        lemma_share_within_amount(price as nat, royalty_bps as nat, platform_fee_bps as nat);
    }
    let royalty_amount: u64 = share_of(price, royalty_bps);
    let platform_amount: u64 = share_of(price, platform_fee_bps);
    let seller_amount: u64 = price - royalty_amount - platform_amount;
    Ok(PriceSplit { seller_amount, royalty_amount, platform_amount })
}

} // verus!
