use vstd::prelude::*;

verus! {

/// Basis points in one whole.
pub const BPS_DENOMINATOR: i128 = 10_000;

/// Seconds in one day.
pub const SECONDS_PER_DAY: u64 = 86_400;

/// The fee on `amount` at `bps` basis points: `amount * bps / 10000`,
/// rounded toward zero, and never negative.
pub open spec fn fee_of(amount: int, bps: int) -> int {
    if amount * bps > 0 {
        amount * bps / 10_000
    } else {
        0
    }
}

/// `amount * bps` fits the fee arithmetic's integer type.
pub open spec fn fee_computable(amount: int, bps: int) -> bool {
    i128::MIN <= amount * bps <= i128::MAX
}

/// The end of a guarantee period of `days` days that starts at `current`.
pub open spec fn release_time_of(current: int, days: int) -> int {
    current + days * 86_400
}

/// Calculate fee based on amount and basis points
/// fee = amount * bps / 10000
pub fn calc_fee(amount: i128, bps: u32) -> (fee: i128)
    requires
        fee_computable(amount as int, bps as int),
    ensures
        fee == fee_of(amount as int, bps as int),
        0 <= fee,
        amount >= 0 && bps <= 10_000 ==> fee <= amount,
        amount > 0 && bps <= 10_000 ==> (fee == amount <==> bps == 10_000),
{
    let product: i128 = amount * (bps as i128);
    if product <= 0 {
        0
    } else {
        proof {
            if amount >= 0 && bps <= 10_000 {
                assert(amount * bps <= amount * 10_000) by (nonlinear_arith)
                    requires
                        amount >= 0,
                        0 <= bps <= 10_000,
                ;
                if bps < 10_000 {
                    assert(amount * bps <= amount * 9_999) by (nonlinear_arith)
                        requires
                            amount >= 0,
                            0 <= bps < 10_000,
                    ;
                }
            }
        }
        product / BPS_DENOMINATOR
    }
}

/// Calculate release timestamp from current time and guarantee days
pub fn calc_release_timestamp(current: u64, days: u32) -> (release: u64)
    requires
        release_time_of(current as int, days as int) <= u64::MAX,
    ensures
        release == release_time_of(current as int, days as int),
{
    current + (days as u64 * SECONDS_PER_DAY)
}

} // verus!
