//! Fixed-point conversion between base units and shares, and the simple
//! interest accrual of the price, with the truncation direction (floor at
//! every division) pinned down exactly.

use vstd::prelude::*;
use vstd::arithmetic::div_mod::lemma_div_is_ordered;
use vstd::arithmetic::div_mod::lemma_div_is_ordered_by_denominator;
use vstd::arithmetic::div_mod::lemma_div_multiples_vanish;
use vstd::arithmetic::div_mod::lemma_div_nonincreasing;
use vstd::arithmetic::div_mod::lemma_div_pos_is_pos;
use vstd::arithmetic::div_mod::lemma_fundamental_div_mod;
use vstd::arithmetic::div_mod::lemma_mod_division_less_than_divisor;
use vstd::arithmetic::mul::lemma_mul_nonnegative;
use crate::state::CustomError;

verus! {

/// Fixed-point scale: a stored price of 1_000_000 means 1.0.
pub const SCALE: u64 = 1_000_000;

/// Yearly growth of the price, in hundred-thousandths: 5_000 is 5% a year.
pub const YEARLY_RATE_BPS: u64 = 5_000;

/// Divisor that turns `YEARLY_RATE_BPS` into a fraction.
pub const BPS_SCALE: u64 = 100_000;

/// Seconds in a 365-day year.
pub const SECONDS_PER_YEAR: u64 = 31_536_000;

/// Shares bought by `amount` base units at price `rate`:
/// floor(amount * SCALE / rate).
pub open spec fn shares_of(amount: int, rate: int) -> int {
    amount * SCALE / rate
}

/// Base units redeemed by `shares` at price `rate`:
/// floor(shares * rate / SCALE).
pub open spec fn base_of(shares: int, rate: int) -> int {
    shares * rate / (SCALE as int)
}

/// Price increase accrued over `elapsed` seconds at price `rate`, with the
/// divisions floored one after the other, in the order the computation
/// performs them.
pub open spec fn rate_increase(rate: int, elapsed: int) -> int {
    rate * YEARLY_RATE_BPS * elapsed / (SECONDS_PER_YEAR as int) / (BPS_SCALE as int)
}

/// The unsigned 64-bit reading of the signed difference `now - last`: a
/// negative difference wraps around, as a two's-complement cast does.
pub open spec fn elapsed_seconds(now: int, last: int) -> int {
    if now - last >= 0 {
        now - last
    } else {
        now - last + 0x1_0000_0000_0000_0000
    }
}

/// At a price of at least 1.0, converting to shares never yields more shares
/// than base units were put in.
pub proof fn lemma_shares_le_amount(amount: int, rate: int)
    requires
        0 <= amount,
        SCALE <= rate,
    ensures
        0 <= shares_of(amount, rate) <= amount,
{
    lemma_mul_nonnegative(amount, SCALE as int);
    lemma_div_pos_is_pos(amount * SCALE, rate);
    lemma_div_is_ordered_by_denominator(amount * SCALE, SCALE as int, rate);
    assert(amount * SCALE == (SCALE as int) * amount) by (nonlinear_arith);
    lemma_div_multiples_vanish(amount, SCALE as int);
}

/// Round trip of the two conversions: depositing `amount` and at once
/// redeeming every resulting share at the same price returns at most
/// `amount` — truncation never allows a net gain — and returns exactly
/// `amount` when neither division truncates.
pub proof fn lemma_round_trip(amount: int, rate: int)
    requires
        1 <= amount,
        SCALE <= rate,
    ensures
        0 <= base_of(shares_of(amount, rate), rate) <= amount,
        (amount * SCALE) % rate == 0 && (shares_of(amount, rate) * rate) % (SCALE as int) == 0
            ==> base_of(shares_of(amount, rate), rate) == amount,
{
    let scaled = amount * SCALE;
    let shares = shares_of(amount, rate);
    lemma_mul_nonnegative(amount, SCALE as int);
    lemma_fundamental_div_mod(scaled, rate);
    lemma_mod_division_less_than_divisor(scaled, rate);
    assert(rate * shares == shares * rate) by (nonlinear_arith);
    assert(shares * rate <= scaled);
    lemma_div_pos_is_pos(scaled, rate);
    lemma_mul_nonnegative(shares, rate);
    lemma_div_pos_is_pos(shares * rate, SCALE as int);
    lemma_div_is_ordered(shares * rate, scaled, SCALE as int);
    assert(amount * (SCALE as int) == (SCALE as int) * amount) by (nonlinear_arith);
    lemma_div_multiples_vanish(amount, SCALE as int);
    if scaled % rate == 0 {
        assert(shares * rate == scaled);
    }
}

/// The accrued increase is never negative: accrual alone never lowers the
/// price.
pub proof fn lemma_rate_increase_nonneg(rate: int, elapsed: int)
    requires
        0 <= rate,
        0 <= elapsed,
    ensures
        0 <= rate_increase(rate, elapsed),
{
    lemma_mul_nonnegative(rate, YEARLY_RATE_BPS as int);
    lemma_mul_nonnegative(rate * YEARLY_RATE_BPS, elapsed);
    lemma_div_pos_is_pos(rate * YEARLY_RATE_BPS * elapsed, SECONDS_PER_YEAR as int);
    lemma_div_pos_is_pos(
        rate * YEARLY_RATE_BPS * elapsed / (SECONDS_PER_YEAR as int),
        BPS_SCALE as int,
    );
}

/// With no time elapsed nothing accrues.
pub proof fn lemma_rate_increase_zero_elapsed(rate: int)
    requires
        0 <= rate,
    ensures
        rate_increase(rate, 0) == 0,
{
    assert(rate * YEARLY_RATE_BPS * 0 == 0) by (nonlinear_arith);
}

/// Converts a base-asset amount to shares at price `rate`, refusing any step
/// that would leave the unsigned 64-bit range.
pub fn convert_to_shares(amount: u64, rate: u64) -> (r: Result<u64, CustomError>)
    requires
        rate >= SCALE,
    ensures
        amount * SCALE <= u64::MAX ==> r == Ok::<u64, CustomError>(shares_of(amount as int, rate as int) as u64)
            && shares_of(amount as int, rate as int) <= amount,
        amount * SCALE > u64::MAX ==> r == Err::<u64, CustomError>(CustomError::Overflow),
{
    match amount.checked_mul(SCALE) {
        Some(scaled) => match scaled.checked_div(rate) {
            Some(shares) => {
                proof {
                    lemma_shares_le_amount(amount as int, rate as int);
                }
                Ok(shares)
            },
            None => Err(CustomError::Overflow),
        },
        None => Err(CustomError::Overflow),
    }
}

/// Converts a share amount back to base units at price `rate`, refusing any
/// step that would leave the unsigned 64-bit range.
pub fn convert_to_base(shares: u64, rate: u64) -> (r: Result<u64, CustomError>)
    requires
        rate >= SCALE,
    ensures
        shares * rate <= u64::MAX ==> r == Ok::<u64, CustomError>(base_of(shares as int, rate as int) as u64),
        shares * rate > u64::MAX ==> r == Err::<u64, CustomError>(CustomError::Overflow),
{
    match shares.checked_mul(rate) {
        Some(product) => match product.checked_div(SCALE) {
            Some(base) => {
                proof {
                    lemma_div_pos_is_pos(product as int, SCALE as int);
                    lemma_div_nonincreasing(product as int, SCALE as int);
                }
                Ok(base)
            },
            None => Err(CustomError::Overflow),
        },
        None => Err(CustomError::Overflow),
    }
}

/// Price increase for `elapsed` seconds at price `rate`, refusing any step
/// that would leave the unsigned 64-bit range. The two divisions, by nonzero
/// constants, cannot fail.
pub fn price_increase(rate: u64, elapsed: u64) -> (r: Result<u64, CustomError>)
    ensures
        rate * YEARLY_RATE_BPS <= u64::MAX && rate * YEARLY_RATE_BPS * elapsed <= u64::MAX
            ==> r == Ok::<u64, CustomError>(rate_increase(rate as int, elapsed as int) as u64),
        rate * YEARLY_RATE_BPS > u64::MAX || rate * YEARLY_RATE_BPS * elapsed > u64::MAX
            ==> r == Err::<u64, CustomError>(CustomError::Overflow),
{
    match rate.checked_mul(YEARLY_RATE_BPS) {
        Some(t1) => match t1.checked_mul(elapsed) {
            Some(t2) => {
                proof {
                    lemma_div_pos_is_pos(t2 as int, SECONDS_PER_YEAR as int);
                    lemma_div_nonincreasing(t2 as int, SECONDS_PER_YEAR as int);
                    lemma_div_pos_is_pos(
                        t2 as int / (SECONDS_PER_YEAR as int),
                        BPS_SCALE as int,
                    );
                    lemma_div_nonincreasing(
                        t2 as int / (SECONDS_PER_YEAR as int),
                        BPS_SCALE as int,
                    );
                }
                let per_year: u64 = t2 / SECONDS_PER_YEAR;
                Ok(per_year / BPS_SCALE)
            },
            None => Err(CustomError::Overflow),
        },
        None => Err(CustomError::Overflow),
    }
}

} // verus!
