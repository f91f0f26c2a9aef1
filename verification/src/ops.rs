//! The vault's operations: price accrual, deposits and withdrawals, each an
//! all-or-nothing step. Every path that returns an error leaves the records
//! exactly as they were; the amounts the host must move between accounts come
//! back in the result.

use vstd::prelude::*;
use crate::math::SCALE;
use crate::math::YEARLY_RATE_BPS;
use crate::math::base_of;
use crate::math::convert_to_base;
use crate::math::convert_to_shares;
use crate::math::elapsed_seconds;
use crate::math::lemma_rate_increase_nonneg;
use crate::math::lemma_rate_increase_zero_elapsed;
use crate::math::price_increase;
use crate::math::rate_increase;
use crate::math::shares_of;
use crate::state::CustomError;
use crate::state::Identity;
use crate::state::VaultDeposit;
use crate::state::VaultState;

verus! {

/// Creates the global vault record: price 1.0, timestamped `now`, with
/// `admin` as the only identity allowed to move the price. The host allocates
/// the record and must refuse a second one for the same vault.
pub fn initialize_vault_state(admin: Identity, now: i64) -> (s: VaultState)
    ensures
        s.admin == admin,
        s.receipt_token_price == SCALE,
        s.last_updated == now,
        s.wf(),
{
    VaultState { admin, receipt_token_price: SCALE, last_updated: now }
}

/// Creates a depositor's ledger, empty. The host allocates the record and
/// must refuse a second one for the same owner.
pub fn initialize_deposit(owner: Identity) -> (d: VaultDeposit)
    ensures
        d.owner == owner,
        d.deposited_amount == 0,
        d.receipt_token_amount == 0,
{
    VaultDeposit { owner, deposited_amount: 0, receipt_token_amount: 0 }
}

/// Moves the oracle's timestamp without touching the price, so that a later
/// accrual covers a chosen span; admin only.
pub fn set_vault_last_updated(state: &mut VaultState, actor: Identity, new_ts: i64) -> (r: Result<
    (),
    CustomError,
>)
    ensures
        final(state).admin == old(state).admin,
        final(state).receipt_token_price == old(state).receipt_token_price,
        actor == old(state).admin ==> r is Ok && final(state).last_updated == new_ts,
        actor != old(state).admin ==> r == Err::<(), CustomError>(CustomError::Unauthorized) && *final(state) == *old(state),
{
    if actor != state.admin {
        return Err(CustomError::Unauthorized);
    }
    state.last_updated = new_ts;
    Ok(())
}

/// Accrues simple interest on the price for the time elapsed since the last
/// update: the price grows by
/// floor(price * YEARLY_RATE_BPS * elapsed / SECONDS_PER_YEAR / BPS_SCALE),
/// and the timestamp moves to `now`. Admin only; a 64-bit overflow at any
/// step refuses the call and changes nothing. A timestamp ahead of `now`
/// makes the elapsed seconds wrap to an enormous unsigned value, exactly as
/// the unchecked cast it models.
pub fn update_price(state: &mut VaultState, actor: Identity, now: i64) -> (r: Result<
    (),
    CustomError,
>)
    requires
        old(state).wf(),
        // machine limit: the signed difference of the two timestamps must fit in 64 bits
        i64::MIN <= now - old(state).last_updated <= i64::MAX,
    ensures
        final(state).admin == old(state).admin,
        final(state).wf(),
        final(state).receipt_token_price >= old(state).receipt_token_price,
        actor != old(state).admin ==> r == Err::<(), CustomError>(CustomError::Unauthorized) && *final(state) == *old(state),
        actor == old(state).admin ==> ({
            let rate = old(state).receipt_token_price as int;
            let e = elapsed_seconds(now as int, old(state).last_updated as int);
            if rate * YEARLY_RATE_BPS > u64::MAX || rate * YEARLY_RATE_BPS * e > u64::MAX || rate
                + rate_increase(rate, e) > u64::MAX {
                r == Err::<(), CustomError>(CustomError::Overflow) && *final(state) == *old(state)
            } else {
                &&& r is Ok
                &&& final(state).receipt_token_price == rate + rate_increase(rate, e)
                &&& final(state).last_updated == now
            }
        }),
        actor == old(state).admin && now == old(state).last_updated ==> final(state).receipt_token_price == old(state).receipt_token_price,
{
    if actor != state.admin {
        return Err(CustomError::Unauthorized);
    }
    let elapsed: i64 = now - state.last_updated;
    let elapsed_u: u64 = if elapsed >= 0 {
        elapsed as u64
    } else {
        (((elapsed as i128) + 0x1_0000_0000_0000_0000i128) as u128) as u64
    };
    proof {
        assert(elapsed_u == elapsed_seconds(now as int, old(state).last_updated as int));
    }
    let increase: u64 = match price_increase(state.receipt_token_price, elapsed_u) {
        Ok(v) => v,
        Err(e) => {
            return Err(e);
        },
    };
    proof {
        lemma_rate_increase_nonneg(state.receipt_token_price as int, elapsed_u as int);
        if elapsed_u == 0 {
            lemma_rate_increase_zero_elapsed(state.receipt_token_price as int);
        }
    }
    let new_price: u64 = match state.receipt_token_price.checked_add(increase) {
        Some(v) => v,
        None => {
            return Err(CustomError::Overflow);
        },
    };
    state.receipt_token_price = new_price;
    state.last_updated = now;
    Ok(())
}

/// Converts `amount` base units to shares at the oracle's current price and
/// credits them, raising the lifetime deposit total as well. Returns the
/// share amount the host must mint; the host must also move `amount` base
/// units into the pool, atomically with this. A zero amount or a 64-bit
/// overflow at any step refuses the call and changes nothing.
pub fn deposit(ledger: &mut VaultDeposit, state: &VaultState, amount: u64) -> (r: Result<
    u64,
    CustomError,
>)
    requires
        state.wf(),
    ensures
        final(ledger).owner == old(ledger).owner,
        amount == 0 ==> r == Err::<u64, CustomError>(CustomError::ZeroAmount) && *final(ledger) == *old(ledger),
        amount > 0 && amount * SCALE > u64::MAX ==> r == Err::<u64, CustomError>(CustomError::Overflow) && *final(ledger) == *old(ledger),
        amount > 0 && amount * SCALE <= u64::MAX ==> ({
            let shares = shares_of(amount as int, state.receipt_token_price as int);
            if old(ledger).deposited_amount + amount > u64::MAX || old(ledger).receipt_token_amount + shares > u64::MAX {
                r == Err::<u64, CustomError>(CustomError::Overflow) && *final(ledger) == *old(ledger)
            } else {
                &&& r == Ok::<u64, CustomError>(shares as u64)
                &&& final(ledger).deposited_amount == old(ledger).deposited_amount + amount
                &&& final(ledger).receipt_token_amount == old(ledger).receipt_token_amount + shares
            }
        }),
{
    if amount == 0 {
        return Err(CustomError::ZeroAmount);
    }
    let shares: u64 = match convert_to_shares(amount, state.receipt_token_price) {
        Ok(s) => s,
        Err(e) => {
            return Err(e);
        },
    };
    // compute fully into locals, then commit, so a failing step mutates nothing
    let new_deposited: u64 = match ledger.deposited_amount.checked_add(amount) {
        Some(v) => v,
        None => {
            return Err(CustomError::Overflow);
        },
    };
    let new_shares: u64 = match ledger.receipt_token_amount.checked_add(shares) {
        Some(v) => v,
        None => {
            return Err(CustomError::Overflow);
        },
    };
    ledger.deposited_amount = new_deposited;
    ledger.receipt_token_amount = new_shares;
    Ok(shares)
}

/// Converts `receipt_amount` shares back to base units at the oracle's
/// current price and debits the share balance; the lifetime deposit total is
/// deliberately left alone. Returns the base amount the host must pay out;
/// the host must also burn the shares, atomically with this. Only the
/// ledger's owner may withdraw; a zero amount, a share balance below the
/// request, or a 64-bit overflow refuses the call and changes nothing.
pub fn withdraw(
    ledger: &mut VaultDeposit,
    state: &VaultState,
    actor: Identity,
    receipt_amount: u64,
) -> (r: Result<u64, CustomError>)
    requires
        state.wf(),
    ensures
        final(ledger).owner == old(ledger).owner,
        final(ledger).deposited_amount == old(ledger).deposited_amount,
        actor != old(ledger).owner ==> r == Err::<u64, CustomError>(CustomError::Unauthorized) && *final(ledger)
            == *old(ledger),
        actor == old(ledger).owner && receipt_amount == 0 ==> r == Err::<u64, CustomError>(CustomError::ZeroAmount)
            && *final(ledger) == *old(ledger),
        actor == old(ledger).owner && receipt_amount > 0 && old(ledger).receipt_token_amount
            < receipt_amount ==> r == Err::<u64, CustomError>(CustomError::InsufficientFunds) && *final(ledger) == *old(ledger),
        actor == old(ledger).owner && receipt_amount > 0 && old(ledger).receipt_token_amount
            >= receipt_amount ==> ({
            if receipt_amount * state.receipt_token_price > u64::MAX {
                r == Err::<u64, CustomError>(CustomError::Overflow) && *final(ledger) == *old(ledger)
            } else {
                &&& r == Ok::<u64, CustomError>(base_of(receipt_amount as int, state.receipt_token_price as int) as u64)
                &&& final(ledger).receipt_token_amount == old(ledger).receipt_token_amount
                    - receipt_amount
            }
        }),
{
    if actor != ledger.owner {
        return Err(CustomError::Unauthorized);
    }
    if receipt_amount == 0 {
        return Err(CustomError::ZeroAmount);
    }
    if ledger.receipt_token_amount < receipt_amount {
        return Err(CustomError::InsufficientFunds);
    }
    let base: u64 = match convert_to_base(receipt_amount, state.receipt_token_price) {
        Ok(b) => b,
        Err(e) => {
            return Err(e);
        },
    };
    // the sufficiency check above proves this subtraction cannot underflow
    ledger.receipt_token_amount = ledger.receipt_token_amount - receipt_amount;
    Ok(base)
}

} // verus!
