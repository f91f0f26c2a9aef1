//! The two persistent records of the vault and the errors its operations
//! can return.

use vstd::prelude::*;
use crate::math::SCALE;

verus! {

/// A 32-byte account identity, held as four 64-bit words.
///
/// The vault only ever compares identities for equality; the host converts
/// its own key type to and from these words.
#[derive(Clone, Copy, Debug, PartialEq, Eq, Structural)]
pub struct Identity {
    pub w0: u64,
    pub w1: u64,
    pub w2: u64,
    pub w3: u64,
}

/// Why a vault operation was refused.
#[derive(Clone, Copy, Debug, PartialEq, Eq, Structural)]
pub enum CustomError {
    /// The acting identity is not the one the operation requires.
    Unauthorized,
    /// A withdrawal asked for more shares than the ledger holds.
    InsufficientFunds,
    /// A checked arithmetic step would leave the unsigned 64-bit range.
    Overflow,
    /// Deposit and withdrawal amounts must be nonzero.
    ZeroAmount,
}

/// The single global record: the current receipt-token price and when it was
/// last brought up to date.
#[derive(Clone, Copy, Debug, PartialEq, Eq, Structural)]
pub struct VaultState {
    /// The only identity allowed to update the price or to move the
    /// timestamp. Never changes after initialization.
    pub admin: Identity,
    /// Price per receipt token, fixed-point at scale `SCALE`
    /// (a stored 1_000_000 means 1.0).
    pub receipt_token_price: u64,
    /// Unix timestamp, in seconds, of the last price update.
    pub last_updated: i64,
}

impl VaultState {
    /// The price starts at 1.0 and only grows, so it never falls below
    /// `SCALE`. Every operation preserves this.
    pub open spec fn wf(self) -> bool {
        self.receipt_token_price >= SCALE
    }
}

/// One depositor's record: lifetime deposits and the current share balance.
#[derive(Clone, Copy, Debug, PartialEq, Eq, Structural)]
pub struct VaultDeposit {
    /// The depositor who exclusively controls this record.
    pub owner: Identity,
    /// Running total of every base-asset amount this owner ever deposited.
    /// Withdrawals do not decrease it.
    pub deposited_amount: u64,
    /// Current receipt-token balance: raised by deposits, lowered by
    /// withdrawals.
    pub receipt_token_amount: u64,
}

} // verus!
