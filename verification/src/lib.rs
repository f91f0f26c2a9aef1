//! Accounting core of a share vault.
//!
//! Depositors exchange a base asset for shares of a pool whose price grows
//! over time at a fixed yearly rate, and may later redeem shares at the
//! then-current price. This crate holds the price oracle, the per-depositor
//! ledger, the fixed-point conversions between base units and shares, and the
//! operations that tie them together, each with a proved contract. Moving the
//! actual asset balances, allocating records, and reading the clock are the
//! host's business: the operations here take plain values and return the
//! amounts the host must transfer.

pub mod math;
pub mod ops;
pub mod state;

pub use state::CustomError;
pub use state::Identity;
pub use state::VaultDeposit;
pub use state::VaultState;
