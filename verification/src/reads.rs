//! Persistent ledger entries read by each operation.

use vstd::prelude::*;

verus! {

/// Pause state, rate limit, merchant role, token allowlist, idempotency key.
pub const CREATE_PAYMENT: u32 = 5;

/// Payment, oracle role, pause state.
pub const VERIFY_PAYMENT: u32 = 3;

pub const CANCEL_PAYMENT: u32 = 3;

pub const EXPIRE_PAYMENT: u32 = 2;

pub const SETTLE_PAYMENT: u32 = 3;

/// Payment, existing refunds, refund counter.
pub const CREATE_REFUND: u32 = 4;

/// Refund, USDC token, operator role, admin.
pub const PROCESS_REFUND: u32 = 4;

pub const REJECT_REFUND: u32 = 3;

pub const CANCEL_REFUND: u32 = 3;

pub const CREATE_DISPUTE: u32 = 5;

pub const RESOLVE_DISPUTE: u32 = 8;

pub const REJECT_DISPUTE: u32 = 3;

/// The DEX reads plus those of `create_payment`.
pub const SWAP_AND_PAY: u32 = 8;

pub const CREATE_STREAM: u32 = 3;

pub const WITHDRAW_STREAM: u32 = 3;

pub const CANCEL_STREAM: u32 = 2;

} // verus!
