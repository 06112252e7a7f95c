//! Contract events emitted by each operation.

use vstd::prelude::*;

verus! {

/// `PAYMENT/CREATED`.
pub const CREATE_PAYMENT: u32 = 1;

/// `PAYMENT/VERIFIED`, or `OVERPAID` / `PARTIALLY_PAID`.
pub const VERIFY_PAYMENT: u32 = 1;

pub const CANCEL_PAYMENT: u32 = 1;

pub const EXPIRE_PAYMENT: u32 = 1;

pub const SETTLE_PAYMENT: u32 = 1;

/// `REFUND/CREATED`.
pub const CREATE_REFUND: u32 = 1;

/// `REFUND/COMPLETED`.
pub const PROCESS_REFUND: u32 = 1;

pub const REJECT_REFUND: u32 = 1;

pub const CANCEL_REFUND: u32 = 1;

pub const CREATE_DISPUTE: u32 = 1;

/// `REFUND/COMPLETED`, `DISPUTE/OPERATOR_NOTE` and `DISPUTE/RESOLVED`.
pub const RESOLVE_DISPUTE: u32 = 3;

/// `DISPUTE/OPERATOR_NOTE` and `DISPUTE/REJECTED`.
pub const REJECT_DISPUTE: u32 = 2;

/// `SWAP/AND/PAY` and `PAYMENT/CREATED`.
pub const SWAP_AND_PAY: u32 = 2;

pub const CREATE_STREAM: u32 = 1;

pub const WITHDRAW_STREAM: u32 = 1;

pub const CANCEL_STREAM: u32 = 1;

} // verus!
