//! Persistent ledger entries written by each operation.

use vstd::prelude::*;

verus! {

/// Payment, merchant payment list, rate limit, idempotency key.
pub const CREATE_PAYMENT: u32 = 4;

/// Payment status update and its TTL bump.
pub const VERIFY_PAYMENT: u32 = 2;

pub const CANCEL_PAYMENT: u32 = 2;

pub const EXPIRE_PAYMENT: u32 = 2;

pub const SETTLE_PAYMENT: u32 = 2;

/// Refund, payment refund list, counter, TTL.
pub const CREATE_REFUND: u32 = 4;

/// Refund status and TTL.
pub const PROCESS_REFUND: u32 = 2;

pub const REJECT_REFUND: u32 = 2;

pub const CANCEL_REFUND: u32 = 2;

pub const CREATE_DISPUTE: u32 = 4;

/// Dispute, the refund writes and the operator note.
pub const RESOLVE_DISPUTE: u32 = 7;

/// Dispute, operator note and TTL.
pub const REJECT_DISPUTE: u32 = 3;

pub const SWAP_AND_PAY: u32 = 6;

pub const CREATE_STREAM: u32 = 3;

pub const WITHDRAW_STREAM: u32 = 2;

pub const CANCEL_STREAM: u32 = 2;

} // verus!
