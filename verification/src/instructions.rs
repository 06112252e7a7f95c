//! CPU instructions (in units of 10 000) charged for each operation.

use vstd::prelude::*;

verus! {

pub const CREATE_PAYMENT: i64 = 50;

pub const VERIFY_PAYMENT: i64 = 40;

pub const CANCEL_PAYMENT: i64 = 25;

pub const EXPIRE_PAYMENT: i64 = 20;

pub const SETTLE_PAYMENT: i64 = 35;

pub const CREATE_REFUND: i64 = 45;

/// Includes the token transfer.
pub const PROCESS_REFUND: i64 = 55;

pub const REJECT_REFUND: i64 = 20;

pub const CANCEL_REFUND: i64 = 25;

pub const CREATE_DISPUTE: i64 = 45;

/// Includes the refund and its token transfer.
pub const RESOLVE_DISPUTE: i64 = 80;

pub const REJECT_DISPUTE: i64 = 20;

/// The DEX call plus `create_payment`.
pub const SWAP_AND_PAY: i64 = 120;

pub const CREATE_STREAM: i64 = 50;

pub const WITHDRAW_STREAM: i64 = 45;

pub const CANCEL_STREAM: i64 = 30;

} // verus!
