//! Resource cost estimates for FluxaPay's Soroban operations.
//!
//! Soroban charges for CPU instructions, persistent ledger reads and writes,
//! and emitted events. [`GasEstimator`] gives, for each [`Operation`], a
//! static upper-bound profile of those resources together with the resource
//! fee in stroops that the fee schedule derives from it.

pub mod events;
pub mod gas_estimator;
pub mod host;
pub mod instructions;
pub mod reads;
pub mod writes;

pub use gas_estimator::{
    CostEstimate, GasEstimator, Operation, FEE_PER_10K_INSTRUCTIONS, FEE_PER_EVENT,
    FEE_PER_LEDGER_READ, FEE_PER_LEDGER_WRITE,
};
