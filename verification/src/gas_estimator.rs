//! Predicts Soroban resource costs before a transaction is submitted.
//!
//! The resource fee is a conservative estimate from the network's fee
//! schedule (Protocol 21 defaults):
//!   - 100 stroops per 10 000 instructions
//!   - 6 250 stroops per ledger read entry
//!   - 10 000 stroops per ledger write entry
//!   - 250 stroops per event
//!
//! All values are static upper bounds derived from the known structure of each
//! operation; actual costs may be lower depending on ledger state.

use crate::host::{is_symbol_text, symbol_chars, symbol_new};
use crate::{events, instructions, reads, writes};
use soroban_sdk::{Env, Symbol};
use vstd::prelude::*;

verus! {

/// Stroops per 10 000 CPU instructions.
pub const FEE_PER_10K_INSTRUCTIONS: i64 = 100;

/// Stroops per persistent ledger read entry.
pub const FEE_PER_LEDGER_READ: i64 = 6_250;

/// Stroops per persistent ledger write entry.
pub const FEE_PER_LEDGER_WRITE: i64 = 10_000;

/// Stroops per emitted contract event.
pub const FEE_PER_EVENT: i64 = 250;

/// Identifies the FluxaPay operation to estimate.
#[derive(Clone, Copy, Debug, PartialEq, Eq, Structural)]
pub enum Operation {
    CreatePayment,
    VerifyPayment,
    CancelPayment,
    ExpirePayment,
    SettlePayment,
    CreateRefund,
    ProcessRefund,
    RejectRefund,
    CancelRefund,
    CreateDispute,
    ResolveDispute,
    RejectDispute,
    SwapAndPay,
    CreateStream,
    WithdrawStream,
    CancelStream,
}

/// Resource cost estimate for a single operation.
#[derive(Clone, Debug, PartialEq, Eq)]
pub struct CostEstimate {
    /// The operation this estimate applies to.
    pub operation: Operation,
    /// Estimated CPU instructions (in units of 10 000).
    pub instructions: i64,
    /// Estimated persistent ledger read entries.
    pub ledger_reads: u32,
    /// Estimated persistent ledger write entries.
    pub ledger_writes: u32,
    /// Estimated contract events emitted.
    pub events: u32,
    /// Conservative resource fee in stroops.
    pub resource_fee_stroops: i64,
}

/// The estimator: every estimate is a pure function of the operation.
pub struct GasEstimator;

/// The resource profile of an operation: instructions (in units of 10 000),
/// ledger reads, ledger writes and events.
pub open spec fn resource_profile(op: Operation) -> (i64, u32, u32, u32) {
    match op {
        Operation::CreatePayment => (instructions::CREATE_PAYMENT, reads::CREATE_PAYMENT, writes::CREATE_PAYMENT, events::CREATE_PAYMENT),
        Operation::VerifyPayment => (instructions::VERIFY_PAYMENT, reads::VERIFY_PAYMENT, writes::VERIFY_PAYMENT, events::VERIFY_PAYMENT),
        Operation::CancelPayment => (instructions::CANCEL_PAYMENT, reads::CANCEL_PAYMENT, writes::CANCEL_PAYMENT, events::CANCEL_PAYMENT),
        Operation::ExpirePayment => (instructions::EXPIRE_PAYMENT, reads::EXPIRE_PAYMENT, writes::EXPIRE_PAYMENT, events::EXPIRE_PAYMENT),
        Operation::SettlePayment => (instructions::SETTLE_PAYMENT, reads::SETTLE_PAYMENT, writes::SETTLE_PAYMENT, events::SETTLE_PAYMENT),
        Operation::CreateRefund => (instructions::CREATE_REFUND, reads::CREATE_REFUND, writes::CREATE_REFUND, events::CREATE_REFUND),
        Operation::ProcessRefund => (instructions::PROCESS_REFUND, reads::PROCESS_REFUND, writes::PROCESS_REFUND, events::PROCESS_REFUND),
        Operation::RejectRefund => (instructions::REJECT_REFUND, reads::REJECT_REFUND, writes::REJECT_REFUND, events::REJECT_REFUND),
        Operation::CancelRefund => (instructions::CANCEL_REFUND, reads::CANCEL_REFUND, writes::CANCEL_REFUND, events::CANCEL_REFUND),
        Operation::CreateDispute => (instructions::CREATE_DISPUTE, reads::CREATE_DISPUTE, writes::CREATE_DISPUTE, events::CREATE_DISPUTE),
        Operation::ResolveDispute => (instructions::RESOLVE_DISPUTE, reads::RESOLVE_DISPUTE, writes::RESOLVE_DISPUTE, events::RESOLVE_DISPUTE),
        Operation::RejectDispute => (instructions::REJECT_DISPUTE, reads::REJECT_DISPUTE, writes::REJECT_DISPUTE, events::REJECT_DISPUTE),
        Operation::SwapAndPay => (instructions::SWAP_AND_PAY, reads::SWAP_AND_PAY, writes::SWAP_AND_PAY, events::SWAP_AND_PAY),
        Operation::CreateStream => (instructions::CREATE_STREAM, reads::CREATE_STREAM, writes::CREATE_STREAM, events::CREATE_STREAM),
        Operation::WithdrawStream => (instructions::WITHDRAW_STREAM, reads::WITHDRAW_STREAM, writes::WITHDRAW_STREAM, events::WITHDRAW_STREAM),
        Operation::CancelStream => (instructions::CANCEL_STREAM, reads::CANCEL_STREAM, writes::CANCEL_STREAM, events::CANCEL_STREAM),
    }
}

/// The fee schedule: the resource fee in stroops of a resource profile.
pub open spec fn resource_fee(instructions: int, reads: int, writes: int, events: int) -> int {
    instructions * FEE_PER_10K_INSTRUCTIONS + reads * FEE_PER_LEDGER_READ
        + writes * FEE_PER_LEDGER_WRITE + events * FEE_PER_EVENT
}

/// The estimate for `op`: its resource profile and the fee the schedule
/// charges for it.
pub open spec fn spec_estimate(op: Operation) -> CostEstimate {
    let (instr, reads, writes, evts) = resource_profile(op);
    CostEstimate {
        operation: op,
        instructions: instr,
        ledger_reads: reads,
        ledger_writes: writes,
        events: evts,
        resource_fee_stroops: resource_fee(instr as int, reads as int, writes as int, evts as int) as i64,
    }
}

/// Every operation, in declaration order: the order of
/// [`GasEstimator::estimate_all`].
pub open spec fn all_operations() -> Seq<Operation> {
    seq![
        Operation::CreatePayment,
        Operation::VerifyPayment,
        Operation::CancelPayment,
        Operation::ExpirePayment,
        Operation::SettlePayment,
        Operation::CreateRefund,
        Operation::ProcessRefund,
        Operation::RejectRefund,
        Operation::CancelRefund,
        Operation::CreateDispute,
        Operation::ResolveDispute,
        Operation::RejectDispute,
        Operation::SwapAndPay,
        Operation::CreateStream,
        Operation::WithdrawStream,
        Operation::CancelStream,
    ]
}

/// The name of an operation, as it is shown off-chain.
pub open spec fn operation_text(op: Operation) -> Seq<char> {
    match op {
        Operation::CreatePayment => "create_payment"@,
        Operation::VerifyPayment => "verify_payment"@,
        Operation::CancelPayment => "cancel_payment"@,
        Operation::ExpirePayment => "expire_payment"@,
        Operation::SettlePayment => "settle_payment"@,
        Operation::CreateRefund => "create_refund"@,
        Operation::ProcessRefund => "process_refund"@,
        Operation::RejectRefund => "reject_refund"@,
        Operation::CancelRefund => "cancel_refund"@,
        Operation::CreateDispute => "create_dispute"@,
        Operation::ResolveDispute => "resolve_dispute"@,
        Operation::RejectDispute => "reject_dispute"@,
        Operation::SwapAndPay => "swap_and_pay"@,
        Operation::CreateStream => "create_stream"@,
        Operation::WithdrawStream => "withdraw_stream"@,
        Operation::CancelStream => "cancel_stream"@,
    }
}

/// Each operation name is text that a Soroban symbol can hold.
pub proof fn lemma_operation_text_is_symbol(op: Operation)
    ensures
        is_symbol_text(operation_text(op)),
{
    reveal_strlit("create_payment");
    reveal_strlit("verify_payment");
    reveal_strlit("cancel_payment");
    reveal_strlit("expire_payment");
    reveal_strlit("settle_payment");
    reveal_strlit("create_refund");
    reveal_strlit("process_refund");
    reveal_strlit("reject_refund");
    reveal_strlit("cancel_refund");
    reveal_strlit("create_dispute");
    reveal_strlit("resolve_dispute");
    reveal_strlit("reject_dispute");
    reveal_strlit("swap_and_pay");
    reveal_strlit("create_stream");
    reveal_strlit("withdraw_stream");
    reveal_strlit("cancel_stream");
}

impl Operation {
    /// The name of this operation: its variant name in snake case.
    pub fn as_str(&self) -> (name: &'static str)
        ensures
            name@ == operation_text(*self),
    {
        match self {
            Operation::CreatePayment => "create_payment",
            Operation::VerifyPayment => "verify_payment",
            Operation::CancelPayment => "cancel_payment",
            Operation::ExpirePayment => "expire_payment",
            Operation::SettlePayment => "settle_payment",
            Operation::CreateRefund => "create_refund",
            Operation::ProcessRefund => "process_refund",
            Operation::RejectRefund => "reject_refund",
            Operation::CancelRefund => "cancel_refund",
            Operation::CreateDispute => "create_dispute",
            Operation::ResolveDispute => "resolve_dispute",
            Operation::RejectDispute => "reject_dispute",
            Operation::SwapAndPay => "swap_and_pay",
            Operation::CreateStream => "create_stream",
            Operation::WithdrawStream => "withdraw_stream",
            Operation::CancelStream => "cancel_stream",
        }
    }
}

impl GasEstimator {
    /// Returns the resource cost estimate for `op`.
    pub fn estimate(_env: Env, op: Operation) -> (est: CostEstimate)
        ensures
            est == spec_estimate(op),
            est.operation == op,
            est.resource_fee_stroops == resource_fee(
                est.instructions as int,
                est.ledger_reads as int,
                est.ledger_writes as int,
                est.events as int,
            ),
    {
        Self::estimate_operation(op)
    }

    /// Returns estimates for all operations at once, in declaration order.
    pub fn estimate_all(_env: Env) -> (all: Vec<CostEstimate>)
        ensures
            all@ == all_operations().map_values(|op: Operation| spec_estimate(op)),
    {
        let ops: Vec<Operation> = vec![
            Operation::CreatePayment,
            Operation::VerifyPayment,
            Operation::CancelPayment,
            Operation::ExpirePayment,
            Operation::SettlePayment,
            Operation::CreateRefund,
            Operation::ProcessRefund,
            Operation::RejectRefund,
            Operation::CancelRefund,
            Operation::CreateDispute,
            Operation::ResolveDispute,
            Operation::RejectDispute,
            Operation::SwapAndPay,
            Operation::CreateStream,
            Operation::WithdrawStream,
            Operation::CancelStream,
        ];
        assert(ops@ =~= all_operations());

        let mut out: Vec<CostEstimate> = Vec::new();
        let mut i: usize = 0;
        while i < ops.len()
            invariant
                ops@ == all_operations(),
                i <= ops.len(),
                out@ =~= all_operations().take(i as int).map_values(|op: Operation| spec_estimate(op)),
            decreases ops.len() - i,
        {
            out.push(Self::estimate_operation(ops[i]));
            i = i + 1;
        }
        assert(all_operations().take(ops.len() as int) =~= all_operations());
        out
    }

    /// Returns the name of `op` as a symbol of `env` (useful for off-chain
    /// display); the symbol is made from `op.as_str()`.
    pub fn operation_name(env: Env, op: Operation) -> (sym: Symbol)
        ensures
            symbol_chars(sym) == operation_text(op),
    {
        let name = op.as_str();
        proof {
            lemma_operation_text_is_symbol(op);
        }
        symbol_new(&env, name)
    }

    /// The estimate of `op`, looked up in the profile table and priced by the
    /// fee schedule.
    fn estimate_operation(op: Operation) -> (est: CostEstimate)
        ensures
            est == spec_estimate(op),
            est.resource_fee_stroops == resource_fee(
                est.instructions as int,
                est.ledger_reads as int,
                est.ledger_writes as int,
                est.events as int,
            ),
    {
        let (instr, reads, writes, evts): (i64, u32, u32, u32) = match op {
            Operation::CreatePayment => (
                instructions::CREATE_PAYMENT,
                reads::CREATE_PAYMENT,
                writes::CREATE_PAYMENT,
                events::CREATE_PAYMENT,
            ),
            Operation::VerifyPayment => (
                instructions::VERIFY_PAYMENT,
                reads::VERIFY_PAYMENT,
                writes::VERIFY_PAYMENT,
                events::VERIFY_PAYMENT,
            ),
            Operation::CancelPayment => (
                instructions::CANCEL_PAYMENT,
                reads::CANCEL_PAYMENT,
                writes::CANCEL_PAYMENT,
                events::CANCEL_PAYMENT,
            ),
            Operation::ExpirePayment => (
                instructions::EXPIRE_PAYMENT,
                reads::EXPIRE_PAYMENT,
                writes::EXPIRE_PAYMENT,
                events::EXPIRE_PAYMENT,
            ),
            Operation::SettlePayment => (
                instructions::SETTLE_PAYMENT,
                reads::SETTLE_PAYMENT,
                writes::SETTLE_PAYMENT,
                events::SETTLE_PAYMENT,
            ),
            Operation::CreateRefund => (
                instructions::CREATE_REFUND,
                reads::CREATE_REFUND,
                writes::CREATE_REFUND,
                events::CREATE_REFUND,
            ),
            Operation::ProcessRefund => (
                instructions::PROCESS_REFUND,
                reads::PROCESS_REFUND,
                writes::PROCESS_REFUND,
                events::PROCESS_REFUND,
            ),
            Operation::RejectRefund => (
                instructions::REJECT_REFUND,
                reads::REJECT_REFUND,
                writes::REJECT_REFUND,
                events::REJECT_REFUND,
            ),
            Operation::CancelRefund => (
                instructions::CANCEL_REFUND,
                reads::CANCEL_REFUND,
                writes::CANCEL_REFUND,
                events::CANCEL_REFUND,
            ),
            Operation::CreateDispute => (
                instructions::CREATE_DISPUTE,
                reads::CREATE_DISPUTE,
                writes::CREATE_DISPUTE,
                events::CREATE_DISPUTE,
            ),
            Operation::ResolveDispute => (
                instructions::RESOLVE_DISPUTE,
                reads::RESOLVE_DISPUTE,
                writes::RESOLVE_DISPUTE,
                events::RESOLVE_DISPUTE,
            ),
            Operation::RejectDispute => (
                instructions::REJECT_DISPUTE,
                reads::REJECT_DISPUTE,
                writes::REJECT_DISPUTE,
                events::REJECT_DISPUTE,
            ),
            Operation::SwapAndPay => (
                instructions::SWAP_AND_PAY,
                reads::SWAP_AND_PAY,
                writes::SWAP_AND_PAY,
                events::SWAP_AND_PAY,
            ),
            Operation::CreateStream => (
                instructions::CREATE_STREAM,
                reads::CREATE_STREAM,
                writes::CREATE_STREAM,
                events::CREATE_STREAM,
            ),
            Operation::WithdrawStream => (
                instructions::WITHDRAW_STREAM,
                reads::WITHDRAW_STREAM,
                writes::WITHDRAW_STREAM,
                events::WITHDRAW_STREAM,
            ),
            Operation::CancelStream => (
                instructions::CANCEL_STREAM,
                reads::CANCEL_STREAM,
                writes::CANCEL_STREAM,
                events::CANCEL_STREAM,
            ),
        };

        let fee: i64 = instr * FEE_PER_10K_INSTRUCTIONS + reads as i64 * FEE_PER_LEDGER_READ
            + writes as i64 * FEE_PER_LEDGER_WRITE + evts as i64 * FEE_PER_EVENT;

        CostEstimate {
            operation: op,
            instructions: instr,
            ledger_reads: reads,
            ledger_writes: writes,
            events: evts,
            resource_fee_stroops: fee,
        }
    }
}

/// The fee schedule charges more for more of any resource: a profile that uses
/// at least as much of every resource as another costs at least as much.
pub proof fn lemma_fee_is_monotone(
    instructions: int,
    reads: int,
    writes: int,
    events: int,
    more_instructions: int,
    more_reads: int,
    more_writes: int,
    more_events: int,
)
    requires
        instructions <= more_instructions,
        reads <= more_reads,
        writes <= more_writes,
        events <= more_events,
    ensures
        resource_fee(instructions, reads, writes, events) <= resource_fee(
            more_instructions,
            more_reads,
            more_writes,
            more_events,
        ),
{
}

/// Every estimate charges a positive fee, and every resource count in it is
/// positive: each operation runs code, reads and writes the ledger, and emits
/// an event.
pub proof fn lemma_estimate_is_positive(op: Operation)
    ensures
        spec_estimate(op).instructions > 0,
        spec_estimate(op).ledger_reads > 0,
        spec_estimate(op).ledger_writes > 0,
        spec_estimate(op).events > 0,
        spec_estimate(op).resource_fee_stroops > 0,
{
}

/// `SwapAndPay` (a DEX call followed by a payment) takes the most CPU
/// instructions of all operations.
pub proof fn lemma_swap_and_pay_uses_most_instructions(op: Operation)
    ensures
        spec_estimate(op).instructions <= spec_estimate(Operation::SwapAndPay).instructions,
        op != Operation::SwapAndPay ==> spec_estimate(op).instructions < spec_estimate(
            Operation::SwapAndPay,
        ).instructions,
{
}

/// `SwapAndPay` charges a higher fee than every other operation except
/// `ResolveDispute`, whose extra ledger writes and events cost more.
pub proof fn lemma_swap_and_pay_is_most_expensive(op: Operation)
    requires
        op != Operation::ResolveDispute,
    ensures
        spec_estimate(op).resource_fee_stroops <= spec_estimate(
            Operation::SwapAndPay,
        ).resource_fee_stroops,
        op != Operation::SwapAndPay ==> spec_estimate(op).resource_fee_stroops < spec_estimate(
            Operation::SwapAndPay,
        ).resource_fee_stroops,
{
}

/// The list that `estimate_all` follows holds every operation exactly once.
pub proof fn lemma_all_operations_lists_each_once(op: Operation)
    ensures
        all_operations().contains(op),
        all_operations().no_duplicates(),
{
    let ops = all_operations();
    assert(ops.contains(op)) by {
        match op {
            Operation::CreatePayment => assert(ops[0] == op),
            Operation::VerifyPayment => assert(ops[1] == op),
            Operation::CancelPayment => assert(ops[2] == op),
            Operation::ExpirePayment => assert(ops[3] == op),
            Operation::SettlePayment => assert(ops[4] == op),
            Operation::CreateRefund => assert(ops[5] == op),
            Operation::ProcessRefund => assert(ops[6] == op),
            Operation::RejectRefund => assert(ops[7] == op),
            Operation::CancelRefund => assert(ops[8] == op),
            Operation::CreateDispute => assert(ops[9] == op),
            Operation::ResolveDispute => assert(ops[10] == op),
            Operation::RejectDispute => assert(ops[11] == op),
            Operation::SwapAndPay => assert(ops[12] == op),
            Operation::CreateStream => assert(ops[13] == op),
            Operation::WithdrawStream => assert(ops[14] == op),
            Operation::CancelStream => assert(ops[15] == op),
        }
    }
}

/// Distinct operations have distinct names, so a name identifies its
/// operation.
pub proof fn lemma_operation_names_are_distinct(a: Operation, b: Operation)
    requires
        a != b,
    ensures
        operation_text(a) != operation_text(b),
{
    // The length and the characters at positions 2 and 7 already tell all
    // the names apart.
    reveal_strlit("create_payment");
    reveal_strlit("verify_payment");
    reveal_strlit("cancel_payment");
    reveal_strlit("expire_payment");
    reveal_strlit("settle_payment");
    reveal_strlit("create_refund");
    reveal_strlit("process_refund");
    reveal_strlit("reject_refund");
    reveal_strlit("cancel_refund");
    reveal_strlit("create_dispute");
    reveal_strlit("resolve_dispute");
    reveal_strlit("reject_dispute");
    reveal_strlit("swap_and_pay");
    reveal_strlit("create_stream");
    reveal_strlit("withdraw_stream");
    reveal_strlit("cancel_stream");
    if operation_text(a) == operation_text(b) {
        assert(operation_text(a)[2] == operation_text(b)[2]);
        assert(operation_text(a)[7] == operation_text(b)[7]);
    }
}

/// An estimate reports, for its operation, exactly the constants that the
/// `instructions`, `reads`, `writes` and `events` modules document for that
/// operation: the constant named after the operation in each module.
pub proof fn lemma_estimate_reports_documented_profile(op: Operation)
    ensures
        spec_estimate(op).operation == op,
        op == Operation::CreatePayment ==> {
            &&& spec_estimate(op).instructions == instructions::CREATE_PAYMENT
            &&& spec_estimate(op).ledger_reads == reads::CREATE_PAYMENT
            &&& spec_estimate(op).ledger_writes == writes::CREATE_PAYMENT
            &&& spec_estimate(op).events == events::CREATE_PAYMENT
        },
        op == Operation::VerifyPayment ==> {
            &&& spec_estimate(op).instructions == instructions::VERIFY_PAYMENT
            &&& spec_estimate(op).ledger_reads == reads::VERIFY_PAYMENT
            &&& spec_estimate(op).ledger_writes == writes::VERIFY_PAYMENT
            &&& spec_estimate(op).events == events::VERIFY_PAYMENT
        },
        op == Operation::CancelPayment ==> {
            &&& spec_estimate(op).instructions == instructions::CANCEL_PAYMENT
            &&& spec_estimate(op).ledger_reads == reads::CANCEL_PAYMENT
            &&& spec_estimate(op).ledger_writes == writes::CANCEL_PAYMENT
            &&& spec_estimate(op).events == events::CANCEL_PAYMENT
        },
        op == Operation::ExpirePayment ==> {
            &&& spec_estimate(op).instructions == instructions::EXPIRE_PAYMENT
            &&& spec_estimate(op).ledger_reads == reads::EXPIRE_PAYMENT
            &&& spec_estimate(op).ledger_writes == writes::EXPIRE_PAYMENT
            &&& spec_estimate(op).events == events::EXPIRE_PAYMENT
        },
        op == Operation::SettlePayment ==> {
            &&& spec_estimate(op).instructions == instructions::SETTLE_PAYMENT
            &&& spec_estimate(op).ledger_reads == reads::SETTLE_PAYMENT
            &&& spec_estimate(op).ledger_writes == writes::SETTLE_PAYMENT
            &&& spec_estimate(op).events == events::SETTLE_PAYMENT
        },
        op == Operation::CreateRefund ==> {
            &&& spec_estimate(op).instructions == instructions::CREATE_REFUND
            &&& spec_estimate(op).ledger_reads == reads::CREATE_REFUND
            &&& spec_estimate(op).ledger_writes == writes::CREATE_REFUND
            &&& spec_estimate(op).events == events::CREATE_REFUND
        },
        op == Operation::ProcessRefund ==> {
            &&& spec_estimate(op).instructions == instructions::PROCESS_REFUND
            &&& spec_estimate(op).ledger_reads == reads::PROCESS_REFUND
            &&& spec_estimate(op).ledger_writes == writes::PROCESS_REFUND
            &&& spec_estimate(op).events == events::PROCESS_REFUND
        },
        op == Operation::RejectRefund ==> {
            &&& spec_estimate(op).instructions == instructions::REJECT_REFUND
            &&& spec_estimate(op).ledger_reads == reads::REJECT_REFUND
            &&& spec_estimate(op).ledger_writes == writes::REJECT_REFUND
            &&& spec_estimate(op).events == events::REJECT_REFUND
        },
        op == Operation::CancelRefund ==> {
            &&& spec_estimate(op).instructions == instructions::CANCEL_REFUND
            &&& spec_estimate(op).ledger_reads == reads::CANCEL_REFUND
            &&& spec_estimate(op).ledger_writes == writes::CANCEL_REFUND
            &&& spec_estimate(op).events == events::CANCEL_REFUND
        },
        op == Operation::CreateDispute ==> {
            &&& spec_estimate(op).instructions == instructions::CREATE_DISPUTE
            &&& spec_estimate(op).ledger_reads == reads::CREATE_DISPUTE
            &&& spec_estimate(op).ledger_writes == writes::CREATE_DISPUTE
            &&& spec_estimate(op).events == events::CREATE_DISPUTE
        },
        op == Operation::ResolveDispute ==> {
            &&& spec_estimate(op).instructions == instructions::RESOLVE_DISPUTE
            &&& spec_estimate(op).ledger_reads == reads::RESOLVE_DISPUTE
            &&& spec_estimate(op).ledger_writes == writes::RESOLVE_DISPUTE
            &&& spec_estimate(op).events == events::RESOLVE_DISPUTE
        },
        op == Operation::RejectDispute ==> {
            &&& spec_estimate(op).instructions == instructions::REJECT_DISPUTE
            &&& spec_estimate(op).ledger_reads == reads::REJECT_DISPUTE
            &&& spec_estimate(op).ledger_writes == writes::REJECT_DISPUTE
            &&& spec_estimate(op).events == events::REJECT_DISPUTE
        },
        op == Operation::SwapAndPay ==> {
            &&& spec_estimate(op).instructions == instructions::SWAP_AND_PAY
            &&& spec_estimate(op).ledger_reads == reads::SWAP_AND_PAY
            &&& spec_estimate(op).ledger_writes == writes::SWAP_AND_PAY
            &&& spec_estimate(op).events == events::SWAP_AND_PAY
        },
        op == Operation::CreateStream ==> {
            &&& spec_estimate(op).instructions == instructions::CREATE_STREAM
            &&& spec_estimate(op).ledger_reads == reads::CREATE_STREAM
            &&& spec_estimate(op).ledger_writes == writes::CREATE_STREAM
            &&& spec_estimate(op).events == events::CREATE_STREAM
        },
        op == Operation::WithdrawStream ==> {
            &&& spec_estimate(op).instructions == instructions::WITHDRAW_STREAM
            &&& spec_estimate(op).ledger_reads == reads::WITHDRAW_STREAM
            &&& spec_estimate(op).ledger_writes == writes::WITHDRAW_STREAM
            &&& spec_estimate(op).events == events::WITHDRAW_STREAM
        },
        op == Operation::CancelStream ==> {
            &&& spec_estimate(op).instructions == instructions::CANCEL_STREAM
            &&& spec_estimate(op).ledger_reads == reads::CANCEL_STREAM
            &&& spec_estimate(op).ledger_writes == writes::CANCEL_STREAM
            &&& spec_estimate(op).events == events::CANCEL_STREAM
        },
{
}

/// The name of an operation is its variant name in snake case: words split
/// at the capitals, lower-cased and joined by `_`.
pub proof fn lemma_operation_text_is_snake_case_variant(op: Operation)
    ensures
        op == Operation::CreatePayment ==> operation_text(op) == "create_payment"@,
        op == Operation::VerifyPayment ==> operation_text(op) == "verify_payment"@,
        op == Operation::CancelPayment ==> operation_text(op) == "cancel_payment"@,
        op == Operation::ExpirePayment ==> operation_text(op) == "expire_payment"@,
        op == Operation::SettlePayment ==> operation_text(op) == "settle_payment"@,
        op == Operation::CreateRefund ==> operation_text(op) == "create_refund"@,
        op == Operation::ProcessRefund ==> operation_text(op) == "process_refund"@,
        op == Operation::RejectRefund ==> operation_text(op) == "reject_refund"@,
        op == Operation::CancelRefund ==> operation_text(op) == "cancel_refund"@,
        op == Operation::CreateDispute ==> operation_text(op) == "create_dispute"@,
        op == Operation::ResolveDispute ==> operation_text(op) == "resolve_dispute"@,
        op == Operation::RejectDispute ==> operation_text(op) == "reject_dispute"@,
        op == Operation::SwapAndPay ==> operation_text(op) == "swap_and_pay"@,
        op == Operation::CreateStream ==> operation_text(op) == "create_stream"@,
        op == Operation::WithdrawStream ==> operation_text(op) == "withdraw_stream"@,
        op == Operation::CancelStream ==> operation_text(op) == "cancel_stream"@,
{
}

} // verus!
