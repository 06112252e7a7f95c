use fluxapay::gas_estimator::{
    CostEstimate, GasEstimator, Operation, FEE_PER_10K_INSTRUCTIONS, FEE_PER_EVENT,
    FEE_PER_LEDGER_READ, FEE_PER_LEDGER_WRITE,
};
use fluxapay::{events, instructions, reads, writes};
use soroban_sdk::{Env, Symbol};

const ALL: [Operation; 16] = [
    Operation::CreatePayment,
    Operation::VerifyPayment,
    Operation::CancelPayment,
    Operation::ExpirePayment,
    Operation::SettlePayment,
    Operation::CreateRefund,
    Operation::ProcessRefund,
    Operation::RejectRefund,
    Operation::CancelRefund,
    Operation::CreateDispute,
    Operation::ResolveDispute,
    Operation::RejectDispute,
    Operation::SwapAndPay,
    Operation::CreateStream,
    Operation::WithdrawStream,
    Operation::CancelStream,
];

fn estimate(op: Operation) -> CostEstimate {
    GasEstimator::estimate(Env::default(), op)
}

fn fee_of(est: &CostEstimate) -> i64 {
    est.instructions * FEE_PER_10K_INSTRUCTIONS
        + est.ledger_reads as i64 * FEE_PER_LEDGER_READ
        + est.ledger_writes as i64 * FEE_PER_LEDGER_WRITE
        + est.events as i64 * FEE_PER_EVENT
}

#[test]
fn estimate_returns_correct_fields() {
    let env = Env::default();

    let est = GasEstimator::estimate(env.clone(), Operation::CreatePayment);

    assert_eq!(est.operation, Operation::CreatePayment);
    assert_eq!(est.instructions, instructions::CREATE_PAYMENT);
    assert_eq!(est.ledger_reads, reads::CREATE_PAYMENT);
    assert_eq!(est.ledger_writes, writes::CREATE_PAYMENT);
    assert_eq!(est.events, events::CREATE_PAYMENT);

    let expected_fee = instructions::CREATE_PAYMENT * FEE_PER_10K_INSTRUCTIONS
        + reads::CREATE_PAYMENT as i64 * FEE_PER_LEDGER_READ
        + writes::CREATE_PAYMENT as i64 * FEE_PER_LEDGER_WRITE
        + events::CREATE_PAYMENT as i64 * FEE_PER_EVENT;
    assert_eq!(est.resource_fee_stroops, expected_fee);
}

#[test]
fn estimate_all_returns_all_operations() {
    let env = Env::default();

    let all = GasEstimator::estimate_all(env);
    assert_eq!(all.len(), 16);
}

#[test]
fn swap_and_pay_is_most_expensive() {
    let swap = estimate(Operation::SwapAndPay);
    let create = estimate(Operation::CreatePayment);
    assert!(swap.resource_fee_stroops > create.resource_fee_stroops);
}

#[test]
fn resolve_dispute_higher_than_reject_dispute() {
    let resolve = estimate(Operation::ResolveDispute);
    let reject = estimate(Operation::RejectDispute);
    assert!(resolve.resource_fee_stroops > reject.resource_fee_stroops);
}

#[test]
fn operation_name_matches() {
    let env = Env::default();

    assert_eq!(
        GasEstimator::operation_name(env.clone(), Operation::CreatePayment),
        Symbol::new(&env, "create_payment")
    );
    assert_eq!(
        GasEstimator::operation_name(env.clone(), Operation::SwapAndPay),
        Symbol::new(&env, "swap_and_pay")
    );
}

#[test]
fn fees_follow_the_schedule_for_every_operation() {
    let expected: [(Operation, i64); 16] = [
        (Operation::CreatePayment, 76_500),
        (Operation::VerifyPayment, 43_000),
        (Operation::CancelPayment, 41_500),
        (Operation::ExpirePayment, 34_750),
        (Operation::SettlePayment, 42_500),
        (Operation::CreateRefund, 69_750),
        (Operation::ProcessRefund, 50_750),
        (Operation::RejectRefund, 41_000),
        (Operation::CancelRefund, 41_500),
        (Operation::CreateDispute, 76_000),
        (Operation::ResolveDispute, 128_750),
        (Operation::RejectDispute, 51_250),
        (Operation::SwapAndPay, 122_500),
        (Operation::CreateStream, 54_000),
        (Operation::WithdrawStream, 43_500),
        (Operation::CancelStream, 35_750),
    ];
    for (op, fee) in expected {
        let est = estimate(op.clone());
        assert_eq!(est.operation, op);
        assert_eq!(est.resource_fee_stroops, fee);
        assert_eq!(est.resource_fee_stroops, fee_of(&est));
    }
}

#[test]
fn resolve_dispute_profile_is_exact() {
    let est = estimate(Operation::ResolveDispute);
    assert_eq!(
        est,
        CostEstimate {
            operation: Operation::ResolveDispute,
            instructions: 80,
            ledger_reads: 8,
            ledger_writes: 7,
            events: 3,
            resource_fee_stroops: 128_750,
        }
    );
}

#[test]
fn estimate_all_lists_every_operation_in_order() {
    let all = GasEstimator::estimate_all(Env::default());
    assert_eq!(all.len(), ALL.len());
    for (i, op) in ALL.iter().enumerate() {
        assert_eq!(all[i], estimate(op.clone()));
    }
    for i in 0..all.len() {
        for j in 0..all.len() {
            if i != j {
                assert_ne!(all[i].operation, all[j].operation);
            }
        }
    }
}

#[test]
fn every_estimate_is_positive() {
    for op in ALL {
        let est = estimate(op);
        assert!(est.instructions > 0);
        assert!(est.ledger_reads > 0);
        assert!(est.ledger_writes > 0);
        assert!(est.events > 0);
        assert!(est.resource_fee_stroops > 0);
    }
}

#[test]
fn swap_and_pay_uses_most_instructions() {
    let swap = estimate(Operation::SwapAndPay);
    for op in ALL {
        if op != Operation::SwapAndPay {
            assert!(estimate(op).instructions < swap.instructions);
        }
    }
}

#[test]
fn swap_and_pay_is_costliest_but_for_resolve_dispute() {
    let swap = estimate(Operation::SwapAndPay);
    for op in ALL {
        if op != Operation::SwapAndPay && op != Operation::ResolveDispute {
            assert!(estimate(op).resource_fee_stroops < swap.resource_fee_stroops);
        }
    }
    assert!(
        estimate(Operation::ResolveDispute).resource_fee_stroops > swap.resource_fee_stroops
    );
}

#[test]
fn more_resources_never_cost_less() {
    let create = estimate(Operation::CreatePayment);
    let dispute = estimate(Operation::CreateDispute);
    // Same reads, writes and events; fewer instructions for the dispute.
    assert!(dispute.instructions < create.instructions);
    assert_eq!(dispute.ledger_reads, create.ledger_reads);
    assert_eq!(dispute.ledger_writes, create.ledger_writes);
    assert_eq!(dispute.events, create.events);
    assert!(dispute.resource_fee_stroops < create.resource_fee_stroops);
}

#[test]
fn operation_names_are_snake_case_and_distinct() {
    assert_eq!(Operation::CreatePayment.as_str(), "create_payment");
    assert_eq!(Operation::ResolveDispute.as_str(), "resolve_dispute");
    assert_eq!(Operation::SwapAndPay.as_str(), "swap_and_pay");
    assert_eq!(Operation::CancelStream.as_str(), "cancel_stream");
    for a in ALL {
        let name = a.as_str();
        assert!(name.len() <= 32);
        assert!(name.chars().all(|c| c.is_ascii_lowercase() || c == '_'));
        for b in ALL {
            if a != b {
                assert_ne!(name, b.as_str());
            }
        }
    }
}

#[test]
fn operation_name_symbol_holds_the_name() {
    let env = Env::default();
    for op in ALL {
        let sym = GasEstimator::operation_name(env.clone(), op);
        assert_eq!(sym, Symbol::new(&env, op.as_str()));
        assert_eq!(sym.to_string(), op.as_str());
    }
    assert_ne!(
        GasEstimator::operation_name(env.clone(), Operation::CancelPayment),
        Symbol::new(&env, "cancel_refund")
    );
}
