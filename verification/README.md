# fluxapay gas estimator

Static resource-cost estimates for FluxaPay's Soroban operations, written in
Verus.

- `src/gas_estimator.rs`: `Operation`, `CostEstimate`, `GasEstimator` and the
  fee schedule. `estimate` is proved to return the operation's resource
  profile priced by the schedule; `estimate_all` to return those estimates for
  every operation in declaration order; `operation_name` turns
  `Operation::as_str` into a Soroban symbol. The proof functions at the end of
  the file state the library's laws (fee monotonicity, positivity, which
  operation costs most, names are distinct and valid symbols).
- `src/instructions.rs`, `src/reads.rs`, `src/writes.rs`, `src/events.rs`:
  the per-operation resource profiles.
- `src/host.rs`: the Soroban SDK types the library hands values to, and the
  one call it makes into the SDK (`Symbol::new`).
- `app/lib.rs`: the Soroban contract itself (`#[contract]`, `#[contracttype]`
  copies of the types), forwarding to the library.
