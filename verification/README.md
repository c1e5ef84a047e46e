# mux_recovery

Account recovery for the Mux Protocol, verified with Verus.

Guardians can move an account to a new owner. A guardian initiates the recovery;
once a timelock of 17,280 ledgers (about 24 hours) has passed, a guardian can
execute it, up to 120,960 ledgers (about 7 days) after the initiation. The owner
may cancel it at any time before that.

| | |
| --- | --- |
| `src/contract.rs` | the contract, `MuxRecovery` |
| `src/rules.rs` | what it does: who has to authorize a call, when it is refused, what it leaves behind |
| `src/laws.rs`, `src/history.rs` | what follows, for every call and for every history of calls |
| `src/invocation.rs`, `src/types.rs`, `src/event.rs`, `src/address.rs` | the values it works on |
| `src/guardians.rs` | the guardian list, kept in an SDK vector |
| `src/sdk.rs` | what is taken on trust from the Soroban SDK |
| `app/` | the contract on a Soroban host: storage, ledger, authorizations, events |
