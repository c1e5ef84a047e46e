//! Account recovery for the Mux Protocol.
//!
//! Guardians can move an account to a new owner. A guardian initiates the
//! recovery; after a timelock of about 24 hours a guardian can execute it, for
//! the rest of about 7 days. The current owner may cancel the recovery at any
//! time before it is executed. The owner also looks after the guardian list and
//! can link a registry contract.
//!
//! The contract, `MuxRecovery`, works on an `Invocation`: the ledger number, the
//! authorizations and the storage that the host hands in. What the host has to
//! do afterwards, the entries to store, the events to publish, the extension of
//! the instance's time to live, is noted there as plain values.
//!
//! `rules` says what the contract does. `answers` tells of each call when it is
//! accepted and what it leaves, `laws` and `history` what holds of all of them
//! together. `sdk` says what is taken on trust from the Soroban SDK.
pub mod address;
pub mod answers;
pub mod contract;
pub mod event;
pub mod guardians;
pub mod history;
pub mod invocation;
pub mod laws;
pub mod rules;
pub mod sdk;
pub mod types;

pub use address::Address;
pub use contract::{MuxRecovery, Outcome};
pub use event::Event;
pub use guardians::Guardians;
pub use invocation::{Instance, Invocation, TtlExtension};
pub use rules::Call;
pub use types::{
    DataKey, RecoveryError, RecoveryRequest, RecoveryStatus, RECOVERY_EXPIRY, RECOVERY_TIMELOCK,
};
