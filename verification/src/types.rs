//! The values that the contract stores and returns, and its limits.
use crate::address::Address;
use vstd::prelude::*;

verus! {

/// Minimum number of ledgers that must pass between `initiate_recovery` and
/// `execute_recovery`.
///
/// At 5 seconds a ledger, 17_280 ledgers are about 24 hours. They give the
/// legitimate owner time to cancel a fraudulent recovery before it can be
/// executed.
pub const RECOVERY_TIMELOCK: u32 = 17_280;

/// Maximum number of ledgers after initiation during which a recovery can be
/// executed. After them the request is expired, and a new recovery must be
/// initiated.
///
/// At 5 seconds a ledger, 120_960 ledgers are about 7 days.
pub const RECOVERY_EXPIRY: u32 = 120_960;

/// The instance is kept alive once it has fewer than these ledgers to live:
/// about a day.
pub const TTL_THRESHOLD: u32 = 17_280;

/// The number of ledgers that the instance is then given: about 30 days.
pub const TTL_EXTEND_TO: u32 = 518_400;

/// Maximum number of guardians, to bound the growth of the instance storage.
///
/// An address takes about 32 bytes, so 16 entries are about 0.5 KB.
pub const MAX_GUARDIANS: u32 = 16;

/// Lifecycle state of a recovery request.
#[derive(Clone, Copy, Debug, PartialEq, Eq, Structural)]
pub enum RecoveryStatus {
    /// No recovery was ever requested.
    Inactive,
    /// A recovery has been initiated and was neither executed nor cancelled.
    Pending,
    /// The recovery was executed and ownership transferred.
    Executed,
    /// The recovery was cancelled by the current owner.
    Cancelled,
}

/// A recovery request.
#[derive(Clone, Copy, Debug, PartialEq, Eq, Structural)]
pub struct RecoveryRequest {
    /// The proposed new owner address.
    pub new_owner: Address,
    /// The ledger sequence at which the request was initiated.
    pub initiated_at: u32,
    /// The ledger at which the timelock ends, or the last ledger there can be
    /// where it does not end before. Before it `execute_recovery` is refused.
    pub executable_at: u32,
    /// The latest ledger at which `execute_recovery` may still be called. After
    /// it the request is expired.
    pub expires_at: u32,
    /// Current lifecycle state.
    pub status: RecoveryStatus,
}

impl RecoveryRequest {
    /// The request for `new_owner` that is initiated at ledger `sequence`: the
    /// timelock ends `RECOVERY_TIMELOCK` ledgers later and the request expires
    /// `RECOVERY_EXPIRY` ledgers later, both as far as ledgers can be numbered.
    pub open spec fn initiated(new_owner: Address, sequence: u32) -> RecoveryRequest {
        RecoveryRequest {
            new_owner,
            initiated_at: sequence,
            executable_at: sequence.saturating_add(RECOVERY_TIMELOCK),
            expires_at: sequence.saturating_add(RECOVERY_EXPIRY),
            status: RecoveryStatus::Pending,
        }
    }

    /// The same request in another state.
    pub open spec fn moved_to(self, status: RecoveryStatus) -> RecoveryRequest {
        RecoveryRequest { status, ..self }
    }

    /// Whether the timelock is still running at ledger `sequence`. It is the full
    /// `RECOVERY_TIMELOCK` ledgers even where `executable_at` had to stop short.
    pub open spec fn locked(self, sequence: u32) -> bool {
        sequence < self.executable_at || sequence < self.initiated_at + RECOVERY_TIMELOCK
    }

    /// Whether the request can be executed at ledger `sequence`.
    pub open spec fn window_contains(self, sequence: u32) -> bool {
        !self.locked(sequence) && sequence <= self.expires_at
    }

    /// Whether the timelock is still running at ledger `sequence`.
    pub fn is_locked(&self, sequence: u32) -> (locked: bool)
        ensures
            locked == self.locked(sequence),
    {
        sequence < self.executable_at || (sequence as u64) < self.initiated_at as u64
            + RECOVERY_TIMELOCK as u64
    }
}

/// The entries of the contract's instance storage.
#[derive(Clone, Copy, Debug, PartialEq, Eq, Structural)]
pub enum DataKey {
    Owner,
    Guardians,
    Recovery,
    RegistryId,
}

/// Why a call is refused.
#[derive(Clone, Copy, Debug, PartialEq, Eq, Structural)]
pub enum RecoveryError {
    NotInitialized,
    AlreadyInitialized,
    Unauthorized,
    RecoveryAlreadyPending,
    NoActiveRecovery,
    TimelockNotExpired,
    TooManyGuardians,
    GuardianAlreadyExists,
    GuardianNotFound,
    MinGuardiansRequired,
    RecoveryExpired,
}

impl RecoveryError {
    /// The number under which the error is reported to callers of the contract.
    pub open spec fn code_spec(self) -> u32 {
        match self {
            RecoveryError::NotInitialized => 1,
            RecoveryError::AlreadyInitialized => 2,
            RecoveryError::Unauthorized => 3,
            RecoveryError::RecoveryAlreadyPending => 4,
            RecoveryError::NoActiveRecovery => 5,
            RecoveryError::TimelockNotExpired => 6,
            RecoveryError::TooManyGuardians => 7,
            RecoveryError::GuardianAlreadyExists => 8,
            RecoveryError::GuardianNotFound => 9,
            RecoveryError::MinGuardiansRequired => 10,
            RecoveryError::RecoveryExpired => 11,
        }
    }

    /// The number under which the error is reported to callers of the contract.
    pub fn code(&self) -> (code: u32)
        ensures
            code == self.code_spec(),
    {
        match self {
            RecoveryError::NotInitialized => 1,
            RecoveryError::AlreadyInitialized => 2,
            RecoveryError::Unauthorized => 3,
            RecoveryError::RecoveryAlreadyPending => 4,
            RecoveryError::NoActiveRecovery => 5,
            RecoveryError::TimelockNotExpired => 6,
            RecoveryError::TooManyGuardians => 7,
            RecoveryError::GuardianAlreadyExists => 8,
            RecoveryError::GuardianNotFound => 9,
            RecoveryError::MinGuardiansRequired => 10,
            RecoveryError::RecoveryExpired => 11,
        }
    }
}

} // verus!
