//! The audit events of the contract.
use crate::address::Address;
use vstd::prelude::*;

verus! {

/// An audit event. It is published under two topics, the tag of the contract
/// and the name of the action; the fields are its payload, in their order.
#[derive(Clone, Copy, Debug, PartialEq, Eq, Structural)]
pub enum Event {
    /// The contract was set up for `owner`.
    Initialized { owner: Address },
    /// `guardian` asked for the recovery of the account to `new_owner`. The
    /// window for the execution is part of the payload, so that a reader of
    /// events need not look it up.
    RecoveryInitiated {
        guardian: Address,
        new_owner: Address,
        initiated_at: u32,
        executable_at: u32,
        expires_at: u32,
    },
    /// The owner cancelled the pending recovery.
    RecoveryCancelled,
    /// `guardian` executed the pending recovery: `new_owner` owns the account.
    RecoveryExecuted { guardian: Address, new_owner: Address },
    /// `guardian` was registered.
    GuardianAdded { owner: Address, guardian: Address },
    /// `guardian` was struck off.
    GuardianRemoved { owner: Address, guardian: Address },
    /// The registry contract was linked.
    RegistryLinked { registry_id: Address },
}

/// The first topic of every event of the contract.
pub open spec fn tag_spec() -> Seq<char> {
    "mux_recv"@
}

/// The first topic of every event of the contract.
pub fn tag() -> (tag: &'static str)
    ensures
        tag@ == tag_spec(),
{
    "mux_recv"
}

impl Event {
    /// The second topic of the event.
    pub open spec fn action_spec(self) -> Seq<char> {
        match self {
            Event::Initialized { .. } => "init"@,
            Event::RecoveryInitiated { .. } => "rec_init"@,
            Event::RecoveryCancelled => "rec_cncl"@,
            Event::RecoveryExecuted { .. } => "rec_exec"@,
            Event::GuardianAdded { .. } => "grd_add"@,
            Event::GuardianRemoved { .. } => "grd_rm"@,
            Event::RegistryLinked { .. } => "reg_link"@,
        }
    }

    /// The second topic of the event.
    pub fn action(&self) -> (action: &'static str)
        ensures
            action@ == self.action_spec(),
    {
        match self {
            Event::Initialized { .. } => "init",
            Event::RecoveryInitiated { .. } => "rec_init",
            Event::RecoveryCancelled => "rec_cncl",
            Event::RecoveryExecuted { .. } => "rec_exec",
            Event::GuardianAdded { .. } => "grd_add",
            Event::GuardianRemoved { .. } => "grd_rm",
            Event::RegistryLinked { .. } => "reg_link",
        }
    }
}

} // verus!
