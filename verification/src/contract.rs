//! The recovery contract.
use crate::address::Address;
use crate::event::Event;
use crate::guardians::Guardians;
use crate::invocation;
use crate::invocation::{Invocation, InvocationView, TtlExtension};
use crate::rules;
use crate::rules::Call;
use crate::types::{
    DataKey, RecoveryError, RecoveryRequest, RecoveryStatus, MAX_GUARDIANS, RECOVERY_EXPIRY,
    RECOVERY_TIMELOCK, TTL_EXTEND_TO, TTL_THRESHOLD,
};
use vstd::prelude::*;

verus! {

/// Account recovery by guardians, with a timelock in which the owner can cancel.
pub struct MuxRecovery;

/// How an invocation ends.
#[derive(Clone, Copy, Debug, PartialEq, Eq)]
pub enum Outcome {
    /// The address has not authorized the invocation, so the call did not run.
    Unapproved(Address),
    /// The call ran and returned this.
    Completed(Result<(), RecoveryError>),
}

impl MuxRecovery {
    /// Sets up the contract with an owner and at most `MAX_GUARDIANS` guardians.
    pub fn initialize(env: &mut Invocation, owner: Address, guardians: Guardians) -> (r: Result<
        (),
        RecoveryError,
    >)
        requires
            old(env)@.cleared_by(rules::initialize_authority(old(env)@.instance, owner)),
        ensures
            r == rules::answer(rules::initialize_refusal(old(env)@.instance, guardians@)),
            final(env)@ == rules::left_by(
                old(env)@,
                rules::initialize_refusal(old(env)@.instance, guardians@),
                old(env)@.committed(
                    rules::initialized(old(env)@.instance, owner, guardians@),
                    seq![DataKey::Owner, DataKey::Guardians],
                    Event::Initialized { owner },
                ),
            ),
            r == rules::answer(
                rules::refusal(
                    old(env)@.instance,
                    old(env)@.sequence,
                    Call::Initialize { owner, guardians },
                ),
            ),
            final(env)@ == rules::after(old(env)@, Call::Initialize { owner, guardians }),
    {
        if env.instance.owner.is_some() {
            return Err(RecoveryError::AlreadyInitialized);
        }
        if guardians.len() > MAX_GUARDIANS {
            return Err(RecoveryError::TooManyGuardians);
        }
        env.instance.owner = Some(owner);
        env.writes.push(DataKey::Owner);
        env.instance.guardians = Some(guardians);
        env.writes.push(DataKey::Guardians);
        Self::emit(env, Event::Initialized { owner });
        Self::extend_ttl(env);
        Ok(())
    }

    /// Initiates a recovery. Must be called by a registered guardian.
    ///
    /// Only one live request may exist at a time; an expired one is stale and is
    /// replaced. The timelock starts at the current ledger.
    pub fn initiate_recovery(env: &mut Invocation, guardian: Address, new_owner: Address) -> (r:
        Result<(), RecoveryError>)
        requires
            old(env)@.approved.contains(guardian),
        ensures
            r == rules::answer(
                rules::initiate_refusal(old(env)@.instance, old(env)@.sequence, guardian),
            ),
            final(env)@ == rules::left_by(
                old(env)@,
                rules::initiate_refusal(old(env)@.instance, old(env)@.sequence, guardian),
                old(env)@.committed(
                    rules::initiated(old(env)@.instance, old(env)@.sequence, new_owner),
                    seq![DataKey::Recovery],
                    rules::initiated_event(
                        guardian,
                        RecoveryRequest::initiated(new_owner, old(env)@.sequence),
                    ),
                ),
            ),
            r == rules::answer(
                rules::refusal(
                    old(env)@.instance,
                    old(env)@.sequence,
                    Call::InitiateRecovery { guardian, new_owner },
                ),
            ),
            final(env)@ == rules::after(old(env)@, Call::InitiateRecovery { guardian, new_owner }),
    {
        if let Err(error) = Self::require_guardian(env, &guardian) {
            return Err(error);
        }
        if let Some(request) = Self::active_recovery(env) {
            if request.status == RecoveryStatus::Pending && env.sequence <= request.expires_at {
                return Err(RecoveryError::RecoveryAlreadyPending);
            }
        }
        let request = RecoveryRequest {
            new_owner,
            initiated_at: env.sequence,
            executable_at: env.sequence.saturating_add(RECOVERY_TIMELOCK),
            expires_at: env.sequence.saturating_add(RECOVERY_EXPIRY),
            status: RecoveryStatus::Pending,
        };
        env.instance.recovery = Some(request);
        env.writes.push(DataKey::Recovery);
        Self::emit(
            env,
            Event::RecoveryInitiated {
                guardian,
                new_owner,
                initiated_at: request.initiated_at,
                executable_at: request.executable_at,
                expires_at: request.expires_at,
            },
        );
        Self::extend_ttl(env);
        Ok(())
    }

    /// Cancels the pending recovery. The current owner may do so at any time
    /// before it is executed.
    pub fn cancel_recovery(env: &mut Invocation) -> (r: Result<(), RecoveryError>)
        requires
            old(env)@.cleared_by(old(env)@.instance.owner),
        ensures
            r == rules::answer(rules::cancel_refusal(old(env)@.instance)),
            final(env)@ == rules::left_by(
                old(env)@,
                rules::cancel_refusal(old(env)@.instance),
                old(env)@.committed(
                    rules::cancelled(old(env)@.instance),
                    seq![DataKey::Recovery],
                    Event::RecoveryCancelled,
                ),
            ),
            r == rules::answer(
                rules::refusal(
                    old(env)@.instance,
                    old(env)@.sequence,
                    Call::CancelRecovery,
                ),
            ),
            final(env)@ == rules::after(old(env)@, Call::CancelRecovery),
    {
        if let Err(error) = Self::require_owner(env) {
            return Err(error);
        }
        let mut request = match Self::require_pending(env) {
            Ok(request) => request,
            Err(error) => return Err(error),
        };
        request.status = RecoveryStatus::Cancelled;
        env.instance.recovery = Some(request);
        env.writes.push(DataKey::Recovery);
        Self::emit(env, Event::RecoveryCancelled);
        Self::extend_ttl(env);
        Ok(())
    }

    /// Executes the pending recovery: its `new_owner` becomes the owner.
    ///
    /// Must be called by a registered guardian, once the timelock has passed and
    /// before the request has expired.
    pub fn execute_recovery(env: &mut Invocation, guardian: Address) -> (r: Result<
        (),
        RecoveryError,
    >)
        requires
            old(env)@.approved.contains(guardian),
        ensures
            r == rules::answer(
                rules::execute_refusal(old(env)@.instance, old(env)@.sequence, guardian),
            ),
            final(env)@ == rules::left_by(
                old(env)@,
                rules::execute_refusal(old(env)@.instance, old(env)@.sequence, guardian),
                old(env)@.committed(
                    rules::executed(old(env)@.instance),
                    seq![DataKey::Owner, DataKey::Recovery],
                    Event::RecoveryExecuted {
                        guardian,
                        new_owner: old(env)@.instance.recovery->Some_0.new_owner,
                    },
                ),
            ),
            r == rules::answer(
                rules::refusal(
                    old(env)@.instance,
                    old(env)@.sequence,
                    Call::ExecuteRecovery { guardian },
                ),
            ),
            final(env)@ == rules::after(old(env)@, Call::ExecuteRecovery { guardian }),
    {
        if let Err(error) = Self::require_guardian(env, &guardian) {
            return Err(error);
        }
        let mut request = match Self::require_pending(env) {
            Ok(request) => request,
            Err(error) => return Err(error),
        };
        if request.is_locked(env.sequence) {
            return Err(RecoveryError::TimelockNotExpired);
        }
        if env.sequence > request.expires_at {
            return Err(RecoveryError::RecoveryExpired);
        }
        let new_owner = request.new_owner;
        request.status = RecoveryStatus::Executed;
        env.instance.owner = Some(new_owner);
        env.writes.push(DataKey::Owner);
        env.instance.recovery = Some(request);
        env.writes.push(DataKey::Recovery);
        Self::emit(env, Event::RecoveryExecuted { guardian, new_owner });
        Self::extend_ttl(env);
        Ok(())
    }

    /// Adds a guardian. Requires the authorization of the owner, and keeps the
    /// list within `MAX_GUARDIANS`.
    pub fn add_guardian(env: &mut Invocation, owner: Address, guardian: Address) -> (r: Result<
        (),
        RecoveryError,
    >)
        requires
            old(env)@.cleared_by(old(env)@.instance.owner),
        ensures
            r == rules::answer(rules::add_refusal(old(env)@.instance, guardian)),
            final(env)@ == rules::left_by(
                old(env)@,
                rules::add_refusal(old(env)@.instance, guardian),
                old(env)@.committed(
                    rules::guardian_added(old(env)@.instance, guardian),
                    seq![DataKey::Guardians],
                    Event::GuardianAdded { owner, guardian },
                ),
            ),
            r == rules::answer(
                rules::refusal(
                    old(env)@.instance,
                    old(env)@.sequence,
                    Call::AddGuardian { owner, guardian },
                ),
            ),
            final(env)@ == rules::after(old(env)@, Call::AddGuardian { owner, guardian }),
    {
        if let Err(error) = Self::require_owner(env) {
            return Err(error);
        }
        let mut guardians = match Self::guardians(env) {
            Ok(guardians) => guardians,
            Err(error) => return Err(error),
        };
        if guardians.contains(&guardian) {
            return Err(RecoveryError::GuardianAlreadyExists);
        }
        if guardians.len() >= MAX_GUARDIANS {
            return Err(RecoveryError::TooManyGuardians);
        }
        guardians.push_back(guardian);
        env.instance.guardians = Some(guardians);
        env.writes.push(DataKey::Guardians);
        Self::emit(env, Event::GuardianAdded { owner, guardian });
        Self::extend_ttl(env);
        Ok(())
    }

    /// Removes a guardian. Requires the authorization of the owner. At least one
    /// guardian must remain.
    pub fn remove_guardian(env: &mut Invocation, owner: Address, guardian: Address) -> (r: Result<
        (),
        RecoveryError,
    >)
        requires
            old(env)@.cleared_by(old(env)@.instance.owner),
        ensures
            r == rules::answer(rules::remove_refusal(old(env)@.instance, guardian)),
            final(env)@ == rules::left_by(
                old(env)@,
                rules::remove_refusal(old(env)@.instance, guardian),
                old(env)@.committed(
                    rules::guardian_removed(old(env)@.instance, guardian),
                    seq![DataKey::Guardians],
                    Event::GuardianRemoved { owner, guardian },
                ),
            ),
            r == rules::answer(
                rules::refusal(
                    old(env)@.instance,
                    old(env)@.sequence,
                    Call::RemoveGuardian { owner, guardian },
                ),
            ),
            final(env)@ == rules::after(old(env)@, Call::RemoveGuardian { owner, guardian }),
    {
        if let Err(error) = Self::require_owner(env) {
            return Err(error);
        }
        let guardians = match Self::guardians(env) {
            Ok(guardians) => guardians,
            Err(error) => return Err(error),
        };
        if !guardians.contains(&guardian) {
            return Err(RecoveryError::GuardianNotFound);
        }
        let updated = guardians.without(&guardian);
        if updated.len() == 0 {
            return Err(RecoveryError::MinGuardiansRequired);
        }
        env.instance.guardians = Some(updated);
        env.writes.push(DataKey::Guardians);
        Self::emit(env, Event::GuardianRemoved { owner, guardian });
        Self::extend_ttl(env);
        Ok(())
    }

    /// Links a registry contract. Only the current owner may do so.
    pub fn set_registry(env: &mut Invocation, owner: Address, registry_id: Address) -> (r: Result<
        (),
        RecoveryError,
    >)
        requires
            old(env)@.cleared_by(rules::registry_authority(old(env)@.instance, owner)),
        ensures
            r == rules::answer(rules::registry_refusal(old(env)@.instance, owner)),
            final(env)@ == rules::left_by(
                old(env)@,
                rules::registry_refusal(old(env)@.instance, owner),
                old(env)@.committed(
                    rules::registry_linked(old(env)@.instance, registry_id),
                    seq![DataKey::RegistryId],
                    Event::RegistryLinked { registry_id },
                ),
            ),
            r == rules::answer(
                rules::refusal(
                    old(env)@.instance,
                    old(env)@.sequence,
                    Call::SetRegistry { owner, registry_id },
                ),
            ),
            final(env)@ == rules::after(old(env)@, Call::SetRegistry { owner, registry_id }),
    {
        let current = match Self::owner(env) {
            Ok(current) => current,
            Err(error) => return Err(error),
        };
        if current != owner {
            return Err(RecoveryError::Unauthorized);
        }
        env.instance.registry_id = Some(registry_id);
        env.writes.push(DataKey::RegistryId);
        Self::emit(env, Event::RegistryLinked { registry_id });
        Self::extend_ttl(env);
        Ok(())
    }

    /// The current owner.
    pub fn owner(env: &Invocation) -> (r: Result<Address, RecoveryError>)
        ensures
            r == (match env@.instance.owner {
                Some(owner) => Ok::<Address, RecoveryError>(owner),
                None => Err(RecoveryError::NotInitialized),
            }),
    {
        match env.instance.owner {
            Some(owner) => Ok(owner),
            None => Err(RecoveryError::NotInitialized),
        }
    }

    /// The registered guardians.
    pub fn guardians(env: &Invocation) -> (r: Result<Guardians, RecoveryError>)
        ensures
            match env@.instance.guardians {
                Some(list) => r is Ok && r->Ok_0@ == list,
                None => r == Err::<Guardians, RecoveryError>(RecoveryError::NotInitialized),
            },
    {
        match &env.instance.guardians {
            Some(guardians) => Ok(guardians.clone()),
            None => Err(RecoveryError::NotInitialized),
        }
    }

    /// The state of the last recovery request.
    pub fn recovery_status(env: &Invocation) -> (status: RecoveryStatus)
        ensures
            status == (match env@.instance.recovery {
                Some(request) => request.status,
                None => RecoveryStatus::Inactive,
            }),
    {
        match Self::active_recovery(env) {
            Some(request) => request.status,
            None => RecoveryStatus::Inactive,
        }
    }

    /// The linked registry contract, if one was ever linked.
    pub fn registry_id(env: &Invocation) -> (registry_id: Option<Address>)
        ensures
            registry_id == env@.instance.registry_id,
    {
        env.instance.registry_id
    }

    /// The address that has to authorize a call before it runs. There is none
    /// where the call is refused before anyone is asked.
    pub fn authority(env: &Invocation, call: &Call) -> (authority: Option<Address>)
        ensures
            authority == rules::authority(env@.instance, *call),
    {
        match call {
            Call::Initialize { owner, .. } => if env.instance.owner.is_some() {
                None
            } else {
                Some(*owner)
            },
            Call::InitiateRecovery { guardian, .. } => Some(*guardian),
            Call::ExecuteRecovery { guardian } => Some(*guardian),
            Call::SetRegistry { owner, .. } => if env.instance.owner.is_some() {
                Some(*owner)
            } else {
                None
            },
            Call::CancelRecovery => env.instance.owner,
            Call::AddGuardian { .. } => env.instance.owner,
            Call::RemoveGuardian { .. } => env.instance.owner,
        }
    }

    /// Runs a call, provided that the address that has to authorize it did.
    pub fn invoke(env: &mut Invocation, call: Call) -> (outcome: Outcome)
        ensures
            match rules::missing_approval(old(env)@, call) {
                Some(address) => {
                    &&& outcome == Outcome::Unapproved(address)
                    &&& final(env)@ == old(env)@
                },
                None => {
                    &&& outcome == Outcome::Completed(
                        rules::answer(
                            rules::refusal(old(env)@.instance, old(env)@.sequence, call),
                        ),
                    )
                    &&& final(env)@ == rules::after(old(env)@, call)
                },
            },
    {
        if let Some(address) = Self::authority(env, &call) {
            if !env.is_approved(&address) {
                return Outcome::Unapproved(address);
            }
        }
        let result = match call {
            Call::Initialize { owner, guardians } => Self::initialize(env, owner, guardians),
            Call::InitiateRecovery { guardian, new_owner } => Self::initiate_recovery(
                env,
                guardian,
                new_owner,
            ),
            Call::CancelRecovery => Self::cancel_recovery(env),
            Call::ExecuteRecovery { guardian } => Self::execute_recovery(env, guardian),
            Call::AddGuardian { owner, guardian } => Self::add_guardian(env, owner, guardian),
            Call::RemoveGuardian { owner, guardian } => Self::remove_guardian(env, owner, guardian),
            Call::SetRegistry { owner, registry_id } => Self::set_registry(env, owner, registry_id),
        };
        Outcome::Completed(result)
    }

    // Who may call, and what is there.

    /// Refuses where there is no owner to authorize the call.
    fn require_owner(env: &Invocation) -> (r: Result<(), RecoveryError>)
        requires
            env@.cleared_by(env@.instance.owner),
        ensures
            match r {
                Ok(()) => env@.instance.owner matches Some(owner) && env@.approved.contains(owner),
                Err(error) => {
                    &&& env@.instance.owner is None
                    &&& error == RecoveryError::NotInitialized
                },
            },
    {
        match env.instance.owner {
            Some(_) => Ok(()),
            None => Err(RecoveryError::NotInitialized),
        }
    }

    /// Refuses where `guardian` is not a registered guardian.
    fn require_guardian(env: &Invocation, guardian: &Address) -> (r: Result<(), RecoveryError>)
        ensures
            r == rules::answer(rules::guardian_refusal(env@.instance, *guardian)),
    {
        match &env.instance.guardians {
            None => Err(RecoveryError::NotInitialized),
            Some(guardians) => if guardians.contains(guardian) {
                Ok(())
            } else {
                Err(RecoveryError::Unauthorized)
            },
        }
    }

    /// The last recovery request.
    fn active_recovery(env: &Invocation) -> (request: Option<RecoveryRequest>)
        ensures
            request == env@.instance.recovery,
    {
        env.instance.recovery
    }

    /// The pending recovery request.
    fn require_pending(env: &Invocation) -> (r: Result<RecoveryRequest, RecoveryError>)
        ensures
            r == (if rules::pending(env@.instance) {
                Ok::<RecoveryRequest, RecoveryError>(env@.instance.recovery->Some_0)
            } else {
                Err(RecoveryError::NoActiveRecovery)
            }),
    {
        match Self::active_recovery(env) {
            None => Err(RecoveryError::NoActiveRecovery),
            Some(request) => if request.status != RecoveryStatus::Pending {
                Err(RecoveryError::NoActiveRecovery)
            } else {
                Ok(request)
            },
        }
    }

    // What the host is asked to do.

    /// Publishes an event.
    fn emit(env: &mut Invocation, event: Event)
        ensures
            final(env)@ == (InvocationView {
                events: old(env)@.events.push(event),
                ..old(env)@
            }),
    {
        env.events.push(event);
    }

    /// Asks for the extension of the instance's time to live.
    fn extend_ttl(env: &mut Invocation)
        ensures
            final(env)@ == (InvocationView {
                ttl_extensions: old(env)@.ttl_extensions.push(invocation::ttl_extension()),
                ..old(env)@
            }),
    {
        env.ttl_extensions.push(
            TtlExtension { threshold: TTL_THRESHOLD, extend_to: TTL_EXTEND_TO },
        );
    }
}

} // verus!
