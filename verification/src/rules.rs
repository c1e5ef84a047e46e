//! The rules of the contract: who has to authorize a call, when a call is
//! refused, and what an accepted call leaves behind.
use crate::address::Address;
use crate::event::Event;
use crate::guardians;
use crate::guardians::Guardians;
use crate::invocation::{InstanceView, InvocationView};
use crate::types::{DataKey, RecoveryError, RecoveryRequest, RecoveryStatus, MAX_GUARDIANS};
use vstd::prelude::*;

verus! {

/// A call that may change the contract's storage.
pub enum Call {
    Initialize { owner: Address, guardians: Guardians },
    InitiateRecovery { guardian: Address, new_owner: Address },
    CancelRecovery,
    ExecuteRecovery { guardian: Address },
    AddGuardian { owner: Address, guardian: Address },
    RemoveGuardian { owner: Address, guardian: Address },
    SetRegistry { owner: Address, registry_id: Address },
}

/// What a call returns that is refused for the reason given, if any.
pub open spec fn answer(refusal: Option<RecoveryError>) -> Result<(), RecoveryError> {
    match refusal {
        Some(error) => Err(error),
        None => Ok(()),
    }
}

/// What the invocation is after a call that gets the answer given: as it was
/// where the call is refused, `accepted` where it is not.
pub open spec fn left_by(
    before: InvocationView,
    refusal: Option<RecoveryError>,
    accepted: InvocationView,
) -> InvocationView {
    if refusal is Some {
        before
    } else {
        accepted
    }
}

// Who has to authorize a call. `None`: the call is refused before anyone is asked.

/// Setting up: the new owner, unless there is an owner already.
pub open spec fn initialize_authority(instance: InstanceView, owner: Address) -> Option<Address> {
    if instance.owner is Some {
        None
    } else {
        Some(owner)
    }
}

/// Linking a registry: the address that claims to be the owner, once there is one.
pub open spec fn registry_authority(instance: InstanceView, owner: Address) -> Option<Address> {
    if instance.owner is Some {
        Some(owner)
    } else {
        None
    }
}

/// The address whose authorization a call needs.
pub open spec fn authority(instance: InstanceView, call: Call) -> Option<Address> {
    match call {
        Call::Initialize { owner, .. } => initialize_authority(instance, owner),
        Call::InitiateRecovery { guardian, .. } => Some(guardian),
        Call::ExecuteRecovery { guardian } => Some(guardian),
        Call::SetRegistry { owner, .. } => registry_authority(instance, owner),
        Call::CancelRecovery => instance.owner,
        Call::AddGuardian { .. } => instance.owner,
        Call::RemoveGuardian { .. } => instance.owner,
    }
}

// When a call is refused, and why.

/// Whether there is a request that was neither executed nor cancelled.
pub open spec fn pending(instance: InstanceView) -> bool {
    instance.recovery matches Some(request) && request.status == RecoveryStatus::Pending
}

/// Whether there is a pending request that is not expired at ledger `sequence`.
pub open spec fn live(instance: InstanceView, sequence: u32) -> bool {
    pending(instance) && sequence <= instance.recovery->Some_0.expires_at
}

pub open spec fn initialize_refusal(instance: InstanceView, guardians: Seq<Address>) -> Option<
    RecoveryError,
> {
    if instance.owner is Some {
        Some(RecoveryError::AlreadyInitialized)
    } else if guardians.len() > MAX_GUARDIANS {
        Some(RecoveryError::TooManyGuardians)
    } else {
        None
    }
}

/// Why `guardian` may not act as a guardian.
pub open spec fn guardian_refusal(instance: InstanceView, guardian: Address) -> Option<
    RecoveryError,
> {
    match instance.guardians {
        None => Some(RecoveryError::NotInitialized),
        Some(list) => if list.contains(guardian) {
            None
        } else {
            Some(RecoveryError::Unauthorized)
        },
    }
}

pub open spec fn initiate_refusal(
    instance: InstanceView,
    sequence: u32,
    guardian: Address,
) -> Option<RecoveryError> {
    if guardian_refusal(instance, guardian) is Some {
        guardian_refusal(instance, guardian)
    } else if live(instance, sequence) {
        Some(RecoveryError::RecoveryAlreadyPending)
    } else {
        None
    }
}

pub open spec fn cancel_refusal(instance: InstanceView) -> Option<RecoveryError> {
    if instance.owner is None {
        Some(RecoveryError::NotInitialized)
    } else if !pending(instance) {
        Some(RecoveryError::NoActiveRecovery)
    } else {
        None
    }
}

pub open spec fn execute_refusal(
    instance: InstanceView,
    sequence: u32,
    guardian: Address,
) -> Option<RecoveryError> {
    if guardian_refusal(instance, guardian) is Some {
        guardian_refusal(instance, guardian)
    } else if !pending(instance) {
        Some(RecoveryError::NoActiveRecovery)
    } else if instance.recovery->Some_0.locked(sequence) {
        Some(RecoveryError::TimelockNotExpired)
    } else if sequence > instance.recovery->Some_0.expires_at {
        Some(RecoveryError::RecoveryExpired)
    } else {
        None
    }
}

pub open spec fn add_refusal(instance: InstanceView, guardian: Address) -> Option<RecoveryError> {
    if instance.owner is None || instance.guardians is None {
        Some(RecoveryError::NotInitialized)
    } else if instance.guardians->Some_0.contains(guardian) {
        Some(RecoveryError::GuardianAlreadyExists)
    } else if instance.guardians->Some_0.len() >= MAX_GUARDIANS {
        Some(RecoveryError::TooManyGuardians)
    } else {
        None
    }
}

/// A guardian is struck off only where another one remains: otherwise no
/// recovery could ever be initiated again.
pub open spec fn remove_refusal(instance: InstanceView, guardian: Address) -> Option<
    RecoveryError,
> {
    if instance.owner is None || instance.guardians is None {
        Some(RecoveryError::NotInitialized)
    } else if !instance.guardians->Some_0.contains(guardian) {
        Some(RecoveryError::GuardianNotFound)
    } else if guardians::without(instance.guardians->Some_0, guardian).len() == 0 {
        Some(RecoveryError::MinGuardiansRequired)
    } else {
        None
    }
}

/// Only the current owner may link a registry.
pub open spec fn registry_refusal(instance: InstanceView, owner: Address) -> Option<
    RecoveryError,
> {
    match instance.owner {
        None => Some(RecoveryError::NotInitialized),
        Some(current) => if current == owner {
            None
        } else {
            Some(RecoveryError::Unauthorized)
        },
    }
}

/// Why a call is refused.
pub open spec fn refusal(instance: InstanceView, sequence: u32, call: Call) -> Option<
    RecoveryError,
> {
    match call {
        Call::Initialize { guardians, .. } => initialize_refusal(instance, guardians@),
        Call::InitiateRecovery { guardian, .. } => initiate_refusal(instance, sequence, guardian),
        Call::CancelRecovery => cancel_refusal(instance),
        Call::ExecuteRecovery { guardian } => execute_refusal(instance, sequence, guardian),
        Call::AddGuardian { guardian, .. } => add_refusal(instance, guardian),
        Call::RemoveGuardian { guardian, .. } => remove_refusal(instance, guardian),
        Call::SetRegistry { owner, .. } => registry_refusal(instance, owner),
    }
}

// What an accepted call leaves in the storage.

pub open spec fn initialized(
    instance: InstanceView,
    owner: Address,
    guardians: Seq<Address>,
) -> InstanceView {
    InstanceView { owner: Some(owner), guardians: Some(guardians), ..instance }
}

pub open spec fn initiated(
    instance: InstanceView,
    sequence: u32,
    new_owner: Address,
) -> InstanceView {
    InstanceView { recovery: Some(RecoveryRequest::initiated(new_owner, sequence)), ..instance }
}

pub open spec fn cancelled(instance: InstanceView) -> InstanceView {
    InstanceView {
        recovery: Some(instance.recovery->Some_0.moved_to(RecoveryStatus::Cancelled)),
        ..instance
    }
}

pub open spec fn executed(instance: InstanceView) -> InstanceView {
    InstanceView {
        owner: Some(instance.recovery->Some_0.new_owner),
        recovery: Some(instance.recovery->Some_0.moved_to(RecoveryStatus::Executed)),
        ..instance
    }
}

pub open spec fn guardian_added(instance: InstanceView, guardian: Address) -> InstanceView {
    InstanceView { guardians: Some(instance.guardians->Some_0.push(guardian)), ..instance }
}

pub open spec fn guardian_removed(instance: InstanceView, guardian: Address) -> InstanceView {
    InstanceView {
        guardians: Some(guardians::without(instance.guardians->Some_0, guardian)),
        ..instance
    }
}

pub open spec fn registry_linked(instance: InstanceView, registry_id: Address) -> InstanceView {
    InstanceView { registry_id: Some(registry_id), ..instance }
}

/// What an accepted call leaves in the storage.
pub open spec fn effect(instance: InstanceView, sequence: u32, call: Call) -> InstanceView {
    match call {
        Call::Initialize { owner, guardians } => initialized(instance, owner, guardians@),
        Call::InitiateRecovery { new_owner, .. } => initiated(instance, sequence, new_owner),
        Call::CancelRecovery => cancelled(instance),
        Call::ExecuteRecovery { .. } => executed(instance),
        Call::AddGuardian { guardian, .. } => guardian_added(instance, guardian),
        Call::RemoveGuardian { guardian, .. } => guardian_removed(instance, guardian),
        Call::SetRegistry { registry_id, .. } => registry_linked(instance, registry_id),
    }
}

/// The entries that an accepted call writes, in order.
pub open spec fn written(call: Call) -> Seq<DataKey> {
    match call {
        Call::Initialize { .. } => seq![DataKey::Owner, DataKey::Guardians],
        Call::InitiateRecovery { .. } => seq![DataKey::Recovery],
        Call::CancelRecovery => seq![DataKey::Recovery],
        Call::ExecuteRecovery { .. } => seq![DataKey::Owner, DataKey::Recovery],
        Call::AddGuardian { .. } => seq![DataKey::Guardians],
        Call::RemoveGuardian { .. } => seq![DataKey::Guardians],
        Call::SetRegistry { .. } => seq![DataKey::RegistryId],
    }
}

/// The event of an accepted recovery request.
pub open spec fn initiated_event(guardian: Address, request: RecoveryRequest) -> Event {
    Event::RecoveryInitiated {
        guardian,
        new_owner: request.new_owner,
        initiated_at: request.initiated_at,
        executable_at: request.executable_at,
        expires_at: request.expires_at,
    }
}

/// The event that an accepted call publishes.
pub open spec fn event(instance: InstanceView, sequence: u32, call: Call) -> Event {
    match call {
        Call::Initialize { owner, .. } => Event::Initialized { owner },
        Call::InitiateRecovery { guardian, new_owner } => initiated_event(
            guardian,
            RecoveryRequest::initiated(new_owner, sequence),
        ),
        Call::CancelRecovery => Event::RecoveryCancelled,
        Call::ExecuteRecovery { guardian } => Event::RecoveryExecuted {
            guardian,
            new_owner: instance.recovery->Some_0.new_owner,
        },
        Call::AddGuardian { owner, guardian } => Event::GuardianAdded { owner, guardian },
        Call::RemoveGuardian { owner, guardian } => Event::GuardianRemoved { owner, guardian },
        Call::SetRegistry { registry_id, .. } => Event::RegistryLinked { registry_id },
    }
}

/// The address that has to authorize a call and has not done so.
pub open spec fn missing_approval(before: InvocationView, call: Call) -> Option<Address> {
    if before.cleared_by(authority(before.instance, call)) {
        None
    } else {
        authority(before.instance, call)
    }
}

/// What the invocation is after a call that was authorized.
pub open spec fn after(before: InvocationView, call: Call) -> InvocationView {
    left_by(
        before,
        refusal(before.instance, before.sequence, call),
        before.committed(
            effect(before.instance, before.sequence, call),
            written(call),
            event(before.instance, before.sequence, call),
        ),
    )
}

/// What the storage holds after a call: a refused call leaves it as it was.
pub open spec fn step(instance: InstanceView, sequence: u32, call: Call) -> InstanceView {
    if refusal(instance, sequence, call) is Some {
        instance
    } else {
        effect(instance, sequence, call)
    }
}

} // verus!
