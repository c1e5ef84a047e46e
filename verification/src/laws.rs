//! What holds of the contract as a whole.
//!
//! The laws are stated over the rules that the functions of `MuxRecovery`
//! follow: `rules::refusal` says when a call is refused, and `rules::step` what
//! the storage holds after it.
use crate::address::Address;
use crate::event;
use crate::event::Event;
use crate::guardians;
use crate::invocation;
use crate::invocation::{InstanceView, InvocationView};
use crate::rules;
use crate::rules::Call;
use crate::types::{
    DataKey, RecoveryError, RecoveryRequest, RecoveryStatus, MAX_GUARDIANS, RECOVERY_EXPIRY,
    RECOVERY_TIMELOCK,
};
use vstd::prelude::*;

verus! {

// Every state.

/// What holds of the storage at all times: owner and guardians are set
/// together, and before anything else; a stored request was once pending, and
/// its window is that of the ledger at which it was initiated.
pub open spec fn consistent(instance: InstanceView) -> bool {
    &&& instance.owner is Some <==> instance.guardians is Some
    &&& instance.registry_id is Some ==> instance.owner is Some
    &&& instance.recovery matches Some(request) ==> {
        &&& instance.owner is Some
        &&& request.status != RecoveryStatus::Inactive
        &&& request == RecoveryRequest::initiated(
            request.new_owner,
            request.initiated_at,
        ).moved_to(request.status)
    }
}

/// The storage of a new contract is consistent, and every call keeps it so.
pub proof fn law_consistent(instance: InstanceView, sequence: u32, call: Call)
    ensures
        consistent(InstanceView::blank()),
        consistent(instance) ==> consistent(rules::step(instance, sequence, call)),
{
}

/// The timelock of a stored request ends before the request expires.
pub proof fn law_window_is_open(instance: InstanceView)
    requires
        consistent(instance),
        instance.recovery is Some,
    ensures
        instance.recovery->Some_0.initiated_at <= instance.recovery->Some_0.executable_at
            <= instance.recovery->Some_0.expires_at,
{
}

/// A refused call leaves everything as it was. An accepted one leaves in the
/// storage what `rules::step` says, publishes one event and asks once for the
/// extension of the instance's time to live. Neither touches the ledger number
/// or the authorizations.
pub proof fn law_all_or_nothing(before: InvocationView, call: Call)
    ensures
        rules::after(before, call).instance == rules::step(before.instance, before.sequence, call),
        rules::after(before, call).sequence == before.sequence,
        rules::after(before, call).approved == before.approved,
        rules::refusal(before.instance, before.sequence, call) is Some ==> rules::after(
            before,
            call,
        ) == before,
        rules::refusal(before.instance, before.sequence, call) is None ==> ({
            let after = rules::after(before, call);
            &&& after.events.drop_last() == before.events
            &&& after.events.last() == rules::event(before.instance, before.sequence, call)
            &&& after.ttl_extensions.drop_last() == before.ttl_extensions
            &&& after.ttl_extensions.last() == invocation::ttl_extension()
        }),
{
    let event = rules::event(before.instance, before.sequence, call);
    assert(before.events.push(event).drop_last() =~= before.events);
    assert(before.ttl_extensions.push(invocation::ttl_extension()).drop_last()
        =~= before.ttl_extensions);
}

/// The event of an accepted request names the guardian and tells exactly what is
/// stored of the request.
pub proof fn law_request_event_tells_window(
    instance: InstanceView,
    sequence: u32,
    guardian: Address,
    new_owner: Address,
)
    requires
        rules::initiate_refusal(instance, sequence, guardian) is None,
    ensures
        ({
            let call = Call::InitiateRecovery { guardian, new_owner };
            rules::event(instance, sequence, call) == rules::initiated_event(
                guardian,
                rules::step(instance, sequence, call).recovery->Some_0,
            )
        }),
{
}

// Authority.

/// A call that is accepted is one that somebody had to authorize: the current
/// owner, a registered guardian, or, in the beginning, the owner that is being
/// installed.
pub proof fn law_authority(instance: InstanceView, sequence: u32, call: Call)
    requires
        rules::refusal(instance, sequence, call) is None,
    ensures
        rules::authority(instance, call) is Some,
        match call {
            Call::Initialize { owner, .. } => {
                &&& instance.owner is None
                &&& rules::authority(instance, call) == Some(owner)
                &&& rules::step(instance, sequence, call).owner == Some(owner)
            },
            Call::InitiateRecovery { .. } | Call::ExecuteRecovery { .. } => {
                instance.guardians->Some_0.contains(rules::authority(instance, call)->Some_0)
            },
            _ => rules::authority(instance, call) == instance.owner,
        },
{
}

/// A contract is initialized once: afterwards it always has an owner, and
/// setting it up again is refused.
pub proof fn law_initialized_once(
    instance: InstanceView,
    sequence: u32,
    call: Call,
    owner: Address,
    guardians: guardians::Guardians,
)
    ensures
        instance.owner is Some ==> rules::step(instance, sequence, call).owner is Some,
        instance.owner is Some ==> rules::refusal(
            instance,
            sequence,
            Call::Initialize { owner, guardians },
        ) == Some(RecoveryError::AlreadyInitialized),
{
}

/// Ownership moves only by the execution of a pending recovery, called by a
/// registered guardian at a ledger inside the window of the request, and to the
/// address that the request proposed.
pub proof fn law_only_execution_moves_ownership(instance: InstanceView, sequence: u32, call: Call)
    requires
        instance.owner is Some,
        rules::step(instance, sequence, call).owner != instance.owner,
    ensures
        call matches Call::ExecuteRecovery { guardian } && {
            &&& instance.guardians->Some_0.contains(guardian)
            &&& rules::pending(instance)
            &&& instance.recovery->Some_0.window_contains(sequence)
            &&& rules::step(instance, sequence, call).owner == Some(
                instance.recovery->Some_0.new_owner,
            )
        },
{
}

// The life of a request.

/// A live request cannot be replaced: every further request is refused, and a
/// call can only cancel the request or execute it.
pub proof fn law_one_live_request(instance: InstanceView, sequence: u32, call: Call)
    requires
        rules::live(instance, sequence),
    ensures
        call is InitiateRecovery ==> rules::refusal(instance, sequence, call) is Some,
        call matches Call::InitiateRecovery { guardian, .. } ==> (rules::guardian_refusal(
            instance,
            guardian,
        ) is None ==> rules::refusal(instance, sequence, call) == Some(
            RecoveryError::RecoveryAlreadyPending,
        )),
        ({
            let after = rules::step(instance, sequence, call).recovery;
            let request = instance.recovery->Some_0;
            ||| after == Some(request)
            ||| call is CancelRecovery && after == Some(request.moved_to(RecoveryStatus::Cancelled))
            ||| call is ExecuteRecovery && after == Some(request.moved_to(RecoveryStatus::Executed))
        }),
{
}

/// Between the initiation of a recovery at ledger `at` and its execution at
/// ledger `later` lie at least `RECOVERY_TIMELOCK` ledgers, and at most
/// `RECOVERY_EXPIRY`.
pub proof fn law_timelock(
    instance: InstanceView,
    at: u32,
    guardian: Address,
    new_owner: Address,
    later: u32,
    executor: Address,
)
    requires
        rules::initiate_refusal(instance, at, guardian) is None,
        rules::guardian_refusal(instance, executor) is None,
    ensures
        ({
            let pending = rules::initiated(instance, at, new_owner);
            let refusal = rules::execute_refusal(pending, later, executor);
            let early = later < at + RECOVERY_TIMELOCK;
            let late = later > at + RECOVERY_EXPIRY;
            &&& refusal == Some(RecoveryError::TimelockNotExpired) <==> early
            &&& refusal == Some(RecoveryError::RecoveryExpired) <==> late
            &&& refusal is None <==> !early && !late
            &&& refusal is None ==> rules::executed(pending).owner == Some(new_owner)
        }),
{
}

/// A request does not move ownership before it is executed.
pub proof fn law_initiation_keeps_owner(
    instance: InstanceView,
    sequence: u32,
    guardian: Address,
    new_owner: Address,
)
    ensures
        rules::step(
            instance,
            sequence,
            Call::InitiateRecovery { guardian, new_owner },
        ).owner == instance.owner,
{
}

/// The owner can cancel a pending recovery at every ledger. After that it cannot
/// be executed at any ledger, the owner is who it was, and a guardian can ask
/// for another recovery.
pub proof fn law_owner_can_cancel(
    instance: InstanceView,
    now: u32,
    later: u32,
    guardian: Address,
    new_owner: Address,
)
    requires
        instance.owner is Some,
        rules::pending(instance),
        rules::guardian_refusal(instance, guardian) is None,
    ensures
        rules::refusal(instance, now, Call::CancelRecovery) is None,
        ({
            let after = rules::step(instance, now, Call::CancelRecovery);
            &&& after.owner == instance.owner
            &&& rules::execute_refusal(after, later, guardian) == Some(
                RecoveryError::NoActiveRecovery,
            )
            &&& rules::cancel_refusal(after) == Some(RecoveryError::NoActiveRecovery)
            &&& rules::refusal(
                after,
                later,
                Call::InitiateRecovery { guardian, new_owner },
            ) is None
        }),
{
}

/// An executed recovery is done with: the proposed owner owns the account, the
/// request can be neither executed again nor cancelled, and a guardian can ask
/// for another recovery.
pub proof fn law_execution_is_final(
    instance: InstanceView,
    now: u32,
    executor: Address,
    later: u32,
    guardian: Address,
    new_owner: Address,
)
    requires
        instance.owner is Some,
        rules::execute_refusal(instance, now, executor) is None,
        rules::guardian_refusal(instance, guardian) is None,
    ensures
        ({
            let after = rules::step(instance, now, Call::ExecuteRecovery { guardian: executor });
            &&& after.owner == Some(instance.recovery->Some_0.new_owner)
            &&& rules::execute_refusal(after, later, guardian) == Some(
                RecoveryError::NoActiveRecovery,
            )
            &&& rules::cancel_refusal(after) == Some(RecoveryError::NoActiveRecovery)
            &&& rules::refusal(
                after,
                later,
                Call::InitiateRecovery { guardian, new_owner },
            ) is None
        }),
{
}

/// A request that is expired stays so: from then on it cannot be executed, and
/// it does not stand in the way of a new one, which takes its place.
pub proof fn law_expired_request_is_stale(
    instance: InstanceView,
    now: u32,
    later: u32,
    guardian: Address,
    new_owner: Address,
)
    requires
        consistent(instance),
        rules::pending(instance),
        instance.recovery->Some_0.expires_at < now <= later,
        rules::guardian_refusal(instance, guardian) is None,
    ensures
        rules::execute_refusal(instance, later, guardian) == Some(RecoveryError::RecoveryExpired),
        rules::refusal(instance, later, Call::InitiateRecovery { guardian, new_owner }) is None,
        rules::step(
            instance,
            later,
            Call::InitiateRecovery { guardian, new_owner },
        ).recovery == Some(RecoveryRequest::initiated(new_owner, later)),
{
}

// The guardians.

/// The guardian list of a contract that has one.
pub open spec fn list(instance: InstanceView) -> Seq<Address> {
    instance.guardians->Some_0
}

/// Whether there are no more guardians than there may be.
pub open spec fn capped(instance: InstanceView) -> bool {
    instance.guardians is Some ==> list(instance).len() <= MAX_GUARDIANS
}

/// A list within the cap stays within it. An accepted set-up or addition always
/// ends within it, and where it would not, it is refused.
pub proof fn law_guardian_cap(instance: InstanceView, sequence: u32, call: Call)
    ensures
        capped(instance) ==> capped(rules::step(instance, sequence, call)),
        (call is Initialize || call is AddGuardian) && rules::refusal(instance, sequence, call)
            is None ==> capped(rules::step(instance, sequence, call)),
        call matches Call::Initialize { guardians, .. } ==> (instance.owner is None
            && guardians@.len() > MAX_GUARDIANS ==> rules::refusal(instance, sequence, call)
            == Some(RecoveryError::TooManyGuardians)),
{
    broadcast use Seq::lemma_filter_len;

}

/// A list that names nobody twice goes on naming nobody twice.
pub proof fn law_guardians_stay_distinct(instance: InstanceView, sequence: u32, call: Call)
    requires
        consistent(instance),
        instance.guardians is Some,
        list(instance).no_duplicates(),
    ensures
        list(rules::step(instance, sequence, call)).no_duplicates(),
{
    if let Call::RemoveGuardian { guardian, .. } = call {
        guardians::lemma_without_distinct(list(instance), guardian);
    }
}

/// A contract that has a guardian never loses the last one.
pub proof fn law_a_guardian_remains(instance: InstanceView, sequence: u32, call: Call)
    requires
        consistent(instance),
        instance.guardians is Some,
        list(instance).len() > 0,
    ensures
        list(rules::step(instance, sequence, call)).len() > 0,
{
}

/// Whoever was struck off is no guardian any more, and is refused at every
/// ledger; the standing of everybody else is unchanged.
pub proof fn law_removed_guardian_is_out(
    instance: InstanceView,
    owner: Address,
    guardian: Address,
    sequence: u32,
    later: u32,
    new_owner: Address,
    other: Address,
)
    requires
        rules::remove_refusal(instance, guardian) is None,
        other != guardian,
    ensures
        ({
            let after = rules::step(instance, sequence, Call::RemoveGuardian { owner, guardian });
            &&& !list(after).contains(guardian)
            &&& rules::refusal(after, later, Call::InitiateRecovery { guardian, new_owner })
                == Some(RecoveryError::Unauthorized)
            &&& rules::refusal(after, later, Call::ExecuteRecovery { guardian }) == Some(
                RecoveryError::Unauthorized,
            )
            &&& list(after).contains(other) <==> list(instance).contains(other)
        }),
{
    guardians::lemma_without_members(list(instance), guardian, guardian);
    guardians::lemma_without_members(list(instance), guardian, other);
}

/// Whoever was added is a guardian, and can ask for a recovery at every ledger
/// at which no request is live; the standing of everybody else is unchanged.
pub proof fn law_added_guardian_is_in(
    instance: InstanceView,
    owner: Address,
    guardian: Address,
    sequence: u32,
    later: u32,
    new_owner: Address,
    other: Address,
)
    requires
        rules::add_refusal(instance, guardian) is None,
        other != guardian,
    ensures
        ({
            let after = rules::step(instance, sequence, Call::AddGuardian { owner, guardian });
            &&& list(after).contains(guardian)
            &&& rules::guardian_refusal(after, guardian) is None
            &&& !rules::live(instance, later) ==> rules::refusal(
                after,
                later,
                Call::InitiateRecovery { guardian, new_owner },
            ) is None
            &&& list(after).contains(other) <==> list(instance).contains(other)
        }),
{
    guardians::lemma_push_members(list(instance), guardian, guardian);
    guardians::lemma_push_members(list(instance), guardian, other);
}

/// Removing a guardian that was just added undoes the addition.
pub proof fn law_remove_undoes_add(
    instance: InstanceView,
    owner: Address,
    guardian: Address,
    sequence: u32,
    later: u32,
)
    requires
        rules::add_refusal(instance, guardian) is None,
        list(instance).len() > 0,
    ensures
        ({
            let added = rules::step(instance, sequence, Call::AddGuardian { owner, guardian });
            &&& rules::remove_refusal(added, guardian) is None
            &&& rules::step(added, later, Call::RemoveGuardian { owner, guardian }) == instance
        }),
{
    let before = list(instance);
    assert(before.push(guardian)[before.len() as int] == guardian);
    assert(guardians::without(before.push(guardian), guardian) == before) by {
        reveal(Seq::filter);
        assert(before.push(guardian).drop_last() =~= before);
        guardians::lemma_without_stranger(before, guardian);
    }
}

// The registry link.

/// The link is what the current owner last set. Setting it changes nothing else,
/// and nothing else changes it.
pub proof fn law_registry(instance: InstanceView, sequence: u32, call: Call)
    ensures
        rules::step(instance, sequence, call).registry_id == (match call {
            Call::SetRegistry { owner, registry_id } => if instance.owner == Some(owner) {
                Some(registry_id)
            } else {
                instance.registry_id
            },
            _ => instance.registry_id,
        }),
        call is SetRegistry ==> ({
            let after = rules::step(instance, sequence, call);
            &&& after.owner == instance.owner
            &&& after.guardians == instance.guardians
            &&& after.recovery == instance.recovery
        }),
{
}

// What the host is told.

/// The entries that an accepted call reports as written are there, and all
/// others are as they were: whoever stores the reported ones stores the whole
/// outcome.
pub proof fn law_writes_tell_all(instance: InstanceView, sequence: u32, call: Call, key: DataKey)
    requires
        rules::refusal(instance, sequence, call) is None,
    ensures
        rules::written(call).contains(key) ==> rules::step(instance, sequence, call).has(key),
        !rules::written(call).contains(key) ==> rules::step(instance, sequence, call).agrees(
            instance,
            key,
        ),
{
    let written = rules::written(call);
    assert(written.len() > 0 ==> written.contains(written[0]));
    assert(written.len() > 1 ==> written.contains(written[1]));
}

/// Errors are told apart by their numbers, which run from 1 to 11.
pub proof fn law_error_codes(a: RecoveryError, b: RecoveryError)
    ensures
        1 <= a.code_spec() <= 11,
        a.code_spec() == b.code_spec() ==> a == b,
{
}

/// Whether two events tell of the same kind of action.
pub open spec fn same_action(a: Event, b: Event) -> bool {
    match a {
        Event::Initialized { .. } => b is Initialized,
        Event::RecoveryInitiated { .. } => b is RecoveryInitiated,
        Event::RecoveryCancelled => b is RecoveryCancelled,
        Event::RecoveryExecuted { .. } => b is RecoveryExecuted,
        Event::GuardianAdded { .. } => b is GuardianAdded,
        Event::GuardianRemoved { .. } => b is GuardianRemoved,
        Event::RegistryLinked { .. } => b is RegistryLinked,
    }
}

/// Every topic is short enough for a short symbol, at most 8 characters, and
/// made of lower-case letters and underscores; and events of different actions
/// are published under different topics.
pub proof fn law_topics(a: Event, b: Event)
    ensures
        event::tag_spec().len() <= 8,
        a.action_spec().len() <= 8,
        forall|i: int|
            0 <= i < event::tag_spec().len() ==> 'a' <= event::tag_spec()[i] <= 'z'
                || event::tag_spec()[i] == '_',
        forall|i: int|
            0 <= i < a.action_spec().len() ==> 'a' <= a.action_spec()[i] <= 'z'
                || a.action_spec()[i] == '_',
        a.action_spec() == b.action_spec() <==> same_action(a, b),
{
    reveal_strlit("mux_recv");
    reveal_strlit("init");
    reveal_strlit("rec_init");
    reveal_strlit("rec_cncl");
    reveal_strlit("rec_exec");
    reveal_strlit("grd_add");
    reveal_strlit("grd_rm");
    reveal_strlit("reg_link");
    if a.action_spec() == b.action_spec() {
        // The names of 8 characters differ in the fifth.
        assert("rec_init"@[4] == 'i' && "rec_cncl"@[4] == 'c');
        assert("rec_exec"@[4] == 'e' && "reg_link"@[4] == 'l');
        assert(a.action_spec().len() == b.action_spec().len());
        assert(a.action_spec()[4] == b.action_spec()[4]);
    }
}

} // verus!
