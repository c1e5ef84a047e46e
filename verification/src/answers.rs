//! What each call answers and what it leaves behind, entry by entry.
//!
//! The laws speak of the storage itself, of the arguments of a call and of
//! ledger numbers alone: which calls are accepted, which error each refusal
//! gives, and what every entry holds afterwards.
use crate::address::Address;
use crate::contract::{MuxRecovery, Outcome};
use crate::event;
use crate::event::Event;
use crate::guardians;
use crate::guardians::Guardians;
use crate::invocation::{Instance, InstanceView, Invocation, InvocationView, TtlExtension};
use crate::rules;
use crate::rules::Call;
use crate::types::{
    DataKey, RecoveryError, RecoveryRequest, RecoveryStatus, MAX_GUARDIANS, RECOVERY_EXPIRY,
    RECOVERY_TIMELOCK, TTL_EXTEND_TO, TTL_THRESHOLD,
};
use vstd::prelude::*;

verus! {

// Setting up.

/// Setting up is accepted exactly where there is no owner yet and the list has no
/// more than 16 entries. It stores the owner and the very list that were handed
/// in, and nothing else.
pub proof fn law_initialize(
    instance: InstanceView,
    sequence: u32,
    owner: Address,
    guardians: Guardians,
)
    ensures
        ({
            let call = Call::Initialize { owner, guardians };
            let refusal = rules::refusal(instance, sequence, call);
            let after = rules::step(instance, sequence, call);
            &&& refusal == Some(RecoveryError::AlreadyInitialized) <==> instance.owner is Some
            &&& refusal == Some(RecoveryError::TooManyGuardians) <==> instance.owner is None
                && guardians@.len() > 16
            &&& refusal is None <==> instance.owner is None && guardians@.len() <= 16
            &&& refusal is Some ==> after == instance
            &&& refusal is None ==> {
                &&& after.owner == Some(owner)
                &&& after.guardians == Some(guardians@)
                &&& after.recovery == instance.recovery
                &&& after.registry_id == instance.registry_id
            }
        }),
{
}

/// Everybody on the list that a contract was set up with can ask for a recovery,
/// at whatever position of the list and at every ledger, and nobody else can.
pub proof fn law_set_up_guardians_can_act(
    sequence: u32,
    owner: Address,
    guardians: Guardians,
    i: int,
    stranger: Address,
    later: u32,
    new_owner: Address,
)
    requires
        guardians@.len() <= 16,
        0 <= i < guardians@.len(),
        !guardians@.contains(stranger),
    ensures
        ({
            let after = rules::step(
                InstanceView::blank(),
                sequence,
                Call::Initialize { owner, guardians },
            );
            &&& rules::refusal(
                after,
                later,
                Call::InitiateRecovery { guardian: guardians@[i], new_owner },
            ) is None
            &&& rules::refusal(
                after,
                later,
                Call::InitiateRecovery { guardian: stranger, new_owner },
            ) == Some(RecoveryError::Unauthorized)
        }),
{
}

// Recovery.

/// An address stands as a guardian exactly where it is on the guardian list, at
/// whatever position of it.
pub proof fn law_standing(instance: InstanceView, address: Address)
    ensures
        ({
            let refusal = rules::guardian_refusal(instance, address);
            match instance.guardians {
                None => refusal == Some(RecoveryError::NotInitialized),
                Some(list) => if exists|i: int| 0 <= i < list.len() && list[i] == address {
                    refusal is None
                } else {
                    refusal == Some(RecoveryError::Unauthorized)
                },
            }
        }),
{
}

/// A request is accepted exactly where the caller is on the guardian list and no
/// request is pending that has not yet expired. It stores the request, counted
/// from the current ledger, and nothing else.
pub proof fn law_initiate(
    instance: InstanceView,
    sequence: u32,
    guardian: Address,
    new_owner: Address,
)
    ensures
        ({
            let call = Call::InitiateRecovery { guardian, new_owner };
            let refusal = rules::refusal(instance, sequence, call);
            let after = rules::step(instance, sequence, call);
            let registered = instance.guardians matches Some(list) && list.contains(guardian);
            let blocked = instance.recovery matches Some(request) && request.status
                == RecoveryStatus::Pending && sequence <= request.expires_at;
            &&& refusal == Some(RecoveryError::NotInitialized) <==> instance.guardians is None
            &&& refusal == Some(RecoveryError::Unauthorized) <==> instance.guardians is Some
                && !registered
            &&& refusal == Some(RecoveryError::RecoveryAlreadyPending) <==> registered && blocked
            &&& refusal is None <==> registered && !blocked
            &&& refusal is Some ==> after == instance
            &&& refusal is None ==> {
                &&& after.recovery matches Some(request) && {
                    &&& request.new_owner == new_owner
                    &&& request.initiated_at == sequence
                    &&& request.executable_at == vstd::math::min(
                        sequence + 17_280,
                        u32::MAX as int,
                    )
                    &&& request.expires_at == vstd::math::min(sequence + 120_960, u32::MAX as int)
                    &&& request.status == RecoveryStatus::Pending
                }
                &&& after.owner == instance.owner
                &&& after.guardians == instance.guardians
                &&& after.registry_id == instance.registry_id
            }
        }),
{
}

/// A pending request that has not expired is safe from further requests: whoever
/// on the guardian list makes one is refused for that reason, and the stored
/// request stays.
pub proof fn law_pending_request_is_not_replaced(
    instance: InstanceView,
    request: RecoveryRequest,
    sequence: u32,
    guardian: Address,
    new_owner: Address,
)
    requires
        instance.recovery == Some(request),
        request.status == RecoveryStatus::Pending,
        sequence <= request.expires_at,
        instance.guardians matches Some(list) && list.contains(guardian),
    ensures
        ({
            let call = Call::InitiateRecovery { guardian, new_owner };
            &&& rules::refusal(instance, sequence, call) == Some(
                RecoveryError::RecoveryAlreadyPending,
            )
            &&& rules::step(instance, sequence, call).recovery == Some(request)
        }),
{
}

/// Cancelling is accepted exactly where there is an owner and a pending request,
/// at whatever ledger. It marks the request, and changes nothing else.
pub proof fn law_cancel(instance: InstanceView, sequence: u32)
    ensures
        ({
            let refusal = rules::refusal(instance, sequence, Call::CancelRecovery);
            let after = rules::step(instance, sequence, Call::CancelRecovery);
            let pending = instance.recovery matches Some(request) && request.status
                == RecoveryStatus::Pending;
            &&& refusal == Some(RecoveryError::NotInitialized) <==> instance.owner is None
            &&& refusal == Some(RecoveryError::NoActiveRecovery) <==> instance.owner is Some
                && !pending
            &&& refusal is None <==> instance.owner is Some && pending
            &&& refusal is Some ==> after == instance
            &&& refusal is None ==> {
                &&& after.recovery == Some(
                    RecoveryRequest {
                        status: RecoveryStatus::Cancelled,
                        ..instance.recovery->Some_0
                    },
                )
                &&& after.owner == instance.owner
                &&& after.guardians == instance.guardians
                &&& after.registry_id == instance.registry_id
            }
        }),
{
}

/// An execution is accepted exactly where the caller is on the guardian list and
/// a request is pending whose timelock is over and which has not expired. It
/// makes the proposed owner the owner and marks the request, and changes nothing
/// else.
pub proof fn law_execute(instance: InstanceView, sequence: u32, guardian: Address)
    ensures
        ({
            let call = Call::ExecuteRecovery { guardian };
            let refusal = rules::refusal(instance, sequence, call);
            let after = rules::step(instance, sequence, call);
            let registered = instance.guardians matches Some(list) && list.contains(guardian);
            let pending = instance.recovery matches Some(request) && request.status
                == RecoveryStatus::Pending;
            let early = instance.recovery matches Some(request) && (sequence
                < request.executable_at || sequence < request.initiated_at + 17_280);
            let late = instance.recovery matches Some(request) && sequence > request.expires_at;
            &&& refusal == Some(RecoveryError::NotInitialized) <==> instance.guardians is None
            &&& refusal == Some(RecoveryError::Unauthorized) <==> instance.guardians is Some
                && !registered
            &&& refusal == Some(RecoveryError::NoActiveRecovery) <==> registered && !pending
            &&& refusal == Some(RecoveryError::TimelockNotExpired) <==> registered && pending
                && early
            &&& refusal == Some(RecoveryError::RecoveryExpired) <==> registered && pending
                && !early && late
            &&& refusal is None <==> registered && pending && !early && !late
            &&& refusal is Some ==> after == instance
            &&& refusal is None ==> {
                &&& after.owner == Some(instance.recovery->Some_0.new_owner)
                &&& after.recovery == Some(
                    RecoveryRequest {
                        status: RecoveryStatus::Executed,
                        ..instance.recovery->Some_0
                    },
                )
                &&& after.guardians == instance.guardians
                &&& after.registry_id == instance.registry_id
            }
        }),
{
}

/// To stand as a guardian is to be on the list, at whatever position: each
/// guardian can ask for a recovery where no request is pending, and can execute
/// a pending one in its window, whoever asked for it.
pub proof fn law_every_guardian_counts(
    instance: InstanceView,
    list: Seq<Address>,
    i: int,
    sequence: u32,
    new_owner: Address,
)
    requires
        instance.guardians == Some(list),
        0 <= i < list.len(),
    ensures
        (instance.recovery matches Some(request) ==> request.status != RecoveryStatus::Pending)
            ==> rules::refusal(
            instance,
            sequence,
            Call::InitiateRecovery { guardian: list[i], new_owner },
        ) is None,
        (instance.recovery matches Some(request) && request.status == RecoveryStatus::Pending
            && request.executable_at <= sequence <= request.expires_at && request.initiated_at
            + 17_280 <= sequence) ==> rules::refusal(
            instance,
            sequence,
            Call::ExecuteRecovery { guardian: list[i] },
        ) is None,
{
}

/// What a guardian asks for, any guardian of the same list gets in the end: a
/// request at ledger `at` can be executed at every ledger from 17,280 to 120,960
/// ledgers later, and then the account belongs to whom the request named.
pub proof fn law_request_can_be_executed(
    instance: InstanceView,
    list: Seq<Address>,
    i: int,
    j: int,
    at: u32,
    later: u32,
    new_owner: Address,
)
    requires
        instance.guardians == Some(list),
        instance.recovery is None,
        0 <= i < list.len(),
        0 <= j < list.len(),
        at + 17_280 <= later <= at + 120_960,
    ensures
        ({
            let requested = rules::step(
                instance,
                at,
                Call::InitiateRecovery { guardian: list[i], new_owner },
            );
            let execution = Call::ExecuteRecovery { guardian: list[j] };
            &&& requested.owner == instance.owner
            &&& rules::refusal(requested, later, execution) is None
            &&& rules::step(requested, later, execution).owner == Some(new_owner)
        }),
{
}

// The guardian list.

/// An addition is accepted exactly where there is an owner and a list of fewer
/// than 16 entries that the address is not on, whatever became of any recovery.
/// It appends the address, and changes nothing else.
pub proof fn law_add(instance: InstanceView, sequence: u32, owner: Address, guardian: Address)
    ensures
        ({
            let call = Call::AddGuardian { owner, guardian };
            let refusal = rules::refusal(instance, sequence, call);
            let after = rules::step(instance, sequence, call);
            let ready = instance.owner is Some && instance.guardians is Some;
            let list = instance.guardians->Some_0;
            &&& refusal == Some(RecoveryError::NotInitialized) <==> !ready
            &&& refusal == Some(RecoveryError::GuardianAlreadyExists) <==> ready && list.contains(
                guardian,
            )
            &&& refusal == Some(RecoveryError::TooManyGuardians) <==> ready && !list.contains(
                guardian,
            ) && list.len() >= 16
            &&& refusal is None <==> ready && !list.contains(guardian) && list.len() < 16
            &&& refusal is Some ==> after == instance
            &&& refusal is None ==> {
                &&& after.guardians == Some(list.push(guardian))
                &&& after.owner == instance.owner
                &&& after.recovery == instance.recovery
                &&& after.registry_id == instance.registry_id
            }
        }),
{
}

/// A removal is accepted exactly where there is an owner and a list that the
/// address is on, and somebody else too, whatever became of any recovery. It
/// leaves everybody else on the list, in order, and changes nothing else.
pub proof fn law_remove(instance: InstanceView, sequence: u32, owner: Address, guardian: Address)
    ensures
        ({
            let call = Call::RemoveGuardian { owner, guardian };
            let refusal = rules::refusal(instance, sequence, call);
            let after = rules::step(instance, sequence, call);
            let ready = instance.owner is Some && instance.guardians is Some;
            let list = instance.guardians->Some_0;
            let others = exists|i: int| 0 <= i < list.len() && list[i] != guardian;
            &&& refusal == Some(RecoveryError::NotInitialized) <==> !ready
            &&& refusal == Some(RecoveryError::GuardianNotFound) <==> ready && !list.contains(
                guardian,
            )
            &&& refusal == Some(RecoveryError::MinGuardiansRequired) <==> ready && list.contains(
                guardian,
            ) && !others
            &&& refusal is None <==> ready && list.contains(guardian) && others
            &&& refusal is Some ==> after == instance
            &&& refusal is None ==> {
                &&& after.guardians == Some(list.filter(|a: Address| a != guardian))
                &&& after.owner == instance.owner
                &&& after.recovery == instance.recovery
                &&& after.registry_id == instance.registry_id
            }
        }),
{
    let list = instance.guardians->Some_0;
    let rest = guardians::without(list, guardian);
    law_without(list, guardian);
    if rest.len() > 0 {
        guardians::lemma_without_members(list, guardian, rest[0]);
        assert(rest.contains(rest[0]));
        let i = choose|i: int| 0 <= i < list.len() && list[i] == rest[0];
        assert(list[i] != guardian);
    }
    if exists|i: int| 0 <= i < list.len() && list[i] != guardian {
        let i = choose|i: int| 0 <= i < list.len() && list[i] != guardian;
        guardians::lemma_without_members(list, guardian, list[i]);
        assert(list.contains(list[i]));
    }
}

/// A list without an address: nothing is left of an empty list; of a longer one
/// what is left of its front, and its last entry unless that is the address.
pub proof fn law_without(list: Seq<Address>, gone: Address)
    ensures
        guardians::without(list, gone) == list.filter(|a: Address| a != gone),
        guardians::without(Seq::<Address>::empty(), gone) == Seq::<Address>::empty(),
        forall|last: Address| #[trigger]
            guardians::without(list.push(last), gone) == (if last == gone {
                guardians::without(list, gone)
            } else {
                guardians::without(list, gone).push(last)
            }),
    decreases list.len(),
{
    reveal(Seq::filter);
    if list.len() > 0 {
        law_without(list.drop_last(), gone);
    }
    assert forall|last: Address| #[trigger]
        guardians::without(list.push(last), gone) == (if last == gone {
            guardians::without(list, gone)
        } else {
            guardians::without(list, gone).push(last)
        }) by {
        assert(list.push(last).drop_last() =~= list);
    }
}

/// What a guardian list tells of itself: its length, who stands where on it, who
/// is on it at all, and what it is without an address.
pub proof fn law_list_reads(
    list: &Guardians,
    i: u32,
    address: &Address,
    n: u32,
    entry: Option<Address>,
    found: bool,
    rest: Guardians,
)
    requires
        call_ensures(Guardians::len, (list,), n),
        call_ensures(Guardians::get, (list, i), entry),
        call_ensures(Guardians::contains, (list, address), found),
        call_ensures(Guardians::without, (list, address), rest),
    ensures
        n == list@.len(),
        entry is Some <==> i < n,
        entry is Some ==> entry == Some(list@[i as int]),
        found <==> exists|k: int| 0 <= k < list@.len() && list@[k] == *address,
        rest@ == list@.filter(|a: Address| a != *address),
        forall|a: Address| #[trigger] rest@.contains(a) <==> list@.contains(a) && a != *address,
{
    law_without(list@, *address);
    assert forall|a: Address| #[trigger] rest@.contains(a) <==> list@.contains(a) && a
        != *address by {
        guardians::lemma_without_members(list@, *address, a);
    }
}

/// Appending to a guardian list leaves who was there where they were.
pub proof fn law_list_push_back(list: &mut Guardians, address: Address)
    requires
        call_ensures(Guardians::push_back, (list, address), ()),
    ensures
        final(list)@.len() == old(list)@.len() + 1,
        final(list)@.last() == address,
        forall|i: int| 0 <= i < old(list)@.len() ==> final(list)@[i] == old(list)@[i],
{
}

// The registry link.

/// Linking is accepted exactly where the address given is the owner. It stores
/// the link, and changes nothing else.
pub proof fn law_set_registry(
    instance: InstanceView,
    sequence: u32,
    owner: Address,
    registry_id: Address,
)
    ensures
        ({
            let call = Call::SetRegistry { owner, registry_id };
            let refusal = rules::refusal(instance, sequence, call);
            let after = rules::step(instance, sequence, call);
            &&& refusal == Some(RecoveryError::NotInitialized) <==> instance.owner is None
            &&& refusal == Some(RecoveryError::Unauthorized) <==> instance.owner is Some
                && instance.owner != Some(owner)
            &&& refusal is None <==> instance.owner == Some(owner)
            &&& refusal is Some ==> after == instance
            &&& refusal is None ==> {
                &&& after.registry_id == Some(registry_id)
                &&& after.owner == instance.owner
                &&& after.guardians == instance.guardians
                &&& after.recovery == instance.recovery
            }
        }),
{
}

// What an answer depends on.

/// The concerns of the contract do not get in each other's way. Recoveries do
/// not bear on the guardian list, on the registry link or on setting up, nor does
/// the registry link on anything, nor the owner on what guardians may do, nor the
/// guardians on whether a recovery can be cancelled.
pub proof fn law_independent(a: InstanceView, b: InstanceView, now: u32, later: u32, call: Call)
    ensures
        a.owner == b.owner && a.guardians == b.guardians && (call is Initialize
            || call is AddGuardian || call is RemoveGuardian || call is SetRegistry)
            ==> rules::refusal(a, now, call) == rules::refusal(b, later, call),
        a.guardians == b.guardians && a.recovery == b.recovery && (call is InitiateRecovery
            || call is ExecuteRecovery) ==> rules::refusal(a, now, call) == rules::refusal(
            b,
            now,
            call,
        ),
        a.owner == b.owner && a.recovery == b.recovery && call is CancelRecovery
            ==> rules::refusal(a, now, call) == rules::refusal(b, later, call),
{
}

// What a reader is told.

/// Reading gives what is stored: the owner and the guardians once there are any,
/// the state of the stored request or `Inactive` where there is none, and the
/// registry link.
pub proof fn law_reads(
    env: &Invocation,
    owner: Result<Address, RecoveryError>,
    guardians: Result<Guardians, RecoveryError>,
    status: RecoveryStatus,
    registry_id: Option<Address>,
)
    requires
        call_ensures(MuxRecovery::owner, (env,), owner),
        call_ensures(MuxRecovery::guardians, (env,), guardians),
        call_ensures(MuxRecovery::recovery_status, (env,), status),
        call_ensures(MuxRecovery::registry_id, (env,), registry_id),
    ensures
        env.instance.owner matches Some(address) ==> owner == Ok::<Address, RecoveryError>(address),
        env.instance.owner is None ==> owner == Err::<Address, RecoveryError>(
            RecoveryError::NotInitialized,
        ),
        env.instance.guardians matches Some(list) ==> guardians is Ok && guardians->Ok_0@ == list@,
        env.instance.guardians is None ==> guardians == Err::<Guardians, RecoveryError>(
            RecoveryError::NotInitialized,
        ),
        env.instance.recovery matches Some(request) ==> status == request.status,
        env.instance.recovery is None ==> status == RecoveryStatus::Inactive,
        registry_id == env.instance.registry_id,
{
}

// Authority.

/// Whose authorization each call needs: that of the owner who is to be installed,
/// of the guardian who is named, of the address that claims to be the owner, or
/// of the current owner. Setting up needs none where there is an owner, and the
/// calls of an owner need none where there is no owner: they are refused.
pub proof fn law_who_authorizes(
    instance: InstanceView,
    x: Address,
    y: Address,
    guardians: Guardians,
)
    ensures
        ({
            let set_up = Call::Initialize { owner: x, guardians };
            let link = Call::SetRegistry { owner: x, registry_id: y };
            let add = Call::AddGuardian { owner: x, guardian: y };
            let remove = Call::RemoveGuardian { owner: x, guardian: y };
            &&& instance.owner is None ==> rules::authority(instance, set_up) == Some(x)
            &&& instance.owner is Some ==> rules::authority(instance, set_up) is None
            &&& rules::authority(
                instance,
                Call::InitiateRecovery { guardian: x, new_owner: y },
            ) == Some(x)
            &&& rules::authority(instance, Call::ExecuteRecovery { guardian: x }) == Some(x)
            &&& instance.owner is None ==> rules::authority(instance, link) is None
            &&& instance.owner is Some ==> rules::authority(instance, link) == Some(x)
            &&& rules::authority(instance, Call::CancelRecovery) == instance.owner
            &&& rules::authority(instance, add) == instance.owner
            &&& rules::authority(instance, remove) == instance.owner
        }),
{
}

/// A call is held up exactly where it needs the authorization of an address and
/// that address is not among those who gave theirs.
pub proof fn law_approval(before: InvocationView, call: Call)
    ensures
        match rules::authority(before.instance, call) {
            None => rules::missing_approval(before, call) is None,
            Some(address) => rules::missing_approval(before, call) == (if before.approved.contains(
                address,
            ) {
                None::<Address>
            } else {
                Some(address)
            }),
        },
        before.cleared_by(None),
        forall|address: Address| #[trigger]
            before.cleared_by(Some(address)) <==> before.approved.contains(address),
{
}

/// Nobody has authorized a fresh invocation, and nothing has happened in it.
pub proof fn law_fresh_invocation(sequence: u32, instance: Instance, env: Invocation)
    requires
        call_ensures(Invocation::new, (sequence, instance), env),
    ensures
        env.sequence == sequence,
        env.instance@ == instance@,
        forall|address: Address| !(#[trigger] env.approved@.contains(address)),
        env.writes@.len() == 0,
        env.events@.len() == 0,
        env.ttl_extensions@.len() == 0,
{
    assert(env@.approved.len() == 0);
}

/// An authorization counts for the address that gave it and for nobody else, and
/// changes nothing else about the invocation.
pub proof fn law_approve(env: &mut Invocation, address: Address, other: Address)
    requires
        call_ensures(Invocation::approve, (env, address), ()),
    ensures
        final(env)@.approved.contains(other) <==> old(env)@.approved.contains(other) || other
            == address,
        final(env)@ == (InvocationView { approved: final(env)@.approved, ..old(env)@ }),
{
    guardians::lemma_push_members(old(env)@.approved, address, other);
}

// What the host gets.

/// What a call returns, and what it leaves of the invocation: all of it as it was
/// where the call is refused; else the new storage, the keys of the entries
/// written, one more event, and one more request to keep the instance alive for
/// 518,400 ledgers once fewer than 17,280 are left.
pub proof fn law_invocation(before: InvocationView, call: Call)
    ensures
        ({
            let refusal = rules::refusal(before.instance, before.sequence, call);
            let after = rules::after(before, call);
            &&& refusal is None ==> rules::answer(refusal) == Ok::<(), RecoveryError>(())
            &&& refusal matches Some(error) ==> rules::answer(refusal) == Err::<(), RecoveryError>(
                error,
            )
            &&& refusal is Some ==> after == before
            &&& refusal is None ==> {
                &&& after.sequence == before.sequence
                &&& after.approved == before.approved
                &&& after.instance == rules::step(before.instance, before.sequence, call)
                &&& after.writes == before.writes + rules::written(call)
                &&& after.events == before.events.push(
                    rules::event(before.instance, before.sequence, call),
                )
                &&& after.ttl_extensions == before.ttl_extensions.push(
                    TtlExtension { threshold: 17_280, extend_to: 518_400 },
                )
            }
        }),
{
}

/// Each function of the contract answers and leaves what the rules say of the
/// call that it stands for, whether it is reached by `MuxRecovery::invoke` or
/// directly.
pub proof fn law_entry_points(
    env: &mut Invocation,
    call: Call,
    result: Result<(), RecoveryError>,
)
    requires
        match call {
            Call::Initialize { owner, guardians } => call_ensures(
                MuxRecovery::initialize,
                (env, owner, guardians),
                result,
            ),
            Call::InitiateRecovery { guardian, new_owner } => call_ensures(
                MuxRecovery::initiate_recovery,
                (env, guardian, new_owner),
                result,
            ),
            Call::CancelRecovery => call_ensures(MuxRecovery::cancel_recovery, (env,), result),
            Call::ExecuteRecovery { guardian } => call_ensures(
                MuxRecovery::execute_recovery,
                (env, guardian),
                result,
            ),
            Call::AddGuardian { owner, guardian } => call_ensures(
                MuxRecovery::add_guardian,
                (env, owner, guardian),
                result,
            ),
            Call::RemoveGuardian { owner, guardian } => call_ensures(
                MuxRecovery::remove_guardian,
                (env, owner, guardian),
                result,
            ),
            Call::SetRegistry { owner, registry_id } => call_ensures(
                MuxRecovery::set_registry,
                (env, owner, registry_id),
                result,
            ),
        },
    ensures
        match rules::refusal(old(env)@.instance, old(env)@.sequence, call) {
            None => result == Ok::<(), RecoveryError>(()),
            Some(error) => result == Err::<(), RecoveryError>(error),
        },
        final(env)@ == rules::after(old(env)@, call),
{
}

/// A call that comes in by `MuxRecovery::invoke` is turned away, and nothing
/// changes, exactly where it needs the authorization of an address that did not
/// give it. Else it runs.
pub proof fn law_invoke(env: &mut Invocation, call: Call, outcome: Outcome)
    requires
        call_ensures(MuxRecovery::invoke, (env, call), outcome),
    ensures
        ({
            let authority = rules::authority(old(env)@.instance, call);
            let refusal = rules::refusal(old(env)@.instance, old(env)@.sequence, call);
            if authority is Some && !old(env)@.approved.contains(authority->Some_0) {
                &&& outcome == Outcome::Unapproved(authority->Some_0)
                &&& final(env)@ == old(env)@
            } else {
                &&& refusal is None ==> outcome == Outcome::Completed(Ok(()))
                &&& refusal matches Some(error) ==> outcome == Outcome::Completed(Err(error))
                &&& final(env)@ == rules::after(old(env)@, call)
            }
        }),
{
}

/// Which entries each call writes, and in which order.
pub proof fn law_written(call: Call)
    ensures
        call is Initialize ==> rules::written(call) == seq![DataKey::Owner, DataKey::Guardians],
        call is InitiateRecovery ==> rules::written(call) == seq![DataKey::Recovery],
        call is CancelRecovery ==> rules::written(call) == seq![DataKey::Recovery],
        call is ExecuteRecovery ==> rules::written(call) == seq![DataKey::Owner, DataKey::Recovery],
        call is AddGuardian ==> rules::written(call) == seq![DataKey::Guardians],
        call is RemoveGuardian ==> rules::written(call) == seq![DataKey::Guardians],
        call is SetRegistry ==> rules::written(call) == seq![DataKey::RegistryId],
{
}

/// What each accepted call publishes: the addresses that it was called with, and
/// of a request and an execution also what is stored of the request afterwards.
pub proof fn law_published(instance: InstanceView, sequence: u32, call: Call)
    requires
        rules::refusal(instance, sequence, call) is None,
    ensures
        ({
            let published = rules::event(instance, sequence, call);
            let stored = rules::step(instance, sequence, call).recovery->Some_0;
            match call {
                Call::Initialize { owner, .. } => published == (Event::Initialized { owner }),
                Call::InitiateRecovery { guardian, new_owner } => published == (
                Event::RecoveryInitiated {
                    guardian,
                    new_owner,
                    initiated_at: stored.initiated_at,
                    executable_at: stored.executable_at,
                    expires_at: stored.expires_at,
                }),
                Call::CancelRecovery => published == Event::RecoveryCancelled,
                Call::ExecuteRecovery { guardian } => published == (Event::RecoveryExecuted {
                    guardian,
                    new_owner: stored.new_owner,
                }),
                Call::AddGuardian { owner, guardian } => published == (Event::GuardianAdded {
                    owner,
                    guardian,
                }),
                Call::RemoveGuardian { owner, guardian } => published == (Event::GuardianRemoved {
                    owner,
                    guardian,
                }),
                Call::SetRegistry { registry_id, .. } => published == (Event::RegistryLinked {
                    registry_id,
                }),
            }
        }),
{
}

/// Under which topics each event goes out, whatever its payload.
pub proof fn law_topic_names(event: Event)
    ensures
        event::tag_spec() == "mux_recv"@,
        event is Initialized ==> event.action_spec() == "init"@,
        event is RecoveryInitiated ==> event.action_spec() == "rec_init"@,
        event is RecoveryCancelled ==> event.action_spec() == "rec_cncl"@,
        event is RecoveryExecuted ==> event.action_spec() == "rec_exec"@,
        event is GuardianAdded ==> event.action_spec() == "grd_add"@,
        event is GuardianRemoved ==> event.action_spec() == "grd_rm"@,
        event is RegistryLinked ==> event.action_spec() == "reg_link"@,
{
}

/// The number of each error.
pub proof fn law_error_numbers()
    ensures
        RecoveryError::NotInitialized.code_spec() == 1,
        RecoveryError::AlreadyInitialized.code_spec() == 2,
        RecoveryError::Unauthorized.code_spec() == 3,
        RecoveryError::RecoveryAlreadyPending.code_spec() == 4,
        RecoveryError::NoActiveRecovery.code_spec() == 5,
        RecoveryError::TimelockNotExpired.code_spec() == 6,
        RecoveryError::TooManyGuardians.code_spec() == 7,
        RecoveryError::GuardianAlreadyExists.code_spec() == 8,
        RecoveryError::GuardianNotFound.code_spec() == 9,
        RecoveryError::MinGuardiansRequired.code_spec() == 10,
        RecoveryError::RecoveryExpired.code_spec() == 11,
{
}

// The values.

/// The limits of the contract.
pub proof fn law_limits()
    ensures
        RECOVERY_TIMELOCK == 17_280,
        RECOVERY_EXPIRY == 120_960,
        MAX_GUARDIANS == 16,
        TTL_THRESHOLD == 17_280,
        TTL_EXTEND_TO == 518_400,
{
}

/// The timelock of a request runs until the ledger that the request names, and
/// for the full 17,280 ledgers; the request can be executed from then until it
/// expires.
pub proof fn law_locked(request: RecoveryRequest, sequence: u32)
    ensures
        request.locked(sequence) <==> sequence < request.executable_at || sequence
            - request.initiated_at < 17_280,
        request.window_contains(sequence) <==> request.executable_at <= sequence
            <= request.expires_at && sequence - request.initiated_at >= 17_280,
{
}

/// The value of an invocation leaves nothing out.
pub proof fn law_nothing_left_out(invocation: Invocation, instance: Instance)
    ensures
        invocation@.sequence == invocation.sequence,
        invocation@.approved == invocation.approved@,
        invocation@.instance == invocation.instance@,
        invocation@.writes == invocation.writes@,
        invocation@.events == invocation.events@,
        invocation@.ttl_extensions == invocation.ttl_extensions@,
        instance@.owner == instance.owner,
        instance.guardians is None <==> instance@.guardians is None,
        instance.guardians matches Some(guardians) ==> instance@.guardians == Some(guardians@),
        instance@.recovery == instance.recovery,
        instance@.registry_id == instance.registry_id,
{
}

/// A contract that was never set up has no entries.
pub proof fn law_blank(key: DataKey)
    ensures
        InstanceView::blank().owner is None,
        InstanceView::blank().guardians is None,
        InstanceView::blank().recovery is None,
        InstanceView::blank().registry_id is None,
        !InstanceView::blank().has(key),
{
}

/// An item holds all of the address that it stands for.
pub proof fn law_item(address: Address)
    ensures
        address.item_spec() == (address.kind, address.high, address.low),
        Address::of_item(address.item_spec()) == address,
{
}

} // verus!
