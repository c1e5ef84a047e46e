//! What holds of every history of a contract, from its deployment on.
use crate::address::Address;
use crate::invocation::InstanceView;
use crate::laws;
use crate::rules;
use crate::rules::Call;
use crate::types::{
    RecoveryRequest, RecoveryStatus, MAX_GUARDIANS, RECOVERY_EXPIRY, RECOVERY_TIMELOCK,
};
use vstd::prelude::*;

verus! {

/// What the storage of a new contract holds after the authorized calls of
/// `history`, first to last, each with the ledger at which it was made.
pub open spec fn run(history: Seq<(u32, Call)>) -> InstanceView
    decreases history.len(),
{
    if history.len() == 0 {
        InstanceView::blank()
    } else {
        rules::step(run(history.drop_last()), history.last().0, history.last().1)
    }
}

/// What the storage holds just before call `i`.
pub open spec fn before(history: Seq<(u32, Call)>, i: int) -> InstanceView {
    run(history.take(i))
}

/// Whether call `i` was accepted.
pub open spec fn accepted(history: Seq<(u32, Call)>, i: int) -> bool {
    rules::refusal(before(history, i), history[i].0, history[i].1) is None
}

/// Whether call `i` was the accepted request, by somebody who was a guardian
/// then, for the recovery of the account to `new_owner`.
pub open spec fn requested(history: Seq<(u32, Call)>, i: int, new_owner: Address) -> bool {
    &&& accepted(history, i)
    &&& history[i].1 matches Call::InitiateRecovery { guardian, new_owner: proposed }
    &&& proposed == new_owner
    &&& laws::list(before(history, i)).contains(guardian)
}

/// Whether no call after `i` and before `j` requested, cancelled or executed a
/// recovery.
pub open spec fn undisturbed(history: Seq<(u32, Call)>, i: int, j: int) -> bool {
    forall|k: int|
        i < k < j && #[trigger] accepted(history, k) ==> !(history[k].1 is InitiateRecovery
            || history[k].1 is CancelRecovery || history[k].1 is ExecuteRecovery)
}

/// Whether call `i` requested the recovery that is pending after `history`.
pub open spec fn origin(history: Seq<(u32, Call)>, i: int) -> bool {
    &&& 0 <= i < history.len()
    &&& run(history).recovery matches Some(request)
    &&& request == RecoveryRequest::initiated(request.new_owner, history[i].0)
    &&& requested(history, i, request.new_owner)
    &&& undisturbed(history, i, history.len() as int)
}

/// Whatever was called, the storage is consistent.
pub proof fn law_always_consistent(history: Seq<(u32, Call)>)
    ensures
        laws::consistent(run(history)),
    decreases history.len(),
{
    if history.len() > 0 {
        law_always_consistent(history.drop_last());
        laws::law_consistent(run(history.drop_last()), history.last().0, history.last().1);
    }
}

/// A stored request was once pending, and its timelock and its expiry are counted
/// from the ledger at which it was initiated, up to the last ledger there can be.
pub proof fn law_stored_request(history: Seq<(u32, Call)>)
    ensures
        run(history).recovery matches Some(request) ==> {
            &&& request.executable_at == vstd::math::min(
                request.initiated_at + RECOVERY_TIMELOCK,
                u32::MAX as int,
            )
            &&& request.expires_at == vstd::math::min(
                request.initiated_at + RECOVERY_EXPIRY,
                u32::MAX as int,
            )
            &&& request.initiated_at <= request.executable_at <= request.expires_at
            &&& request.status != RecoveryStatus::Inactive
        },
{
    law_always_consistent(history);
}

/// Whatever was called, there are no more guardians than there may be.
pub proof fn law_always_capped(history: Seq<(u32, Call)>)
    ensures
        run(history).guardians matches Some(list) ==> list.len() <= MAX_GUARDIANS,
    decreases history.len(),
{
    if history.len() > 0 {
        law_always_capped(history.drop_last());
        laws::law_guardian_cap(run(history.drop_last()), history.last().0, history.last().1);
    }
}

/// What was accepted does not depend on what came later.
proof fn lemma_prefix(history: Seq<(u32, Call)>, n: int, k: int)
    requires
        0 <= k < n <= history.len(),
    ensures
        history.take(n)[k] == history[k],
        before(history.take(n), k) == before(history, k),
        accepted(history.take(n), k) == accepted(history, k),
{
    assert(history.take(n).take(k) =~= history.take(k));
}

/// A recovery that is pending after a call other than a request was pending
/// before it, and the call neither cancelled nor executed it.
proof fn lemma_still_pending(instance: InstanceView, sequence: u32, call: Call)
    requires
        rules::pending(rules::step(instance, sequence, call)),
        rules::refusal(instance, sequence, call) is None ==> !(call is InitiateRecovery),
    ensures
        rules::pending(instance),
        rules::step(instance, sequence, call).recovery == instance.recovery,
        rules::refusal(instance, sequence, call) is None ==> !(call is CancelRecovery
            || call is ExecuteRecovery),
{
}

/// A pending recovery was requested by a guardian and was left alone since.
pub proof fn law_pending_was_requested(history: Seq<(u32, Call)>)
    requires
        rules::pending(run(history)),
    ensures
        exists|i: int| origin(history, i),
    decreases history.len(),
{
    let n = history.len() as int;
    let earlier = history.take(n - 1);
    let (sequence, call) = history.last();
    assert(history.drop_last() =~= earlier);
    if call is InitiateRecovery && accepted(history, n - 1) {
        assert(origin(history, n - 1));
    } else {
        lemma_still_pending(run(earlier), sequence, call);
        law_pending_was_requested(earlier);
        let i = choose|i: int| origin(earlier, i);
        lemma_prefix(history, n - 1, i);
        assert(undisturbed(history, i, n)) by {
            assert forall|k: int| i < k < n && #[trigger] accepted(history, k) implies !(
            history[k].1 is InitiateRecovery || history[k].1 is CancelRecovery
                || history[k].1 is ExecuteRecovery) by {
                if k < n - 1 {
                    lemma_prefix(history, n - 1, k);
                }
            }
        }
        assert(origin(history, i));
    }
}

/// Ownership is never transferred out of the blue. Every execution of a recovery
/// goes back to a request for the very owner that it installs: a guardian made
/// the request, nobody cancelled or replaced it in between, and between the two
/// lie at least `RECOVERY_TIMELOCK` ledgers and at most `RECOVERY_EXPIRY`.
pub proof fn law_execution_was_announced(history: Seq<(u32, Call)>, j: int)
    requires
        0 <= j < history.len(),
        history[j].1 is ExecuteRecovery,
        accepted(history, j),
    ensures
        before(history, j + 1).owner is Some,
        exists|i: int|
            {
                &&& 0 <= i < j
                &&& #[trigger] requested(history, i, before(history, j + 1).owner->Some_0)
                &&& undisturbed(history, i, j)
                &&& history[i].0 + RECOVERY_TIMELOCK <= history[j].0
                &&& history[j].0 <= history[i].0 + RECOVERY_EXPIRY
            },
{
    let earlier = history.take(j);
    law_pending_was_requested(earlier);
    let i = choose|i: int| origin(earlier, i);
    lemma_prefix(history, j, i);
    assert(history.take(j + 1).drop_last() =~= earlier);
    assert(undisturbed(history, i, j)) by {
        assert forall|k: int| i < k < j && #[trigger] accepted(history, k) implies !(
        history[k].1 is InitiateRecovery || history[k].1 is CancelRecovery
            || history[k].1 is ExecuteRecovery) by {
            lemma_prefix(history, j, k);
        }
    }
    assert(requested(history, i, before(history, j + 1).owner->Some_0));
}

/// The owner that the latest accepted request proposed, if there was one.
pub open spec fn latest_proposed(history: Seq<(u32, Call)>) -> Option<Address>
    decreases history.len(),
{
    if history.len() == 0 {
        None
    } else if history.last().1 is InitiateRecovery && accepted(history, history.len() - 1) {
        Some(history.last().1->InitiateRecovery_new_owner)
    } else {
        latest_proposed(history.drop_last())
    }
}

/// Who owns the account by the accepted calls of a history: nobody at first,
/// then the owner that the contract was set up for, and with each execution the
/// owner that the latest request before it proposed.
pub open spec fn rightful_owner(history: Seq<(u32, Call)>) -> Option<Address>
    decreases history.len(),
{
    if history.len() == 0 {
        None
    } else if !accepted(history, history.len() - 1) {
        rightful_owner(history.drop_last())
    } else {
        match history.last().1 {
            Call::Initialize { owner, .. } => Some(owner),
            Call::ExecuteRecovery { .. } => latest_proposed(history.drop_last()),
            _ => rightful_owner(history.drop_last()),
        }
    }
}

/// The stored request is for the owner that the latest accepted request proposed.
pub proof fn law_latest_request_is_stored(history: Seq<(u32, Call)>)
    ensures
        latest_proposed(history) == (match run(history).recovery {
            Some(request) => Some(request.new_owner),
            None => None,
        }),
    decreases history.len(),
{
    if history.len() > 0 {
        assert(history.take(history.len() - 1) =~= history.drop_last());
        law_latest_request_is_stored(history.drop_last());
    }
}

/// A request is stored exactly when one was once accepted.
pub proof fn law_request_is_stored_once_accepted(history: Seq<(u32, Call)>)
    ensures
        run(history).recovery is None <==> forall|i: int|
            0 <= i < history.len() && #[trigger] accepted(history, i) ==> !(
            history[i].1 is InitiateRecovery),
    decreases history.len(),
{
    let n = history.len() as int;
    if n > 0 {
        let earlier = history.take(n - 1);
        assert(history.drop_last() =~= earlier);
        law_request_is_stored_once_accepted(earlier);
        assert forall|i: int| 0 <= i < n - 1 implies accepted(earlier, i) == #[trigger] accepted(
            history,
            i,
        ) && earlier[i] == history[i] by {
            lemma_prefix(history, n - 1, i);
        }
        if run(history).recovery is None {
            assert(run(earlier).recovery is None);
            assert(!(history[n - 1].1 is InitiateRecovery && accepted(history, n - 1)));
        } else if run(earlier).recovery is Some {
            let i = choose|i: int|
                0 <= i < n - 1 && accepted(earlier, i) && earlier[i].1 is InitiateRecovery;
            assert(accepted(history, i) && history[i].1 is InitiateRecovery);
        } else {
            assert(accepted(history, n - 1) && history[n - 1].1 is InitiateRecovery);
        }
    }
}

/// The owner is the rightful one, whatever was called.
pub proof fn law_owner_is_rightful(history: Seq<(u32, Call)>)
    ensures
        run(history).owner == rightful_owner(history),
    decreases history.len(),
{
    if history.len() > 0 {
        assert(history.take(history.len() - 1) =~= history.drop_last());
        law_owner_is_rightful(history.drop_last());
        law_latest_request_is_stored(history.drop_last());
    }
}

/// The owner is who the contract was set up for, until a recovery is executed:
/// the owner after a history without executions is the one named by the call
/// that set up the contract.
pub proof fn law_owner_stays_without_execution(history: Seq<(u32, Call)>, i: int)
    requires
        0 <= i < history.len(),
        history[i].1 is Initialize,
        accepted(history, i),
        forall|j: int|
            i < j < history.len() && #[trigger] accepted(history, j)
                ==> !(history[j].1 is ExecuteRecovery),
    ensures
        run(history).owner == Some(history[i].1->Initialize_owner),
    decreases history.len(),
{
    let n = history.len() as int;
    let earlier = history.take(n - 1);
    assert(history.drop_last() =~= earlier);
    if i < n - 1 {
        assert forall|j: int| i < j < n - 1 && #[trigger] accepted(earlier, j) implies !(
        earlier[j].1 is ExecuteRecovery) by {
            lemma_prefix(history, n - 1, j);
        }
        lemma_prefix(history, n - 1, i);
        law_owner_stays_without_execution(earlier, i);
        assert(accepted(history, n - 1) ==> !(history[n - 1].1 is ExecuteRecovery));
    }
}

} // verus!
