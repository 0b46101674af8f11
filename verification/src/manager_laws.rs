//! What holds of every state a [`crate::manager::GestureManagerState`] reaches.
use vstd::prelude::*;

use crate::capture_plan::{CaptureSessionMode, PlanModel, PublishedModel};
use crate::dispatch::{DispatchContext, InputModel};
use crate::manager::{
    CompletionAction, ManageEvent, ManageReaction, ManagerModel, Moment, ReconcileAction,
    SessionFailure, SessionModel,
};
use crate::session::SessionName;

verus! {

/// A session that has been asked to stop stays as it is until it completes: no plan change revives
/// or redirects it.
pub proof fn law_stopping_session_is_frozen(session: SessionModel, wanted: Option<PlanModel>)
    requires
        session.stopping,
    ensures
        session.action(wanted) == ReconcileAction::Unchanged,
        session.reconciled(wanted) == session,
{
}

/// Reconciling twice with the same plan asks for nothing the second time.
pub proof fn law_reconciling_settles(session: SessionModel, wanted: Option<PlanModel>)
    ensures
        session.reconciled(wanted).action(wanted) == ReconcileAction::Unchanged,
        session.reconciled(wanted).reconciled(wanted) == session.reconciled(wanted),
{
}

/// Following a new dispatch plan keeps the incarnation: its input and its completion are still
/// its own.
pub proof fn law_redirected_session_keeps_its_epoch(
    session: SessionModel,
    wanted: Option<PlanModel>,
    id: SessionName,
)
    ensures
        session.reconciled(wanted).id.epoch == session.id.epoch,
        session.reconciled(wanted).owns(id) == session.owns(id),
{
}

/// A completion or input of another incarnation is never taken for the tracked session's.
pub proof fn law_stale_incarnation_is_ignored(
    state: ManagerModel,
    key: Seq<char>,
    session: SessionName,
)
    requires
        state.sessions.dom().contains(key),
        state.sessions[key].id.epoch != session.epoch,
    ensures
        !state.completes(key, session),
        !state.admits(key, session),
{
}

/// No session starts for a device that has one, that has an unfinished restore, or whose touchpad
/// is blocked as planned.
pub proof fn law_nothing_starts_in_the_way(
    state: ManagerModel,
    plan: PlanModel,
    now_ms: u64,
    lease: bool,
)
    requires
        state.is_taken(plan),
    ensures
        state.considered(plan, now_ms, lease) == (state, None::<SessionName>),
{
}

/// Whether every tracked session has an epoch before the next one, and no two share one.
pub open spec fn epochs_are_distinct(state: ManagerModel) -> bool {
    &&& forall|key: Seq<char>| #[trigger]
        state.sessions.dom().contains(key) ==> state.sessions[key].id.epoch < state.next_epoch
    &&& forall|a: Seq<char>, b: Seq<char>|
        #![trigger state.sessions.dom().contains(a), state.sessions.dom().contains(b)]
        state.sessions.dom().contains(a) && state.sessions.dom().contains(b) && a != b
            ==> state.sessions[a].id.epoch != state.sessions[b].id.epoch
}

/// Every session starts under an epoch that no tracked session has, until the epochs run out.
pub proof fn law_started_session_is_a_new_incarnation(
    state: ManagerModel,
    plan: PlanModel,
    now_ms: u64,
    lease: bool,
)
    requires
        epochs_are_distinct(state),
        state.next_epoch < u64::MAX,
    ensures
        epochs_are_distinct(state.considered(plan, now_ms, lease).0),
        state.considered(plan, now_ms, lease).1 matches Some(id) ==> forall|key: Seq<char>|
            #[trigger]
            state.sessions.dom().contains(key) ==> !state.sessions[key].owns(id),
{
    let next = state.considered(plan, now_ms, lease).0;
    assert forall|key: Seq<char>| #[trigger]
        next.sessions.dom().contains(key) implies next.sessions[key].id.epoch < next.next_epoch by {
        if key != plan.target.key {
            assert(state.sessions.dom().contains(key));
        }
    }
    assert forall|a: Seq<char>, b: Seq<char>|
        next.sessions.dom().contains(a) && next.sessions.dom().contains(b) && a != b implies
        next.sessions[a].id.epoch != next.sessions[b].id.epoch by {
        if a != plan.target.key {
            assert(state.sessions.dom().contains(a));
        }
        if b != plan.target.key {
            assert(state.sessions.dom().contains(b));
        }
    }
}

/// Every wanted plan that the receiver can be had for ends up with a session, unless a restore, a
/// block or a restart delay stands in the way.
pub proof fn law_wanted_plans_are_served(
    state: ManagerModel,
    plans: Seq<PlanModel>,
    now_ms: u64,
    leases: Seq<bool>,
    i: int,
)
    requires
        0 <= i < plans.len(),
        crate::manager::lease_at(leases, i),
    ensures
        ({
            let after = state.considered_all(plans, now_ms, leases).0;
            after.is_taken(plans[i]) || after.is_delayed(plans[i].target.key, now_ms)
        }),
    decreases plans.len(),
{
    if i < plans.len() - 1 {
        law_wanted_plans_are_served(state, plans.drop_last(), now_ms, leases, i);
        assert(plans.drop_last()[i] == plans[i]);
    }
}

/// An empty wanted set, such as an exclusive request makes, stops every session.
pub proof fn law_nothing_wanted_stops_everything(
    state: ManagerModel,
    keys: Seq<Seq<char>>,
    key: Seq<char>,
)
    requires
        crate::manager::lists_exactly(keys, state.sessions.dom()),
        state.sessions.dom().contains(key),
    ensures
        ({
            let next = state.reconciled_all(keys, Seq::empty()).0;
            next.sessions.dom().contains(key) && next.sessions[key].stopping
        }),
{
    assert(keys.contains(key));
    lemma_listed_sessions_stop(state, keys, key);
}

proof fn lemma_listed_sessions_stop(state: ManagerModel, keys: Seq<Seq<char>>, key: Seq<char>)
    requires
        keys.contains(key),
    ensures
        ({
            let next = state.reconciled_all(keys, Seq::empty()).0;
            next.sessions.dom().contains(key) && next.sessions[key].stopping
        }),
    decreases keys.len(),
{
    let rest = keys.drop_last();
    if keys.last() != key {
        let i = choose|i: int| 0 <= i < keys.len() && keys[i] == key;
        assert(rest[i] == key);
        lemma_listed_sessions_stop(state, rest, key);
    }
}

/// A shutdown stops every session and leaves nothing to restart.
pub proof fn law_shutdown_stops_everything(
    state: ManagerModel,
    keys: Seq<Seq<char>>,
    key: Seq<char>,
)
    requires
        crate::manager::lists_exactly(keys, state.sessions.dom()),
        state.sessions.dom().contains(key),
    ensures
        ({
            let next = state.shut_down(keys).0;
            &&& next.restart == Map::<Seq<char>, u64>::empty()
            &&& next.sessions.dom().contains(key)
            &&& next.sessions[key].stopping
        }),
{
    assert(keys.contains(key));
    lemma_shutdown_stops_listed(ManagerModel { restart: Map::empty(), ..state }, keys, key);
    lemma_shutdown_keeps_restarts(ManagerModel { restart: Map::empty(), ..state }, keys);
}

proof fn lemma_shutdown_stops_listed(state: ManagerModel, keys: Seq<Seq<char>>, key: Seq<char>)
    requires
        keys.contains(key),
    ensures
        state.stopped_all(keys).0.sessions.dom().contains(key),
        state.stopped_all(keys).0.sessions[key].stopping,
    decreases keys.len(),
{
    let rest = keys.drop_last();
    if keys.last() != key {
        let i = choose|i: int| 0 <= i < keys.len() && keys[i] == key;
        assert(rest[i] == key);
        lemma_shutdown_stops_listed(state, rest, key);
    }
}

proof fn lemma_shutdown_keeps_restarts(state: ManagerModel, keys: Seq<Seq<char>>)
    ensures
        state.stopped_all(keys).0.restart == state.restart,
    decreases keys.len(),
{
    if keys.len() > 0 {
        lemma_shutdown_keeps_restarts(state, keys.drop_last());
    }
}

/// A raw-mode conflict blocks the touchpad: the same plan starts nothing, and stays blocked, until
/// its target changes.
pub proof fn law_conflict_blocks_until_the_plan_changes(
    state: ManagerModel,
    plan: PlanModel,
    failure: SessionFailure,
    restore_pending: bool,
    now_ms: u64,
    wanted: Seq<PlanModel>,
)
    requires
        failure is RawModeConflict,
        state.sessions.dom().contains(plan.target.key),
        state.sessions[plan.target.key].target == plan.target,
    ensures
        ({
            let after = state.completed(plan.target.key, restore_pending, failure, now_ms);
            &&& after.is_taken(plan)
            &&& wanted.contains(plan) ==> after.blocked_kept(wanted).dom().contains(plan.target.key)
            &&& (forall|i: int|
                0 <= i < wanted.len() ==> (#[trigger] wanted[i]).target != plan.target)
                ==> !after.blocked_kept(wanted).dom().contains(plan.target.key)
        }),
{
    let after = state.completed(plan.target.key, restore_pending, failure, now_ms);
    if wanted.contains(plan) {
        let i = choose|i: int| 0 <= i < wanted.len() && wanted[i] == plan;
        assert(wanted[i].target.key == plan.target.key);
        assert(after.still_blocked(plan.target.key, wanted));
    }
}

/// A session that ends unexpectedly starts again, but only after the retry delay.
pub proof fn law_unexpected_end_delays_the_restart(
    state: ManagerModel,
    plan: PlanModel,
    now_ms: u64,
    later_ms: u64,
)
    requires
        state.sessions.dom().contains(plan.target.key),
        !state.sessions[plan.target.key].stopping,
        !state.pending.dom().contains(plan.target.key),
        !state.blocked.dom().contains(plan.target.key),
    ensures
        ({
            let after = state.completed(
                plan.target.key,
                false,
                SessionFailure::Other,
                now_ms,
            );
            let started = after.considered(plan, later_ms, true).1;
            &&& later_ms < crate::manager::after_delay(now_ms) ==> started is None
            &&& later_ms >= crate::manager::after_delay(now_ms) ==> started is Some
        }),
{
}

/// A recovery that has done its work, a conflict and a session that was asked to stop are not
/// restarted by delay.
pub proof fn law_deliberate_ends_are_not_restarted(
    state: ManagerModel,
    key: Seq<char>,
    failure: SessionFailure,
    restore_pending: bool,
    now_ms: u64,
)
    requires
        state.sessions.dom().contains(key),
        state.sessions[key].stopping || failure is RawModeConflict || (failure
            == SessionFailure::Clean && state.sessions[key].target.arming.mode
            == CaptureSessionMode::TouchpadRecovery),
    ensures
        state.completed(key, restore_pending, failure, now_ms).restart == state.restart,
{
}

/// A device with an unfinished restore is not captured again before the restore is done.
pub proof fn law_restore_comes_before_recapture(
    state: ManagerModel,
    plan: PlanModel,
    failure: SessionFailure,
    now_ms: u64,
    later_ms: u64,
)
    requires
        state.sessions.dom().contains(plan.target.key),
    ensures
        state.completed(plan.target.key, true, failure, now_ms).considered(
            plan,
            later_ms,
            true,
        ).1 is None,
{
}

/// A running session stops where its device is not wanted any more, or is wanted in another way; it
/// follows a plan that differs only in where its input goes, under that plan's configuration key;
/// and it goes on as it is under the plan it has.
pub proof fn law_running_session_follows_its_plan(session: SessionModel, plan: PlanModel)
    requires
        !session.stopping,
    ensures
        session.action(None) is Stop,
        session.reconciled(None) == (SessionModel { stopping: true, ..session }),
        plan.target != session.target ==> session.action(Some(plan)) is Stop
            && session.reconciled(Some(plan)) == (SessionModel { stopping: true, ..session }),
        plan.target == session.target && plan.dispatch != session.dispatch ==> {
            let after = session.reconciled(Some(plan));
            &&& session.action(Some(plan)) is DispatchChanged
            &&& after.dispatch == plan.dispatch
            &&& after.target == session.target
            &&& after.id.device_key == plan.dispatch.config_key
            &&& after.id.epoch == session.id.epoch
            &&& !after.stopping
        },
        plan.target == session.target && plan.dispatch == session.dispatch ==> session.action(
            Some(plan),
        ) is Unchanged && session.reconciled(Some(plan)) == session,
{
}

/// A session is known by its epoch. Its completion was unexpected exactly where it was not asked to
/// stop.
pub proof fn law_sessions_are_known_by_their_epoch(session: SessionModel, id: SessionName)
    ensures
        session.id.epoch == id.epoch ==> session.owns(id) && session.completion(id)
            == (CompletionAction::Remove { unexpected: !session.stopping }),
        session.id.epoch != id.epoch ==> !session.owns(id) && session.completion(id)
            == CompletionAction::Ignore,
{
}

/// Something is tried again after one second, and at the end of time at the latest.
pub proof fn law_retries_come_a_second_later(now_ms: u64)
    ensures
        now_ms + 1_000 <= u64::MAX ==> crate::manager::after_delay(now_ms) == now_ms + 1_000,
        now_ms + 1_000 > u64::MAX ==> crate::manager::after_delay(now_ms) == u64::MAX,
{
}

/// Following a new plan cancels what is retained for the session's input, under the id it had;
/// nothing else does. A session of another device stays as it is.
pub proof fn law_redirecting_cancels_retained_input(
    state: ManagerModel,
    key: Seq<char>,
    wanted: Option<PlanModel>,
    other: Seq<char>,
)
    requires
        state.sessions.contains_key(key),
    ensures
        ({
            let session = state.sessions[key];
            let (after, change) = state.reconciled_one(key, wanted);
            &&& change.key == key
            &&& change.session == session.id
            &&& change.action == session.action(wanted)
            &&& after.sessions[key] == session.reconciled(wanted)
            &&& session.action(wanted) is DispatchChanged ==> change.commands
                == state.dispatcher.cancel_commands(session.id) && after.dispatcher
                == state.dispatcher.without(session.id)
            &&& !(session.action(wanted) is DispatchChanged) ==> change.commands.len() == 0
                && after.dispatcher == state.dispatcher
            &&& other != key && state.sessions.contains_key(other) ==> after.sessions[other]
                == state.sessions[other]
            &&& after.pending == state.pending && after.restart == state.restart && after.blocked
                == state.blocked && after.next_epoch == state.next_epoch
        }),
{
}

/// A wanted plan that nothing stands in the way of starts a session where the receiver can be had:
/// under the plan's configuration key and the next epoch, with the plan's own target and dispatch,
/// and with no delay left. Where the receiver cannot be had it waits for a second.
pub proof fn law_free_plan_starts_a_session(
    state: ManagerModel,
    plan: PlanModel,
    now_ms: u64,
)
    requires
        !state.sessions.contains_key(plan.target.key),
        !state.pending.contains_key(plan.target.key),
        !state.blocked.contains_key(plan.target.key),
        state.restart.contains_key(plan.target.key) ==> state.restart[plan.target.key] <= now_ms,
        now_ms + 1_000 <= u64::MAX,
        state.next_epoch < u64::MAX,
    ensures
        ({
            let key = plan.target.key;
            let (started, id) = state.considered(plan, now_ms, true);
            let (waiting, none) = state.considered(plan, now_ms, false);
            &&& id == Some(
                SessionName { device_key: plan.dispatch.config_key, epoch: state.next_epoch },
            )
            &&& started.sessions.contains_key(key)
            &&& started.sessions[key].id == id->0
            &&& started.sessions[key].target == plan.target
            &&& started.sessions[key].dispatch == plan.dispatch
            &&& !started.sessions[key].stopping
            &&& !started.restart.contains_key(key)
            &&& started.next_epoch == state.next_epoch + 1
            &&& started.dispatcher == state.dispatcher
            &&& none is None
            &&& waiting.sessions == state.sessions
            &&& waiting.restart.contains_key(key) && waiting.restart[key] == now_ms + 1_000
            &&& waiting.next_epoch == state.next_epoch
        }),
{
}

/// A plan waits exactly while its device has a session, an unfinished restore or a touchpad blocked
/// under the same target; it is put off exactly until its restart is due.
pub proof fn law_plans_wait_for_these(state: ManagerModel, plan: PlanModel, now_ms: u64)
    ensures
        ({
            let key = plan.target.key;
            &&& state.sessions.contains_key(key) ==> state.is_taken(plan)
            &&& state.pending.contains_key(key) ==> state.is_taken(plan)
            &&& state.blocked.contains_key(key) && state.blocked[key].target == plan.target
                ==> state.is_taken(plan)
            &&& !state.sessions.contains_key(key) && !state.pending.contains_key(key) && (
            state.blocked.contains_key(key) ==> state.blocked[key].target != plan.target)
                ==> !state.is_taken(plan)
            &&& state.restart.contains_key(key) ==> (state.is_delayed(key, now_ms) <==> now_ms
                < state.restart[key])
            &&& !state.restart.contains_key(key) ==> !state.is_delayed(key, now_ms)
        }),
{
}

/// Nothing is wanted of a device during an exclusive request or without a published plan; otherwise
/// what can be armed of its plan is. Its touchpad's actions run only where the plan itself takes
/// the touchpad.
pub proof fn law_publication_decides_what_is_wanted(published: PublishedModel)
    ensures
        ManagerModel::wanted_by(true, Some(published)) is None,
        ManagerModel::wanted_by(false, None) is None,
        ManagerModel::wanted_by(false, Some(published)) == published.effective(),
        !ManagerModel::actions_enabled(true, Some(published)),
        !ManagerModel::actions_enabled(false, None),
        ManagerModel::actions_enabled(false, Some(published))
            <==> published.plan.target.arming.capture_touchpad,
{
}

/// An input is dispatched for the tracked session with its epoch, under the id and the plan that the
/// session has by now; any other input only cancels what is retained under its own id.
pub proof fn law_input_goes_to_its_incarnation(
    state: ManagerModel,
    key: Seq<char>,
    session: SessionName,
    input: InputModel,
    context: DispatchContext,
)
    ensures
        ({
            let (after, id, commands) = state.routed(key, session, input, context);
            let known = state.sessions.contains_key(key) && state.sessions[key].id.epoch
                == session.epoch;
            let live = state.sessions[key];
            let dispatched = state.dispatcher.dispatched(live.id, live.dispatch, input, context);
            &&& known ==> id == live.id && commands == dispatched.1 && after.dispatcher
                == dispatched.0
            &&& !known ==> id == session && commands == state.dispatcher.cancel_commands(session)
                && after.dispatcher == state.dispatcher.without(session)
            &&& after.sessions == state.sessions && after.pending == state.pending
                && after.restart == state.restart && after.blocked == state.blocked
        }),
{
}

/// The moment of an input reaches its dispatch as it is, and touchpad actions are enabled only for a
/// tracked session.
pub proof fn law_moment_reaches_the_dispatch(
    state: ManagerModel,
    key: Seq<char>,
    exclusive: bool,
    published: Option<PublishedModel>,
    moment: Moment,
)
    ensures
        ({
            let context = state.input_context(key, exclusive, published, moment);
            &&& context.now_ms == moment.now_ms
            &&& context.native_streaming == moment.native_streaming
            &&& !state.sessions.contains_key(key) ==> !context.touchpad_actions_enabled
            &&& state.sessions.contains_key(key) ==> (context.touchpad_actions_enabled
                <==> ManagerModel::actions_enabled(exclusive, published))
        }),
{
}

/// A completed session is gone with all that was retained for it. An unfinished restore is retried
/// after a second. A session that was not asked to stop is started again after a second, unless it
/// was in conflict or was a recovery that ended well. A conflict blocks the session's own target
/// under its configuration key. Nothing else changes.
pub proof fn law_completion_settles_the_session(
    state: ManagerModel,
    key: Seq<char>,
    restore_pending: bool,
    failure: SessionFailure,
    now_ms: u64,
    other: Seq<char>,
)
    requires
        state.sessions.contains_key(key),
        now_ms + 1_000 <= u64::MAX,
    ensures
        ({
            let session = state.sessions[key];
            let after = state.completed(key, restore_pending, failure, now_ms);
            let recovered = failure is Clean && session.target.arming.mode is TouchpadRecovery;
            let again = !session.stopping && !(failure is RawModeConflict) && !recovered;
            &&& !after.sessions.contains_key(key)
            &&& after.dispatcher == state.dispatcher.without(session.id)
            &&& restore_pending ==> after.pending.contains_key(key) && after.pending[key] == now_ms
                + 1_000
            &&& !restore_pending ==> after.pending == state.pending
            &&& again ==> after.restart.contains_key(key) && after.restart[key] == now_ms + 1_000
            &&& !again ==> after.restart == state.restart
            &&& failure is RawModeConflict ==> after.blocked.contains_key(key)
                && after.blocked[key].target == session.target && after.blocked[key].config_key
                == session.dispatch.config_key
            &&& !(failure is RawModeConflict) ==> after.blocked == state.blocked
            &&& after.next_epoch == state.next_epoch
            &&& other != key && state.sessions.contains_key(other) ==> after.sessions.contains_key(
                other,
            ) && after.sessions[other] == state.sessions[other]
        }),
{
}

/// Restart delays are kept exactly for devices that are still wanted, and unchanged.
pub proof fn law_restarts_are_kept_while_wanted(
    state: ManagerModel,
    wanted: Seq<PlanModel>,
    key: Seq<char>,
)
    ensures
        ({
            let kept = state.restart_kept(wanted);
            &&& kept.contains_key(key) <==> state.restart.contains_key(key)
                && crate::capture_plan::plan_for(wanted, key) is Some
            &&& kept.contains_key(key) ==> kept[key] == state.restart[key]
        }),
{
}

/// A restore is due exactly from its time on.
pub proof fn law_restores_are_due_at_their_time(state: ManagerModel, key: Seq<char>, now_ms: u64)
    ensures
        state.due(now_ms).contains(key) <==> state.pending.contains_key(key) && state.pending[key]
            <= now_ms,
        state.pending.contains_key(key) && state.pending[key] <= now_ms ==> state.restore_due(
            now_ms,
        ),
        (forall|other: Seq<char>| #[trigger]
            state.pending.contains_key(other) ==> state.pending[other] > now_ms)
            ==> !state.restore_due(now_ms),
{
}

/// Expediting makes every unfinished restore due now, and touches nothing else.
pub proof fn law_expediting_makes_restores_due(state: ManagerModel, key: Seq<char>, now_ms: u64)
    ensures
        ({
            let after = state.expedited(now_ms);
            &&& after.pending.contains_key(key) <==> state.pending.contains_key(key)
            &&& state.pending.contains_key(key) ==> after.pending[key] == now_ms
            &&& after.sessions == state.sessions && after.restart == state.restart && after.blocked
                == state.blocked && after.dispatcher == state.dispatcher && after.next_epoch
                == state.next_epoch
        }),
{
}

/// A request to shut down is followed in order; a source that closes stops the loop at once; an
/// input alone does not call for reconciling and a completion only where it removed its session;
/// everything else does.
pub proof fn law_events_lead_to_these_reactions(removed: bool)
    ensures
        crate::manager::reaction_to(ManageEvent::ShutdownRequested)
            == ManageReaction::FinishShutdown,
        crate::manager::reaction_to(ManageEvent::InputHandled) == (ManageReaction::Continue {
            reconcile: false,
        }),
        crate::manager::reaction_to(ManageEvent::DoneHandled { removed }) == (
        ManageReaction::Continue { reconcile: removed }),
        crate::manager::reaction_to(ManageEvent::PlansChanged) == (ManageReaction::Continue {
            reconcile: true,
        }),
        crate::manager::reaction_to(ManageEvent::ExclusiveRequestsChanged) == (
        ManageReaction::Continue { reconcile: true }),
        crate::manager::reaction_to(ManageEvent::DiagnosticRequestsChanged) == (
        ManageReaction::Continue { reconcile: true }),
        crate::manager::reaction_to(ManageEvent::RegistryChanged) == (ManageReaction::Continue {
            reconcile: true,
        }),
        crate::manager::reaction_to(ManageEvent::DeadlineReached) == (ManageReaction::Continue {
            reconcile: true,
        }),
        crate::manager::reaction_to(ManageEvent::PlansClosed) == ManageReaction::Return,
        crate::manager::reaction_to(ManageEvent::ExclusiveRequestsClosed)
            == ManageReaction::Return,
        crate::manager::reaction_to(ManageEvent::DiagnosticRequestsClosed)
            == ManageReaction::Return,
        crate::manager::reaction_to(ManageEvent::RegistryClosed) == ManageReaction::Return,
{
}

/// During shutdown, restores become due when a session is gone, when the reachable devices change
/// and when the exclusive requests do, and at no other event.
pub proof fn law_shutdown_is_expedited_by_these(event: ManageEvent)
    ensures
        crate::manager::expedites_shutdown(ManageEvent::DoneHandled { removed: true }),
        !crate::manager::expedites_shutdown(ManageEvent::DoneHandled { removed: false }),
        event is RegistryChanged ==> crate::manager::expedites_shutdown(event),
        event is ExclusiveRequestsChanged ==> crate::manager::expedites_shutdown(event),
        !(event is RegistryChanged || event is ExclusiveRequestsChanged || event is DoneHandled)
            ==> !crate::manager::expedites_shutdown(event),
{
}

/// The shutdown is over exactly when no session is tracked and no restore is unfinished.
pub proof fn law_shutdown_is_over_when_nothing_is_left(state: ManagerModel)
    ensures
        state.is_shut_down() <==> (forall|key: Seq<char>|
            !(#[trigger] state.sessions.contains_key(key))) && (forall|key: Seq<char>|
            !(#[trigger] state.pending.contains_key(key))),
{
    if (forall|key: Seq<char>| !(#[trigger] state.sessions.contains_key(key))) && (forall|
        key: Seq<char>,
    | !(#[trigger] state.pending.contains_key(key))) {
        assert(state.sessions =~= Map::<Seq<char>, SessionModel>::empty());
        assert(state.pending =~= Map::<Seq<char>, u64>::empty());
    }
}

/// At shutdown every session is asked to stop and what is retained for it is cancelled under its id.
pub proof fn law_shutdown_cancels_each_session(state: ManagerModel, key: Seq<char>)
    requires
        state.sessions.contains_key(key),
    ensures
        ({
            let session = state.sessions[key];
            let (after, change) = state.stopped_one(key);
            &&& change.key == key
            &&& change.session == session.id
            &&& change.commands == state.dispatcher.cancel_commands(session.id)
            &&& !session.stopping ==> change.action is Stop
            &&& session.stopping ==> change.action is Unchanged
            &&& after.sessions[key].stopping
            &&& after.dispatcher == state.dispatcher.without(session.id)
        }),
{
}

/// A new manager tracks nothing, waits for nothing, and its first session has epoch one.
pub proof fn law_manager_starts_with_nothing(key: Seq<char>)
    ensures
        ({
            let state = ManagerModel::empty();
            &&& !state.sessions.contains_key(key)
            &&& !state.pending.contains_key(key)
            &&& !state.restart.contains_key(key)
            &&& !state.blocked.contains_key(key)
            &&& state.next_epoch == 1
        }),
{
}

/// The earliest time is no later than any restore or restart, and one of them is at it.
pub proof fn law_earliest_comes_before_all(state: ManagerModel, at: u64, key: Seq<char>)
    requires
        state.is_earliest(at),
    ensures
        state.pending.contains_key(key) ==> at <= state.pending[key],
        state.restart.contains_key(key) ==> at <= state.restart[key],
        (exists|key: Seq<char>| #[trigger]
            state.pending.contains_key(key) && state.pending[key] == at) || (exists|key: Seq<char>|
         #[trigger]
            state.restart.contains_key(key) && state.restart[key] == at),
{
    if exists|key: Seq<char>| #[trigger]
        state.pending.dom().contains(key) && state.pending[key] == at {
        let found = choose|key: Seq<char>| #[trigger]
            state.pending.dom().contains(key) && state.pending[key] == at;
        assert(state.pending.contains_key(found));
    } else {
        let found = choose|key: Seq<char>| #[trigger]
            state.restart.dom().contains(key) && state.restart[key] == at;
        assert(state.restart.contains_key(found));
    }
}

/// Nothing is due exactly where no restore and no restart is waiting.
pub proof fn law_nothing_is_due_without_a_wait(state: ManagerModel)
    ensures
        state.nothing_due() <==> (forall|key: Seq<char>|
            !(#[trigger] state.pending.contains_key(key))) && (forall|key: Seq<char>|
            !(#[trigger] state.restart.contains_key(key))),
{
    if (forall|key: Seq<char>| !(#[trigger] state.pending.contains_key(key))) && (forall|
        key: Seq<char>,
    | !(#[trigger] state.restart.contains_key(key))) {
        assert(state.pending =~= Map::<Seq<char>, u64>::empty());
        assert(state.restart =~= Map::<Seq<char>, u64>::empty());
    }
}

/// The receiver can be had for a plan where that is said in the plan's place, and not where nothing
/// is said.
pub proof fn law_leases_are_said_in_place(leases: Seq<bool>, i: int)
    ensures
        0 <= i < leases.len() ==> crate::manager::lease_at(leases, i) == leases[i],
        i < 0 || i >= leases.len() ==> !crate::manager::lease_at(leases, i),
{
}

/// Reconciling brings every listed session to its own wanted plan and reports it in its place; a
/// session that is not listed stays as it is.
pub proof fn law_reconciling_brings_each_session_to_its_plan(
    state: ManagerModel,
    keys: Seq<Seq<char>>,
    wanted: Seq<PlanModel>,
    i: int,
    other: Seq<char>,
)
    requires
        keys.no_duplicates(),
        forall|j: int| 0 <= j < keys.len() ==> state.sessions.contains_key(#[trigger] keys[j]),
    ensures
        ({
            let (after, changes) = state.reconciled_all(keys, wanted);
            &&& changes.len() == keys.len()
            &&& 0 <= i < keys.len() ==> {
                let key = keys[i];
                let plan = crate::capture_plan::plan_for(wanted, key);
                &&& after.sessions.contains_key(key)
                &&& after.sessions[key] == state.sessions[key].reconciled(plan)
                &&& changes[i].key == key
                &&& changes[i].session == state.sessions[key].id
                &&& changes[i].action == state.sessions[key].action(plan)
            }
            &&& !keys.contains(other) ==> after.sessions.contains_key(other)
                == state.sessions.contains_key(other)
            &&& !keys.contains(other) && state.sessions.contains_key(other)
                ==> after.sessions[other] == state.sessions[other]
        }),
    decreases keys.len(),
{
    if keys.len() > 0 {
        let rest = keys.drop_last();
        let last = keys.last();
        assert forall|j: int| 0 <= j < rest.len() implies state.sessions.contains_key(
            #[trigger] rest[j],
        ) by {
            assert(rest[j] == keys[j]);
        }
        if rest.contains(last) {
            let j = choose|j: int| 0 <= j < rest.len() && rest[j] == last;
            assert(keys[j] == keys[keys.len() - 1]);
        }
        assert(state.sessions.contains_key(keys[keys.len() - 1]));
        law_reconciling_brings_each_session_to_its_plan(state, rest, wanted, i, last);
        law_reconciling_brings_each_session_to_its_plan(state, rest, wanted, i, other);
        if 0 <= i < rest.len() {
            assert(rest[i] == keys[i]);
            assert(keys[i] != last);
        }
        if !keys.contains(other) {
            if rest.contains(other) {
                let j = choose|j: int| 0 <= j < rest.len() && rest[j] == other;
                assert(keys[j] == other);
            }
            assert(keys[keys.len() - 1] != other);
        }
    }
}

/// Reconciling with the wanted plans drops the restart delays of devices that are not wanted and the
/// blocks whose target is not wanted, and keeps the others.
pub proof fn law_reconciling_drops_what_is_not_wanted(
    state: ManagerModel,
    keys: Seq<Seq<char>>,
    wanted: Seq<PlanModel>,
    key: Seq<char>,
)
    ensures
        ({
            let after = state.reconciled(keys, wanted).0;
            &&& state.restart.contains_key(key) && crate::capture_plan::plan_for(wanted, key) is Some
                ==> after.restart.contains_key(key) && after.restart[key] == state.restart[key]
            &&& crate::capture_plan::plan_for(wanted, key) is None ==> !after.restart.contains_key(
                key,
            )
            &&& !state.restart.contains_key(key) ==> !after.restart.contains_key(key)
            &&& state.blocked.contains_key(key) && state.still_blocked(key, wanted)
                ==> after.blocked.contains_key(key) && after.blocked[key] == state.blocked[key]
            &&& !state.still_blocked(key, wanted) ==> !after.blocked.contains_key(key)
            &&& state.reconciled(keys, wanted).1 == state.reconciled_all(keys, wanted).1
            &&& after.sessions == state.reconciled_all(keys, wanted).0.sessions
        }),
{
}

/// Before its input is dispatched, a tracked session follows the latest publication: it stops during
/// an exclusive request and where nothing is published for it, and otherwise follows what can be
/// armed of its plan.
pub proof fn law_input_waits_for_the_latest_plan(
    state: ManagerModel,
    key: Seq<char>,
    exclusive: bool,
    published: Option<PublishedModel>,
)
    ensures
        ({
            let (after, change) = state.caught_up(key, exclusive, published);
            let session = state.sessions[key];
            let known = state.sessions.contains_key(key);
            &&& !known ==> after == state && change is None
            &&& known ==> change is Some
            &&& known && (exclusive || published is None) ==> after.sessions[key]
                == session.reconciled(None)
            &&& known && !exclusive && published is Some ==> after.sessions[key]
                == session.reconciled(published->0.effective())
        }),
{
}

/// Plans are considered in order, each with its own lease and after those before it; one that starts
/// is listed with its own plan under its own id.
pub proof fn law_plans_are_considered_in_order(
    state: ManagerModel,
    plans: Seq<PlanModel>,
    plan: PlanModel,
    now_ms: u64,
    leases: Seq<bool>,
)
    ensures
        ({
            let (before, starts) = state.considered_all(plans, now_ms, leases);
            let (after, more) = state.considered_all(plans.push(plan), now_ms, leases);
            let lease = plans.len() < leases.len() && leases[plans.len() as int];
            let (expected, id) = before.considered(plan, now_ms, lease);
            &&& after == expected
            &&& id is None ==> more == starts
            &&& id is Some ==> more.len() == starts.len() + 1 && more.take(starts.len() as int)
                == starts && more.last().session == id->0 && more.last().plan == plan
        }),
{
    assert(plans.push(plan).drop_last() =~= plans);
    let (before, starts) = state.considered_all(plans, now_ms, leases);
    let (after, more) = state.considered_all(plans.push(plan), now_ms, leases);
    if before.considered(plan, now_ms, crate::manager::lease_at(leases, plans.len() as int)).1
        is Some {
        assert(more.take(starts.len() as int) =~= starts);
    }
}

} // verus!
