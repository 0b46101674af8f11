//! Keeps one capture session per online device, restarting a session when its plan changes.
//!
//! [`GestureManagerState`] decides what to stop, to start, to retry and to wait for; the loop around
//! it runs the sessions and hands back what became of them. Times are milliseconds on one monotonic
//! clock.
use vstd::prelude::*;

use crate::binding::ButtonId;
use crate::capture_plan::{
    effective_plan, find_plan, CaptureSessionMode, CaptureTarget, DeviceCapturePlan,
    PhysicalDeviceKey, PlanModel, PublishedModel, PublishedPlan, TargetModel,
};
use crate::dispatch::{
    CapturedInput, Command, DispatchContext, DispatcherModel, GestureOutputs, InputDispatcher,
    InputModel,
};
use crate::plan::{DispatchModel, DispatchPlan};
use crate::session::{HidppSessionId, PressToken, SessionName};
use crate::table::{Key, Table};

verus! {

/// How long a failed session or restore waits before it is tried again.
pub const RETRY_DELAY_MS: u64 = 1_000;

/// What reconciling a session with its wanted plan asks for.
#[derive(Clone, Copy, Debug, PartialEq, Eq, Structural)]
pub enum ReconcileAction {
    Unchanged,
    /// Stop the session; it stays tracked until it reports completion.
    Stop,
    /// The session goes on with a new dispatch plan.
    DispatchChanged,
}

/// What the completion of a session means.
#[derive(Clone, Copy, Debug, PartialEq, Eq, Structural)]
pub enum CompletionAction {
    /// Some other incarnation completed.
    Ignore,
    /// The tracked session completed.
    Remove { unexpected: bool },
}

/// Where a tracked session stands.
#[verifier::ext_equal]
pub struct SessionModel {
    pub id: SessionName,
    pub target: TargetModel,
    pub dispatch: DispatchModel,
    /// Whether the session has been asked to stop.
    pub stopping: bool,
}

impl SessionModel {
    /// Whether an id names this incarnation, whatever device key it carries.
    pub open spec fn owns(self, id: SessionName) -> bool {
        self.id.epoch == id.epoch
    }

    /// What a wanted plan asks of the session: a stopping session stays as it is, a session whose
    /// target is not wanted stops, and one whose dispatch changed follows it.
    pub open spec fn action(self, wanted: Option<PlanModel>) -> ReconcileAction {
        if self.stopping {
            ReconcileAction::Unchanged
        } else {
            match wanted {
                None => ReconcileAction::Stop,
                Some(plan) => if plan.target != self.target {
                    ReconcileAction::Stop
                } else if plan.dispatch != self.dispatch {
                    ReconcileAction::DispatchChanged
                } else {
                    ReconcileAction::Unchanged
                },
            }
        }
    }

    /// The session after reconciling; a session that follows a new dispatch plan takes its
    /// configuration key and keeps its epoch.
    pub open spec fn reconciled(self, wanted: Option<PlanModel>) -> SessionModel {
        match self.action(wanted) {
            ReconcileAction::Unchanged => self,
            ReconcileAction::Stop => SessionModel { stopping: true, ..self },
            ReconcileAction::DispatchChanged => SessionModel {
                id: SessionName {
                    device_key: wanted->0.dispatch.config_key,
                    epoch: self.id.epoch,
                },
                dispatch: wanted->0.dispatch,
                ..self
            },
        }
    }

    /// What a completion under an id means.
    pub open spec fn completion(self, id: SessionName) -> CompletionAction {
        if self.owns(id) {
            CompletionAction::Remove { unexpected: !self.stopping }
        } else {
            CompletionAction::Ignore
        }
    }
}

/// A tracked session.
pub struct RunningSession {
    id: HidppSessionId,
    target: CaptureTarget,
    dispatch: DispatchPlan,
    stopping: bool,
}

impl View for RunningSession {
    type V = SessionModel;

    closed spec fn view(&self) -> SessionModel {
        SessionModel {
            id: self.id@,
            target: self.target@,
            dispatch: self.dispatch@,
            stopping: self.stopping,
        }
    }
}

impl RunningSession {
    /// A session that has just been started.
    pub fn active(id: HidppSessionId, plan: DeviceCapturePlan) -> (session: Self)
        ensures
            session@ == (SessionModel {
                id: id@,
                target: plan@.target,
                dispatch: plan@.dispatch,
                stopping: false,
            }),
    {
        RunningSession { id, target: plan.target, dispatch: plan.dispatch, stopping: false }
    }

    /// The session's id.
    pub fn id(&self) -> (id: &HidppSessionId)
        ensures
            id@ == self@.id,
    {
        &self.id
    }

    /// The plan its input is dispatched by.
    pub fn dispatch(&self) -> (plan: &DispatchPlan)
        ensures
            plan@ == self@.dispatch,
    {
        &self.dispatch
    }

    /// The device it runs on.
    pub fn target(&self) -> (target: &CaptureTarget)
        ensures
            target@ == self@.target,
    {
        &self.target
    }

    /// Whether an id names this incarnation.
    pub fn owns(&self, id: &HidppSessionId) -> (owns: bool)
        ensures
            owns == self@.owns(id@),
    {
        self.id.epoch() == id.epoch()
    }

    /// What a completion under an id means.
    pub fn completion(&self, id: &HidppSessionId) -> (action: CompletionAction)
        ensures
            action == self@.completion(id@),
    {
        if self.owns(id) {
            CompletionAction::Remove { unexpected: !self.stopping }
        } else {
            CompletionAction::Ignore
        }
    }

    /// Reconciles the session with its wanted plan.
    pub fn reconcile(&mut self, wanted: Option<&DeviceCapturePlan>) -> (action: ReconcileAction)
        ensures
            action == old(self)@.action(
                match wanted {
                    Some(plan) => Some(plan@),
                    None => None,
                },
            ),
            final(self)@ == old(self)@.reconciled(
                match wanted {
                    Some(plan) => Some(plan@),
                    None => None,
                },
            ),
    {
        if self.stopping {
            return ReconcileAction::Unchanged;
        }
        match wanted {
            None => {
                self.stopping = true;
                ReconcileAction::Stop
            },
            Some(plan) => {
                if !plan.target.same(&self.target) {
                    self.stopping = true;
                    ReconcileAction::Stop
                } else if !plan.dispatch.same(&self.dispatch) {
                    self.dispatch = plan.dispatch.duplicate();
                    self.id = HidppSessionId::with_epoch(
                        plan.dispatch.config_key.as_str(),
                        self.id.epoch(),
                    );
                    ReconcileAction::DispatchChanged
                } else {
                    ReconcileAction::Unchanged
                }
            },
        }
    }
}

/// A touchpad that must not be captured until its plan changes.
pub struct BlockedTouchpad {
    pub target: CaptureTarget,
    pub config_key: String,
}

/// What a blocked touchpad says.
pub struct BlockedModel {
    pub target: TargetModel,
    pub config_key: Seq<char>,
}

impl View for BlockedTouchpad {
    type V = BlockedModel;

    open spec fn view(&self) -> BlockedModel {
        BlockedModel { target: self.target@, config_key: self.config_key@ }
    }
}

/// How a completed session fared.
#[derive(Clone, Copy, Debug, PartialEq, Eq, Structural)]
pub enum SessionFailure {
    /// It ended without an error.
    Clean,
    /// The pad's raw mode was not the one the session had set.
    RawModeConflict { expected: u8, actual: u8 },
    /// Any other error.
    Other,
}

/// What reconciling did to one session.
pub struct SessionChange {
    pub key: PhysicalDeviceKey,
    /// The session's id before the change; the commands are for it.
    pub session: HidppSessionId,
    pub action: ReconcileAction,
    pub commands: Vec<Command>,
}

/// What a session change says.
#[verifier::ext_equal]
pub struct ChangeModel {
    pub key: Seq<char>,
    pub session: SessionName,
    pub action: ReconcileAction,
    pub commands: Seq<Command>,
}

impl View for SessionChange {
    type V = ChangeModel;

    open spec fn view(&self) -> ChangeModel {
        ChangeModel {
            key: self.key@,
            session: self.session@,
            action: self.action,
            commands: self.commands@,
        }
    }
}

/// What each element of a list of changes says.
pub open spec fn change_models(changes: Seq<SessionChange>) -> Seq<ChangeModel> {
    changes.map_values(|change: SessionChange| change@)
}

/// Where the manager stands.
#[verifier::ext_equal]
pub struct ManagerModel {
    pub sessions: Map<Seq<char>, SessionModel>,
    /// When each unfinished restore is tried again.
    pub pending: Map<Seq<char>, u64>,
    /// When each failed session may be started again.
    pub restart: Map<Seq<char>, u64>,
    pub blocked: Map<Seq<char>, BlockedModel>,
    pub dispatcher: DispatcherModel,
    /// Epoch of the next session.
    pub next_epoch: u64,
}

/// A point in time after the retry delay.
pub open spec fn after_delay(now_ms: u64) -> u64 {
    crate::math::lesser(now_ms + RETRY_DELAY_MS, u64::MAX as int) as u64
}

/// Whether a list holds exactly the members of a set, each once.
pub open spec fn lists_exactly<T>(list: Seq<T>, members: Set<T>) -> bool {
    &&& list.no_duplicates()
    &&& forall|x: T| members.contains(x) <==> #[trigger] list.contains(x)
}

impl ManagerModel {
    /// Nothing captured yet.
    pub open spec fn empty() -> Self {
        ManagerModel {
            sessions: Map::empty(),
            pending: Map::empty(),
            restart: Map::empty(),
            blocked: Map::empty(),
            dispatcher: DispatcherModel::empty(),
            next_epoch: 1,
        }
    }

    /// What reconciling one session with its wanted plan does: following a new dispatch plan
    /// cancels what is retained for the session's input.
    pub open spec fn reconciled_one(self, key: Seq<char>, wanted: Option<PlanModel>) -> (
        ManagerModel,
        ChangeModel,
    ) {
        let session = self.sessions[key];
        let action = session.action(wanted);
        let changed = action == ReconcileAction::DispatchChanged;
        (
            ManagerModel {
                sessions: self.sessions.insert(key, session.reconciled(wanted)),
                dispatcher: if changed {
                    self.dispatcher.without(session.id)
                } else {
                    self.dispatcher
                },
                ..self
            },
            ChangeModel {
                key,
                session: session.id,
                action,
                commands: if changed {
                    self.dispatcher.cancel_commands(session.id)
                } else {
                    Seq::empty()
                },
            },
        )
    }

    /// What reconciling sessions one after the other does.
    pub open spec fn reconciled_all(self, keys: Seq<Seq<char>>, wanted: Seq<PlanModel>) -> (
        ManagerModel,
        Seq<ChangeModel>,
    )
        decreases keys.len(),
    {
        if keys.len() == 0 {
            (self, Seq::empty())
        } else {
            let (before, changes) = self.reconciled_all(keys.drop_last(), wanted);
            let (after, change) = before.reconciled_one(
                keys.last(),
                crate::capture_plan::plan_for(wanted, keys.last()),
            );
            (after, changes.push(change))
        }
    }

    /// The restart deadlines of devices that are still wanted.
    pub open spec fn restart_kept(self, wanted: Seq<PlanModel>) -> Map<Seq<char>, u64> {
        self.restart.restrict(
            self.restart.dom().filter(
                |key: Seq<char>| crate::capture_plan::plan_for(wanted, key) is Some,
            ),
        )
    }

    /// Whether a blocked touchpad is still wanted as it was blocked.
    pub open spec fn still_blocked(self, key: Seq<char>, wanted: Seq<PlanModel>) -> bool {
        exists|i: int|
            0 <= i < wanted.len() && (#[trigger] wanted[i]).target.key == key && wanted[i].target
                == self.blocked[key].target
    }

    /// The touchpads that stay blocked.
    pub open spec fn blocked_kept(self, wanted: Seq<PlanModel>) -> Map<Seq<char>, BlockedModel> {
        self.blocked.restrict(
            self.blocked.dom().filter(|key: Seq<char>| self.still_blocked(key, wanted)),
        )
    }

    /// The devices whose touchpad is unblocked.
    pub open spec fn unblocked(self, wanted: Seq<PlanModel>) -> Set<Seq<char>> {
        self.blocked.dom().filter(|key: Seq<char>| !self.still_blocked(key, wanted))
    }

    /// Whether a list holds the configuration keys of exactly the touchpads that are unblocked.
    pub open spec fn clears(self, wanted: Seq<PlanModel>, cleared: Seq<String>) -> bool {
        exists|keys: Seq<Seq<char>>| #[trigger]
            lists_exactly(keys, self.unblocked(wanted)) && keys.len() == cleared.len() && forall|j: int|
                0 <= j < keys.len() ==> (#[trigger] cleared[j])@
                    == self.blocked[keys[j]].config_key
    }

    /// Whether a wanted plan has to wait for a session, a restore or a changed plan.
    pub open spec fn is_taken(self, plan: PlanModel) -> bool {
        ||| self.sessions.dom().contains(plan.target.key)
        ||| self.pending.dom().contains(plan.target.key)
        ||| self.blocked.dom().contains(plan.target.key) && self.blocked[plan.target.key].target
            == plan.target
    }

    /// Whether a wanted plan is still waiting out a failure.
    pub open spec fn is_delayed(self, key: Seq<char>, now_ms: u64) -> bool {
        self.restart.dom().contains(key) && self.restart[key] > now_ms
    }

    /// The epoch after the next one.
    pub open spec fn epoch_after(self) -> u64 {
        if self.next_epoch == u64::MAX {
            0
        } else {
            (self.next_epoch + 1) as u64
        }
    }

    /// The manager after considering one wanted plan, and the id of the session it starts.
    pub open spec fn considered(self, plan: PlanModel, now_ms: u64, lease: bool) -> (
        ManagerModel,
        Option<SessionName>,
    ) {
        let key = plan.target.key;
        if self.is_taken(plan) || self.is_delayed(key, now_ms) {
            (self, None)
        } else if !lease {
            (
                ManagerModel { restart: self.restart.insert(key, after_delay(now_ms)), ..self },
                None,
            )
        } else {
            let id = SessionName {
                device_key: plan.dispatch.config_key,
                epoch: self.next_epoch,
            };
            (
                ManagerModel {
                    sessions: self.sessions.insert(
                        key,
                        SessionModel {
                            id,
                            target: plan.target,
                            dispatch: plan.dispatch,
                            stopping: false,
                        },
                    ),
                    restart: self.restart.remove(key),
                    next_epoch: self.epoch_after(),
                    ..self
                },
                Some(id),
            )
        }
    }

    /// The manager after considering wanted plans one after the other, each with whether the
    /// receiver can be had for it, and which of them start under which id.
    pub open spec fn considered_all(
        self,
        plans: Seq<PlanModel>,
        now_ms: u64,
        leases: Seq<bool>,
    ) -> (ManagerModel, Seq<StartModel>)
        decreases plans.len(),
    {
        if plans.len() == 0 {
            (self, Seq::empty())
        } else {
            let (before, starts) = self.considered_all(plans.drop_last(), now_ms, leases);
            let lease = lease_at(leases, plans.len() - 1);
            let (after, id) = before.considered(plans.last(), now_ms, lease);
            match id {
                Some(id) => (after, starts.push(StartModel { session: id, plan: plans.last() })),
                None => (after, starts),
            }
        }
    }

    /// The wanted plan of a tracked session by the latest publication.
    pub open spec fn wanted_by(exclusive: bool, published: Option<PublishedModel>) -> Option<
        PlanModel,
    > {
        if exclusive {
            None
        } else {
            match published {
                Some(published) => published.effective(),
                None => None,
            }
        }
    }

    /// Whether touchpad actions are enabled by the latest publication: only where the plan itself,
    /// and not just a diagnostic, wants the touchpad.
    pub open spec fn actions_enabled(exclusive: bool, published: Option<PublishedModel>) -> bool {
        !exclusive && published is Some && published->0.plan.target.arming.capture_touchpad
    }

    /// The manager once a tracked session was reconciled with the latest publication, before its
    /// input is dispatched.
    pub open spec fn caught_up(
        self,
        key: Seq<char>,
        exclusive: bool,
        published: Option<PublishedModel>,
    ) -> (ManagerModel, Option<ChangeModel>) {
        if self.sessions.dom().contains(key) {
            let (next, change) = self.reconciled_one(
                key,
                ManagerModel::wanted_by(exclusive, published),
            );
            (next, Some(change))
        } else {
            (self, None)
        }
    }

    /// Whether an input belongs to the tracked session of its device.
    pub open spec fn admits(self, key: Seq<char>, session: SessionName) -> bool {
        self.sessions.dom().contains(key) && self.sessions[key].owns(session)
    }

    /// The context an input is dispatched in.
    pub open spec fn input_context(
        self,
        key: Seq<char>,
        exclusive: bool,
        published: Option<PublishedModel>,
        moment: Moment,
    ) -> DispatchContext {
        DispatchContext {
            touchpad_actions_enabled: self.sessions.dom().contains(key)
                && ManagerModel::actions_enabled(exclusive, published),
            native_streaming: moment.native_streaming,
            now_ms: moment.now_ms,
        }
    }

    /// What an input does to a manager that has caught up: it is dispatched by the plan of the
    /// session it belongs to, or it is from a stale session, whose retained state goes.
    pub open spec fn routed(
        self,
        key: Seq<char>,
        session: SessionName,
        input: InputModel,
        context: DispatchContext,
    ) -> (ManagerModel, SessionName, Seq<Command>) {
        if self.admits(key, session) {
            let live = self.sessions[key];
            let (dispatcher, commands) = self.dispatcher.dispatched(
                live.id,
                live.dispatch,
                input,
                context,
            );
            (ManagerModel { dispatcher, ..self }, live.id, commands)
        } else {
            (
                ManagerModel { dispatcher: self.dispatcher.without(session), ..self },
                session,
                self.dispatcher.cancel_commands(session),
            )
        }
    }

    /// Whether a completion is of the tracked session.
    pub open spec fn completes(self, key: Seq<char>, session: SessionName) -> bool {
        self.sessions.dom().contains(key) && self.sessions[key].owns(session)
    }

    /// Whether a completed session has to be started again after a delay: it was not asked to
    /// stop, it is not in conflict, and it was no recovery that has done its work.
    pub open spec fn needs_restart(self, key: Seq<char>, failure: SessionFailure) -> bool {
        let session = self.sessions[key];
        &&& !session.stopping
        &&& !(failure is RawModeConflict)
        &&& !(failure == SessionFailure::Clean && session.target.arming.mode
            == CaptureSessionMode::TouchpadRecovery)
    }

    /// The manager after the tracked session completed.
    pub open spec fn completed(
        self,
        key: Seq<char>,
        restore_pending: bool,
        failure: SessionFailure,
        now_ms: u64,
    ) -> ManagerModel {
        let session = self.sessions[key];
        ManagerModel {
            sessions: self.sessions.remove(key),
            pending: if restore_pending {
                self.pending.insert(key, after_delay(now_ms))
            } else {
                self.pending
            },
            restart: if self.needs_restart(key, failure) {
                self.restart.insert(key, after_delay(now_ms))
            } else {
                self.restart
            },
            blocked: if failure is RawModeConflict {
                self.blocked.insert(
                    key,
                    BlockedModel {
                        target: session.target,
                        config_key: session.dispatch.config_key,
                    },
                )
            } else {
                self.blocked
            },
            dispatcher: self.dispatcher.without(session.id),
            ..self
        }
    }

    /// What asking one session to stop at shutdown does.
    pub open spec fn stopped_one(self, key: Seq<char>) -> (ManagerModel, ChangeModel) {
        let session = self.sessions[key];
        (
            ManagerModel {
                sessions: self.sessions.insert(key, session.reconciled(None)),
                dispatcher: self.dispatcher.without(session.id),
                ..self
            },
            ChangeModel {
                key,
                session: session.id,
                action: session.action(None),
                commands: self.dispatcher.cancel_commands(session.id),
            },
        )
    }

    /// What asking sessions to stop one after the other does.
    pub open spec fn stopped_all(self, keys: Seq<Seq<char>>) -> (ManagerModel, Seq<ChangeModel>)
        decreases keys.len(),
    {
        if keys.len() == 0 {
            (self, Seq::empty())
        } else {
            let (before, changes) = self.stopped_all(keys.drop_last());
            let (after, change) = before.stopped_one(keys.last());
            (after, changes.push(change))
        }
    }

    /// What beginning the shutdown does: no restarts any more, and every session is asked to stop.
    pub open spec fn shut_down(self, keys: Seq<Seq<char>>) -> (ManagerModel, Seq<ChangeModel>) {
        ManagerModel { restart: Map::empty(), ..self }.stopped_all(keys)
    }

    /// Whether a point in time is the earliest that something is due.
    pub open spec fn is_earliest(self, at: u64) -> bool {
        &&& (exists|key: Seq<char>| #[trigger]
            self.pending.dom().contains(key) && self.pending[key] == at) || (exists|key: Seq<char>|
         #[trigger]
            self.restart.dom().contains(key) && self.restart[key] == at)
        &&& forall|key: Seq<char>| #[trigger]
            self.pending.dom().contains(key) ==> at <= self.pending[key]
        &&& forall|key: Seq<char>| #[trigger]
            self.restart.dom().contains(key) ==> at <= self.restart[key]
    }

    /// Whether nothing is due at any time.
    pub open spec fn nothing_due(self) -> bool {
        self.pending == Map::<Seq<char>, u64>::empty() && self.restart == Map::<
            Seq<char>,
            u64,
        >::empty()
    }
}

/// Whether the receiver can be had for a plan; it cannot for one that nothing is said about.
pub open spec fn lease_at(leases: Seq<bool>, i: int) -> bool {
    0 <= i < leases.len() && leases[i]
}

/// A session to start.
#[verifier::ext_equal]
pub struct StartModel {
    pub session: SessionName,
    pub plan: PlanModel,
}

/// A session to start.
pub struct SessionStart {
    pub session: HidppSessionId,
    pub plan: DeviceCapturePlan,
}

impl View for SessionStart {
    type V = StartModel;

    open spec fn view(&self) -> StartModel {
        StartModel { session: self.session@, plan: self.plan@ }
    }
}

/// What each element of a list of starts says.
pub open spec fn start_models(starts: Seq<SessionStart>) -> Seq<StartModel> {
    starts.map_values(|start: SessionStart| start@)
}

/// What the manager needs to know about the moment of an input.
#[derive(Clone, Copy, Debug, PartialEq, Eq, Structural)]
pub struct Moment {
    pub native_streaming: bool,
    pub now_ms: u64,
}

/// What became of an input.
pub struct InputHandling {
    /// What catching up with the latest publication did to the tracked session.
    pub change: Option<SessionChange>,
    /// Whether the input belonged to the tracked session.
    pub dispatched: bool,
    /// The session the commands are for.
    pub session: HidppSessionId,
    pub commands: Vec<Command>,
}

/// What became of a completion.
pub struct DoneHandling {
    /// Whether the tracked session is gone, so that the sessions have to be reconciled.
    pub removed: bool,
    /// Configuration key of a touchpad that is blocked from now on.
    pub conflict: Option<String>,
    /// The session the commands are for.
    pub session: Option<HidppSessionId>,
    pub commands: Vec<Command>,
}

/// A point in time after the retry delay.
fn retry_at(now_ms: u64) -> (at: u64)
    ensures
        at == after_delay(now_ms),
{
    now_ms.saturating_add(RETRY_DELAY_MS)
}

/// The capture sessions of all devices.
pub struct GestureManagerState {
    sessions: Table<PhysicalDeviceKey, RunningSession>,
    pending_restores: Table<PhysicalDeviceKey, u64>,
    restart_after: Table<PhysicalDeviceKey, u64>,
    blocked_touchpads: Table<PhysicalDeviceKey, BlockedTouchpad>,
    input_dispatcher: InputDispatcher,
    next_epoch: u64,
}

impl View for GestureManagerState {
    type V = ManagerModel;

    closed spec fn view(&self) -> ManagerModel {
        ManagerModel {
            sessions: self.sessions@.map_values(|session: RunningSession| session@),
            pending: self.pending_restores@,
            restart: self.restart_after@,
            blocked: self.blocked_touchpads@.map_values(|blocked: BlockedTouchpad| blocked@),
            dispatcher: self.input_dispatcher@,
            next_epoch: self.next_epoch,
        }
    }
}

impl GestureManagerState {
    /// The outputs that commands are meant for.
    pub closed spec fn routes(&self) -> GestureOutputs {
        self.input_dispatcher.routes()
    }

    /// Nothing captured yet.
    pub fn new(outputs: GestureOutputs) -> (state: Self)
        ensures
            state@ == ManagerModel::empty(),
            state.routes() == outputs,
    {
        let state: GestureManagerState = GestureManagerState {
            sessions: Table::new(),
            pending_restores: Table::new(),
            restart_after: Table::new(),
            blocked_touchpads: Table::new(),
            input_dispatcher: InputDispatcher::new(outputs),
            next_epoch: 1,
        };
        assert(state@ =~= ManagerModel::empty());
        state
    }

    /// Reconciles one tracked session with its wanted plan.
    fn reconcile_session(
        &mut self,
        key: &PhysicalDeviceKey,
        wanted: Option<&DeviceCapturePlan>,
    ) -> (change: SessionChange)
        requires
            old(self)@.sessions.dom().contains(key@),
        ensures
            (final(self)@, change@) == old(self)@.reconciled_one(
                key@,
                match wanted {
                    Some(plan) => Some(plan@),
                    None => None,
                },
            ),
            final(self).routes() == old(self).routes(),
    {
        let mut session: RunningSession = self.sessions.take(key).unwrap();
        let id: HidppSessionId = session.id().duplicate();
        let action: ReconcileAction = session.reconcile(wanted);
        let commands: Vec<Command> = match action {
            ReconcileAction::DispatchChanged => self.input_dispatcher.cancel_session(&id),
            _ => Vec::new(),
        };
        self.sessions.insert(key.duplicate(), session);
        let change: SessionChange = SessionChange {
            key: key.duplicate(),
            session: id,
            action,
            commands,
        };
        proof {
            let model = match wanted {
                Some(plan) => Some(plan@),
                None => None,
            };
            let (next, expected) = old(self)@.reconciled_one(key@, model);
            assert(self@.sessions =~= next.sessions);
            assert(change@.commands =~= expected.commands);
        }
        change
    }

    /// Reconciles every tracked session with the wanted plans.
    fn reconcile_sessions(&mut self, wanted: &Vec<DeviceCapturePlan>) -> (changes: Vec<
        SessionChange,
    >)
        ensures
            exists|keys: Seq<Seq<char>>|
                lists_exactly(keys, old(self)@.sessions.dom()) && (
                    final(self)@,
                    change_models(changes@),
                ) == #[trigger] old(self)@.reconciled_all(
                    keys,
                    crate::capture_plan::plan_models(wanted@),
                ),
            final(self).routes() == old(self).routes(),
    {
        let keys: Vec<PhysicalDeviceKey> = self.sessions.keys();
        let ghost names = key_names(keys@);
        let ghost plans = crate::capture_plan::plan_models(wanted@);
        proof {
            lemma_key_names(keys@, self.sessions@.dom());
            assert(self@.sessions.dom() =~= self.sessions@.dom());
        }
        let mut changes: Vec<SessionChange> = Vec::new();
        let mut i: usize = 0;
        assert(names.take(0) =~= Seq::empty());
        assert(change_models(changes@) =~= Seq::<ChangeModel>::empty());
        while i < keys.len()
            invariant
                i <= keys@.len(),
                names == key_names(keys@),
                plans == crate::capture_plan::plan_models(wanted@),
                self@.sessions.dom() == old(self)@.sessions.dom(),
                lists_exactly(names, old(self)@.sessions.dom()),
                (self@, change_models(changes@)) == old(self)@.reconciled_all(
                    names.take(i as int),
                    plans,
                ),
                self.routes() == old(self).routes(),
            decreases keys@.len() - i,
        {
            let ghost before = changes@;
            let ghost head = names.take(i as int + 1);
            proof {
                assert(head.drop_last() =~= names.take(i as int));
                assert(head.last() == keys@[i as int]@);
                assert(names.contains(names[i as int]));
            }
            let at: usize = find_plan(wanted, &keys[i]);
            let plan: Option<&DeviceCapturePlan> = if at < wanted.len() {
                Some(&wanted[at])
            } else {
                None
            };
            let ghost prior = self@;
            let change: SessionChange = self.reconcile_session(&keys[i], plan);
            changes.push(change);
            proof {
                assert(change_models(changes@) =~= change_models(before).push(change@));
                assert(self@.sessions.dom() =~= prior.sessions.dom());
            }
            i = i + 1;
        }
        assert(names.take(i as int) =~= names);
        changes
    }
}

/// What each element of a list of keys says.
pub open spec fn key_names(keys: Seq<PhysicalDeviceKey>) -> Seq<Seq<char>> {
    keys.map_values(|key: PhysicalDeviceKey| key@)
}

proof fn lemma_key_names(keys: Seq<PhysicalDeviceKey>, members: Set<Seq<char>>)
    requires
        forall|i: int| 0 <= i < keys.len() ==> members.contains((#[trigger] keys[i])@),
        forall|k: Seq<char>| #[trigger]
            members.contains(k) ==> exists|i: int|
                0 <= i < keys.len() && (#[trigger] keys[i])@ == k,
        forall|i: int, j: int|
            0 <= i < j < keys.len() ==> (#[trigger] keys[i])@ != (#[trigger] keys[j])@,
    ensures
        lists_exactly(key_names(keys), members),
{
    let names = key_names(keys);
    assert forall|x: Seq<char>| members.contains(x) <==> #[trigger] names.contains(x) by {
        if members.contains(x) {
            let i = choose|i: int| 0 <= i < keys.len() && (#[trigger] keys[i])@ == x;
            assert(names[i] == x);
        }
        if names.contains(x) {
            let i = choose|i: int| 0 <= i < names.len() && names[i] == x;
            assert(keys[i]@ == x);
        }
    }
    assert(names.no_duplicates()) by {
        assert forall|i: int, j: int|
            0 <= i < names.len() && 0 <= j < names.len() && i != j implies names[i] != names[j] by {
            if i < j {
                assert(keys[i]@ != keys[j]@);
            } else {
                assert(keys[j]@ != keys[i]@);
            }
        }
    }
}

impl GestureManagerState {
    /// Forgets the restart deadlines of devices that are not wanted any more.
    fn retain_restarts(&mut self, wanted: &Vec<DeviceCapturePlan>)
        ensures
            final(self)@ == (ManagerModel {
                restart: old(self)@.restart_kept(crate::capture_plan::plan_models(wanted@)),
                ..old(self)@
            }),
            final(self).routes() == old(self).routes(),
    {
        let keys: Vec<PhysicalDeviceKey> = self.restart_after.keys();
        let ghost plans = crate::capture_plan::plan_models(wanted@);
        let mut gone: Vec<PhysicalDeviceKey> = Vec::new();
        let mut i: usize = 0;
        while i < keys.len()
            invariant
                i <= keys@.len(),
                plans == crate::capture_plan::plan_models(wanted@),
                forall|j: int|
                    0 <= j < gone@.len() ==> crate::capture_plan::plan_for(
                        plans,
                        (#[trigger] gone@[j])@,
                    ) is None,
                forall|j: int|
                    0 <= j < i && crate::capture_plan::plan_for(
                        plans,
                        (#[trigger] keys@[j])@,
                    ) is None ==> crate::table::key_views(gone@).contains(keys@[j]@),
            decreases keys@.len() - i,
        {
            let ghost before = gone@;
            if find_plan(wanted, &keys[i]) == wanted.len() {
                gone.push(keys[i].duplicate());
                proof {
                    lemma_views_pushed(before, gone@.last());
                    assert(gone@ =~= before.push(gone@.last()));
                }
            }
            i = i + 1;
        }
        let ghost kept = self@.restart_kept(plans);
        self.restart_after.remove_all(&gone);
        proof {
            let names = crate::table::key_views(gone@);
            assert forall|k: Seq<char>| self@.restart.dom().contains(k) <==> kept.dom().contains(
                k,
            ) by {
                if old(self)@.restart.dom().contains(k) {
                    if names.contains(k) {
                        let j = choose|j: int| 0 <= j < names.len() && names[j] == k;
                        assert(gone@[j]@ == k);
                    }
                    if crate::capture_plan::plan_for(plans, k) is None {
                        let j = choose|j: int| 0 <= j < keys@.len() && (#[trigger] keys@[j])@ == k;
                        assert(names.contains(keys@[j]@));
                    }
                }
            }
            assert(self@.restart =~= kept);
        }
    }

    /// Whether a blocked touchpad is still wanted as it was blocked.
    fn stays_blocked(&self, key: &PhysicalDeviceKey, wanted: &Vec<DeviceCapturePlan>) -> (stays:
        bool)
        requires
            self@.blocked.dom().contains(key@),
        ensures
            stays == self@.still_blocked(key@, crate::capture_plan::plan_models(wanted@)),
    {
        let blocked: &BlockedTouchpad = self.blocked_touchpads.get(key).unwrap();
        let ghost plans = crate::capture_plan::plan_models(wanted@);
        let mut i: usize = 0;
        while i < wanted.len()
            invariant
                i <= wanted@.len(),
                plans == crate::capture_plan::plan_models(wanted@),
                blocked@ == self@.blocked[key@],
                forall|j: int|
                    0 <= j < i ==> !((#[trigger] plans[j]).target.key == key@ && plans[j].target
                        == blocked@.target),
            decreases wanted@.len() - i,
        {
            assert(plans[i as int] == wanted@[i as int]@);
            if wanted[i].target.physical_key.same(key) && wanted[i].target.same(&blocked.target) {
                return true;
            }
            i = i + 1;
        }
        false
    }

    /// Unblocks touchpads whose plan has changed; returns their configuration keys.
    fn retain_blocked(&mut self, wanted: &Vec<DeviceCapturePlan>) -> (cleared: Vec<String>)
        ensures
            final(self)@ == (ManagerModel {
                blocked: old(self)@.blocked_kept(crate::capture_plan::plan_models(wanted@)),
                ..old(self)@
            }),
            final(self).routes() == old(self).routes(),
            old(self)@.clears(crate::capture_plan::plan_models(wanted@), cleared@),
    {
        let keys: Vec<PhysicalDeviceKey> = self.blocked_touchpads.keys();
        let ghost plans = crate::capture_plan::plan_models(wanted@);
        let ghost start = self@;
        let mut gone: Vec<PhysicalDeviceKey> = Vec::new();
        let mut cleared: Vec<String> = Vec::new();
        let mut i: usize = 0;
        proof {
            assert(start.blocked.dom() =~= self.blocked_touchpads@.dom());
        }
        while i < keys.len()
            invariant
                i <= keys@.len(),
                plans == crate::capture_plan::plan_models(wanted@),
                start == self@,
                start == old(self)@,
                *self == *old(self),
                forall|j: int|
                    0 <= j < keys@.len() ==> start.blocked.dom().contains((#[trigger] keys@[j])@),
                forall|j: int, k: int|
                    0 <= j < k < keys@.len() ==> (#[trigger] keys@[j])@ != (#[trigger] keys@[k])@,
                gone@.len() == cleared@.len(),
                gone@.len() <= i,
                forall|j: int|
                    0 <= j < gone@.len() ==> {
                        &&& start.blocked.dom().contains((#[trigger] gone@[j])@)
                        &&& !start.still_blocked(gone@[j]@, plans)
                        &&& cleared@[j]@ == start.blocked[gone@[j]@].config_key
                        &&& exists|k: int| 0 <= k < i && (#[trigger] keys@[k])@ == gone@[j]@
                    },
                forall|j: int, k: int|
                    0 <= j < k < gone@.len() ==> (#[trigger] gone@[j])@ != (#[trigger] gone@[k])@,
                forall|j: int|
                    0 <= j < i && !start.still_blocked((#[trigger] keys@[j])@, plans)
                        ==> crate::table::key_views(gone@).contains(keys@[j]@),
            decreases keys@.len() - i,
        {
            let ghost before = gone@;
            if !self.stays_blocked(&keys[i], wanted) {
                let blocked: &BlockedTouchpad = self.blocked_touchpads.get(&keys[i]).unwrap();
                cleared.push(blocked.config_key.clone());
                gone.push(keys[i].duplicate());
                proof {
                    lemma_views_pushed(before, gone@.last());
                    assert(gone@ =~= before.push(gone@.last()));
                    assert(keys@[i as int]@ == gone@.last()@);
                    assert forall|j: int| 0 <= j < before.len() implies (#[trigger] gone@[j])@
                        != gone@.last()@ by {
                        let k = choose|k: int| 0 <= k < i && (#[trigger] keys@[k])@ == gone@[j]@;
                        assert(keys@[k]@ != keys@[i as int]@);
                    }
                }
            }
            i = i + 1;
        }
        let ghost kept = self@.blocked_kept(plans);
        self.blocked_touchpads.remove_all(&gone);
        proof {
            let names = crate::table::key_views(gone@);
            assert forall|k: Seq<char>| self@.blocked.dom().contains(k) <==> kept.dom().contains(
                k,
            ) by {
                if start.blocked.dom().contains(k) {
                    if names.contains(k) {
                        let j = choose|j: int| 0 <= j < names.len() && names[j] == k;
                        assert(gone@[j]@ == k);
                    }
                    if !start.still_blocked(k, plans) {
                        let j = choose|j: int| 0 <= j < keys@.len() && (#[trigger] keys@[j])@ == k;
                        assert(names.contains(keys@[j]@));
                    }
                }
            }
            assert(self@.blocked =~= kept);
            let listed = key_names(gone@);
            let removed = start.unblocked(plans);
            assert forall|k: Seq<char>| #[trigger] removed.contains(k) implies exists|j: int|
                0 <= j < gone@.len() && (#[trigger] gone@[j])@ == k by {
                let j = choose|j: int| 0 <= j < keys@.len() && (#[trigger] keys@[j])@ == k;
                assert(names.contains(keys@[j]@));
                let m = choose|m: int| 0 <= m < names.len() && names[m] == k;
                assert(gone@[m]@ == k);
            }
            lemma_key_names(gone@, removed);
            assert(lists_exactly(listed, removed));
            assert forall|j: int| 0 <= j < listed.len() implies (#[trigger] cleared@[j])@
                == start.blocked[listed[j]].config_key by {
                assert(listed[j] == gone@[j]@);
            }
        }
        cleared
    }
}

proof fn lemma_views_pushed(keys: Seq<PhysicalDeviceKey>, key: PhysicalDeviceKey)
    ensures
        crate::table::key_views(keys.push(key)).contains(key@),
        forall|name: Seq<char>| #[trigger]
            crate::table::key_views(keys).contains(name) ==> crate::table::key_views(
                keys.push(key),
            ).contains(name),
{
    let longer = crate::table::key_views(keys.push(key));
    assert(longer[keys.len() as int] == key@);
    assert forall|name: Seq<char>| #[trigger]
        crate::table::key_views(keys).contains(name) implies longer.contains(name) by {
        let shorter = crate::table::key_views(keys);
        let j = choose|j: int| 0 <= j < shorter.len() && shorter[j] == name;
        assert(longer[j] == name);
    }
}

/// What reconciling with the wanted plans begins with.
pub struct ReconcileStart {
    /// What became of each tracked session.
    pub changes: Vec<SessionChange>,
    /// Configuration keys of touchpads that are not in conflict any more.
    pub cleared_conflicts: Vec<String>,
    /// Whether a pending restore is due.
    pub restore_due: bool,
}

impl ManagerModel {
    /// Whether a pending restore is due.
    pub open spec fn restore_due(self, now_ms: u64) -> bool {
        exists|key: Seq<char>| #[trigger]
            self.pending.dom().contains(key) && self.pending[key] <= now_ms
    }

    /// The devices whose pending restore is due.
    pub open spec fn due(self, now_ms: u64) -> Set<Seq<char>> {
        self.pending.dom().filter(|key: Seq<char>| self.pending[key] <= now_ms)
    }

    /// The manager once its sessions, in some order, restarts and blocked touchpads were
    /// reconciled with the wanted plans.
    pub open spec fn reconciled(self, keys: Seq<Seq<char>>, wanted: Seq<PlanModel>) -> (
        ManagerModel,
        Seq<ChangeModel>,
    ) {
        let (next, changes) = self.reconciled_all(keys, wanted);
        (
            ManagerModel {
                restart: self.restart_kept(wanted),
                blocked: self.blocked_kept(wanted),
                ..next
            },
            changes,
        )
    }
}

/// Reconciling sessions leaves everything else but the dispatcher alone.
proof fn lemma_reconciling_keeps(state: ManagerModel, keys: Seq<Seq<char>>, wanted: Seq<PlanModel>)
    ensures
        ({
            let next = state.reconciled_all(keys, wanted).0;
            &&& next.pending == state.pending
            &&& next.restart == state.restart
            &&& next.blocked == state.blocked
            &&& next.next_epoch == state.next_epoch
        }),
    decreases keys.len(),
{
    if keys.len() > 0 {
        lemma_reconciling_keeps(state, keys.drop_last(), wanted);
    }
}

impl GestureManagerState {
    /// Reconciles the tracked sessions, restarts and blocked touchpads with the wanted plans.
    /// Pending restores come next, then [`Self::start_sessions`].
    pub fn begin_reconcile(&mut self, wanted: &Vec<DeviceCapturePlan>, now_ms: u64) -> (start:
        ReconcileStart)
        ensures
            exists|keys: Seq<Seq<char>>|
                lists_exactly(keys, old(self)@.sessions.dom()) && (
                    final(self)@,
                    change_models(start.changes@),
                ) == #[trigger] old(self)@.reconciled(
                    keys,
                    crate::capture_plan::plan_models(wanted@),
                ),
            old(self)@.clears(
                crate::capture_plan::plan_models(wanted@),
                start.cleared_conflicts@,
            ),
            start.restore_due == old(self)@.restore_due(now_ms),
            final(self).routes() == old(self).routes(),
    {
        let ghost plans = crate::capture_plan::plan_models(wanted@);
        let changes: Vec<SessionChange> = self.reconcile_sessions(wanted);
        let ghost keys = choose|keys: Seq<Seq<char>>|
            lists_exactly(keys, old(self)@.sessions.dom()) && (self@, change_models(changes@))
                == #[trigger] old(self)@.reconciled_all(keys, plans);
        proof {
            lemma_reconciling_keeps(old(self)@, keys, plans);
        }
        let ghost middle = self@;
        self.retain_restarts(wanted);
        let ghost later = self@;
        let cleared_conflicts: Vec<String> = self.retain_blocked(wanted);
        proof {
            assert(middle.restart_kept(plans) == old(self)@.restart_kept(plans));
            assert forall|key: Seq<char>| later.still_blocked(key, plans) == old(
                self,
            )@.still_blocked(key, plans) by {}
            assert(later.blocked_kept(plans) =~= old(self)@.blocked_kept(plans));
            let cleared = cleared_conflicts@;
            assert(later.unblocked(plans) =~= old(self)@.unblocked(plans));
            let listed = choose|listed: Seq<Seq<char>>| #[trigger]
                lists_exactly(listed, later.unblocked(plans)) && listed.len() == cleared.len()
                    && forall|j: int|
                    0 <= j < listed.len() ==> (#[trigger] cleared[j])@
                        == later.blocked[listed[j]].config_key;
            assert(lists_exactly(listed, old(self)@.unblocked(plans)));
            assert((self@, change_models(changes@)) == old(self)@.reconciled(keys, plans));
        }
        let restore_due: bool = self.has_due_restore(now_ms);
        proof {
            assert(self@.pending == old(self)@.pending);
            if self@.restore_due(now_ms) {
                let key = choose|key: Seq<char>| #[trigger]
                    self@.pending.dom().contains(key) && self@.pending[key] <= now_ms;
                assert(old(self)@.pending.dom().contains(key));
            }
            if old(self)@.restore_due(now_ms) {
                let key = choose|key: Seq<char>| #[trigger]
                    old(self)@.pending.dom().contains(key) && old(self)@.pending[key] <= now_ms;
                assert(self@.pending.dom().contains(key));
            }
        }
        ReconcileStart { changes, cleared_conflicts, restore_due }
    }

    /// Whether a pending restore is due.
    pub fn has_due_restore(&self, now_ms: u64) -> (due: bool)
        ensures
            due == self@.restore_due(now_ms),
    {
        let keys: Vec<PhysicalDeviceKey> = self.due_restores(now_ms);
        proof {
            let names = key_names(keys@);
            if keys@.len() > 0 {
                assert(names.contains(names[0]));
                assert(self@.due(now_ms).contains(names[0]));
                assert(self@.pending.dom().contains(names[0]));
            }
            if self@.restore_due(now_ms) {
                let key = choose|key: Seq<char>| #[trigger]
                    self@.pending.dom().contains(key) && self@.pending[key] <= now_ms;
                assert(self@.due(now_ms).contains(key));
                assert(names.contains(key));
            }
        }
        keys.len() > 0
    }

    /// The devices whose pending restore is due.
    pub fn due_restores(&self, now_ms: u64) -> (keys: Vec<PhysicalDeviceKey>)
        ensures
            lists_exactly(key_names(keys@), self@.due(now_ms)),
    {
        let all: Vec<PhysicalDeviceKey> = self.pending_restores.keys();
        let mut keys: Vec<PhysicalDeviceKey> = Vec::new();
        let mut i: usize = 0;
        while i < all.len()
            invariant
                i <= all@.len(),
                forall|j: int|
                    0 <= j < all@.len() ==> self@.pending.dom().contains((#[trigger] all@[j])@),
                forall|j: int, k: int|
                    0 <= j < k < all@.len() ==> (#[trigger] all@[j])@ != (#[trigger] all@[k])@,
                forall|j: int|
                    0 <= j < keys@.len() ==> {
                        &&& self@.due(now_ms).contains((#[trigger] keys@[j])@)
                        &&& exists|k: int| 0 <= k < i && (#[trigger] all@[k])@ == keys@[j]@
                    },
                forall|j: int, k: int|
                    0 <= j < k < keys@.len() ==> (#[trigger] keys@[j])@ != (#[trigger] keys@[k])@,
                forall|j: int|
                    0 <= j < i && self@.due(now_ms).contains((#[trigger] all@[j])@) ==> exists|
                        k: int,
                    |
                        0 <= k < keys@.len() && (#[trigger] keys@[k])@ == all@[j]@,
            decreases all@.len() - i,
        {
            let ghost before = keys@;
            let at: u64 = *self.pending_restores.get(&all[i]).unwrap();
            if at <= now_ms {
                keys.push(all[i].duplicate());
                proof {
                    assert(keys@.last()@ == all@[i as int]@);
                    assert forall|j: int| 0 <= j < before.len() implies (#[trigger] keys@[j])@
                        != keys@.last()@ by {
                        assert(keys@[j] == before[j]);
                        let k = choose|k: int| 0 <= k < i && (#[trigger] all@[k])@ == before[j]@;
                        assert(all@[k]@ != all@[i as int]@);
                    }
                    assert forall|j: int|
                        0 <= j < i + 1 && self@.due(now_ms).contains(
                            (#[trigger] all@[j])@,
                        ) implies exists|k: int|
                        0 <= k < keys@.len() && (#[trigger] keys@[k])@ == all@[j]@ by {
                        if j < i {
                            let k = choose|k: int|
                                0 <= k < before.len() && (#[trigger] before[k])@ == all@[j]@;
                            assert(keys@[k]@ == all@[j]@);
                        } else {
                            assert(keys@[before.len() as int]@ == all@[j]@);
                        }
                    }
                }
            }
            i = i + 1;
        }
        proof {
            let due = self@.due(now_ms);
            assert forall|k: Seq<char>| #[trigger] due.contains(k) implies exists|j: int|
                0 <= j < keys@.len() && (#[trigger] keys@[j])@ == k by {
                let j = choose|j: int| 0 <= j < all@.len() && (#[trigger] all@[j])@ == k;
                assert(due.contains(all@[j]@));
            }
            lemma_key_names(keys@, due);
        }
        keys
    }

    /// Hands back how retrying a restore went.
    pub fn restore_retried(&mut self, key: &PhysicalDeviceKey, still_pending: bool, now_ms: u64)
        ensures
            final(self)@ == (ManagerModel {
                pending: if still_pending {
                    old(self)@.pending.insert(key@, after_delay(now_ms))
                } else {
                    old(self)@.pending.remove(key@)
                },
                ..old(self)@
            }),
            final(self).routes() == old(self).routes(),
    {
        if still_pending {
            self.pending_restores.insert(key.duplicate(), retry_at(now_ms));
        } else {
            let _ = self.pending_restores.take(key);
        }
    }

    /// Whether a session would start for a wanted plan if the receiver can be had.
    pub fn wants_start(&self, plan: &DeviceCapturePlan, now_ms: u64) -> (wants: bool)
        ensures
            wants == (!self@.is_taken(plan@) && !self@.is_delayed(plan@.target.key, now_ms)),
    {
        let key: &PhysicalDeviceKey = &plan.target.physical_key;
        let blocked: bool = match self.blocked_touchpads.get(key) {
            Some(blocked) => blocked.target.same(&plan.target),
            None => false,
        };
        let delayed: bool = match self.restart_after.get(key) {
            Some(deadline) => *deadline > now_ms,
            None => false,
        };
        !(self.sessions.contains_key(key) || self.pending_restores.contains_key(key) || blocked
            || delayed)
    }

    /// Starts a session for every wanted plan that nothing stands in the way of, or delays it
    /// where the receiver cannot be had for it.
    pub fn start_sessions(
        &mut self,
        wanted: &Vec<DeviceCapturePlan>,
        now_ms: u64,
        leases: &[bool],
    ) -> (starts: Vec<SessionStart>)
        ensures
            (final(self)@, start_models(starts@)) == old(self)@.considered_all(
                crate::capture_plan::plan_models(wanted@),
                now_ms,
                leases@,
            ),
            final(self).routes() == old(self).routes(),
    {
        let ghost plans = crate::capture_plan::plan_models(wanted@);
        let mut starts: Vec<SessionStart> = Vec::new();
        let mut i: usize = 0;
        assert(plans.take(0) =~= Seq::empty());
        assert(start_models(starts@) =~= Seq::<StartModel>::empty());
        while i < wanted.len()
            invariant
                i <= wanted@.len(),
                plans == crate::capture_plan::plan_models(wanted@),
                (self@, start_models(starts@)) == old(self)@.considered_all(
                    plans.take(i as int),
                    now_ms,
                    leases@,
                ),
                self.routes() == old(self).routes(),
            decreases wanted@.len() - i,
        {
            let ghost before = starts@;
            proof {
                assert(plans.take(i as int + 1).drop_last() =~= plans.take(i as int));
                assert(plans.take(i as int + 1).last() == wanted@[i as int]@);
            }
            let lease: bool = i < leases.len() && leases[i];
            if let Some(session) = self.consider(&wanted[i], now_ms, lease) {
                starts.push(SessionStart { session, plan: wanted[i].duplicate() });
                assert(start_models(starts@) =~= start_models(before).push(starts@.last()@));
            }
            i = i + 1;
        }
        assert(plans.take(i as int) =~= plans);
        starts
    }

    fn consider(&mut self, plan: &DeviceCapturePlan, now_ms: u64, lease: bool) -> (session: Option<
        HidppSessionId,
    >)
        ensures
            final(self)@ == old(self)@.considered(plan@, now_ms, lease).0,
            match session {
                Some(session) => old(self)@.considered(plan@, now_ms, lease).1 == Some(session@),
                None => old(self)@.considered(plan@, now_ms, lease).1 is None,
            },
            final(self).routes() == old(self).routes(),
    {
        let key: &PhysicalDeviceKey = &plan.target.physical_key;
        if !self.wants_start(plan, now_ms) {
            return None;
        }
        if !lease {
            self.restart_after.insert(key.duplicate(), retry_at(now_ms));
            return None;
        }
        let _ = self.restart_after.take(key);
        let id: HidppSessionId = HidppSessionId::with_epoch(
            plan.dispatch.config_key.as_str(),
            self.next_epoch,
        );
        self.next_epoch = if self.next_epoch == u64::MAX {
            0
        } else {
            self.next_epoch + 1
        };
        let session: RunningSession = RunningSession::active(id.duplicate(), plan.duplicate());
        self.sessions.insert(key.duplicate(), session);
        assert(self@.sessions =~= old(self)@.considered(plan@, now_ms, lease).0.sessions);
        Some(id)
    }

    /// Dispatches an input of a capture session. The tracked session first catches up with the
    /// latest publication, so that no input slips in between a plan change and its notification.
    pub fn handle_input(
        &mut self,
        key: &PhysicalDeviceKey,
        session: &HidppSessionId,
        input: &CapturedInput,
        exclusive: bool,
        published: Option<&PublishedPlan>,
        moment: Moment,
    ) -> (handling: InputHandling)
        requires
            ({
                let model = match published {
                    Some(published) => Some(published@),
                    None => None,
                };
                let live = old(self)@.caught_up(key@, exclusive, model).0;
                input matches CapturedInput::TouchpadFrame(frame) ==> live.admits(key@, session@)
                    ==> crate::dispatch::touchpad_of(
                    live.dispatcher.touchpads,
                    live.sessions[key@].id,
                ).stream is Some ==> frame@.contacts.len() > 0
            }),
        ensures
            ({
                let model = match published {
                    Some(published) => Some(published@),
                    None => None,
                };
                let (live, change) = old(self)@.caught_up(key@, exclusive, model);
                let (next, target, commands) = live.routed(
                    key@,
                    session@,
                    input@,
                    old(self)@.input_context(key@, exclusive, model, moment),
                );
                &&& final(self)@ == next
                &&& final(self).routes() == old(self).routes()
                &&& match handling.change {
                    Some(c) => change == Some(c@),
                    None => change is None,
                }
                &&& handling.dispatched == live.admits(key@, session@)
                &&& handling.session@ == target
                &&& handling.commands@ == commands
            }),
    {
        let ghost model = match published {
            Some(published) => Some(published@),
            None => None,
        };
        let mut change: Option<SessionChange> = None;
        let mut touchpad_actions_enabled: bool = false;
        if self.sessions.contains_key(key) {
            let mut wanted: Option<DeviceCapturePlan> = None;
            if !exclusive {
                if let Some(published) = published {
                    touchpad_actions_enabled = published.plan.target.spec.capture_touchpad;
                    wanted = effective_plan(published);
                }
            }
            change = Some(self.reconcile_session(key, wanted.as_ref()));
        }
        let ghost live = self@;
        assert(live == old(self)@.caught_up(key@, exclusive, model).0);
        let context: DispatchContext = DispatchContext {
            touchpad_actions_enabled,
            native_streaming: moment.native_streaming,
            now_ms: moment.now_ms,
        };
        match self.sessions.get(key) {
            Some(running) => {
                if running.owns(session) {
                    let id: HidppSessionId = running.id().duplicate();
                    let commands: Vec<Command> = self.input_dispatcher.dispatch(
                        &id,
                        running.dispatch(),
                        input,
                        context,
                    );
                    assert(self@.sessions =~= live.sessions);
                    return InputHandling { change, dispatched: true, session: id, commands };
                }
            },
            None => {},
        }
        let commands: Vec<Command> = self.input_dispatcher.cancel_session(session);
        InputHandling { change, dispatched: false, session: session.duplicate(), commands }
    }

    /// Whether the tracked session of a device streams a swipe; a frame without fingers must not
    /// reach it then.
    pub fn is_streaming(&self, key: &PhysicalDeviceKey) -> (streaming: bool)
        ensures
            streaming == (self@.sessions.dom().contains(key@) && crate::dispatch::touchpad_of(
                self@.dispatcher.touchpads,
                self@.sessions[key@].id,
            ).stream is Some),
    {
        match self.sessions.get(key) {
            Some(running) => self.input_dispatcher.is_streaming(running.id()),
            None => false,
        }
    }

    /// Hands back how a gesture source's press was admitted.
    pub fn press_admitted(
        &mut self,
        session: &HidppSessionId,
        button: ButtonId,
        press: Option<PressToken>,
    )
        ensures
            final(self)@ == (ManagerModel {
                dispatcher: old(self)@.dispatcher.admitted(session@, button, press),
                ..old(self)@
            }),
            final(self).routes() == old(self).routes(),
    {
        self.input_dispatcher.press_admitted(session, button, press);
    }

    /// Hands back that a swipe's animation could not be opened; what to carry out instead.
    pub fn dock_swipe_failed(&mut self, session: &HidppSessionId) -> (commands: Vec<Command>)
        ensures
            commands@ == old(self)@.dispatcher.fallback_commands(session@),
            final(self)@ == (ManagerModel {
                dispatcher: old(self)@.dispatcher.unstreamed(session@),
                ..old(self)@
            }),
            final(self).routes() == old(self).routes(),
    {
        self.input_dispatcher.dock_swipe_failed(session)
    }

    /// Takes note that a capture session completed.
    pub fn handle_done(
        &mut self,
        key: &PhysicalDeviceKey,
        session: &HidppSessionId,
        restore_pending: bool,
        failure: SessionFailure,
        now_ms: u64,
    ) -> (handling: DoneHandling)
        ensures
            handling.removed == old(self)@.completes(key@, session@),
            final(self).routes() == old(self).routes(),
            !handling.removed ==> {
                &&& final(self)@ == old(self)@
                &&& handling.conflict is None
                &&& handling.session is None
                &&& handling.commands@.len() == 0
            },
            handling.removed ==> {
                let running = old(self)@.sessions[key@];
                &&& final(self)@ == old(self)@.completed(key@, restore_pending, failure, now_ms)
                &&& handling.conflict is Some <==> failure is RawModeConflict
                &&& handling.conflict matches Some(config_key) ==> config_key@
                    == running.dispatch.config_key
                &&& handling.session matches Some(id) && id@ == running.id
                &&& handling.commands@ == old(self)@.dispatcher.cancel_commands(running.id)
            },
    {
        let completed: bool = match self.sessions.get(key) {
            Some(running) => match running.completion(session) {
                CompletionAction::Remove { .. } => true,
                CompletionAction::Ignore => false,
            },
            None => false,
        };
        if !completed {
            return DoneHandling {
                removed: false,
                conflict: None,
                session: None,
                commands: Vec::new(),
            };
        }
        let running: RunningSession = self.sessions.take(key).unwrap();
        let id: HidppSessionId = running.id().duplicate();
        if restore_pending {
            self.pending_restores.insert(key.duplicate(), retry_at(now_ms));
        }
        let mut conflict: Option<String> = None;
        let in_conflict: bool = match failure {
            SessionFailure::RawModeConflict { .. } => true,
            _ => false,
        };
        if in_conflict {
            let config_key: String = running.dispatch().config_key.clone();
            self.blocked_touchpads.insert(
                key.duplicate(),
                BlockedTouchpad { target: running.target().duplicate(), config_key },
            );
            conflict = Some(running.dispatch().config_key.clone());
        }
        let recovered: bool = failure == SessionFailure::Clean && running.target().spec.mode
            == CaptureSessionMode::TouchpadRecovery;
        let commands: Vec<Command> = self.input_dispatcher.cancel_session(&id);
        if !running.stopping && !recovered && !in_conflict {
            self.restart_after.insert(key.duplicate(), retry_at(now_ms));
        }
        proof {
            let next = old(self)@.completed(key@, restore_pending, failure, now_ms);
            assert(self@.sessions =~= next.sessions);
            assert(self@.blocked =~= next.blocked);
        }
        DoneHandling { removed: true, conflict, session: Some(id), commands }
    }

    /// Begins the shutdown: no restarts, and every session is asked to stop.
    pub fn begin_shutdown(&mut self) -> (changes: Vec<SessionChange>)
        ensures
            exists|keys: Seq<Seq<char>>|
                lists_exactly(keys, old(self)@.sessions.dom()) && (
                    final(self)@,
                    change_models(changes@),
                ) == #[trigger] old(self)@.shut_down(keys),
            final(self).routes() == old(self).routes(),
    {
        self.restart_after.clear();
        let ghost start = self@;
        let keys: Vec<PhysicalDeviceKey> = self.sessions.keys();
        let ghost names = key_names(keys@);
        proof {
            lemma_key_names(keys@, self.sessions@.dom());
            assert(self@.sessions.dom() =~= self.sessions@.dom());
            assert(start == (ManagerModel { restart: Map::empty(), ..old(self)@ }));
        }
        let mut changes: Vec<SessionChange> = Vec::new();
        let mut i: usize = 0;
        assert(names.take(0) =~= Seq::empty());
        assert(change_models(changes@) =~= Seq::<ChangeModel>::empty());
        while i < keys.len()
            invariant
                i <= keys@.len(),
                names == key_names(keys@),
                self@.sessions.dom() == start.sessions.dom(),
                lists_exactly(names, start.sessions.dom()),
                (self@, change_models(changes@)) == start.stopped_all(names.take(i as int)),
                self.routes() == old(self).routes(),
            decreases keys@.len() - i,
        {
            let ghost before = changes@;
            let ghost prior = self@;
            proof {
                assert(names.take(i as int + 1).drop_last() =~= names.take(i as int));
                assert(names.take(i as int + 1).last() == keys@[i as int]@);
                assert(names.contains(names[i as int]));
            }
            let mut session: RunningSession = self.sessions.take(&keys[i]).unwrap();
            let id: HidppSessionId = session.id().duplicate();
            let commands: Vec<Command> = self.input_dispatcher.cancel_session(&id);
            let action: ReconcileAction = session.reconcile(None);
            self.sessions.insert(keys[i].duplicate(), session);
            let change: SessionChange = SessionChange {
                key: keys[i].duplicate(),
                session: id,
                action,
                commands,
            };
            changes.push(change);
            proof {
                let (next, expected) = prior.stopped_one(keys@[i as int]@);
                assert(self@.sessions =~= next.sessions);
                assert(change@ =~= expected);
                assert(change_models(changes@) =~= change_models(before).push(change@));
                assert(self@.sessions.dom() =~= prior.sessions.dom());
            }
            i = i + 1;
        }
        assert(names.take(i as int) =~= names);
        assert((self@, change_models(changes@)) == old(self)@.shut_down(names));
        changes
    }

    /// When the manager has to act next if nothing happens before; never while another owner asks
    /// for exclusive access.
    pub fn deadline(&self, exclusive: bool) -> (at: Option<u64>)
        ensures
            match at {
                Some(at) => !exclusive && self@.is_earliest(at),
                None => exclusive || self@.nothing_due(),
            },
    {
        if exclusive {
            return None;
        }
        let restore: Option<u64> = earliest(&self.pending_restores);
        let restart: Option<u64> = earliest(&self.restart_after);
        proof {
            if restore is Some {
                let key = choose|key: Seq<char>| #[trigger]
                    self@.pending.dom().contains(key) && self@.pending[key] == restore->0;
                assert(self@.pending.dom().contains(key));
            }
            if restart is Some {
                let key = choose|key: Seq<char>| #[trigger]
                    self@.restart.dom().contains(key) && self@.restart[key] == restart->0;
                assert(self@.restart.dom().contains(key));
            }
        }
        match (restore, restart) {
            (Some(a), Some(b)) => if a <= b {
                Some(a)
            } else {
                Some(b)
            },
            (Some(a), None) => Some(a),
            (None, Some(b)) => Some(b),
            (None, None) => None,
        }
    }

    /// Makes every pending restore due now.
    pub fn expedite_pending_restores(&mut self, now_ms: u64)
        ensures
            final(self)@ == (ManagerModel {
                pending: old(self)@.pending.map_values(|at: u64| now_ms),
                ..old(self)@
            }),
            final(self).routes() == old(self).routes(),
    {
        let keys: Vec<PhysicalDeviceKey> = self.pending_restores.keys();
        let ghost start = self@.pending;
        let mut i: usize = 0;
        while i < keys.len()
            invariant
                i <= keys@.len(),
                start == old(self)@.pending,
                self@ == (ManagerModel { pending: self@.pending, ..old(self)@ }),
                self.routes() == old(self).routes(),
                self@.pending.dom() == start.dom(),
                forall|j: int| 0 <= j < keys@.len() ==> start.dom().contains((#[trigger] keys@[j])@),
                forall|j: int| 0 <= j < i ==> self@.pending[(#[trigger] keys@[j])@] == now_ms,
            decreases keys@.len() - i,
        {
            self.pending_restores.insert(keys[i].duplicate(), now_ms);
            assert(self@.pending.dom() =~= start.dom());
            i = i + 1;
        }
        proof {
            let expected = start.map_values(|at: u64| now_ms);
            assert forall|k: Seq<char>| start.dom().contains(k) implies self@.pending[k]
                == now_ms by {
                let j = choose|j: int| 0 <= j < keys@.len() && (#[trigger] keys@[j])@ == k;
                assert(self@.pending[keys@[j]@] == now_ms);
            }
            assert(self@.pending =~= expected);
        }
    }

    /// Puts every due restore off by the retry delay.
    pub fn defer_due_pending_restores(&mut self, now_ms: u64)
        ensures
            final(self)@ == (ManagerModel {
                pending: old(self)@.pending.map_values(
                    |at: u64|
                        if at <= now_ms {
                            after_delay(now_ms)
                        } else {
                            at
                        },
                ),
                ..old(self)@
            }),
            final(self).routes() == old(self).routes(),
    {
        let keys: Vec<PhysicalDeviceKey> = self.due_restores(now_ms);
        let ghost start = self@.pending;
        let ghost names = key_names(keys@);
        let ghost due = self@.due(now_ms);
        let mut i: usize = 0;
        while i < keys.len()
            invariant
                i <= keys@.len(),
                start == old(self)@.pending,
                names == key_names(keys@),
                due == old(self)@.due(now_ms),
                lists_exactly(names, due),
                self@ == (ManagerModel { pending: self@.pending, ..old(self)@ }),
                self.routes() == old(self).routes(),
                self@.pending.dom() == start.dom(),
                forall|k: Seq<char>| #[trigger]
                    start.dom().contains(k) ==> self@.pending[k] == (if names.take(
                        i as int,
                    ).contains(k) {
                        after_delay(now_ms)
                    } else {
                        start[k]
                    }),
            decreases keys@.len() - i,
        {
            let ghost prior = self@.pending;
            let ghost name = names[i as int];
            proof {
                assert(names.contains(name));
                assert(due.contains(name));
                assert(name == keys@[i as int]@);
            }
            self.pending_restores.insert(keys[i].duplicate(), retry_at(now_ms));
            proof {
                assert(self@.pending.dom() =~= start.dom());
                let (shorter, longer) = (names.take(i as int), names.take(i as int + 1));
                assert(longer =~= shorter.push(name));
                assert forall|k: Seq<char>| #[trigger] start.dom().contains(k) implies self@.pending[k]
                    == (if longer.contains(k) {
                    after_delay(now_ms)
                } else {
                    start[k]
                }) by {
                    assert(longer[i as int] == name);
                    if shorter.contains(k) {
                        let j = choose|j: int| 0 <= j < shorter.len() && shorter[j] == k;
                        assert(longer[j] == k);
                    }
                    if longer.contains(k) && k != name {
                        let j = choose|j: int| 0 <= j < longer.len() && longer[j] == k;
                        assert(shorter[j] == k);
                    }
                }
            }
            i = i + 1;
        }
        proof {
            assert(names.take(i as int) =~= names);
            assert(self@.pending =~= start.map_values(
                |at: u64|
                    if at <= now_ms {
                        after_delay(now_ms)
                    } else {
                        at
                    },
            )) by {
                assert forall|k: Seq<char>| start.dom().contains(k) implies (names.contains(k)
                    <==> start[k] <= now_ms) by {
                    assert(due.contains(k) <==> start[k] <= now_ms);
                }
            }
        }
    }

    /// Whether any session is tracked.
    pub fn has_sessions(&self) -> (any: bool)
        ensures
            any == (self@.sessions != Map::<Seq<char>, SessionModel>::empty()),
    {
        proof {
            assert(self@.sessions.dom() =~= self.sessions@.dom());
            if self@.sessions == Map::<Seq<char>, SessionModel>::empty() {
                assert(self.sessions@ =~= Map::<Seq<char>, RunningSession>::empty());
            }
            if self.sessions@ == Map::<Seq<char>, RunningSession>::empty() {
                assert(self@.sessions =~= Map::<Seq<char>, SessionModel>::empty());
            }
        }
        !self.sessions.is_empty()
    }

    /// Whether any restore is pending.
    pub fn has_pending_restores(&self) -> (any: bool)
        ensures
            any == (self@.pending != Map::<Seq<char>, u64>::empty()),
    {
        !self.pending_restores.is_empty()
    }
}

/// The earliest time in a table.
fn earliest(times: &Table<PhysicalDeviceKey, u64>) -> (at: Option<u64>)
    ensures
        match at {
            Some(at) => {
                &&& exists|key: Seq<char>| #[trigger]
                    times@.dom().contains(key) && times@[key] == at
                &&& forall|key: Seq<char>| #[trigger]
                    times@.dom().contains(key) ==> at <= times@[key]
            },
            None => times@ == Map::<Seq<char>, u64>::empty(),
        },
{
    let keys: Vec<PhysicalDeviceKey> = times.keys();
    if keys.len() == 0 {
        assert(times@ =~= Map::<Seq<char>, u64>::empty());
        return None;
    }
    let mut best: u64 = *times.get(&keys[0]).unwrap();
    let mut i: usize = 1;
    assert(times@.dom().contains(keys@[0]@));
    while i < keys.len()
        invariant
            1 <= i <= keys@.len(),
            forall|j: int|
                0 <= j < keys@.len() ==> times@.dom().contains((#[trigger] keys@[j])@),
            exists|key: Seq<char>| #[trigger] times@.dom().contains(key) && times@[key] == best,
            forall|j: int| 0 <= j < i ==> best <= times@[(#[trigger] keys@[j])@],
        decreases keys@.len() - i,
    {
        let at: u64 = *times.get(&keys[i]).unwrap();
        assert(times@.dom().contains(keys@[i as int]@));
        if at < best {
            best = at;
        }
        i = i + 1;
    }
    assert forall|key: Seq<char>| #[trigger] times@.dom().contains(key) implies best
        <= times@[key] by {
        let j = choose|j: int| 0 <= j < keys@.len() && (#[trigger] keys@[j])@ == key;
        assert(best <= times@[keys@[j]@]);
    }
    Some(best)
}

/// What the manager does after reconciling.
#[derive(Clone, Copy, Debug, PartialEq, Eq, Structural)]
pub enum ManageStep {
    /// Something has become due: reconcile again.
    Reconcile,
    /// Wait for an event, or for the deadline.
    Wait { deadline: Option<u64> },
}

/// Something the manager waits for.
#[derive(Clone, Copy, Debug, PartialEq, Eq, Structural)]
pub enum ManageEvent {
    ShutdownRequested,
    /// An input was handled.
    InputHandled,
    /// A completion was handled, and may have removed its session.
    DoneHandled { removed: bool },
    PlansChanged,
    PlansClosed,
    ExclusiveRequestsChanged,
    ExclusiveRequestsClosed,
    DiagnosticRequestsChanged,
    DiagnosticRequestsClosed,
    /// The set of reachable devices changed.
    RegistryChanged,
    RegistryClosed,
    DeadlineReached,
}

/// What an event asks the manager's loop to do.
#[derive(Clone, Copy, Debug, PartialEq, Eq, Structural)]
pub enum ManageReaction {
    /// Go on, reconciling first or not.
    Continue { reconcile: bool },
    /// Shut down in an orderly way.
    FinishShutdown,
    /// Stop at once.
    Return,
}

/// What an event asks the manager's loop to do.
pub open spec fn reaction_to(event: ManageEvent) -> ManageReaction {
    match event {
        ManageEvent::ShutdownRequested => ManageReaction::FinishShutdown,
        ManageEvent::InputHandled => ManageReaction::Continue { reconcile: false },
        ManageEvent::DoneHandled { removed } => ManageReaction::Continue { reconcile: removed },
        ManageEvent::PlansClosed
        | ManageEvent::ExclusiveRequestsClosed
        | ManageEvent::DiagnosticRequestsClosed
        | ManageEvent::RegistryClosed => ManageReaction::Return,
        _ => ManageReaction::Continue { reconcile: true },
    }
}

/// What the shutdown does next.
#[derive(Clone, Copy, Debug, PartialEq, Eq, Structural)]
pub enum ShutdownStep {
    /// Every session is gone and every restore done.
    Finished,
    /// Retry the due restores, or defer them where the receiver cannot be had.
    RetryRestores,
    /// Wait for an event, or for the deadline.
    Wait { deadline: Option<u64> },
}

/// What an event during shutdown asks for.
#[derive(Clone, Copy, Debug, PartialEq, Eq, Structural)]
pub enum ShutdownReaction {
    Continue,
    /// Stop at once.
    Return,
}

/// Whether an event during shutdown makes every pending restore due: a session is gone, or the
/// devices or their other owners changed.
pub open spec fn expedites_shutdown(event: ManageEvent) -> bool {
    ||| event == (ManageEvent::DoneHandled { removed: true })
    ||| event == ManageEvent::RegistryChanged
    ||| event == ManageEvent::ExclusiveRequestsChanged
}

impl ManagerModel {
    /// The manager with every pending restore due at a time.
    pub open spec fn expedited(self, now_ms: u64) -> ManagerModel {
        ManagerModel { pending: self.pending.map_values(|at: u64| now_ms), ..self }
    }

    /// Whether everything has been shut down.
    pub open spec fn is_shut_down(self) -> bool {
        self.sessions == Map::<Seq<char>, SessionModel>::empty() && self.pending == Map::<
            Seq<char>,
            u64,
        >::empty()
    }
}

impl GestureManagerState {
    /// What to do after reconciling: again, if something has become due meanwhile.
    pub fn next_step(&self, exclusive: bool, now_ms: u64) -> (step: ManageStep)
        ensures
            match step {
                ManageStep::Reconcile => !exclusive && exists|at: u64|
                    at <= now_ms && #[trigger] self@.is_earliest(at),
                ManageStep::Wait { deadline: Some(at) } => !exclusive && at > now_ms
                    && self@.is_earliest(at),
                ManageStep::Wait { deadline: None } => exclusive || self@.nothing_due(),
            },
    {
        let deadline: Option<u64> = self.deadline(exclusive);
        match deadline {
            Some(at) => {
                if at <= now_ms {
                    ManageStep::Reconcile
                } else {
                    ManageStep::Wait { deadline }
                }
            },
            None => ManageStep::Wait { deadline },
        }
    }

    /// Reacts to an event of the manager's loop; a change of the reachable devices makes every
    /// pending restore due.
    pub fn react(&mut self, event: ManageEvent, now_ms: u64) -> (reaction: ManageReaction)
        ensures
            reaction == reaction_to(event),
            final(self)@ == (if event == ManageEvent::RegistryChanged {
                old(self)@.expedited(now_ms)
            } else {
                old(self)@
            }),
            final(self).routes() == old(self).routes(),
    {
        match event {
            ManageEvent::ShutdownRequested => ManageReaction::FinishShutdown,
            ManageEvent::InputHandled => ManageReaction::Continue { reconcile: false },
            ManageEvent::DoneHandled { removed } => ManageReaction::Continue {
                reconcile: removed,
            },
            ManageEvent::PlansChanged
            | ManageEvent::ExclusiveRequestsChanged
            | ManageEvent::DiagnosticRequestsChanged
            | ManageEvent::DeadlineReached => ManageReaction::Continue { reconcile: true },
            ManageEvent::RegistryChanged => {
                self.expedite_pending_restores(now_ms);
                ManageReaction::Continue { reconcile: true }
            },
            ManageEvent::PlansClosed
            | ManageEvent::ExclusiveRequestsClosed
            | ManageEvent::DiagnosticRequestsClosed
            | ManageEvent::RegistryClosed => ManageReaction::Return,
        }
    }

    /// What the shutdown does next.
    pub fn shutdown_step(&self, now_ms: u64) -> (step: ShutdownStep)
        ensures
            step == ShutdownStep::Finished <==> self@.is_shut_down(),
            step == ShutdownStep::RetryRestores <==> !self@.is_shut_down() && self@.restore_due(
                now_ms,
            ),
            step matches ShutdownStep::Wait { deadline } ==> match deadline {
                Some(at) => {
                    &&& exists|key: Seq<char>| #[trigger]
                        self@.pending.dom().contains(key) && self@.pending[key] == at
                    &&& forall|key: Seq<char>| #[trigger]
                        self@.pending.dom().contains(key) ==> at <= self@.pending[key]
                },
                None => self@.pending == Map::<Seq<char>, u64>::empty(),
            },
    {
        if !self.has_sessions() && !self.has_pending_restores() {
            return ShutdownStep::Finished;
        }
        if self.has_due_restore(now_ms) {
            return ShutdownStep::RetryRestores;
        }
        ShutdownStep::Wait { deadline: earliest(&self.pending_restores) }
    }

    /// Reacts to an event during shutdown.
    pub fn react_during_shutdown(&mut self, event: ManageEvent, now_ms: u64) -> (reaction:
        ShutdownReaction)
        ensures
            reaction == (if event == ManageEvent::RegistryClosed || event
                == ManageEvent::ExclusiveRequestsClosed {
                ShutdownReaction::Return
            } else {
                ShutdownReaction::Continue
            }),
            final(self)@ == (if expedites_shutdown(event) {
                old(self)@.expedited(now_ms)
            } else {
                old(self)@
            }),
            final(self).routes() == old(self).routes(),
    {
        match event {
            ManageEvent::DoneHandled { removed: true }
            | ManageEvent::RegistryChanged
            | ManageEvent::ExclusiveRequestsChanged => {
                self.expedite_pending_restores(now_ms);
                ShutdownReaction::Continue
            },
            ManageEvent::RegistryClosed
            | ManageEvent::ExclusiveRequestsClosed => ShutdownReaction::Return,
            _ => ShutdownReaction::Continue,
        }
    }
}

} // verus!
