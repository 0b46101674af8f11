//! Which devices are captured, and how.
use vstd::prelude::*;
use vstd::string::StringExecFns;

use crate::plan::DispatchPlan;
use crate::table::Key;

verus! {

/// Identity of a physical device.
#[derive(Debug, PartialEq, Eq, Hash)]
pub struct PhysicalDeviceKey {
    name: String,
}

impl View for PhysicalDeviceKey {
    type V = Seq<char>;

    closed spec fn view(&self) -> Seq<char> {
        self.name@
    }
}

impl Key for PhysicalDeviceKey {
    fn same(&self, other: &Self) -> (same: bool) {
        self.name == other.name
    }

    fn duplicate(&self) -> (copy: Self) {
        PhysicalDeviceKey { name: self.name.clone() }
    }
}

impl PhysicalDeviceKey {
    /// The key of a name.
    pub fn new(name: &str) -> (key: Self)
        ensures
            key@ == name@,
    {
        PhysicalDeviceKey { name: String::from_str(name) }
    }

    /// The key as text.
    pub fn as_str(&self) -> (name: &str)
        ensures
            name@ == self@,
    {
        self.name.as_str()
    }
}

/// How much of a device a capture session takes over.
#[derive(Clone, Copy, Debug, PartialEq, Eq, Structural)]
pub enum CaptureSessionMode {
    /// Every planned control.
    Full,
    /// Raw touch reports only.
    TouchpadOnly,
    /// Only putting back a raw mode that an earlier process left behind.
    TouchpadRecovery,
}

/// What a capture session arms.
pub struct CaptureSpec {
    pub capture_touchpad: bool,
    /// Under which name the device's raw mode is journaled.
    pub touchpad_journal_id: Option<String>,
    pub mode: CaptureSessionMode,
}

/// What a capture spec says.
#[verifier::ext_equal]
pub struct SpecModel {
    pub capture_touchpad: bool,
    pub journal_id: Option<Seq<char>>,
    pub mode: CaptureSessionMode,
}

impl View for CaptureSpec {
    type V = SpecModel;

    open spec fn view(&self) -> SpecModel {
        SpecModel {
            capture_touchpad: self.capture_touchpad,
            journal_id: match self.touchpad_journal_id {
                Some(id) => Some(id@),
                None => None,
            },
            mode: self.mode,
        }
    }
}

/// The device a capture session runs on, and what it arms there.
pub struct CaptureTarget {
    pub physical_key: PhysicalDeviceKey,
    /// How the device is reached.
    pub route: String,
    pub spec: CaptureSpec,
}

/// What a capture target says.
#[verifier::ext_equal]
pub struct TargetModel {
    pub key: Seq<char>,
    pub route: Seq<char>,
    pub arming: SpecModel,
}

impl View for CaptureTarget {
    type V = TargetModel;

    open spec fn view(&self) -> TargetModel {
        TargetModel { key: self.physical_key@, route: self.route@, arming: self.spec@ }
    }
}

impl CaptureTarget {
    /// Another copy of the target.
    pub fn duplicate(&self) -> (copy: Self)
        ensures
            copy@ == self@,
    {
        CaptureTarget {
            physical_key: self.physical_key.duplicate(),
            route: self.route.clone(),
            spec: CaptureSpec {
                capture_touchpad: self.spec.capture_touchpad,
                touchpad_journal_id: match &self.spec.touchpad_journal_id {
                    Some(id) => Some(id.clone()),
                    None => None,
                },
                mode: self.spec.mode,
            },
        }
    }

    /// Whether two targets say the same.
    pub fn same(&self, other: &Self) -> (same: bool)
        ensures
            same == (self@ == other@),
    {
        let journals: bool = match (
            &self.spec.touchpad_journal_id,
            &other.spec.touchpad_journal_id,
        ) {
            (Some(a), Some(b)) => *a == *b,
            (None, None) => true,
            _ => false,
        };
        self.physical_key.same(&other.physical_key) && self.route == other.route
            && self.spec.capture_touchpad == other.spec.capture_touchpad && self.spec.mode
            == other.spec.mode && journals
    }
}

/// One device's capture plan.
pub struct DeviceCapturePlan {
    pub target: CaptureTarget,
    pub dispatch: DispatchPlan,
}

/// What a device's capture plan says.
#[verifier::ext_equal]
pub struct PlanModel {
    pub target: TargetModel,
    pub dispatch: crate::plan::DispatchModel,
}

impl View for DeviceCapturePlan {
    type V = PlanModel;

    open spec fn view(&self) -> PlanModel {
        PlanModel { target: self.target@, dispatch: self.dispatch@ }
    }
}

impl DeviceCapturePlan {
    /// Another copy of the plan.
    pub fn duplicate(&self) -> (copy: Self)
        ensures
            copy@ == self@,
    {
        DeviceCapturePlan {
            target: self.target.duplicate(),
            dispatch: self.dispatch.duplicate(),
        }
    }
}

/// What the journal of raw touchpad modes says about a device.
#[derive(Clone, Copy, Debug, PartialEq, Eq, Structural)]
pub enum JournalState {
    /// There is no journal.
    Unavailable,
    /// The journal holds nothing for the device.
    NoRecord,
    /// The journal holds a raw mode to put back.
    Recorded,
    /// The journal could not be read.
    Unreadable,
}

/// A published plan with what decides whether it is armed.
pub struct PublishedPlan {
    pub plan: DeviceCapturePlan,
    /// Whether a diagnostic wants the device's raw touch reports.
    pub diagnostic_requested: bool,
    pub journal: JournalState,
}

/// What a published plan says.
#[verifier::ext_equal]
pub struct PublishedModel {
    pub plan: PlanModel,
    pub diagnostic_requested: bool,
    pub journal: JournalState,
}

impl View for PublishedPlan {
    type V = PublishedModel;

    open spec fn view(&self) -> PublishedModel {
        PublishedModel {
            plan: self.plan@,
            diagnostic_requested: self.diagnostic_requested,
            journal: self.journal,
        }
    }
}

impl PublishedModel {
    /// What is armed once a diagnostic is taken into account: it adds raw touch reports to a device
    /// whose raw mode can be journaled, and turns a recovery into a capture.
    pub open spec fn arming(self) -> SpecModel {
        let spec_ = self.plan.target.arming;
        if self.diagnostic_requested && spec_.journal_id is Some {
            SpecModel {
                capture_touchpad: true,
                mode: if spec_.mode == CaptureSessionMode::TouchpadRecovery {
                    CaptureSessionMode::TouchpadOnly
                } else {
                    spec_.mode
                },
                ..spec_
            }
        } else {
            spec_
        }
    }

    /// Whether the plan can be armed: raw touch reports need a journal, and a recovery needs
    /// something to recover or a journal that cannot tell.
    pub open spec fn can_arm(self) -> bool {
        let arming = self.arming();
        &&& !(arming.capture_touchpad && self.journal == JournalState::Unavailable)
        &&& arming.mode == CaptureSessionMode::TouchpadRecovery ==> arming.journal_id is Some && (
        self.journal == JournalState::Recorded || self.journal == JournalState::Unreadable)
    }

    /// The plan to arm.
    pub open spec fn effective(self) -> Option<PlanModel> {
        if self.can_arm() {
            Some(
                PlanModel {
                    target: TargetModel { arming: self.arming(), ..self.plan.target },
                    ..self.plan
                },
            )
        } else {
            None
        }
    }
}

/// The plan to arm for a published plan; `None` when it must not be armed.
pub fn effective_plan(published: &PublishedPlan) -> (plan: Option<DeviceCapturePlan>)
    ensures
        match plan {
            Some(plan) => published@.effective() == Some(plan@),
            None => published@.effective() is None,
        },
{
    let mut plan: DeviceCapturePlan = published.plan.duplicate();
    let diagnostic: bool = published.diagnostic_requested
        && plan.target.spec.touchpad_journal_id.is_some();
    if diagnostic {
        plan.target.spec.capture_touchpad = true;
        if plan.target.spec.mode == CaptureSessionMode::TouchpadRecovery {
            plan.target.spec.mode = CaptureSessionMode::TouchpadOnly;
        }
    }
    assert(plan@.target.arming == published@.arming());
    if plan.target.spec.capture_touchpad && published.journal == JournalState::Unavailable {
        return None;
    }
    if plan.target.spec.mode == CaptureSessionMode::TouchpadRecovery {
        if plan.target.spec.touchpad_journal_id.is_none() {
            return None;
        }
        match published.journal {
            JournalState::Unavailable | JournalState::NoRecord => return None,
            JournalState::Recorded | JournalState::Unreadable => {},
        }
    }
    Some(plan)
}

/// The plans to arm, in publication order; none while another owner asks for exclusive access.
pub open spec fn wanted_plans(exclusive: bool, published: Seq<PublishedModel>) -> Seq<PlanModel>
    decreases published.len(),
{
    if exclusive || published.len() == 0 {
        Seq::empty()
    } else {
        let rest = wanted_plans(exclusive, published.drop_last());
        match published.last().effective() {
            Some(plan) => rest.push(plan),
            None => rest,
        }
    }
}

/// What each element of a list of plans says.
pub open spec fn plan_models(plans: Seq<DeviceCapturePlan>) -> Seq<PlanModel> {
    plans.map_values(|plan: DeviceCapturePlan| plan@)
}

/// What each element of a list of published plans says.
pub open spec fn published_models(plans: Seq<PublishedPlan>) -> Seq<PublishedModel> {
    plans.map_values(|plan: PublishedPlan| plan@)
}

/// Snapshots the sessions that should be armed. An exclusive request temporarily empties the set,
/// so that normal teardown restores every control.
pub fn wanted_sessions(exclusive: bool, published: &Vec<PublishedPlan>) -> (wanted: Vec<
    DeviceCapturePlan,
>)
    ensures
        plan_models(wanted@) == wanted_plans(exclusive, published_models(published@)),
{
    let mut wanted: Vec<DeviceCapturePlan> = Vec::new();
    if exclusive {
        assert(plan_models(wanted@) =~= Seq::<PlanModel>::empty());
        return wanted;
    }
    let mut i: usize = 0;
    let ghost all = published_models(published@);
    assert(plan_models(wanted@) =~= Seq::<PlanModel>::empty());
    while i < published.len()
        invariant
            i <= published@.len(),
            all == published_models(published@),
            plan_models(wanted@) == wanted_plans(false, all.take(i as int)),
        decreases published@.len() - i,
    {
        let ghost before = wanted@;
        proof {
            assert(all.take(i as int + 1).drop_last() =~= all.take(i as int));
            assert(all.take(i as int + 1).last() == published@[i as int]@);
        }
        if let Some(plan) = effective_plan(&published[i]) {
            wanted.push(plan);
            assert(plan_models(wanted@) =~= plan_models(before).push(plan@));
        }
        i = i + 1;
    }
    assert(all.take(i as int) =~= all);
    wanted
}

/// Position of the first plan for a device; the length where there is none.
pub open spec fn plan_position(plans: Seq<PlanModel>, key: Seq<char>) -> nat
    decreases plans.len(),
{
    if plans.len() == 0 {
        0
    } else {
        let at = plan_position(plans.drop_last(), key);
        if at < plans.len() - 1 || plans.last().target.key == key {
            at
        } else {
            plans.len()
        }
    }
}

/// The first plan for a device.
pub open spec fn plan_for(plans: Seq<PlanModel>, key: Seq<char>) -> Option<PlanModel> {
    if plan_position(plans, key) < plans.len() {
        Some(plans[plan_position(plans, key) as int])
    } else {
        None
    }
}

/// What the position of a plan says.
pub proof fn lemma_plan_position(plans: Seq<PlanModel>, key: Seq<char>)
    ensures
        plan_position(plans, key) <= plans.len(),
        plan_position(plans, key) < plans.len() ==> plans[plan_position(
            plans,
            key,
        ) as int].target.key == key,
        plan_position(plans, key) == plans.len() ==> forall|i: int|
            0 <= i < plans.len() ==> (#[trigger] plans[i]).target.key != key,
    decreases plans.len(),
{
    if plans.len() > 0 {
        let rest = plans.drop_last();
        lemma_plan_position(rest, key);
        if plan_position(plans, key) == plans.len() {
            assert forall|i: int| 0 <= i < plans.len() implies (#[trigger] plans[i]).target.key
                != key by {
                if i < rest.len() {
                    assert(rest[i].target.key != key);
                }
            }
        }
    }
}

proof fn lemma_position_in_prefix(plans: Seq<PlanModel>, i: int, key: Seq<char>)
    requires
        0 <= i <= plans.len(),
        plan_position(plans.take(i), key) < i,
    ensures
        plan_position(plans, key) == plan_position(plans.take(i), key),
    decreases plans.len() - i,
{
    if i < plans.len() {
        assert(plans.take(i + 1).drop_last() =~= plans.take(i));
        lemma_position_in_prefix(plans, i + 1, key);
    } else {
        assert(plans.take(i) =~= plans);
    }
}

/// Finds the first plan for a device.
pub fn find_plan(plans: &Vec<DeviceCapturePlan>, key: &PhysicalDeviceKey) -> (at: usize)
    ensures
        at == plan_position(plan_models(plans@), key@),
        at <= plans@.len(),
{
    let ghost all = plan_models(plans@);
    let mut i: usize = 0;
    while i < plans.len()
        invariant
            i <= plans@.len(),
            all == plan_models(plans@),
            plan_position(all.take(i as int), key@) == i,
        decreases plans@.len() - i,
    {
        proof {
            assert(all.take(i as int + 1).drop_last() =~= all.take(i as int));
            assert(all.take(i as int + 1).last() == plans@[i as int]@);
        }
        if plans[i].target.physical_key.same(key) {
            proof {
                lemma_position_in_prefix(all, i as int + 1, key@);
            }
            return i;
        }
        i = i + 1;
    }
    assert(all.take(i as int) =~= all);
    i
}

/// An exclusive request empties the set of sessions to arm.
pub proof fn law_exclusive_request_arms_nothing(published: Seq<PublishedModel>)
    ensures
        wanted_plans(true, published).len() == 0,
{
}

/// Raw touch reports are never armed without a journal to recover them by.
pub proof fn law_raw_reports_need_a_journal(published: PublishedModel)
    requires
        published.journal == JournalState::Unavailable,
    ensures
        published.effective() matches Some(plan) ==> !plan.target.arming.capture_touchpad,
{
}

/// A recovery is attempted only where the journal holds something or cannot tell.
pub proof fn law_recovery_needs_a_record(published: PublishedModel)
    ensures
        published.effective() matches Some(plan) ==> plan.target.arming.mode
            == CaptureSessionMode::TouchpadRecovery ==> published.journal == JournalState::Recorded
            || published.journal == JournalState::Unreadable,
{
}

/// Arming changes nothing about where a plan's input goes or which device it is for.
pub proof fn law_arming_keeps_dispatch(published: PublishedModel)
    ensures
        published.effective() matches Some(plan) ==> {
            &&& plan.dispatch == published.plan.dispatch
            &&& plan.target.key == published.plan.target.key
            &&& plan.target.route == published.plan.target.route
        },
{
}

/// A diagnostic adds raw touch reports where the device's raw mode can be journaled, and turns a
/// recovery into a capture; it changes nothing else. Without one, a plan is armed as it is.
pub proof fn law_diagnostic_adds_raw_reports(published: PublishedModel)
    ensures
        ({
            let planned = published.plan.target.arming;
            let diagnosed = published.diagnostic_requested && planned.journal_id is Some;
            published.effective() matches Some(plan) ==> {
                let armed = plan.target.arming;
                &&& armed.journal_id == planned.journal_id
                &&& !diagnosed ==> armed == planned
                &&& diagnosed ==> armed.capture_touchpad
                &&& diagnosed && planned.mode is TouchpadRecovery ==> armed.mode is TouchpadOnly
                &&& diagnosed && !(planned.mode is TouchpadRecovery) ==> armed.mode == planned.mode
            }
        }),
{
}

/// A plan is armed unless it would take raw reports without a journal, or would recover a device
/// for which nothing is journaled: with a readable journal that holds a record every plan that
/// says where it is journaled is armed, and one that neither takes raw reports nor recovers is
/// armed whatever the journal says.
pub proof fn law_plans_are_armed_where_they_can_be(published: PublishedModel)
    ensures
        ({
            let planned = published.plan.target.arming;
            let journal = published.journal;
            &&& (journal is Recorded || journal is Unreadable) && planned.journal_id is Some
                ==> published.effective() is Some
            &&& journal is NoRecord && !(planned.mode is TouchpadRecovery) ==> published.effective()
                is Some
            &&& !planned.capture_touchpad && !(planned.mode is TouchpadRecovery)
                && !published.diagnostic_requested ==> published.effective() is Some
            &&& planned.capture_touchpad && journal is Unavailable ==> published.effective() is None
            &&& planned.mode is TouchpadRecovery && !published.diagnostic_requested && (
            journal is NoRecord || journal is Unavailable || planned.journal_id is None)
                ==> published.effective() is None
        }),
{
}

/// The plans to arm come in the order of publication: one more published plan adds its own plan to
/// arm at the end, if it has one.
pub proof fn law_plans_are_armed_in_order(published: Seq<PublishedModel>, next: PublishedModel)
    ensures
        ({
            let before = wanted_plans(false, published);
            let after = wanted_plans(false, published.push(next));
            &&& next.effective() matches Some(plan) ==> after == before.push(plan)
            &&& next.effective() is None ==> after == before
        }),
        wanted_plans(false, Seq::empty()).len() == 0,
{
    assert(published.push(next).drop_last() =~= published);
}

/// The plan for a device is the first one with its key; there is none where no plan has it.
pub proof fn law_first_plan_serves_a_device(plans: Seq<PlanModel>, key: Seq<char>, at: int)
    ensures
        (forall|i: int| 0 <= i < plans.len() ==> (#[trigger] plans[i]).target.key != key)
            ==> plan_for(plans, key) is None,
        0 <= at < plans.len() && plans[at].target.key == key && (forall|i: int|
            0 <= i < at ==> (#[trigger] plans[i]).target.key != key) ==> plan_for(plans, key)
            == Some(plans[at]),
    decreases plans.len(),
{
    lemma_plan_position(plans, key);
    if 0 <= at < plans.len() && plans[at].target.key == key && (forall|i: int|
        0 <= i < at ==> (#[trigger] plans[i]).target.key != key) {
        let before = plans.take(at);
        assert forall|i: int| 0 <= i < before.len() implies (#[trigger] before[i]).target.key
            != key by {
            assert(plans[i].target.key != key);
        }
        lemma_plan_position(before, key);
        let until = plans.take(at + 1);
        assert(until.drop_last() =~= before);
        assert(plan_position(until, key) == at);
        lemma_position_in_prefix(plans, at + 1, key);
    }
}

} // verus!
