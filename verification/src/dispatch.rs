//! Resolves captured inputs against the active per-device plan.
//!
//! [`InputDispatcher`] decides; it answers each input with the [`Command`]s that carry the decision
//! out, in order. What a command's outcome decides is handed back: the press a gesture button's
//! press was admitted as, and an animation that could not be opened.
use vstd::prelude::*;

use crate::binding::{Action, Binding, ButtonId, GestureDirection};
use crate::dockswipe::{DockSwipeMotion, DockSwipePhase};
use crate::plan::DispatchPlan;
use crate::runtime::{TouchpadOutcome, TouchpadOutput, TouchpadRuntime};
use crate::scroll::{glide_velocity, ContentDelta, SmoothScrollPhase, TouchpadScrollTuning};
use crate::session::{HidppSessionId, PressToken};
use crate::swipe::{SwipeEnd, SwipeOutput};
use crate::table::{Key, Table};
use crate::touchpad::TouchFrame;
use crate::wheel::{
    ScrollScale, WheelAccumulators, WheelConfiguration, WheelDelta, WheelOutput, WheelResolution,
    WheelRotation,
};

verus! {

/// The runtime that carries out actions.
#[derive(Clone, Copy, Debug, PartialEq, Eq, Structural)]
pub struct ActionDispatcher {
    pub id: u64,
}

/// The runtime that smooths captured scrolling.
#[derive(Clone, Copy, Debug, PartialEq, Eq, Structural)]
pub struct ScrollInputHandle {
    pub id: u64,
}

/// One thing to carry out for the session an input came from.
#[allow(inconsistent_fields)]
#[derive(Clone, Copy, Debug, PartialEq, Eq, Structural)]
pub enum Command {
    /// Run an action if a press is still active.
    DispatchWhilePressed { press: PressToken, action: Action },
    /// Report a button going down; a gesture source wants the admitted press handed back.
    ButtonDown { button: ButtonId, binding: Option<Binding>, gesture: bool },
    /// Report a button going up.
    ButtonUp { button: ButtonId },
    /// Report a button that went down and up at once.
    ButtonPulse { button: ButtonId, binding: Option<Binding> },
    /// Run an action for the session's device.
    RunAction { action: Action },
    /// Offer a scroll to the smoothing runtime, and hand back whether it was taken.
    SmoothScroll { delta: WheelDelta },
    /// Scroll directly.
    DirectScroll { delta: WheelDelta },
    /// Post a dock-swipe step.
    DockSwipe {
        owner: u64,
        motion: DockSwipeMotion,
        phase: DockSwipePhase,
        progress: i64,
    },
    /// Post one frame of two-finger scrolling.
    TouchpadScroll { delta: ContentDelta, phase: SmoothScrollPhase },
    /// Terminate two-finger scrolling.
    TouchpadScrollEnd { phase: SmoothScrollPhase },
    /// Start a glide.
    StartGlide { velocity: ContentDelta },
    /// Stop a glide, if one is running.
    StopGlide,
    /// Cancel what the action runtime holds for the session.
    CancelActions,
    /// Cancel what the smoothing runtime holds for the session.
    CancelScroll,
}

/// Output capabilities shared by every capture session.
#[derive(Clone, Copy, Debug, PartialEq, Eq, Structural)]
pub struct GestureOutputs {
    actions: ActionDispatcher,
    scroll: ScrollInputHandle,
}

impl GestureOutputs {
    /// The action runtime.
    pub closed spec fn action_runtime(self) -> ActionDispatcher {
        self.actions
    }

    /// The smoothing runtime.
    pub closed spec fn scroll_runtime(self) -> ScrollInputHandle {
        self.scroll
    }

    /// Builds outputs backed by the shared action and scroll runtimes.
    #[must_use]
    pub fn new(actions: ActionDispatcher, scroll: ScrollInputHandle) -> (outputs: Self)
        ensures
            outputs.action_runtime() == actions,
            outputs.scroll_runtime() == scroll,
    {
        GestureOutputs { actions, scroll }
    }

    /// The action runtime.
    pub fn actions(&self) -> (actions: ActionDispatcher)
        ensures
            actions == self.action_runtime(),
    {
        self.actions
    }

    /// The smoothing runtime.
    pub fn scroll(&self) -> (scroll: ScrollInputHandle)
        ensures
            scroll == self.scroll_runtime(),
    {
        self.scroll
    }

    /// What remains to be done once the smoothing runtime has been offered a scroll: the capture
    /// consumed the physical input already, so a scroll that was not taken is synthesized directly.
    pub fn post_scroll(&self, delta: WheelDelta, taken: bool) -> (command: Option<Command>)
        ensures
            command == (if taken {
                None::<Command>
            } else {
                Some(Command::DirectScroll { delta })
            }),
    {
        if taken {
            None
        } else {
            Some(Command::DirectScroll { delta })
        }
    }
}

/// A physical press of one button in one session.
pub struct PressKey {
    session: HidppSessionId,
    button: ButtonId,
}

impl View for PressKey {
    type V = (crate::session::SessionName, ButtonId);

    closed spec fn view(&self) -> (crate::session::SessionName, ButtonId) {
        (self.session@, self.button)
    }
}

impl Key for PressKey {
    fn same(&self, other: &Self) -> (same: bool) {
        self.button == other.button && self.session.same(&other.session)
    }

    fn duplicate(&self) -> (copy: Self) {
        PressKey { session: self.session.duplicate(), button: self.button }
    }
}

/// Presses by session and button.
pub type PressMap = Map<(crate::session::SessionName, ButtonId), PressToken>;

/// The presses of every other session.
pub open spec fn presses_without(
    presses: PressMap,
    session: crate::session::SessionName,
) -> PressMap {
    presses.restrict(presses.dom().filter(|k: (crate::session::SessionName, ButtonId)| k.0 != session))
}

/// Correlates completed gestures with the exact physical press that was admitted for them. The
/// button runtime remains the sole authority on whether the press is still active.
pub struct GesturePresses {
    tokens: Table<PressKey, PressToken>,
}

impl View for GesturePresses {
    type V = PressMap;

    closed spec fn view(&self) -> PressMap {
        self.tokens@
    }
}

impl GesturePresses {
    /// No presses.
    pub fn new() -> (presses: Self)
        ensures
            presses@ == PressMap::empty(),
    {
        GesturePresses { tokens: Table::new() }
    }

    /// Records the press a gesture button was admitted with.
    pub fn start(&mut self, session: &HidppSessionId, button: ButtonId, press: PressToken)
        ensures
            final(self)@ == old(self)@.insert((session@, button), press),
    {
        self.tokens.insert(PressKey { session: session.duplicate(), button }, press);
    }

    /// The press of a gesture button.
    pub fn get(&self, session: &HidppSessionId, button: ButtonId) -> (press: Option<PressToken>)
        ensures
            press == (if self@.dom().contains((session@, button)) {
                Some(self@[(session@, button)])
            } else {
                None
            }),
    {
        let key: PressKey = PressKey { session: session.duplicate(), button };
        match self.tokens.get(&key) {
            Some(press) => Some(*press),
            None => None,
        }
    }

    /// Forgets the press of a gesture button.
    pub fn end(&mut self, session: &HidppSessionId, button: ButtonId)
        ensures
            final(self)@ == old(self)@.remove((session@, button)),
    {
        let key: PressKey = PressKey { session: session.duplicate(), button };
        let _ = self.tokens.take(&key);
    }

    /// Forgets every press of a session.
    pub fn cancel_session(&mut self, session: &HidppSessionId)
        ensures
            final(self)@ == presses_without(old(self)@, session@),
    {
        let keys: Vec<PressKey> = self.tokens.keys();
        let ghost before = self@;
        let mut i: usize = 0;
        while i < keys.len()
            invariant
                i <= keys@.len(),
                before == old(self)@,
                forall|k: int|
                    0 <= k < keys@.len() ==> before.dom().contains((#[trigger] keys@[k])@),
                forall|k: (crate::session::SessionName, ButtonId)| #[trigger]
                    before.dom().contains(k) ==> exists|j: int|
                        0 <= j < keys@.len() && (#[trigger] keys@[j])@ == k,
                forall|k: (crate::session::SessionName, ButtonId)| #[trigger]
                    self@.dom().contains(k) ==> before.dom().contains(k) && self@[k] == before[k],
                forall|k: (crate::session::SessionName, ButtonId)|
                    before.dom().contains(k) && k.0 != session@ ==> #[trigger]
                    self@.dom().contains(k),
                forall|j: int|
                    0 <= j < i && (#[trigger] keys@[j])@.0 == session@ ==> !self@.dom().contains(
                        keys@[j]@,
                    ),
            decreases keys@.len() - i,
        {
            let ghost prior = self@;
            let ghost key = keys@[i as int]@;
            if keys[i].session.same(session) {
                let _ = self.tokens.take(&keys[i]);
                proof {
                    assert(self@ == prior.remove(key));
                    assert(key.0 == session@);
                    assert forall|k: (crate::session::SessionName, ButtonId)| #[trigger]
                        self@.dom().contains(k) implies before.dom().contains(k) && self@[k]
                        == before[k] by {
                        assert(prior.dom().contains(k));
                    }
                    assert forall|k: (crate::session::SessionName, ButtonId)|
                        before.dom().contains(k) && k.0 != session@ implies #[trigger]
                    self@.dom().contains(k) by {
                        assert(prior.dom().contains(k));
                    }
                }
            }
            i = i + 1;
        }
        proof {
            let after = presses_without(before, session@);
            assert forall|k: (crate::session::SessionName, ButtonId)|
                self@.dom().contains(k) <==> after.dom().contains(k) by {
                if self@.dom().contains(k) && k.0 == session@ {
                    let j = choose|j: int| 0 <= j < keys@.len() && (#[trigger] keys@[j])@ == k;
                    assert(!self@.dom().contains(keys@[j]@));
                }
            }
            assert(self@ =~= after);
        }
    }
}

/// Thumb-wheel state by session.
pub type WheelMap = Map<crate::session::SessionName, crate::wheel::WheelModel>;

/// Wheel state scoped to exact capture-session incarnations: a replacement neither inherits
/// progress nor has its state removed by a stale completion.
pub struct SessionWheels {
    wheels: Table<HidppSessionId, WheelAccumulators>,
}

impl View for SessionWheels {
    type V = WheelMap;

    closed spec fn view(&self) -> WheelMap {
        self.wheels@.map_values(|wheel: WheelAccumulators| wheel@)
    }
}

/// The wheel of a session; a fresh one where it has none yet.
pub open spec fn wheel_of(
    wheels: WheelMap,
    session: crate::session::SessionName,
) -> crate::wheel::WheelModel {
    if wheels.dom().contains(session) {
        wheels[session]
    } else {
        crate::wheel::WheelModel::fresh()
    }
}

impl SessionWheels {
    /// No wheels.
    pub fn new() -> (wheels: Self)
        ensures
            wheels@ == WheelMap::empty(),
    {
        let wheels: SessionWheels = SessionWheels { wheels: Table::new() };
        assert(wheels@ =~= WheelMap::empty());
        wheels
    }

    /// Adds a rotation to a session's wheel.
    pub fn advance(
        &mut self,
        session: &HidppSessionId,
        rotation: WheelRotation,
        action: &Action,
        scale: ScrollScale,
        now_ms: u64,
    ) -> (output: WheelOutput)
        ensures
            ({
                let (wheel, decided) = wheel_of(old(self)@, session@).advanced(
                    rotation,
                    *action,
                    scale,
                    now_ms as nat,
                );
                &&& output == decided
                &&& final(self)@ == old(self)@.insert(session@, wheel)
            }),
    {
        let mut wheel: WheelAccumulators = match self.wheels.take(session) {
            Some(wheel) => wheel,
            None => WheelAccumulators::default(),
        };
        let output: WheelOutput = wheel.advance(rotation, action, scale, now_ms);
        self.wheels.insert(session.duplicate(), wheel);
        assert(self@ =~= old(self)@.insert(session@, wheel@));
        output
    }

    /// Whether a session has wheel state.
    pub fn contains_session(&self, session: &HidppSessionId) -> (found: bool)
        ensures
            found == self@.dom().contains(session@),
    {
        self.wheels.contains_key(session)
    }

    /// Forgets a session's wheel.
    pub fn cancel_session(&mut self, session: &HidppSessionId)
        ensures
            final(self)@ == old(self)@.remove(session@),
    {
        let _ = self.wheels.take(session);
        assert(self@ =~= old(self)@.remove(session@));
    }
}

/// Touchpad state by session.
pub type TouchpadMap = Map<crate::session::SessionName, crate::runtime::RuntimeModel>;

/// The touchpad of a session; an idle one where it has none yet.
pub open spec fn touchpad_of(
    touchpads: TouchpadMap,
    session: crate::session::SessionName,
) -> crate::runtime::RuntimeModel {
    if touchpads.dom().contains(session) {
        touchpads[session]
    } else {
        crate::runtime::RuntimeModel::idle()
    }
}

/// Touchpad state scoped to exact capture-session incarnations.
pub struct SessionTouchpads {
    touchpads: Table<HidppSessionId, TouchpadRuntime>,
}

impl View for SessionTouchpads {
    type V = TouchpadMap;

    closed spec fn view(&self) -> TouchpadMap {
        self.touchpads@.map_values(|runtime: TouchpadRuntime| runtime@)
    }
}

impl SessionTouchpads {
    /// No touchpads.
    pub fn new() -> (touchpads: Self)
        ensures
            touchpads@ == TouchpadMap::empty(),
    {
        let touchpads: SessionTouchpads = SessionTouchpads { touchpads: Table::new() };
        assert(touchpads@ =~= TouchpadMap::empty());
        touchpads
    }

    fn take(&mut self, session: &HidppSessionId) -> (runtime: TouchpadRuntime)
        ensures
            runtime@ == touchpad_of(old(self)@, session@),
            final(self)@ == old(self)@.remove(session@),
    {
        let taken: Option<TouchpadRuntime> = self.touchpads.take(session);
        assert(self@ =~= old(self)@.remove(session@));
        match taken {
            Some(runtime) => runtime,
            None => TouchpadRuntime::default(),
        }
    }

    fn put(&mut self, session: &HidppSessionId, runtime: TouchpadRuntime)
        ensures
            final(self)@ == old(self)@.insert(session@, runtime@),
    {
        self.touchpads.insert(session.duplicate(), runtime);
        assert(self@ =~= old(self)@.insert(session@, runtime@));
    }

    /// Whether a session streams a swipe.
    pub fn is_streaming(&self, session: &HidppSessionId) -> (streaming: bool)
        ensures
            streaming == (touchpad_of(self@, session@).stream is Some),
    {
        match self.touchpads.get(session) {
            Some(runtime) => runtime.is_streaming(),
            None => false,
        }
    }

    /// Whether a session's touchpad is in a stroke.
    pub fn in_stroke(&self, session: &HidppSessionId) -> (in_stroke: bool)
        ensures
            in_stroke == (touchpad_of(self@, session@).frozen is Some),
    {
        match self.touchpads.get(session) {
            Some(runtime) => runtime.in_stroke(),
            None => false,
        }
    }

    /// Feeds one frame to a session's touchpad.
    pub fn step(
        &mut self,
        session: &HidppSessionId,
        frame: &TouchFrame,
        bindings: &Table<ButtonId, Action>,
        actions_enabled: bool,
        native_streaming: bool,
    ) -> (outcome: TouchpadOutcome)
        requires
            touchpad_of(old(self)@, session@).stream is Some ==> frame@.contacts.len() > 0,
        ensures
            ({
                let (runtime, decided) = touchpad_of(old(self)@, session@).step(
                    frame@,
                    bindings@,
                    actions_enabled,
                    native_streaming,
                );
                &&& outcome == decided
                &&& final(self)@ == old(self)@.insert(session@, runtime)
            }),
    {
        let mut runtime: TouchpadRuntime = self.take(session);
        let outcome: TouchpadOutcome = runtime.step(
            frame,
            bindings,
            actions_enabled,
            native_streaming,
        );
        self.put(session, runtime);
        assert(self@ =~= old(self)@.insert(session@, runtime@));
        outcome
    }

    /// Ends the stroke of a session's touchpad.
    pub fn finish(&mut self, session: &HidppSessionId, actions_enabled: bool) -> (outcome:
        TouchpadOutcome)
        ensures
            outcome == touchpad_of(old(self)@, session@).lifted(actions_enabled),
            final(self)@ == old(self)@.insert(session@, crate::runtime::RuntimeModel::idle()),
    {
        let mut runtime: TouchpadRuntime = self.take(session);
        let outcome: TouchpadOutcome = runtime.finish(actions_enabled);
        self.put(session, runtime);
        assert(self@ =~= old(self)@.insert(session@, runtime@));
        outcome
    }

    /// Cancels the stroke of a session's touchpad.
    pub fn cancel(&mut self, session: &HidppSessionId) -> (output: TouchpadOutput)
        ensures
            output == touchpad_of(old(self)@, session@).scroll_cancelled(),
            final(self)@ == old(self)@.insert(
                session@,
                touchpad_of(old(self)@, session@).cancelled(),
            ),
    {
        let mut runtime: TouchpadRuntime = self.take(session);
        let output: TouchpadOutput = runtime.cancel();
        self.put(session, runtime);
        assert(self@ =~= old(self)@.insert(session@, runtime@));
        output
    }

    /// Closes a streamed swipe that could not be opened and recovers its suppressed action.
    pub fn begin_failed(&mut self, session: &HidppSessionId) -> (fallback: Option<
        (ButtonId, Action),
    >)
        ensures
            fallback == (match touchpad_of(old(self)@, session@).stream {
                Some(swipe) => Some(swipe.fallback),
                None => None,
            }),
            final(self)@ == (if old(self)@.dom().contains(session@) {
                old(self)@.insert(
                    session@,
                    (crate::runtime::RuntimeModel { stream: None, ..old(self)@[session@] }),
                )
            } else {
                old(self)@
            }),
    {
        if !self.touchpads.contains_key(session) {
            return None;
        }
        let mut runtime: TouchpadRuntime = self.take(session);
        let fallback: Option<(ButtonId, Action)> = runtime.begin_failed();
        self.put(session, runtime);
        assert(self@ =~= old(self)@.insert(session@, runtime@));
        fallback
    }

    /// Forgets a session's touchpad, cancelling its stroke and springing back its animation.
    pub fn cancel_session(&mut self, session: &HidppSessionId) -> (outcome: TouchpadOutcome)
        ensures
            outcome.output == touchpad_of(old(self)@, session@).scroll_cancelled(),
            outcome.stream == (match touchpad_of(old(self)@, session@).stream {
                Some(swipe) => swipe.finished(SwipeEnd::Cancelled),
                None => SwipeOutput::Idle,
            }),
            final(self)@ == old(self)@.remove(session@),
    {
        let mut runtime: TouchpadRuntime = self.take(session);
        runtime.terminate()
    }
}

/// One captured input.
pub enum CapturedInput {
    /// A gesture button completed a swipe or a click.
    Gesture(ButtonId, GestureDirection),
    ButtonDown(ButtonId),
    ButtonUp(ButtonId),
    ButtonPulse(ButtonId),
    /// The thumb wheel turned.
    Scroll { increments: i16, resolution: WheelResolution },
    TouchpadFrame(TouchFrame),
    TouchpadEnd,
    TouchpadCancel,
    /// Frames were lost before they reached the capture.
    TouchpadDroppedFrames(u64),
}

/// What a captured input says.
pub enum InputModel {
    Gesture(ButtonId, GestureDirection),
    ButtonDown(ButtonId),
    ButtonUp(ButtonId),
    ButtonPulse(ButtonId),
    Scroll { increments: i16, resolution: WheelResolution },
    TouchpadFrame(crate::touchpad::FrameModel),
    TouchpadEnd,
    TouchpadCancel,
    TouchpadDroppedFrames(nat),
}

impl View for CapturedInput {
    type V = InputModel;

    open spec fn view(&self) -> InputModel {
        match self {
            CapturedInput::Gesture(button, direction) => InputModel::Gesture(*button, *direction),
            CapturedInput::ButtonDown(button) => InputModel::ButtonDown(*button),
            CapturedInput::ButtonUp(button) => InputModel::ButtonUp(*button),
            CapturedInput::ButtonPulse(button) => InputModel::ButtonPulse(*button),
            CapturedInput::Scroll { increments, resolution } => InputModel::Scroll {
                increments: *increments,
                resolution: *resolution,
            },
            CapturedInput::TouchpadFrame(frame) => InputModel::TouchpadFrame(frame@),
            CapturedInput::TouchpadEnd => InputModel::TouchpadEnd,
            CapturedInput::TouchpadCancel => InputModel::TouchpadCancel,
            CapturedInput::TouchpadDroppedFrames(count) => InputModel::TouchpadDroppedFrames(
                *count as nat,
            ),
        }
    }
}

/// The command of a streamed swipe's step.
pub open spec fn stream_commands(owner: u64, stream: SwipeOutput) -> Seq<Command> {
    match stream {
        SwipeOutput::Idle => Seq::empty(),
        SwipeOutput::Begin { motion, progress } => seq![
            Command::DockSwipe { owner, motion, phase: DockSwipePhase::Began, progress },
        ],
        SwipeOutput::Advance { motion, delta } => seq![
            Command::DockSwipe { owner, motion, phase: DockSwipePhase::Changed, progress: delta },
        ],
        SwipeOutput::Finish { motion, end } => seq![
            Command::DockSwipe {
                owner,
                motion,
                phase: if end == SwipeEnd::AtRelease {
                    DockSwipePhase::End
                } else {
                    DockSwipePhase::Cancel
                },
                progress: 0,
            },
        ],
    }
}

/// The commands of a touchpad's action or scrolling.
pub open spec fn output_commands(
    tuning: TouchpadScrollTuning,
    output: TouchpadOutput,
) -> Seq<Command> {
    match output {
        TouchpadOutput::Idle => Seq::empty(),
        TouchpadOutput::Action { trigger, action } => seq![Command::RunAction { action }],
        TouchpadOutput::Scroll { dx_um, dy_um, phase } => seq![
            Command::TouchpadScroll { delta: tuning.content(dx_um as int, dy_um as int), phase },
        ],
        TouchpadOutput::ScrollEnd { phase, exit_velocity_um_per_s } => {
            let ended = seq![Command::TouchpadScrollEnd { phase }];
            match exit_velocity_um_per_s {
                Some(exit) => match tuning.glide((exit.0 as int, exit.1 as int)) {
                    Some(velocity) => ended.push(Command::StartGlide { velocity }),
                    None => ended,
                },
                None => ended,
            }
        },
    }
}

/// The commands of one step of a touchpad: the animation's before the others.
pub open spec fn touchpad_commands(
    owner: u64,
    tuning: TouchpadScrollTuning,
    outcome: TouchpadOutcome,
) -> Seq<Command> {
    stream_commands(owner, outcome.stream) + output_commands(tuning, outcome.output)
}

/// Per-session input state.
#[verifier::ext_equal]
pub struct DispatcherModel {
    pub wheels: WheelMap,
    pub presses: PressMap,
    pub touchpads: TouchpadMap,
}

impl DispatcherModel {
    /// No state for any session.
    pub open spec fn empty() -> Self {
        DispatcherModel {
            wheels: Map::empty(),
            presses: Map::empty(),
            touchpads: Map::empty(),
        }
    }

    /// The dispatcher without any state of a session.
    pub open spec fn without(self, session: crate::session::SessionName) -> Self {
        DispatcherModel {
            wheels: self.wheels.remove(session),
            presses: presses_without(self.presses, session),
            touchpads: self.touchpads.remove(session),
        }
    }

    /// The dispatcher once a gesture source's press was admitted, or was not.
    pub open spec fn admitted(
        self,
        session: crate::session::SessionName,
        button: ButtonId,
        press: Option<PressToken>,
    ) -> Self {
        DispatcherModel {
            presses: match press {
                Some(press) => self.presses.insert((session, button), press),
                None => self.presses.remove((session, button)),
            },
            ..self
        }
    }

    /// What is carried out when a session's animation could not be opened: the action that the
    /// animation stood for.
    pub open spec fn fallback_commands(self, session: crate::session::SessionName) -> Seq<Command> {
        match touchpad_of(self.touchpads, session).stream {
            Some(swipe) => seq![Command::RunAction { action: swipe.fallback.1 }],
            None => Seq::empty(),
        }
    }

    /// The dispatcher once a session's animation could not be opened.
    pub open spec fn unstreamed(self, session: crate::session::SessionName) -> Self {
        DispatcherModel {
            touchpads: if self.touchpads.dom().contains(session) {
                self.touchpads.insert(
                    session,
                    crate::runtime::RuntimeModel { stream: None, ..self.touchpads[session] },
                )
            } else {
                self.touchpads
            },
            ..self
        }
    }

    /// What cancelling a session carries out.
    pub open spec fn cancel_commands(self, session: crate::session::SessionName) -> Seq<Command> {
        let touchpad = touchpad_of(self.touchpads, session);
        seq![Command::CancelActions, Command::CancelScroll, Command::StopGlide]
            + stream_commands(
            session.epoch,
            match touchpad.stream {
                Some(swipe) => swipe.finished(SwipeEnd::Cancelled),
                None => SwipeOutput::Idle,
            },
        ) + (match touchpad.scroll_cancelled() {
            TouchpadOutput::ScrollEnd { phase, .. } => seq![Command::TouchpadScrollEnd { phase }],
            _ => Seq::empty(),
        })
    }

    /// What a completed gesture carries out: its action, if the button's press was admitted and
    /// the direction is bound.
    pub open spec fn gesture_commands(
        self,
        session: crate::session::SessionName,
        plan: crate::plan::DispatchModel,
        button: ButtonId,
        direction: GestureDirection,
    ) -> Seq<Command> {
        if self.presses.dom().contains((session, button)) {
            match plan.gesture_action(button, direction) {
                Some(action) => seq![
                    Command::DispatchWhilePressed {
                        press: self.presses[(session, button)],
                        action,
                    },
                ],
                None => Seq::empty(),
            }
        } else {
            Seq::empty()
        }
    }

    /// The dispatcher after a rotation of the thumb wheel, and what it carries out.
    pub open spec fn rotated(
        self,
        session: crate::session::SessionName,
        plan: crate::plan::DispatchModel,
        rotation: WheelRotation,
        resolution: WheelResolution,
        now_ms: nat,
    ) -> (DispatcherModel, Seq<Command>) {
        let configuration = WheelConfiguration::of_plan(plan);
        let action = configuration.action_of(rotation);
        let scale = ScrollScale { resolution, sensitivity: configuration.sensitivity };
        let (wheel, output) = wheel_of(self.wheels, session).advanced(
            rotation,
            action,
            scale,
            now_ms,
        );
        (
            DispatcherModel { wheels: self.wheels.insert(session, wheel), ..self },
            match output {
                WheelOutput::Idle => Seq::empty(),
                WheelOutput::Scroll(delta) => seq![Command::SmoothScroll { delta }],
                WheelOutput::FireAction => seq![Command::RunAction { action }],
            },
        )
    }

    /// The dispatcher after one touchpad frame, and what it carries out: touching the pad stops a
    /// running glide.
    pub open spec fn touched(
        self,
        session: crate::session::SessionName,
        plan: crate::plan::DispatchModel,
        frame: crate::touchpad::FrameModel,
        actions_enabled: bool,
        native_streaming: bool,
    ) -> (DispatcherModel, Seq<Command>) {
        let touchpad = touchpad_of(self.touchpads, session);
        let (next, outcome) = touchpad.step(
            frame,
            plan.touchpad_bindings,
            actions_enabled,
            native_streaming,
        );
        let commands = touchpad_commands(
            session.epoch,
            TouchpadScrollTuning::of_plan(plan),
            outcome,
        );
        (
            DispatcherModel { touchpads: self.touchpads.insert(session, next), ..self },
            if touchpad.frozen is None {
                seq![Command::StopGlide] + commands
            } else {
                commands
            },
        )
    }

    /// The dispatcher after one input, and what it carries out.
    pub open spec fn dispatched(
        self,
        session: crate::session::SessionName,
        plan: crate::plan::DispatchModel,
        input: InputModel,
        context: DispatchContext,
    ) -> (DispatcherModel, Seq<Command>) {
        match input {
            InputModel::Gesture(button, direction) => (
                self,
                self.gesture_commands(session, plan, button, direction),
            ),
            InputModel::ButtonDown(button) => {
                // A gesture source owns its direction map; it must not also fire its single
                // action on going down.
                let gesture = plan.is_gesture_source(button);
                (
                    self,
                    seq![
                        Command::ButtonDown {
                            button,
                            binding: if gesture {
                                None
                            } else {
                                plan.binding(button)
                            },
                            gesture,
                        },
                    ],
                )
            },
            InputModel::ButtonUp(button) => (
                DispatcherModel { presses: self.presses.remove((session, button)), ..self },
                seq![Command::ButtonUp { button }],
            ),
            InputModel::ButtonPulse(button) => (
                self,
                seq![Command::ButtonPulse { button, binding: plan.binding(button) }],
            ),
            InputModel::Scroll { increments, resolution } => if increments == 0 {
                (self, Seq::empty())
            } else {
                self.rotated(
                    session,
                    plan,
                    WheelRotation { increments },
                    resolution,
                    context.now_ms as nat,
                )
            },
            InputModel::TouchpadFrame(frame) => self.touched(
                session,
                plan,
                frame,
                context.touchpad_actions_enabled,
                context.native_streaming,
            ),
            InputModel::TouchpadEnd => (
                DispatcherModel {
                    touchpads: self.touchpads.insert(
                        session,
                        crate::runtime::RuntimeModel::idle(),
                    ),
                    ..self
                },
                touchpad_commands(
                    session.epoch,
                    TouchpadScrollTuning::of_plan(plan),
                    touchpad_of(self.touchpads, session).lifted(context.touchpad_actions_enabled),
                ),
            ),
            InputModel::TouchpadCancel => (
                DispatcherModel {
                    touchpads: self.touchpads.insert(
                        session,
                        touchpad_of(self.touchpads, session).cancelled(),
                    ),
                    ..self
                },
                output_commands(
                    TouchpadScrollTuning::of_plan(plan),
                    touchpad_of(self.touchpads, session).scroll_cancelled(),
                ),
            ),
            InputModel::TouchpadDroppedFrames(_) => (self, Seq::empty()),
        }
    }
}

/// What the dispatcher needs to know about the moment of an input.
#[derive(Clone, Copy, Debug, PartialEq, Eq, Structural)]
pub struct DispatchContext {
    pub touchpad_actions_enabled: bool,
    /// Whether swipes can be streamed as live animations.
    pub native_streaming: bool,
    pub now_ms: u64,
}

/// Input routing plus the per-session state retained between captured events.
pub struct InputDispatcher {
    outputs: GestureOutputs,
    wheels: SessionWheels,
    gesture_presses: GesturePresses,
    touchpads: SessionTouchpads,
}

impl View for InputDispatcher {
    type V = DispatcherModel;

    closed spec fn view(&self) -> DispatcherModel {
        DispatcherModel {
            wheels: self.wheels@,
            presses: self.gesture_presses@,
            touchpads: self.touchpads@,
        }
    }
}

impl InputDispatcher {
    /// The outputs commands are meant for.
    pub closed spec fn routes(&self) -> GestureOutputs {
        self.outputs
    }

    /// Builds a dispatcher for session-owned capture-plan snapshots.
    pub fn new(outputs: GestureOutputs) -> (dispatcher: Self)
        ensures
            dispatcher@ == DispatcherModel::empty(),
            dispatcher.routes() == outputs,
    {
        InputDispatcher {
            outputs,
            wheels: SessionWheels::new(),
            gesture_presses: GesturePresses::new(),
            touchpads: SessionTouchpads::new(),
        }
    }

    /// Whether a session streams a swipe; a frame without fingers must not reach it then.
    pub fn is_streaming(&self, session: &HidppSessionId) -> (streaming: bool)
        ensures
            streaming == (touchpad_of(self@.touchpads, session@).stream is Some),
    {
        self.touchpads.is_streaming(session)
    }

    /// Cancels every input lifecycle retained for one capture session.
    pub fn cancel_session(&mut self, session: &HidppSessionId) -> (commands: Vec<Command>)
        ensures
            final(self)@ == old(self)@.without(session@),
            final(self).routes() == old(self).routes(),
            commands@ == old(self)@.cancel_commands(session@),
    {
        let terminal: TouchpadOutcome = self.touchpads.cancel_session(session);
        self.wheels.cancel_session(session);
        self.gesture_presses.cancel_session(session);
        let mut commands: Vec<Command> = Vec::new();
        commands.push(Command::CancelActions);
        commands.push(Command::CancelScroll);
        commands.push(Command::StopGlide);
        push_stream(&mut commands, session.epoch(), terminal.stream);
        if let TouchpadOutput::ScrollEnd { phase, .. } = terminal.output {
            commands.push(Command::TouchpadScrollEnd { phase });
        }
        assert(commands@ =~= old(self)@.cancel_commands(session@));
        commands
    }

    /// Routes one captured input to its bound action or re-synthesised scroll output.
    pub fn dispatch(
        &mut self,
        session: &HidppSessionId,
        plan: &DispatchPlan,
        input: &CapturedInput,
        context: DispatchContext,
    ) -> (commands: Vec<Command>)
        requires
            input matches CapturedInput::TouchpadFrame(frame) ==> touchpad_of(
                old(self)@.touchpads,
                session@,
            ).stream is Some ==> frame@.contacts.len() > 0,
        ensures
            (final(self)@, commands@) == old(self)@.dispatched(
                session@,
                plan@,
                input@,
                context,
            ),
            final(self).routes() == old(self).routes(),
    {
        let mut commands: Vec<Command> = Vec::new();
        match input {
            CapturedInput::Gesture(button, direction) => {
                self.dispatch_gesture(session, plan, *button, *direction, &mut commands);
            },
            CapturedInput::ButtonDown(button) => {
                let gesture: bool = plan.is_gesture_source(*button);
                let binding: Option<Binding> = if gesture {
                    None
                } else {
                    plan.binding(*button)
                };
                commands.push(Command::ButtonDown { button: *button, binding, gesture });
            },
            CapturedInput::ButtonUp(button) => {
                commands.push(Command::ButtonUp { button: *button });
                self.gesture_presses.end(session, *button);
            },
            CapturedInput::ButtonPulse(button) => {
                commands.push(
                    Command::ButtonPulse { button: *button, binding: plan.binding(*button) },
                );
            },
            CapturedInput::Scroll { increments, resolution } => {
                if let Some(rotation) = WheelRotation::from_increments(*increments) {
                    self.dispatch_rotation(
                        session,
                        plan,
                        rotation,
                        *resolution,
                        context.now_ms,
                        &mut commands,
                    );
                }
            },
            CapturedInput::TouchpadFrame(frame) => {
                if !self.touchpads.in_stroke(session) {
                    commands.push(Command::StopGlide);
                }
                let outcome: TouchpadOutcome = self.touchpads.step(
                    session,
                    frame,
                    &plan.touchpad_bindings,
                    context.touchpad_actions_enabled,
                    context.native_streaming,
                );
                push_outcome(&mut commands, session.epoch(), plan, outcome);
            },
            CapturedInput::TouchpadEnd => {
                let outcome: TouchpadOutcome = self.touchpads.finish(
                    session,
                    context.touchpad_actions_enabled,
                );
                push_outcome(&mut commands, session.epoch(), plan, outcome);
            },
            CapturedInput::TouchpadCancel => {
                let output: TouchpadOutput = self.touchpads.cancel(session);
                push_output(&mut commands, plan, output);
            },
            CapturedInput::TouchpadDroppedFrames(_) => {},
        }
        assert(commands@ =~= old(self)@.dispatched(
            session@,
            plan@,
            input@,
            context,
        ).1);
        commands
    }

    fn dispatch_gesture(
        &self,
        session: &HidppSessionId,
        plan: &DispatchPlan,
        button: ButtonId,
        direction: GestureDirection,
        commands: &mut Vec<Command>,
    )
        ensures
            final(commands)@ == old(commands)@ + self@.gesture_commands(
                session@,
                plan@,
                button,
                direction,
            ),
    {
        if let Some(press) = self.gesture_presses.get(session, button) {
            if let Some(action) = plan.gesture_action(button, direction) {
                commands.push(Command::DispatchWhilePressed { press, action });
            }
        }
        assert(commands@ =~= old(commands)@ + self@.gesture_commands(
            session@,
            plan@,
            button,
            direction,
        ));
    }

    fn dispatch_rotation(
        &mut self,
        session: &HidppSessionId,
        plan: &DispatchPlan,
        rotation: WheelRotation,
        resolution: WheelResolution,
        now_ms: u64,
        commands: &mut Vec<Command>,
    )
        ensures
            ({
                let (next, carried) = old(self)@.rotated(
                    session@,
                    plan@,
                    rotation,
                    resolution,
                    now_ms as nat,
                );
                &&& final(self)@ == next
                &&& final(self).routes() == old(self).routes()
                &&& final(commands)@ == old(commands)@ + carried
            }),
    {
        let configuration: WheelConfiguration = WheelConfiguration::for_plan(plan);
        let action: Action = configuration.action(rotation);
        let output: WheelOutput = self.wheels.advance(
            session,
            rotation,
            &action,
            ScrollScale::new(resolution, configuration.sensitivity),
            now_ms,
        );
        match output {
            WheelOutput::Idle => {},
            WheelOutput::Scroll(delta) => commands.push(Command::SmoothScroll { delta }),
            WheelOutput::FireAction => commands.push(Command::RunAction { action }),
        }
        assert(commands@ =~= old(commands)@ + old(self)@.rotated(
            session@,
            plan@,
            rotation,
            resolution,
            now_ms as nat,
        ).1);
    }

    /// Hands back how a gesture source's press was admitted; a press that was not admitted
    /// forgets the one before it.
    pub fn press_admitted(
        &mut self,
        session: &HidppSessionId,
        button: ButtonId,
        press: Option<PressToken>,
    )
        ensures
            final(self)@ == old(self)@.admitted(session@, button, press),
            final(self).routes() == old(self).routes(),
    {
        match press {
            Some(press) => self.gesture_presses.start(session, button, press),
            None => self.gesture_presses.end(session, button),
        }
    }

    /// Hands back that a swipe's animation could not be opened: its suppressed action runs
    /// instead.
    pub fn dock_swipe_failed(&mut self, session: &HidppSessionId) -> (commands: Vec<Command>)
        ensures
            commands@ == old(self)@.fallback_commands(session@),
            final(self)@ == old(self)@.unstreamed(session@),
            final(self).routes() == old(self).routes(),
    {
        let mut commands: Vec<Command> = Vec::new();
        if let Some((_, action)) = self.touchpads.begin_failed(session) {
            commands.push(Command::RunAction { action });
        }
        commands
    }
}

fn push_stream(commands: &mut Vec<Command>, owner: u64, stream: SwipeOutput)
    ensures
        final(commands)@ == old(commands)@ + stream_commands(owner, stream),
{
    match stream {
        SwipeOutput::Idle => {},
        SwipeOutput::Begin { motion, progress } => {
            commands.push(
                Command::DockSwipe { owner, motion, phase: DockSwipePhase::Began, progress },
            );
        },
        SwipeOutput::Advance { motion, delta } => {
            commands.push(
                Command::DockSwipe {
                    owner,
                    motion,
                    phase: DockSwipePhase::Changed,
                    progress: delta,
                },
            );
        },
        SwipeOutput::Finish { motion, end } => {
            let phase: DockSwipePhase = match end {
                SwipeEnd::AtRelease => DockSwipePhase::End,
                SwipeEnd::Cancelled => DockSwipePhase::Cancel,
            };
            commands.push(Command::DockSwipe { owner, motion, phase, progress: 0 });
        },
    }
    assert(commands@ =~= old(commands)@ + stream_commands(owner, stream));
}

fn push_output(commands: &mut Vec<Command>, plan: &DispatchPlan, output: TouchpadOutput)
    ensures
        final(commands)@ == old(commands)@ + output_commands(
            TouchpadScrollTuning::of_plan(plan@),
            output,
        ),
{
    let tuning: TouchpadScrollTuning = TouchpadScrollTuning::from_plan(plan);
    match output {
        TouchpadOutput::Idle => {},
        TouchpadOutput::Action { action, .. } => {
            commands.push(Command::RunAction { action });
        },
        TouchpadOutput::Scroll { dx_um, dy_um, phase } => {
            commands.push(
                Command::TouchpadScroll { delta: tuning.content_delta(dx_um, dy_um), phase },
            );
        },
        TouchpadOutput::ScrollEnd { phase, exit_velocity_um_per_s } => {
            commands.push(Command::TouchpadScrollEnd { phase });
            if let Some(exit) = exit_velocity_um_per_s {
                if let Some(velocity) = glide_velocity(tuning, exit) {
                    commands.push(Command::StartGlide { velocity });
                }
            }
        },
    }
    assert(commands@ =~= old(commands)@ + output_commands(
        TouchpadScrollTuning::of_plan(plan@),
        output,
    ));
}

fn push_outcome(
    commands: &mut Vec<Command>,
    owner: u64,
    plan: &DispatchPlan,
    outcome: TouchpadOutcome,
)
    ensures
        final(commands)@ == old(commands)@ + touchpad_commands(
            owner,
            TouchpadScrollTuning::of_plan(plan@),
            outcome,
        ),
{
    push_stream(commands, owner, outcome.stream);
    push_output(commands, plan, outcome.output);
    assert(commands@ =~= old(commands)@ + touchpad_commands(
        owner,
        TouchpadScrollTuning::of_plan(plan@),
        outcome,
    ));
}

} // verus!
