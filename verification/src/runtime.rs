//! One touchpad's strokes, from frames to bound actions, scrolling and live swipes.
//!
//! A stroke resolves against the bindings that were active at its first frame, so that a plan change
//! mid-stroke cannot redirect it. Two-finger scrolling replaces the firmware scrolling that the
//! capture itself disabled, so it does not depend on actions being enabled.
use vstd::prelude::*;

use crate::binding::{Action, ButtonId};
use crate::math::saturate;
use crate::scroll::SmoothScrollPhase;
use crate::swipe::{native_stream_plan, ActiveSwipe, SwipeEnd, SwipeOutput};
use crate::table::Table;
use crate::touchpad::{GestureRecognition, TouchFrame, TouchpadGestureRecognizer};

verus! {

/// Share of a slower sample in the smoothed exit velocity, as the denominator.
pub const RELEASE_DENOM: i128 = 100;

/// What a touchpad stroke leads to.
#[derive(Clone, Copy, Debug, PartialEq, Eq)]
pub enum TouchpadOutput {
    Idle,
    /// A gesture fired its bound action.
    Action { trigger: ButtonId, action: Action },
    /// One frame of two-finger scrolling.
    Scroll { dx_um: i64, dy_um: i64, phase: SmoothScrollPhase },
    /// A scroll stream is over; a stroke that ended regularly reports its exit velocity.
    ScrollEnd { phase: SmoothScrollPhase, exit_velocity_um_per_s: Option<(i64, i64)> },
}

/// What one step of a stroke leads to.
#[derive(Clone, Copy, Debug, PartialEq, Eq)]
pub struct TouchpadOutcome {
    pub output: TouchpadOutput,
    pub stream: SwipeOutput,
}

/// Where a touchpad's stroke stands.
pub struct RuntimeModel {
    pub recognizer: crate::touchpad::RecognizerModel,
    /// Bindings at the stroke's first frame.
    pub frozen: Option<Map<ButtonId, Action>>,
    /// Whether actions were enabled at the stroke's first frame.
    pub frozen_enabled: bool,
    /// The swipe being streamed.
    pub stream: Option<crate::swipe::SwipeModel>,
    /// The smoothed velocity of an open scroll stream, in micrometres per second.
    pub scroll: Option<(int, int)>,
    /// Time of the stroke's latest frame.
    pub last_frame_us: Option<nat>,
}

/// Velocity of one frame's travel, in micrometres per second, rounded toward zero.
pub open spec fn velocity_sample(travel_um: int, elapsed_us: nat) -> int {
    crate::math::clamped(
        crate::math::trunc_div(travel_um * 1_000_000, elapsed_us as int),
        i64::MIN as int,
        i64::MAX as int,
    )
}

/// The exit velocity follows a sample at least as fast at once, and a slower one by a hundredth.
pub open spec fn smoothed(velocity: (int, int), sample: (int, int)) -> (int, int) {
    if sample.0 * sample.0 + sample.1 * sample.1 >= velocity.0 * velocity.0 + velocity.1
        * velocity.1 {
        sample
    } else {
        (
            crate::math::trunc_div(
                (RELEASE_DENOM - 1) * velocity.0 + sample.0,
                RELEASE_DENOM as int,
            ),
            crate::math::trunc_div(
                (RELEASE_DENOM - 1) * velocity.1 + sample.1,
                RELEASE_DENOM as int,
            ),
        )
    }
}

impl RuntimeModel {
    /// No stroke in progress.
    pub open spec fn idle() -> Self {
        RuntimeModel {
            recognizer: crate::touchpad::RecognizerModel::Idle,
            frozen: None,
            frozen_enabled: false,
            stream: None,
            scroll: None,
            last_frame_us: None,
        }
    }

    /// The runtime with the stroke's bindings frozen: those of its first frame stay.
    pub open spec fn freeze(self, bindings: Map<ButtonId, Action>, enabled: bool) -> Self {
        if self.frozen is None {
            RuntimeModel { frozen: Some(bindings), frozen_enabled: enabled, ..self }
        } else {
            self
        }
    }

    /// The action frozen for a trigger.
    pub open spec fn action(self, trigger: ButtonId) -> Option<Action> {
        match self.frozen {
            Some(bindings) => if bindings.dom().contains(trigger) {
                Some(bindings[trigger])
            } else {
                None
            },
            None => None,
        }
    }

    /// The action a recognized trigger fires: the frozen one, if actions are enabled now and were
    /// at the stroke's first frame.
    pub open spec fn fired(self, trigger: ButtonId, enabled: bool) -> Option<Action> {
        if self.frozen_enabled && enabled {
            self.action(trigger)
        } else {
            None
        }
    }

    /// The velocity of the scroll stream after a frame that scrolled.
    pub open spec fn scroll_velocity(self, dx_um: int, dy_um: int, now_us: nat) -> (int, int) {
        let before = match self.scroll {
            Some(velocity) => velocity,
            None => (0, 0),
        };
        match self.last_frame_us {
            Some(last) => if now_us > last {
                let elapsed = (now_us - last) as nat;
                smoothed(
                    before,
                    (velocity_sample(dx_um, elapsed), velocity_sample(dy_um, elapsed)),
                )
            } else {
                before
            },
            None => before,
        }
    }

    /// The runtime after a frame was recognized, before a streamed swipe follows it.
    pub open spec fn recognized(
        self,
        frame: crate::touchpad::FrameModel,
        enabled: bool,
        native: bool,
    ) -> (RuntimeModel, TouchpadOutput) {
        let (recognizer, recognition) = self.recognizer.step(frame);
        let next = RuntimeModel { recognizer, last_frame_us: Some(frame.timestamp_us), ..self };
        match recognition {
            GestureRecognition::Gesture(trigger) => match self.fired(trigger, enabled) {
                Some(action) => match crate::swipe::stream_axis(trigger, action) {
                    Some(motion) => if native {
                        (
                            RuntimeModel {
                                stream: Some(
                                    crate::swipe::SwipeModel::begun(
                                        frame.contacts,
                                        motion,
                                        (trigger, action),
                                    ),
                                ),
                                ..next
                            },
                            TouchpadOutput::Idle,
                        )
                    } else {
                        (next, TouchpadOutput::Action { trigger, action })
                    },
                    None => (next, TouchpadOutput::Action { trigger, action }),
                },
                None => (next, TouchpadOutput::Idle),
            },
            GestureRecognition::Scroll { dx_um, dy_um } => (
                RuntimeModel {
                    scroll: Some(
                        self.scroll_velocity(dx_um as int, dy_um as int, frame.timestamp_us),
                    ),
                    ..next
                },
                TouchpadOutput::Scroll {
                    dx_um,
                    dy_um,
                    phase: if self.scroll is Some {
                        SmoothScrollPhase::Changed
                    } else {
                        SmoothScrollPhase::Began
                    },
                },
            ),
            GestureRecognition::Pending => (next, TouchpadOutput::Idle),
        }
    }

    /// The runtime after one frame, and what the frame leads to.
    pub open spec fn step(
        self,
        frame: crate::touchpad::FrameModel,
        bindings: Map<ButtonId, Action>,
        enabled: bool,
        native: bool,
    ) -> (RuntimeModel, TouchpadOutcome) {
        let (next, output) = self.freeze(bindings, enabled).recognized(frame, enabled, native);
        match next.stream {
            Some(swipe) => {
                let (followed, stream) = swipe.advanced(frame.contacts);
                (
                    RuntimeModel { stream: Some(followed), ..next },
                    TouchpadOutcome { output, stream },
                )
            },
            None => (next, TouchpadOutcome { output, stream: SwipeOutput::Idle }),
        }
    }

    /// What ending the scroll stream reports.
    pub open spec fn scroll_ended(self) -> TouchpadOutput {
        match self.scroll {
            Some(velocity) => TouchpadOutput::ScrollEnd {
                phase: SmoothScrollPhase::Ended,
                exit_velocity_um_per_s: Some((velocity.0 as i64, velocity.1 as i64)),
            },
            None => TouchpadOutput::Idle,
        }
    }

    /// What cancelling the scroll stream reports.
    pub open spec fn scroll_cancelled(self) -> TouchpadOutput {
        match self.scroll {
            Some(_) => TouchpadOutput::ScrollEnd {
                phase: SmoothScrollPhase::Cancelled,
                exit_velocity_um_per_s: None,
            },
            None => TouchpadOutput::Idle,
        }
    }

    /// What lifting the last finger leads to: the end of an open scroll stream, or the action of a
    /// tap; and the release of a streamed swipe.
    pub open spec fn lifted(self, enabled: bool) -> TouchpadOutcome {
        TouchpadOutcome {
            output: if self.scroll is Some {
                self.scroll_ended()
            } else {
                match self.recognizer.tap_on_end() {
                    Some(trigger) => match self.fired(trigger, enabled) {
                        Some(action) => TouchpadOutput::Action { trigger, action },
                        None => TouchpadOutput::Idle,
                    },
                    None => TouchpadOutput::Idle,
                }
            },
            stream: match self.stream {
                Some(swipe) => swipe.finished(SwipeEnd::AtRelease),
                None => SwipeOutput::Idle,
            },
        }
    }

    /// The runtime with its stroke cancelled but a running animation kept: cancels for dropped
    /// frames come mid-stroke, and the real end still follows.
    pub open spec fn cancelled(self) -> Self {
        RuntimeModel {
            recognizer: crate::touchpad::RecognizerModel::Cancelled,
            stream: self.stream,
            ..RuntimeModel::idle()
        }
    }
}

/// One touchpad's strokes.
pub struct TouchpadRuntime {
    recognizer: TouchpadGestureRecognizer,
    frozen_bindings: Option<Table<ButtonId, Action>>,
    frozen_actions_enabled: bool,
    stream: Option<ActiveSwipe>,
    scroll: Option<(i64, i64)>,
    last_frame_us: Option<u64>,
}

impl View for TouchpadRuntime {
    type V = RuntimeModel;

    closed spec fn view(&self) -> RuntimeModel {
        RuntimeModel {
            recognizer: self.recognizer@,
            frozen: match self.frozen_bindings {
                Some(bindings) => Some(bindings@),
                None => None,
            },
            frozen_enabled: self.frozen_actions_enabled,
            stream: match self.stream {
                Some(swipe) => Some(swipe@),
                None => None,
            },
            scroll: match self.scroll {
                Some(velocity) => Some((velocity.0 as int, velocity.1 as int)),
                None => None,
            },
            last_frame_us: match self.last_frame_us {
                Some(at) => Some(at as nat),
                None => None,
            },
        }
    }
}

impl Default for TouchpadRuntime {
    fn default() -> (runtime: Self)
        ensures
            runtime@ == RuntimeModel::idle(),
    {
        TouchpadRuntime {
            recognizer: TouchpadGestureRecognizer::default(),
            frozen_bindings: None,
            frozen_actions_enabled: false,
            stream: None,
            scroll: None,
            last_frame_us: None,
        }
    }
}

impl TouchpadRuntime {
    /// Feeds one frame; a streamed swipe in progress needs a finger down.
    pub fn step(
        &mut self,
        frame: &TouchFrame,
        current_bindings: &Table<ButtonId, Action>,
        actions_enabled: bool,
        native_streaming: bool,
    ) -> (outcome: TouchpadOutcome)
        requires
            old(self)@.stream is Some ==> frame@.contacts.len() > 0,
        ensures
            (final(self)@, outcome) == old(self)@.step(
                frame@,
                current_bindings@,
                actions_enabled,
                native_streaming,
            ),
    {
        if self.frozen_bindings.is_none() {
            self.frozen_bindings = Some(current_bindings.duplicate());
            self.frozen_actions_enabled = actions_enabled;
        }
        let output: TouchpadOutput = self.recognize(frame, actions_enabled, native_streaming);
        let mut stream: SwipeOutput = SwipeOutput::Idle;
        if let Some(swipe) = self.stream.take() {
            let (followed, posted) = swipe.advance(frame);
            self.stream = Some(followed);
            stream = posted;
        }
        TouchpadOutcome { output, stream }
    }

    /// Feeds one frame where swipes are not streamed.
    pub fn update(
        &mut self,
        frame: &TouchFrame,
        current_bindings: &Table<ButtonId, Action>,
        actions_enabled: bool,
    ) -> (output: TouchpadOutput)
        requires
            old(self)@.stream is Some ==> frame@.contacts.len() > 0,
        ensures
            final(self)@ == old(self)@.step(frame@, current_bindings@, actions_enabled, false).0,
            output == old(self)@.step(
                frame@,
                current_bindings@,
                actions_enabled,
                false,
            ).1.output,
    {
        self.step(frame, current_bindings, actions_enabled, false).output
    }

    fn recognize(&mut self, frame: &TouchFrame, actions_enabled: bool, native_streaming: bool) -> (
        output: TouchpadOutput)
        ensures
            (final(self)@, output) == old(self)@.recognized(
                frame@,
                actions_enabled,
                native_streaming,
            ),
            final(self)@.stream is Some ==> old(self)@.stream is Some || frame@.contacts.len() > 0,
    {
        let last: Option<u64> = self.last_frame_us;
        let recognition: GestureRecognition = self.recognizer.update(frame);
        let now: u64 = frame.time_us();
        self.last_frame_us = Some(now);
        match recognition {
            GestureRecognition::Gesture(trigger) => {
                let action: Action = match self.fired_action(trigger, actions_enabled) {
                    Some(action) => action,
                    None => return TouchpadOutput::Idle,
                };
                match native_stream_plan(trigger, &action) {
                    Some(motion) => {
                        if native_streaming {
                            // The animation's end commits the action; its opening waits for the
                            // first non-zero travel.
                            self.stream = Some(ActiveSwipe::new(frame, motion, (trigger, action)));
                            TouchpadOutput::Idle
                        } else {
                            TouchpadOutput::Action { trigger, action }
                        }
                    },
                    None => TouchpadOutput::Action { trigger, action },
                }
            },
            GestureRecognition::Scroll { dx_um, dy_um } => {
                let phase: SmoothScrollPhase = if self.scroll.is_some() {
                    SmoothScrollPhase::Changed
                } else {
                    SmoothScrollPhase::Began
                };
                let before: (i64, i64) = match self.scroll {
                    Some(velocity) => velocity,
                    None => (0, 0),
                };
                let velocity: (i64, i64) = match last {
                    Some(last) => {
                        if now > last {
                            let elapsed: u64 = now - last;
                            smooth(before, (sample(dx_um, elapsed), sample(dy_um, elapsed)))
                        } else {
                            before
                        }
                    },
                    None => before,
                };
                self.scroll = Some(velocity);
                TouchpadOutput::Scroll { dx_um, dy_um, phase }
            },
            GestureRecognition::Pending => TouchpadOutput::Idle,
        }
    }

    fn fired_action(&self, trigger: ButtonId, actions_enabled: bool) -> (action: Option<Action>)
        ensures
            action == self@.fired(trigger, actions_enabled),
    {
        if !self.frozen_actions_enabled || !actions_enabled {
            return None;
        }
        match &self.frozen_bindings {
            Some(bindings) => match bindings.get(&trigger) {
                Some(action) => Some(*action),
                None => None,
            },
            None => None,
        }
    }

    /// Ends the stroke and releases a streamed swipe.
    pub fn finish(&mut self, actions_enabled: bool) -> (outcome: TouchpadOutcome)
        ensures
            outcome == old(self)@.lifted(actions_enabled),
            final(self)@ == RuntimeModel::idle(),
    {
        let tap: Option<ButtonId> = self.recognizer.end();
        let output: TouchpadOutput = match self.scroll {
            Some(velocity) => TouchpadOutput::ScrollEnd {
                phase: SmoothScrollPhase::Ended,
                exit_velocity_um_per_s: Some(velocity),
            },
            None => match tap {
                Some(trigger) => match self.fired_action(trigger, actions_enabled) {
                    Some(action) => TouchpadOutput::Action { trigger, action },
                    None => TouchpadOutput::Idle,
                },
                None => TouchpadOutput::Idle,
            },
        };
        let stream: SwipeOutput = match self.stream.take() {
            Some(swipe) => swipe.finish(SwipeEnd::AtRelease),
            None => SwipeOutput::Idle,
        };
        self.frozen_bindings = None;
        self.frozen_actions_enabled = false;
        self.scroll = None;
        self.last_frame_us = None;
        TouchpadOutcome { output, stream }
    }

    /// Ends the stroke where swipes are not streamed.
    pub fn end(&mut self, actions_enabled: bool) -> (output: TouchpadOutput)
        ensures
            output == old(self)@.lifted(actions_enabled).output,
            final(self)@ == RuntimeModel::idle(),
    {
        self.finish(actions_enabled).output
    }

    /// Cancels the stroke but not a running animation: cancels for dropped frames come
    /// mid-stroke, and the real end still arrives.
    pub fn cancel(&mut self) -> (output: TouchpadOutput)
        ensures
            output == old(self)@.scroll_cancelled(),
            final(self)@ == old(self)@.cancelled(),
    {
        self.recognizer.cancel();
        self.frozen_bindings = None;
        self.frozen_actions_enabled = false;
        self.last_frame_us = None;
        match self.scroll.take() {
            Some(_) => TouchpadOutput::ScrollEnd {
                phase: SmoothScrollPhase::Cancelled,
                exit_velocity_um_per_s: None,
            },
            None => TouchpadOutput::Idle,
        }
    }

    /// Cancels the stroke and springs back an opened animation; an unopened one stays silent.
    pub fn terminate(&mut self) -> (outcome: TouchpadOutcome)
        ensures
            outcome.output == old(self)@.scroll_cancelled(),
            outcome.stream == (match old(self)@.stream {
                Some(swipe) => swipe.finished(SwipeEnd::Cancelled),
                None => SwipeOutput::Idle,
            }),
            final(self)@ == (RuntimeModel { stream: None, ..old(self)@.cancelled() }),
    {
        let output: TouchpadOutput = self.cancel();
        let stream: SwipeOutput = match self.stream.take() {
            Some(swipe) => swipe.finish(SwipeEnd::Cancelled),
            None => SwipeOutput::Idle,
        };
        TouchpadOutcome { output, stream }
    }

    /// Closes a streamed swipe that could not be opened and recovers its suppressed action.
    pub fn begin_failed(&mut self) -> (fallback: Option<(ButtonId, Action)>)
        ensures
            fallback == (match old(self)@.stream {
                Some(swipe) => Some(swipe.fallback),
                None => None,
            }),
            final(self)@ == (RuntimeModel { stream: None, ..old(self)@ }),
    {
        match self.stream.take() {
            Some(swipe) => Some(swipe.fallback()),
            None => None,
        }
    }

    /// Whether a stroke is in progress.
    pub fn in_stroke(&self) -> (in_stroke: bool)
        ensures
            in_stroke == (self@.frozen is Some),
    {
        self.frozen_bindings.is_some()
    }

    /// Whether a swipe is being streamed.
    pub fn is_streaming(&self) -> (streaming: bool)
        ensures
            streaming == (self@.stream is Some),
    {
        self.stream.is_some()
    }
}

/// Velocity of one frame's travel.
fn sample(travel_um: i64, elapsed_us: u64) -> (velocity: i64)
    requires
        elapsed_us > 0,
    ensures
        velocity == velocity_sample(travel_um as int, elapsed_us as nat),
{
    saturate(travel_um as i128 * 1_000_000 / elapsed_us as i128)
}

/// Sum of the squares of two components.
fn square_sum(v: (i64, i64)) -> (sum: u128)
    ensures
        sum == v.0 * v.0 + v.1 * v.1,
{
    let x: u128 = crate::math::unsigned_magnitude(v.0) as u128;
    let y: u128 = crate::math::unsigned_magnitude(v.1) as u128;
    assert(0 <= x * x <= 0x4000_0000_0000_0000_0000_0000_0000_0000) by (nonlinear_arith)
        requires
            0 <= x <= 0x8000_0000_0000_0000,
    ;
    assert(0 <= y * y <= 0x4000_0000_0000_0000_0000_0000_0000_0000) by (nonlinear_arith)
        requires
            0 <= y <= 0x8000_0000_0000_0000,
    ;
    let (a, b): (i64, i64) = v;
    assert(x * x == a * a) by (nonlinear_arith)
        requires
            x == a || x == -a,
    ;
    assert(y * y == b * b) by (nonlinear_arith)
        requires
            y == b || y == -b,
    ;
    x * x + y * y
}

/// The smoothed velocity after a sample.
fn smooth(velocity: (i64, i64), sample: (i64, i64)) -> (next: (i64, i64))
    ensures
        (next.0 as int, next.1 as int) == smoothed(
            (velocity.0 as int, velocity.1 as int),
            (sample.0 as int, sample.1 as int),
        ),
{
    if square_sum(sample) >= square_sum(velocity) {
        sample
    } else {
        (blend(velocity.0, sample.0), blend(velocity.1, sample.1))
    }
}

fn blend(velocity: i64, sample: i64) -> (next: i64)
    ensures
        next == crate::math::trunc_div(
            (RELEASE_DENOM - 1) * velocity + sample,
            RELEASE_DENOM as int,
        ),
{
    let sum: i128 = (RELEASE_DENOM - 1) * velocity as i128 + sample as i128;
    let next: i128 = sum / RELEASE_DENOM;
    next as i64
}

} // verus!
