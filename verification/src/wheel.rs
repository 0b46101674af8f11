//! Thumb-wheel rotation: continuous scrolling, or progress toward a custom action.
use vstd::prelude::*;

use crate::binding::{Action, ButtonId};
use crate::plan::{DispatchPlan, ThumbwheelSensitivity};

verus! {

/// How long after firing an action the wheel stays quiet.
pub const WHEEL_COOLDOWN_MS: u64 = 200;

/// Effective thumb-wheel configuration of one dispatch plan.
#[derive(Clone, Copy, Debug, PartialEq, Eq, Structural)]
pub struct WheelConfiguration {
    pub up: Action,
    pub down: Action,
    pub sensitivity: ThumbwheelSensitivity,
}

impl WheelConfiguration {
    /// The configuration a plan implies.
    pub open spec fn of_plan(plan: crate::plan::DispatchModel) -> Self {
        WheelConfiguration {
            up: plan.click_action(ButtonId::ThumbwheelScrollUp),
            down: plan.click_action(ButtonId::ThumbwheelScrollDown),
            sensitivity: plan.thumbwheel_sensitivity,
        }
    }

    /// The action of a rotation.
    pub open spec fn action_of(self, rotation: WheelRotation) -> Action {
        if rotation.is_up() {
            self.up
        } else {
            self.down
        }
    }

    /// Resolves both directional bindings and their shared sensitivity.
    pub fn for_plan(plan: &DispatchPlan) -> (configuration: Self)
        ensures
            configuration == WheelConfiguration::of_plan(plan@),
    {
        WheelConfiguration {
            up: plan.click_action(ButtonId::ThumbwheelScrollUp),
            down: plan.click_action(ButtonId::ThumbwheelScrollDown),
            sensitivity: plan.thumbwheel_sensitivity,
        }
    }

    /// The action of a rotation.
    pub fn action(&self, rotation: WheelRotation) -> (action: Action)
        ensures
            action == self.action_of(rotation),
    {
        if rotation.increments > 0 {
            self.up
        } else {
            self.down
        }
    }
}

/// A non-zero rotation of the thumb wheel.
#[derive(Clone, Copy, Debug, PartialEq, Eq, Structural)]
pub struct WheelRotation {
    pub increments: i16,
}

impl WheelRotation {
    /// Signed size of the rotation, positive upwards.
    pub open spec fn size(self) -> int {
        self.increments as int
    }

    /// Whether the wheel turned upwards.
    pub open spec fn is_up(self) -> bool {
        self.size() > 0
    }

    /// The control a rotation belongs to.
    pub open spec fn control(self) -> ButtonId {
        if self.is_up() {
            ButtonId::ThumbwheelScrollUp
        } else {
            ButtonId::ThumbwheelScrollDown
        }
    }

    /// The rotation of a report; `None` for a report without rotation.
    pub fn from_increments(increments: i16) -> (rotation: Option<Self>)
        ensures
            rotation is None <==> increments == 0,
            rotation matches Some(r) ==> r == (WheelRotation { increments }),
    {
        if increments == 0 {
            None
        } else {
            Some(WheelRotation { increments })
        }
    }

    /// The control the rotation belongs to.
    pub fn button(self) -> (button: ButtonId)
        ensures
            button == self.control(),
    {
        if self.increments > 0 {
            ButtonId::ThumbwheelScrollUp
        } else {
            ButtonId::ThumbwheelScrollDown
        }
    }
}

/// Increments the wheel reports per detent.
#[derive(Clone, Copy, Debug, PartialEq, Eq, Structural)]
pub struct WheelResolution {
    pub increments_per_detent: u16,
}

impl WheelResolution {
    /// A wheel that does not say; each increment counts as a detent.
    pub fn unknown() -> (resolution: Self)
        ensures
            resolution.increments_per_detent == 0,
    {
        WheelResolution { increments_per_detent: 0 }
    }
}

/// How a rotation becomes scroll distance.
#[derive(Clone, Copy, Debug, PartialEq, Eq, Structural)]
pub struct ScrollScale {
    pub resolution: WheelResolution,
    pub sensitivity: ThumbwheelSensitivity,
}

/// A scroll distance as an exact fraction of detents, positive to the right.
#[derive(Clone, Copy, Debug, PartialEq, Eq, Structural)]
pub struct WheelDelta {
    pub numerator: i64,
    pub denominator: i64,
}

impl ScrollScale {
    pub fn new(resolution: WheelResolution, sensitivity: ThumbwheelSensitivity) -> (scale: Self)
        ensures
            scale == (ScrollScale { resolution, sensitivity }),
    {
        ScrollScale { resolution, sensitivity }
    }

    /// The distance a rotation scrolls to the right or to the left: its increments per detent,
    /// scaled by the sensitivity relative to the neutral one.
    pub open spec fn distance(self, rotation: WheelRotation, rightwards: bool) -> WheelDelta {
        let size = crate::math::magnitude(rotation.size()) as int * self.sensitivity.level();
        WheelDelta {
            numerator: if rightwards {
                size as i64
            } else {
                (-size) as i64
            },
            denominator: (ThumbwheelSensitivity::neutral().level() * crate::math::greater(
                self.resolution.increments_per_detent as int,
                1,
            )) as i64,
        }
    }

    fn scroll(self, rotation: WheelRotation, rightwards: bool) -> (delta: WheelDelta)
        ensures
            delta == self.distance(rotation, rightwards),
    {
        let increments: i64 = if rotation.increments < 0 {
            -(rotation.increments as i64)
        } else {
            rotation.increments as i64
        };
        let level: i64 = self.sensitivity.get() as i64;
        assert(0 <= increments * level <= 32_768 * 255) by (nonlinear_arith)
            requires
                0 <= increments <= 32_768,
                0 <= level <= 255,
        ;
        let size: i64 = increments * level;
        let detent: i64 = if self.resolution.increments_per_detent == 0 {
            1
        } else {
            self.resolution.increments_per_detent as i64
        };
        let neutral: i64 = ThumbwheelSensitivity::default().get() as i64;
        assert(0 <= neutral * detent <= 255 * 65_535) by (nonlinear_arith)
            requires
                0 <= neutral <= 255,
                0 <= detent <= 65_535,
        ;
        WheelDelta {
            numerator: if rightwards {
                size
            } else {
                -size
            },
            denominator: neutral * detent,
        }
    }
}

/// What a rotation leads to.
#[derive(Clone, Copy, Debug, PartialEq, Eq, Structural)]
pub enum WheelOutput {
    Idle,
    Scroll(WheelDelta),
    FireAction,
}

/// Progress of one session's thumb wheel.
#[derive(Clone, Copy, Debug, PartialEq, Eq, Structural)]
pub struct WheelAccumulators {
    progress: i32,
    quiet_until_ms: u64,
}

/// Where a session's thumb wheel stands.
pub struct WheelModel {
    /// Signed increments gathered toward an action.
    pub progress: int,
    /// Until when the wheel stays quiet.
    pub quiet_until_ms: nat,
}

impl View for WheelAccumulators {
    type V = WheelModel;

    closed spec fn view(&self) -> WheelModel {
        WheelModel {
            progress: self.progress as int,
            quiet_until_ms: self.quiet_until_ms as nat,
        }
    }
}

impl WheelModel {
    /// Nothing gathered, nothing quiet.
    pub open spec fn fresh() -> Self {
        WheelModel { progress: 0, quiet_until_ms: 0 }
    }

    /// Increments gathered once a rotation is added: turning back starts over.
    pub open spec fn gathered(self, rotation: WheelRotation) -> int {
        if (self.progress > 0) == rotation.is_up() {
            self.progress + rotation.size()
        } else {
            rotation.size()
        }
    }

    /// The wheel after a rotation, and what the rotation leads to: the two horizontal scroll
    /// actions scroll, nothing does nothing, and any other action fires once enough increments
    /// are gathered, and then not again before the wheel has been quiet.
    pub open spec fn advanced(
        self,
        rotation: WheelRotation,
        action: Action,
        scale: ScrollScale,
        now_ms: nat,
    ) -> (WheelModel, WheelOutput) {
        let idle = WheelModel { progress: 0, ..self };
        match action {
            Action::HorizontalScrollRight => (
                idle,
                WheelOutput::Scroll(scale.distance(rotation, true)),
            ),
            Action::HorizontalScrollLeft => (
                idle,
                WheelOutput::Scroll(scale.distance(rotation, false)),
            ),
            Action::Nothing => (idle, WheelOutput::Idle),
            _ => if now_ms < self.quiet_until_ms {
                (idle, WheelOutput::Idle)
            } else if crate::math::magnitude(self.gathered(rotation))
                >= scale.sensitivity.threshold() {
                (
                    WheelModel {
                        progress: 0,
                        quiet_until_ms: crate::math::lesser(
                            now_ms + WHEEL_COOLDOWN_MS,
                            u64::MAX as int,
                        ) as nat,
                    },
                    WheelOutput::FireAction,
                )
            } else {
                (WheelModel { progress: self.gathered(rotation), ..self }, WheelOutput::Idle)
            },
        }
    }
}

impl Default for WheelAccumulators {
    fn default() -> (wheel: Self)
        ensures
            wheel@ == WheelModel::fresh(),
    {
        WheelAccumulators { progress: 0, quiet_until_ms: 0 }
    }
}

impl WheelAccumulators {
    #[verifier::type_invariant]
    spec fn inv(self) -> bool {
        -280 <= self.progress <= 280
    }

    /// Adds a rotation bound to an action.
    pub fn advance(
        &mut self,
        rotation: WheelRotation,
        action: &Action,
        scale: ScrollScale,
        now_ms: u64,
    ) -> (output: WheelOutput)
        ensures
            (final(self)@, output) == old(self)@.advanced(rotation, *action, scale, now_ms as nat),
    {
        proof {
            use_type_invariant(&*self);
        }
        match *action {
            Action::HorizontalScrollRight => {
                self.progress = 0;
                WheelOutput::Scroll(scale.scroll(rotation, true))
            },
            Action::HorizontalScrollLeft => {
                self.progress = 0;
                WheelOutput::Scroll(scale.scroll(rotation, false))
            },
            Action::Nothing => {
                self.progress = 0;
                WheelOutput::Idle
            },
            _ => {
                if now_ms < self.quiet_until_ms {
                    self.progress = 0;
                    return WheelOutput::Idle;
                }
                let added: i32 = rotation.increments as i32;
                let gathered: i32 = if (self.progress > 0) == (added > 0) {
                    self.progress + added
                } else {
                    added
                };
                let threshold: i32 = scale.sensitivity.action_threshold();
                if gathered >= threshold || -gathered >= threshold {
                    self.progress = 0;
                    self.quiet_until_ms = now_ms.saturating_add(WHEEL_COOLDOWN_MS);
                    WheelOutput::FireAction
                } else {
                    self.progress = gathered;
                    WheelOutput::Idle
                }
            },
        }
    }
}

/// After an action fired, the wheel stays quiet for the whole cooldown and then starts from
/// nothing.
pub proof fn law_cooldown_is_quiet(
    wheel: WheelModel,
    first: WheelRotation,
    action: Action,
    scale: ScrollScale,
    now_ms: nat,
    next: WheelRotation,
    next_action: Action,
    later_ms: nat,
)
    requires
        wheel.advanced(first, action, scale, now_ms).1 == WheelOutput::FireAction,
        now_ms + WHEEL_COOLDOWN_MS <= u64::MAX,
        later_ms < now_ms + WHEEL_COOLDOWN_MS,
    ensures
        wheel.advanced(first, action, scale, now_ms).0.progress == 0,
        wheel.advanced(first, action, scale, now_ms).0.advanced(
            next,
            next_action,
            scale,
            later_ms,
        ).1 != WheelOutput::FireAction,
{
}

/// An action fires from a fresh wheel exactly when one rotation reaches the threshold.
pub proof fn law_fresh_wheel_fires_at_threshold(
    rotation: WheelRotation,
    action: Action,
    scale: ScrollScale,
    now_ms: nat,
)
    requires
        !(action is Nothing) && !(action is HorizontalScrollLeft) && !(
        action is HorizontalScrollRight),
    ensures
        WheelModel::fresh().advanced(rotation, action, scale, now_ms).1 == WheelOutput::FireAction
            <==> crate::math::magnitude(rotation.size()) >= scale.sensitivity.threshold(),
{
}

/// A thumb wheel bound to a horizontal scroll scrolls that way, whichever way it is turned: by one
/// tick for a detent at the neutral sensitivity of fourteen, and in proportion otherwise. A wheel
/// that does not say how many increments a detent has scrolls a tick for each.
pub proof fn law_wheel_scrolls_the_bound_way(
    wheel: WheelModel,
    rotation: WheelRotation,
    scale: ScrollScale,
    now_ms: nat,
)
    requires
        scale.sensitivity.value <= 100,
    ensures
        ({
            let right = wheel.advanced(rotation, Action::HorizontalScrollRight, scale, now_ms);
            let left = wheel.advanced(rotation, Action::HorizontalScrollLeft, scale, now_ms);
            let turned = if rotation.increments < 0 {
                -(rotation.increments as int)
            } else {
                rotation.increments as int
            };
            let detent = scale.resolution.increments_per_detent as int;
            &&& right.1 matches WheelOutput::Scroll(delta) && delta.numerator == turned
                * scale.sensitivity.value && delta.denominator == (if detent == 0 {
                14
            } else {
                14 * detent
            })
            &&& left.1 matches WheelOutput::Scroll(delta) && delta.numerator == -(turned
                * scale.sensitivity.value) && delta.denominator == (if detent == 0 {
                14
            } else {
                14 * detent
            })
            &&& right.0 == (WheelModel { progress: 0, quiet_until_ms: wheel.quiet_until_ms })
            &&& left.0 == right.0
        }),
{
    let turned = crate::math::magnitude(rotation.size()) as int;
    let level = scale.sensitivity.value as int;
    assert(0 <= turned * level <= 32_768 * 100) by (nonlinear_arith)
        requires
            0 <= turned <= 32_768,
            0 <= level <= 100,
    ;
}

/// Turning up is the wheel's up control and its up action, turning down the other ones; a plan's
/// two directions come from the bindings of those two controls.
pub proof fn law_rotation_picks_its_direction(
    plan: crate::plan::DispatchModel,
    rotation: WheelRotation,
)
    ensures
        ({
            let configuration = WheelConfiguration::of_plan(plan);
            &&& rotation.increments > 0 ==> rotation.control() == ButtonId::ThumbwheelScrollUp
            &&& rotation.increments < 0 ==> rotation.control() == ButtonId::ThumbwheelScrollDown
            &&& rotation.increments != 0 ==> configuration.action_of(rotation)
                == plan.click_action(rotation.control())
            &&& configuration.sensitivity == plan.thumbwheel_sensitivity
        }),
{
}

/// An action that is no scroll fires once the increments turned in one direction add up to the
/// threshold, and turning back starts over. What does not fire is kept; what fires leaves nothing
/// behind, and a quiet time of two hundred milliseconds.
pub proof fn law_wheel_fires_on_gathered_turns(
    wheel: WheelModel,
    rotation: WheelRotation,
    action: Action,
    scale: ScrollScale,
    now_ms: nat,
)
    requires
        !(action is Nothing) && !(action is HorizontalScrollLeft) && !(
        action is HorizontalScrollRight),
        rotation.increments != 0,
        now_ms + 200 <= u64::MAX,
    ensures
        ({
            let turned = rotation.increments as int;
            let along = (wheel.progress > 0 && turned > 0) || (wheel.progress <= 0 && turned < 0);
            let gathered = if along {
                wheel.progress + turned
            } else {
                turned
            };
            let threshold = scale.sensitivity.threshold();
            let (after, output) = wheel.advanced(rotation, action, scale, now_ms);
            &&& now_ms < wheel.quiet_until_ms ==> output is Idle && after.progress == 0
                && after.quiet_until_ms == wheel.quiet_until_ms
            &&& now_ms >= wheel.quiet_until_ms && (gathered >= threshold || gathered <= -threshold)
                ==> output is FireAction && after.progress == 0 && after.quiet_until_ms == now_ms
                + 200
            &&& now_ms >= wheel.quiet_until_ms && -threshold < gathered < threshold ==> output
                is Idle && after.progress == gathered && after.quiet_until_ms
                == wheel.quiet_until_ms
        }),
{
}

/// A wheel that is bound to nothing does nothing and gathers nothing.
pub proof fn law_unbound_wheel_is_idle(
    wheel: WheelModel,
    rotation: WheelRotation,
    scale: ScrollScale,
    now_ms: nat,
)
    ensures
        wheel.advanced(rotation, Action::Nothing, scale, now_ms).1 is Idle,
        wheel.advanced(rotation, Action::Nothing, scale, now_ms).0.progress == 0,
        wheel.advanced(rotation, Action::Nothing, scale, now_ms).0.quiet_until_ms
            == wheel.quiet_until_ms,
{
}

} // verus!
