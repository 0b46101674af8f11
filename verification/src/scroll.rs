//! Two-finger scrolling: from finger travel to content travel, and the glide after lift-off.
//!
//! Content travel is exact: it is counted in fractions of a pixel that make every combination of
//! finger travel and sensitivity a whole number. The glide's velocity loses a fixed share at every
//! tick, which no whole number of such fractions can follow for long, so it is kept to many binary
//! places more: it never strays from the exact exponential by more than a few of the last one.
use vstd::prelude::*;

use crate::plan::{DispatchPlan, TouchpadScrollSensitivity};

verus! {

/// Content distance units per pixel. At the neutral sensitivity of fourteen a millimetre of finger
/// travel is 25 pixels, so a micrometre at a sensitivity of one is one of these units.
pub const UNITS_PER_PIXEL: i128 = 560;

/// One tick of the glide, in milliseconds.
pub const TICK_MS: i128 = 11;

/// What remains of the glide's velocity after each tick, in thousandths.
pub const DECAY_PER_TICK: i128 = 955;

/// Content speed at which the glide ends, in pixels per second: a tenth of a pixel per tick.
pub const STOP_PX_PER_S: i128 = 10;

/// Content speed at lift-off that a glide needs to exceed, in pixels per second.
pub const START_PX_PER_S: i128 = 1_000;

/// Parts of a content distance unit that the glide's velocity is kept in.
pub const GLIDE_PARTS: i128 = 0x1000_0000_0000;

/// Phase of a synthesized scroll stream.
#[derive(Clone, Copy, Debug, PartialEq, Eq, Structural)]
pub enum SmoothScrollPhase {
    Began,
    Changed,
    Ended,
    Cancelled,
}

/// A content distance, or a content velocity per second, in [`UNITS_PER_PIXEL`]ths of a pixel.
/// Positive is view-right and view-up.
#[derive(Clone, Copy, Debug, PartialEq, Eq, Structural)]
pub struct ContentDelta {
    pub x: i128,
    pub y: i128,
}

impl ContentDelta {
    /// Whether a velocity exceeds a speed in pixels per second.
    pub open spec fn exceeds(self, px_per_s: int) -> bool {
        let limit = px_per_s * UNITS_PER_PIXEL;
        self.x * self.x + self.y * self.y > limit * limit
    }

    /// The velocities content can move at.
    pub open spec fn in_range(self) -> bool {
        &&& -0x1_00_0000_0000_0000_0000 <= self.x <= 0x1_00_0000_0000_0000_0000
        &&& -0x1_00_0000_0000_0000_0000 <= self.y <= 0x1_00_0000_0000_0000_0000
    }

    fn is_faster_than(self, px_per_s: i128) -> (faster: bool)
        requires
            0 <= px_per_s <= 1_000,
        ensures
            faster == self.exceeds(px_per_s as int),
    {
        let limit: i128 = px_per_s * UNITS_PER_PIXEL;
        assert(0 <= limit * limit <= 560_000 * 560_000) by (nonlinear_arith)
            requires
                0 <= limit <= 560_000,
        ;
        if self.x > limit || self.x < -limit {
            proof {
                let x = self.x as int;
                let y = self.y as int;
                assert(x * x + y * y > limit * limit) by (nonlinear_arith)
                    requires
                        limit >= 0,
                        x > limit || x < -limit,
                ;
            }
            return true;
        }
        if self.y > limit || self.y < -limit {
            proof {
                let x = self.x as int;
                let y = self.y as int;
                assert(x * x + y * y > limit * limit) by (nonlinear_arith)
                    requires
                        limit >= 0,
                        y > limit || y < -limit,
                ;
            }
            return true;
        }
        let (x, y): (i128, i128) = (self.x, self.y);
        assert(0 <= x * x <= 560_000 * 560_000) by (nonlinear_arith)
            requires
                -560_000 <= x <= 560_000,
        ;
        assert(0 <= y * y <= 560_000 * 560_000) by (nonlinear_arith)
            requires
                -560_000 <= y <= 560_000,
        ;
        x * x + y * y > limit * limit
    }
}

/// A device's scroll feel.
#[derive(Clone, Copy, Debug, PartialEq, Eq, Structural)]
pub struct TouchpadScrollTuning {
    pub sensitivity: TouchpadScrollSensitivity,
    pub inverted: bool,
}

impl TouchpadScrollTuning {
    /// The tuning a plan asks for.
    pub open spec fn of_plan(plan: crate::plan::DispatchModel) -> Self {
        TouchpadScrollTuning {
            sensitivity: plan.touchpad_scroll_sensitivity,
            inverted: plan.touchpad_scroll_inverted,
        }
    }

    /// Content follows the fingers: fingers to the right move content to the right, which is
    /// view-left, and fingers down move it down, which is view-up. Inversion turns both around.
    pub open spec fn content(self, dx_um: int, dy_um: int) -> ContentDelta {
        let x = dx_um * self.sensitivity.level();
        let y = dy_um * self.sensitivity.level();
        if self.inverted {
            ContentDelta { x: x as i128, y: (-y) as i128 }
        } else {
            ContentDelta { x: (-x) as i128, y: y as i128 }
        }
    }

    /// The velocity a glide starts with; `None` when the lift-off was too slow to glide.
    pub open spec fn glide(self, exit_um_per_s: (int, int)) -> Option<ContentDelta> {
        let velocity = self.content(exit_um_per_s.0, exit_um_per_s.1);
        if velocity.exceeds(START_PX_PER_S as int) {
            Some(velocity)
        } else {
            None
        }
    }

    /// Neutral sensitivity, not inverted.
    pub fn neutral() -> (tuning: Self)
        ensures
            tuning.sensitivity == TouchpadScrollSensitivity::neutral(),
            !tuning.inverted,
    {
        TouchpadScrollTuning { sensitivity: TouchpadScrollSensitivity::default(), inverted: false }
    }

    /// The tuning a plan asks for.
    pub fn from_plan(plan: &DispatchPlan) -> (tuning: Self)
        ensures
            tuning == TouchpadScrollTuning::of_plan(plan@),
    {
        TouchpadScrollTuning {
            sensitivity: plan.touchpad_scroll_sensitivity,
            inverted: plan.touchpad_scroll_inverted,
        }
    }

    /// Content travel of a finger travel in micrometres.
    pub fn content_delta(self, dx_um: i64, dy_um: i64) -> (delta: ContentDelta)
        ensures
            delta == self.content(dx_um as int, dy_um as int),
            delta.in_range(),
            delta.x == if self.inverted {
                dx_um * self.sensitivity.level()
            } else {
                -(dx_um * self.sensitivity.level())
            },
            delta.y == if self.inverted {
                -(dy_um * self.sensitivity.level())
            } else {
                dy_um * self.sensitivity.level()
            },
    {
        let level: i128 = self.sensitivity.get() as i128;
        let (dx, dy): (i128, i128) = (dx_um as i128, dy_um as i128);
        assert(-0x1_00_0000_0000_0000_0000 <= dx * level <= 0x1_00_0000_0000_0000_0000)
            by (nonlinear_arith)
            requires
                -0x8000_0000_0000_0000 <= dx <= 0x7fff_ffff_ffff_ffff,
                0 <= level <= 255,
        ;
        assert(-0x1_00_0000_0000_0000_0000 <= dy * level <= 0x1_00_0000_0000_0000_0000)
            by (nonlinear_arith)
            requires
                -0x8000_0000_0000_0000 <= dy <= 0x7fff_ffff_ffff_ffff,
                0 <= level <= 255,
        ;
        let x: i128 = dx * level;
        let y: i128 = dy * level;
        if self.inverted {
            ContentDelta { x, y: -y }
        } else {
            ContentDelta { x: -x, y }
        }
    }
}

/// The glide's starting content velocity, or `None` when the lift-off was too slow to glide.
pub fn glide_velocity(tuning: TouchpadScrollTuning, exit_velocity_um_per_s: (i64, i64)) -> (
    velocity: Option<ContentDelta>)
    ensures
        velocity == tuning.glide(
            (exit_velocity_um_per_s.0 as int, exit_velocity_um_per_s.1 as int),
        ),
        velocity matches Some(v) ==> v.in_range(),
{
    let velocity: ContentDelta = tuning.content_delta(
        exit_velocity_um_per_s.0,
        exit_velocity_um_per_s.1,
    );
    if velocity.is_faster_than(START_PX_PER_S) {
        Some(velocity)
    } else {
        None
    }
}

/// A velocity of a glide, in [`GLIDE_PARTS`]ths of a content distance unit per second.
#[derive(Clone, Copy, Debug, PartialEq, Eq, Structural)]
pub struct GlideVelocity {
    pub x: i128,
    pub y: i128,
}

impl GlideVelocity {
    /// A content velocity.
    pub open spec fn of(velocity: ContentDelta) -> GlideVelocity {
        GlideVelocity {
            x: (velocity.x * GLIDE_PARTS) as i128,
            y: (velocity.y * GLIDE_PARTS) as i128,
        }
    }

    /// Whether the velocity exceeds a speed in pixels per second.
    pub open spec fn exceeds(self, px_per_s: int) -> bool {
        let limit = px_per_s * UNITS_PER_PIXEL * GLIDE_PARTS;
        self.x * self.x + self.y * self.y > limit * limit
    }

    /// The velocity after one tick of decay, cut toward zero to a part.
    pub open spec fn decayed(self) -> GlideVelocity {
        GlideVelocity {
            x: crate::math::trunc_div(self.x * DECAY_PER_TICK, 1000) as i128,
            y: crate::math::trunc_div(self.y * DECAY_PER_TICK, 1000) as i128,
        }
    }

    /// The velocities a glide can have.
    pub open spec fn in_range(self) -> bool {
        &&& -0x1_00_0000_0000_0000_0000 * GLIDE_PARTS <= self.x <= 0x1_00_0000_0000_0000_0000
            * GLIDE_PARTS
        &&& -0x1_00_0000_0000_0000_0000 * GLIDE_PARTS <= self.y <= 0x1_00_0000_0000_0000_0000
            * GLIDE_PARTS
    }

    fn from_content(velocity: ContentDelta) -> (glide: Self)
        requires
            velocity.in_range(),
        ensures
            glide == GlideVelocity::of(velocity),
            glide.in_range(),
    {
        GlideVelocity { x: velocity.x * GLIDE_PARTS, y: velocity.y * GLIDE_PARTS }
    }

    /// Whether the velocity is still above the one a glide ends at.
    fn goes_on(self) -> (faster: bool)
        ensures
            faster == self.exceeds(STOP_PX_PER_S as int),
    {
        let limit: i128 = STOP_PX_PER_S * UNITS_PER_PIXEL * GLIDE_PARTS;
        let (x, y): (i128, i128) = (self.x, self.y);
        if x > limit || x < -limit || y > limit || y < -limit {
            proof {
                let (a, b, l) = (x as int, y as int, limit as int);
                assert(a * a + b * b > l * l) by (nonlinear_arith)
                    requires
                        l >= 0,
                        a > l || a < -l || b > l || b < -l,
                ;
            }
            return true;
        }
        assert(0 <= x * x <= 0x200_0000_0000_0000 * 0x200_0000_0000_0000) by (nonlinear_arith)
            requires
                -0x200_0000_0000_0000 <= x <= 0x200_0000_0000_0000,
        ;
        assert(0 <= y * y <= 0x200_0000_0000_0000 * 0x200_0000_0000_0000) by (nonlinear_arith)
            requires
                -0x200_0000_0000_0000 <= y <= 0x200_0000_0000_0000,
        ;
        assert(0 <= limit * limit <= 0x200_0000_0000_0000 * 0x200_0000_0000_0000)
            by (nonlinear_arith)
            requires
                0 <= limit <= 0x200_0000_0000_0000,
        ;
        x * x + y * y > limit * limit
    }
}

/// One tick of a glide.
#[derive(Clone, Copy, Debug, PartialEq, Eq, Structural)]
pub struct TailTick {
    /// Content distance of the tick, in thousandths of a content distance unit.
    pub distance: ContentDelta,
    /// Whether the glide is over.
    pub finished: bool,
}

/// A glide in progress: the tail a scroll has after lift-off.
///
/// The velocity decays exponentially, without a low-speed brake, so that the visible motion ends by
/// fading out.
#[derive(Clone, Copy, Debug, PartialEq, Eq, Structural)]
pub struct MomentumTail {
    velocity: GlideVelocity,
}

impl View for MomentumTail {
    type V = GlideVelocity;

    closed spec fn view(&self) -> GlideVelocity {
        self.velocity
    }
}

/// What one tick of a glide with a velocity does: it covers the distance of the velocity before
/// the decay, cut toward zero to a thousandth of a unit, and it is the last one when the glide is
/// stopped or has slowed down enough.
pub open spec fn tail_tick(velocity: GlideVelocity, stop: bool) -> TailTick {
    TailTick {
        distance: ContentDelta {
            x: crate::math::trunc_div(velocity.x * TICK_MS, GLIDE_PARTS as int) as i128,
            y: crate::math::trunc_div(velocity.y * TICK_MS, GLIDE_PARTS as int) as i128,
        },
        finished: stop || !velocity.exceeds(STOP_PX_PER_S as int),
    }
}

impl MomentumTail {
    #[verifier::type_invariant]
    spec fn inv(self) -> bool {
        self.velocity.in_range()
    }

    /// Starts a glide from the lift-off velocity of a finished scroll stroke, in micrometres per
    /// second; `None` when the lift-off was too slow.
    pub fn start(tuning: TouchpadScrollTuning, exit_velocity_um_per_s: (i64, i64)) -> (tail: Option<
        Self,
    >)
        ensures
            ({
                let glide = tuning.glide(
                    (exit_velocity_um_per_s.0 as int, exit_velocity_um_per_s.1 as int),
                );
                match tail {
                    Some(tail) => glide is Some && tail@ == GlideVelocity::of(glide->0)
                        && tail@.in_range(),
                    None => glide is None,
                }
            }),
    {
        match glide_velocity(tuning, exit_velocity_um_per_s) {
            Some(velocity) => Some(
                MomentumTail { velocity: GlideVelocity::from_content(velocity) },
            ),
            None => None,
        }
    }

    /// A glide with a velocity; `None` for a velocity that content cannot move at.
    pub fn gliding(velocity: ContentDelta) -> (tail: Option<Self>)
        ensures
            match tail {
                Some(tail) => velocity.in_range() && tail@ == GlideVelocity::of(velocity)
                    && tail@.in_range(),
                None => !velocity.in_range(),
            },
    {
        let limit: i128 = 0x1_00_0000_0000_0000_0000;
        if -limit <= velocity.x && velocity.x <= limit && -limit <= velocity.y && velocity.y
            <= limit {
            Some(MomentumTail { velocity: GlideVelocity::from_content(velocity) })
        } else {
            None
        }
    }

    /// The current velocity.
    pub fn velocity(&self) -> (velocity: GlideVelocity)
        ensures
            velocity == self@,
    {
        self.velocity
    }

    /// Performs one tick.
    pub fn tick(&mut self, stop: bool) -> (tick: TailTick)
        ensures
            tick == tail_tick(old(self)@, stop),
            final(self)@ == (if tick.finished {
                old(self)@
            } else {
                old(self)@.decayed()
            }),
            final(self)@.in_range(),
    {
        proof {
            use_type_invariant(&*self);
        }
        let distance: ContentDelta = ContentDelta {
            x: self.velocity.x * TICK_MS / GLIDE_PARTS,
            y: self.velocity.y * TICK_MS / GLIDE_PARTS,
        };
        if stop || !self.velocity.goes_on() {
            return TailTick { distance, finished: true };
        }
        self.velocity = GlideVelocity {
            x: self.velocity.x * DECAY_PER_TICK / 1000,
            y: self.velocity.y * DECAY_PER_TICK / 1000,
        };
        TailTick { distance, finished: false }
    }
}

/// How many ticks a glide lasts when nothing stops it.
pub open spec fn tail_length(velocity: GlideVelocity) -> nat
    decreases crate::math::magnitude(velocity.x as int) + crate::math::magnitude(velocity.y as int),
    when velocity.in_range()
{
    if velocity.exceeds(STOP_PX_PER_S as int) {
        proof {
            law_decay_shrinks(velocity);
        }
        1 + tail_length(velocity.decayed())
    } else {
        1
    }
}

/// The velocity of a glide after a number of ticks that did not end it.
pub open spec fn after_ticks(velocity: GlideVelocity, ticks: nat) -> GlideVelocity
    decreases ticks,
{
    if ticks == 0 {
        velocity
    } else {
        after_ticks(velocity.decayed(), (ticks - 1) as nat)
    }
}

/// Every tick that does not end the glide shrinks it and keeps its direction: neither component
/// grows or changes sign, and together they get smaller.
pub proof fn law_decay_shrinks(velocity: GlideVelocity)
    requires
        velocity.in_range(),
    ensures
        velocity.decayed().in_range(),
        velocity.x >= 0 ==> 0 <= velocity.decayed().x <= velocity.x,
        velocity.x <= 0 ==> velocity.x <= velocity.decayed().x <= 0,
        velocity.y >= 0 ==> 0 <= velocity.decayed().y <= velocity.y,
        velocity.y <= 0 ==> velocity.y <= velocity.decayed().y <= 0,
        velocity.exceeds(STOP_PX_PER_S as int) ==> crate::math::magnitude(
            velocity.decayed().x as int,
        ) + crate::math::magnitude(velocity.decayed().y as int) < crate::math::magnitude(
            velocity.x as int,
        ) + crate::math::magnitude(velocity.y as int),
{
    if velocity.x == 0 && velocity.y == 0 {
        assert(!velocity.exceeds(STOP_PX_PER_S as int)) by (nonlinear_arith)
            requires
                velocity.x == 0,
                velocity.y == 0,
        ;
    }
}

/// Whether a velocity component is what is left of another after a number of ticks, up to 1000/45
/// parts: less than what all the cuts together can take away.
pub open spec fn follows_exponential(component: int, initial: int, ticks: nat) -> bool {
    let whole = vstd::arithmetic::power::pow(1000, ticks);
    let left = vstd::arithmetic::power::pow(DECAY_PER_TICK as int, ticks);
    crate::math::magnitude(component * whole - initial * left) * 45 <= 1000 * (whole - left)
}

/// The glide is the exact exponential, however long it lasts: after any number of ticks each
/// component of the velocity is within 1000/45 parts of the initial one times the decay to that
/// power.
pub proof fn law_decay_follows_the_exponential(velocity: GlideVelocity, ticks: nat)
    requires
        velocity.in_range(),
    ensures
        follows_exponential(after_ticks(velocity, ticks).x as int, velocity.x as int, ticks),
        follows_exponential(after_ticks(velocity, ticks).y as int, velocity.y as int, ticks),
    decreases ticks,
{
    if ticks == 0 {
        vstd::arithmetic::power::lemma_pow0(1000);
        vstd::arithmetic::power::lemma_pow0(DECAY_PER_TICK as int);
    } else {
        let next = velocity.decayed();
        let rest = (ticks - 1) as nat;
        law_decay_shrinks(velocity);
        law_decay_follows_the_exponential(next, rest);
        let end = after_ticks(velocity, ticks);
        lemma_one_more_tick(end.x as int, velocity.x as int, next.x as int, rest);
        lemma_one_more_tick(end.y as int, velocity.y as int, next.y as int, rest);
    }
}

proof fn lemma_one_more_tick(end: int, initial: int, next: int, rest: nat)
    requires
        next == crate::math::trunc_div(initial * DECAY_PER_TICK, 1000),
        follows_exponential(end, next, rest),
    ensures
        follows_exponential(end, initial, rest + 1),
{
    let whole = vstd::arithmetic::power::pow(1000, rest);
    let left = vstd::arithmetic::power::pow(DECAY_PER_TICK as int, rest);
    vstd::arithmetic::power::lemma_pow_adds(1000, rest, 1);
    vstd::arithmetic::power::lemma_pow_adds(DECAY_PER_TICK as int, rest, 1);
    vstd::arithmetic::power::lemma_pow1(1000);
    vstd::arithmetic::power::lemma_pow1(DECAY_PER_TICK as int);
    vstd::arithmetic::power::lemma_pow_positive(DECAY_PER_TICK as int, rest);
    let cut = 1000 * next - 955 * initial;
    assert(-1000 < cut < 1000);
    let before = end * whole - next * left;
    let after = end * (whole * 1000) - initial * (left * 955);
    assert(after == 1000 * before + cut * left) by (nonlinear_arith)
        requires
            cut == 1000 * next - 955 * initial,
            before == end * whole - next * left,
            after == end * (whole * 1000) - initial * (left * 955),
    ;
    assert(-1000 * left <= cut * left <= 1000 * left) by (nonlinear_arith)
        requires
            -1000 < cut < 1000,
            left > 0,
    ;
}

/// A glide that nothing stops ends by itself: every tick before its last goes on, and the last
/// one finishes it.
pub proof fn law_glide_ends_by_itself(velocity: GlideVelocity, ticks: nat)
    requires
        velocity.in_range(),
        ticks < tail_length(velocity),
    ensures
        tail_tick(after_ticks(velocity, ticks), false).finished <==> ticks + 1 == tail_length(
            velocity,
        ),
    decreases ticks,
{
    law_decay_shrinks(velocity);
    if ticks > 0 {
        law_glide_ends_by_itself(velocity.decayed(), (ticks - 1) as nat);
    } else if velocity.exceeds(STOP_PX_PER_S as int) {
        assert(tail_length(velocity) == 1 + tail_length(velocity.decayed()));
        assert(tail_length(velocity.decayed()) >= 1);
    }
}

/// Doubling the sensitivity doubles the content travel, and inversion turns it around.
pub proof fn law_tuning_scales_and_inverts(
    tuning: TouchpadScrollTuning,
    doubled: TouchpadScrollTuning,
    inverted: TouchpadScrollTuning,
    dx_um: i64,
    dy_um: i64,
)
    requires
        doubled.sensitivity.level() == 2 * tuning.sensitivity.level(),
        doubled.inverted == tuning.inverted,
        inverted.sensitivity == tuning.sensitivity,
        inverted.inverted != tuning.inverted,
    ensures
        doubled.content(dx_um as int, dy_um as int).x == 2 * tuning.content(
            dx_um as int,
            dy_um as int,
        ).x,
        doubled.content(dx_um as int, dy_um as int).y == 2 * tuning.content(
            dx_um as int,
            dy_um as int,
        ).y,
        inverted.content(dx_um as int, dy_um as int).x == -tuning.content(
            dx_um as int,
            dy_um as int,
        ).x,
        inverted.content(dx_um as int, dy_um as int).y == -tuning.content(
            dx_um as int,
            dy_um as int,
        ).y,
{
    let level = tuning.sensitivity.level();
    let twice = doubled.sensitivity.level();
    let (dx, dy) = (dx_um as int, dy_um as int);
    assert(dx * twice == 2 * (dx * level)) by (nonlinear_arith)
        requires
            twice == 2 * level,
    ;
    assert(dy * twice == 2 * (dy * level)) by (nonlinear_arith)
        requires
            twice == 2 * level,
    ;
    assert(-0x1_00_0000_0000_0000_0000 <= dx * level <= 0x1_00_0000_0000_0000_0000)
        by (nonlinear_arith)
        requires
            -0x8000_0000_0000_0000 <= dx <= 0x7fff_ffff_ffff_ffff,
            0 <= level <= 255,
    ;
    assert(-0x1_00_0000_0000_0000_0000 <= dy * level <= 0x1_00_0000_0000_0000_0000)
        by (nonlinear_arith)
        requires
            -0x8000_0000_0000_0000 <= dy <= 0x7fff_ffff_ffff_ffff,
            0 <= level <= 255,
    ;
}

/// Content goes with the fingers: fingers to the right move it right, which is view-left, and
/// fingers down move it down, which is view-up; inverted, the other way. At the sensitivity of
/// fourteen forty micrometres are a pixel, and in proportion otherwise.
pub proof fn law_content_goes_with_the_fingers(
    tuning: TouchpadScrollTuning,
    dx_um: i64,
    dy_um: i64,
)
    ensures
        ({
            let content = tuning.content(dx_um as int, dy_um as int);
            let level = tuning.sensitivity.value as int;
            &&& !tuning.inverted ==> content.x * 40 * 14 == -(560 * (dx_um * level))
            &&& !tuning.inverted ==> content.y * 40 * 14 == 560 * (dy_um * level)
            &&& tuning.inverted ==> content.x * 40 * 14 == 560 * (dx_um * level)
            &&& tuning.inverted ==> content.y * 40 * 14 == -(560 * (dy_um * level))
            &&& !tuning.inverted && level > 0 && dx_um > 0 ==> content.x < 0
            &&& !tuning.inverted && level > 0 && dx_um < 0 ==> content.x > 0
            &&& !tuning.inverted && level > 0 && dy_um > 0 ==> content.y > 0
            &&& !tuning.inverted && level > 0 && dy_um < 0 ==> content.y < 0
            &&& dx_um == 0 ==> content.x == 0
            &&& dy_um == 0 ==> content.y == 0
        }),
{
    let level = tuning.sensitivity.value as int;
    lemma_scaled_is_bounded(dx_um as int, level);
    lemma_scaled_is_bounded(dy_um as int, level);
}

proof fn lemma_scaled_is_bounded(d: int, level: int)
    requires
        -0x8000_0000_0000_0000 <= d <= 0x7fff_ffff_ffff_ffff,
        0 <= level <= 255,
    ensures
        -0x1_00_0000_0000_0000_0000 <= d * level <= 0x1_00_0000_0000_0000_0000,
        d == 0 ==> d * level == 0,
        d > 0 && level > 0 ==> d * level > 0,
        d < 0 && level > 0 ==> d * level < 0,
{
    assert(-0x1_00_0000_0000_0000_0000 <= d * level <= 0x1_00_0000_0000_0000_0000)
        by (nonlinear_arith)
        requires
            -0x8000_0000_0000_0000 <= d <= 0x7fff_ffff_ffff_ffff,
            0 <= level <= 255,
    ;
    assert(d == 0 ==> d * level == 0) by (nonlinear_arith);
    assert(d > 0 && level > 0 ==> d * level > 0) by (nonlinear_arith);
    assert(d < 0 && level > 0 ==> d * level < 0) by (nonlinear_arith);
}

/// A plan's scrolling has the plan's own sensitivity and direction.
pub proof fn law_tuning_is_the_plans(plan: crate::plan::DispatchModel)
    ensures
        TouchpadScrollTuning::of_plan(plan).sensitivity == plan.touchpad_scroll_sensitivity,
        TouchpadScrollTuning::of_plan(plan).inverted == plan.touchpad_scroll_inverted,
{
}

/// A glide starts exactly where the content moved at more than a thousand pixels a second at
/// lift-off, whichever way; it then starts at the velocity the content had.
pub proof fn law_glide_starts_above_a_thousand_pixels(
    tuning: TouchpadScrollTuning,
    vx_um: i64,
    vy_um: i64,
)
    ensures
        ({
            let glide = tuning.glide((vx_um as int, vy_um as int));
            let content = tuning.content(vx_um as int, vy_um as int);
            &&& glide is Some <==> content.x * content.x + content.y * content.y > 560_000 * 560_000
            &&& glide matches Some(velocity) ==> velocity == content
        }),
{
}

/// A tick of a glide lasts eleven milliseconds: it covers eleven thousandths of what its velocity
/// covers in a second, on each axis and in the velocity's direction.
pub proof fn law_tick_covers_eleven_milliseconds(velocity: ContentDelta, stop: bool)
    requires
        velocity.in_range(),
    ensures
        tail_tick(GlideVelocity::of(velocity), stop).distance.x == 11 * velocity.x,
        tail_tick(GlideVelocity::of(velocity), stop).distance.y == 11 * velocity.y,
{
    let glide = GlideVelocity::of(velocity);
    assert(glide.x == velocity.x * 0x1000_0000_0000);
    assert(glide.y == velocity.y * 0x1000_0000_0000);
    assert(glide.x * 11 == (11 * velocity.x) * 0x1000_0000_0000);
    assert(glide.y * 11 == (11 * velocity.y) * 0x1000_0000_0000);
    lemma_whole_quotient(11 * velocity.x);
    lemma_whole_quotient(11 * velocity.y);
}

proof fn lemma_whole_quotient(whole: int)
    ensures
        crate::math::trunc_div(whole * 0x1000_0000_0000, 0x1000_0000_0000) == whole,
{
}

/// A glide ends with the tick at which it is stopped, or at which the content moves at ten pixels a
/// second or less, and with no other.
pub proof fn law_glide_ends_at_ten_pixels(velocity: ContentDelta, stop: bool)
    requires
        velocity.in_range(),
    ensures
        tail_tick(GlideVelocity::of(velocity), stop).finished <==> stop || velocity.x * velocity.x
            + velocity.y * velocity.y <= 5_600 * 5_600,
{
    let (x, y) = (velocity.x as int, velocity.y as int);
    let glide = GlideVelocity::of(velocity);
    let parts = 0x1000_0000_0000int;
    assert(glide.x == x * parts);
    assert(glide.y == y * parts);
    assert((x * parts) * (x * parts) + (y * parts) * (y * parts) == (x * x + y * y) * (parts
        * parts)) by (nonlinear_arith);
    let limit = 5_600 * parts;
    assert(limit * limit == (5_600 * 5_600) * (parts * parts)) by (nonlinear_arith)
        requires
            limit == 5_600 * parts,
    ;
    let sum = x * x + y * y;
    let square = parts * parts;
    assert(sum * square > (5_600 * 5_600) * square <==> sum > 5_600 * 5_600) by (nonlinear_arith)
        requires
            square > 0,
    ;
    assert(10 * UNITS_PER_PIXEL * GLIDE_PARTS == limit);
}

/// What is left after a tick is 955 thousandths of the velocity, cut toward zero.
pub proof fn law_tick_keeps_955_thousandths(velocity: GlideVelocity)
    requires
        velocity.in_range(),
    ensures
        ({
            let left = velocity.decayed();
            &&& velocity.x >= 0 ==> 0 <= 955 * velocity.x - 1000 * left.x < 1000
            &&& velocity.x < 0 ==> -1000 < 955 * velocity.x - 1000 * left.x <= 0
            &&& velocity.y >= 0 ==> 0 <= 955 * velocity.y - 1000 * left.y < 1000
            &&& velocity.y < 0 ==> -1000 < 955 * velocity.y - 1000 * left.y <= 0
        }),
{
}

} // verus!
