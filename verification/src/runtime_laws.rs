//! What holds of every stroke a [`crate::runtime::TouchpadRuntime`] sees.
use vstd::prelude::*;

use crate::binding::{Action, ButtonId};
use crate::runtime::{RuntimeModel, TouchpadOutput};
use crate::scroll::SmoothScrollPhase;
use crate::swipe::{SwipeEnd, SwipeOutput};
use crate::touchpad::FrameModel;

verus! {

/// One frame as the runtime is fed it.
pub struct RuntimeInput {
    pub frame: FrameModel,
    pub bindings: Map<ButtonId, Action>,
    pub enabled: bool,
    pub native: bool,
}

/// The runtime after a stream of frames.
pub open spec fn fed(state: RuntimeModel, inputs: Seq<RuntimeInput>) -> RuntimeModel
    decreases inputs.len(),
{
    if inputs.len() == 0 {
        state
    } else {
        let last = inputs.last();
        fed(state, inputs.drop_last()).step(
            last.frame,
            last.bindings,
            last.enabled,
            last.native,
        ).0
    }
}

/// A stroke resolves against the bindings of its first frame: what the live plan says later makes
/// no difference to any later frame or to the lift.
pub proof fn law_stroke_keeps_its_bindings(
    state: RuntimeModel,
    input: RuntimeInput,
    other: Map<ButtonId, Action>,
)
    requires
        state.frozen is Some,
    ensures
        state.step(input.frame, input.bindings, input.enabled, input.native) == state.step(
            input.frame,
            other,
            input.enabled,
            input.native,
        ),
        state.step(input.frame, input.bindings, input.enabled, input.native).0.frozen
            == state.frozen,
{
}

/// The first frame of a stroke freezes the bindings and whether actions are enabled.
pub proof fn law_first_frame_freezes(state: RuntimeModel, input: RuntimeInput)
    requires
        state.frozen is None,
    ensures
        ({
            let next = state.step(input.frame, input.bindings, input.enabled, input.native).0;
            next.frozen == Some(input.bindings) && next.frozen_enabled == input.enabled
        }),
{
}

/// A stroke that began while actions were disabled never fires an action or streams a swipe, even
/// if actions are enabled before it ends.
pub proof fn law_disabled_stroke_never_fires(
    state: RuntimeModel,
    inputs: Seq<RuntimeInput>,
    next: RuntimeInput,
)
    requires
        state.frozen is Some,
        !state.frozen_enabled,
        state.stream is None,
    ensures
        ({
            let reached = fed(state, inputs);
            let outcome = reached.step(next.frame, next.bindings, next.enabled, next.native).1;
            &&& !(outcome.output is Action)
            &&& outcome.stream == SwipeOutput::Idle
            &&& !(reached.lifted(next.enabled).output is Action)
            &&& reached.lifted(next.enabled).stream == SwipeOutput::Idle
        }),
{
    lemma_disabled_kept(state, inputs);
}

proof fn lemma_disabled_kept(state: RuntimeModel, inputs: Seq<RuntimeInput>)
    requires
        state.frozen is Some,
        !state.frozen_enabled,
        state.stream is None,
    ensures
        fed(state, inputs).frozen is Some,
        !fed(state, inputs).frozen_enabled,
        fed(state, inputs).stream is None,
    decreases inputs.len(),
{
    if inputs.len() > 0 {
        lemma_disabled_kept(state, inputs.drop_last());
    }
}

/// No action fires while actions are disabled, whatever the stroke began with.
pub proof fn law_nothing_fires_while_disabled(state: RuntimeModel, input: RuntimeInput)
    requires
        !input.enabled,
    ensures
        !(state.step(input.frame, input.bindings, false, input.native).1.output is Action),
        !(state.lifted(false).output is Action),
{
}

/// Scrolling does not depend on actions being enabled: a frame scrolls, with the same deltas and
/// phase, either way.
pub proof fn law_scrolling_survives_disabled_actions(
    state: RuntimeModel,
    input: RuntimeInput,
    enabled: bool,
)
    requires
        state.step(input.frame, input.bindings, input.enabled, input.native).1.output is Scroll,
    ensures
        state.step(input.frame, input.bindings, enabled, input.native).1.output == state.step(
            input.frame,
            input.bindings,
            input.enabled,
            input.native,
        ).1.output,
{
}

/// A scroll stream begins with its first frame and goes on with every later one.
pub proof fn law_scroll_phases_begin_then_change(state: RuntimeModel, input: RuntimeInput)
    ensures
        ({
            let (next, outcome) = state.step(
                input.frame,
                input.bindings,
                input.enabled,
                input.native,
            );
            &&& outcome.output matches TouchpadOutput::Scroll { phase, .. } ==> {
                &&& next.scroll is Some
                &&& phase == SmoothScrollPhase::Began <==> state.scroll is None
                &&& phase == SmoothScrollPhase::Changed <==> state.scroll is Some
            }
            &&& !(outcome.output is Scroll) ==> next.scroll == state.scroll
            &&& !(outcome.output is ScrollEnd)
        }),
{
}

/// An open scroll stream is terminated exactly once: by the lift, with its exit velocity, or by a
/// cancel, without; a stream that is not open is not.
pub proof fn law_scroll_ends_exactly_once(state: RuntimeModel, enabled: bool)
    ensures
        state.scroll is Some <==> state.lifted(enabled).output is ScrollEnd,
        state.scroll is Some <==> state.scroll_cancelled() is ScrollEnd,
        !(RuntimeModel::idle().lifted(enabled).output is ScrollEnd),
        !(state.cancelled().scroll_cancelled() is ScrollEnd),
        !(state.cancelled().lifted(enabled).output is ScrollEnd),
        state.lifted(enabled).output matches TouchpadOutput::ScrollEnd {
            phase,
            exit_velocity_um_per_s,
        } ==> phase == SmoothScrollPhase::Ended && exit_velocity_um_per_s is Some,
        state.scroll_cancelled() matches TouchpadOutput::ScrollEnd {
            phase,
            exit_velocity_um_per_s,
        } ==> phase == SmoothScrollPhase::Cancelled && exit_velocity_um_per_s is None,
{
}

/// A streamed swipe opens before it advances: a frame advances only an animation that is open, and
/// opens only one that is not.
pub proof fn law_swipe_opens_before_it_advances(state: RuntimeModel, input: RuntimeInput)
    ensures
        ({
            let (next, outcome) = state.step(
                input.frame,
                input.bindings,
                input.enabled,
                input.native,
            );
            &&& outcome.stream is Advance ==> state.stream is Some && state.stream->0.opened
            &&& outcome.stream is Begin ==> next.stream is Some && next.stream->0.opened
            &&& !(outcome.stream is Finish)
            &&& state.stream is Some && state.stream->0.opened && !(outcome.stream is Advance)
                ==> next.stream is Some
        }),
{
}

/// A cancel keeps a running animation, which the real end still finishes.
pub proof fn law_cancel_keeps_animation(state: RuntimeModel, enabled: bool)
    ensures
        state.cancelled().stream == state.stream,
        state.cancelled().lifted(enabled).stream == state.lifted(enabled).stream,
        !(state.cancelled().lifted(enabled).output is Action),
{
}

/// Every opened animation is finished by the lift, and a swipe that never opened ends silently.
pub proof fn law_opened_animation_is_finished(state: RuntimeModel, enabled: bool)
    ensures
        state.lifted(enabled).stream == (match state.stream {
            Some(swipe) => if swipe.opened {
                SwipeOutput::Finish { motion: swipe.motion, end: SwipeEnd::AtRelease }
            } else {
                SwipeOutput::Idle
            },
            None => SwipeOutput::Idle,
        }),
{
}

/// One slow frame before the lift hardly changes a fast exit velocity: a slower sample keeps at
/// least ninety-eight hundredths of each component it agrees with in sign.
pub proof fn law_slow_sample_releases_slowly(velocity: (int, int), sample: (int, int))
    requires
        sample.0 * sample.0 + sample.1 * sample.1 < velocity.0 * velocity.0 + velocity.1
            * velocity.1,
        velocity.0 >= 100,
        sample.0 >= 0,
    ensures
        crate::runtime::smoothed(velocity, sample).0 * 100 >= velocity.0 * 98,
{
}

/// Whether a velocity is a travel within a time, in units per second, up to a unit per second
/// toward zero.
pub open spec fn is_travel_per_second(velocity: int, travel: int, elapsed_us: int) -> bool {
    &&& travel >= 0 ==> 0 <= velocity && velocity * elapsed_us <= travel * 1_000_000 < (velocity
        + 1) * elapsed_us
    &&& travel <= 0 ==> velocity <= 0 && (velocity - 1) * elapsed_us < travel * 1_000_000
        <= velocity * elapsed_us
}

proof fn lemma_sample(travel: int, elapsed: nat)
    requires
        elapsed > 0,
        -0x1_0000_0000 <= travel <= 0x1_0000_0000,
    ensures
        is_travel_per_second(
            crate::runtime::velocity_sample(travel, elapsed),
            travel,
            elapsed as int,
        ),
        -0x10_0000_0000_0000 <= crate::runtime::velocity_sample(travel, elapsed)
            <= 0x10_0000_0000_0000,
{
    let t = elapsed as int;
    let p = travel * 1_000_000;
    vstd::arithmetic::div_mod::lemma_fundamental_div_mod(p, t);
    vstd::arithmetic::div_mod::lemma_mod_bound(p, t);
    vstd::arithmetic::div_mod::lemma_fundamental_div_mod(-p, t);
    vstd::arithmetic::div_mod::lemma_mod_bound(-p, t);
    let q = p / t;
    let r = (-p) / t;
    assert(t * q == q * t && t * r == r * t && (-r) * t == -(r * t) && (q + 1) * t == q * t + t && (
    -r - 1) * t == -(r * t) - t) by (nonlinear_arith);
    assert(p >= 0 ==> 0 <= q <= p) by (nonlinear_arith)
        requires
            t >= 1,
            q * t <= p < q * t + t,
    ;
    assert(p <= 0 ==> 0 <= r <= -p) by (nonlinear_arith)
        requires
            t >= 1,
            r * t <= -p < r * t + t,
    ;
}

/// Two fingers that land, move together far enough to scroll and lift leave with the velocity of
/// that motion, on both axes.
pub proof fn law_exit_velocity_is_the_motion_per_second(
    first: RuntimeInput,
    second: RuntimeInput,
    dx: int,
    dy: int,
    enabled: bool,
)
    requires
        first.frame.contacts.len() == 2,
        crate::touchpad::distinct_ids(first.frame.contacts),
        crate::touchpad::motion_laws::shifted(
            first.frame.contacts,
            dx,
            dy,
            second.frame.contacts,
        ),
        dx * dx + dy * dy >= 3_001 * 3_001,
        first.frame.timestamp_us < second.frame.timestamp_us,
    ensures
        ({
            let lifted = fed(RuntimeModel::idle(), seq![first, second]).lifted(enabled).output;
            let elapsed = second.frame.timestamp_us - first.frame.timestamp_us;
            &&& lifted is ScrollEnd
            &&& lifted->ScrollEnd_phase == SmoothScrollPhase::Ended
            &&& lifted->exit_velocity_um_per_s is Some
            &&& is_travel_per_second(lifted->exit_velocity_um_per_s.unwrap().0 as int, dx, elapsed)
            &&& is_travel_per_second(lifted->exit_velocity_um_per_s.unwrap().1 as int, dy, elapsed)
        }),
{
    let start = RuntimeModel::idle();
    let inputs = seq![first, second];
    assert(inputs.drop_last() =~= seq![first]);
    assert(seq![first].drop_last() =~= Seq::<RuntimeInput>::empty());
    assert(fed(start, Seq::<RuntimeInput>::empty()) == start);
    assert(fed(start, seq![first]) == start.step(
        first.frame,
        first.bindings,
        first.enabled,
        first.native,
    ).0);
    crate::touchpad::motion_laws::law_two_fingers_scroll_by_their_motion(
        first.frame,
        second.frame,
        dx,
        dy,
    );
    let elapsed = (second.frame.timestamp_us - first.frame.timestamp_us) as nat;
    lemma_shift_range(first.frame.contacts, dx, dy, second.frame.contacts);
    lemma_sample(dx, elapsed);
    lemma_sample(dy, elapsed);
    let x = crate::runtime::velocity_sample(dx, elapsed);
    let y = crate::runtime::velocity_sample(dy, elapsed);
    assert(x * x >= 0 && y * y >= 0) by (nonlinear_arith);
    let one = fed(start, seq![first]);
    assert(one.recognizer == crate::touchpad::RecognizerModel::Idle.step(first.frame).0);
    assert(one.scroll is None && one.last_frame_us == Some(first.frame.timestamp_us));
    assert(inputs.last() == second);
    let two = fed(start, inputs);
    assert(two == one.step(second.frame, second.bindings, second.enabled, second.native).0);
    let rest = (0int, 0int);
    assert(x * x + y * y >= rest.0 * rest.0 + rest.1 * rest.1) by (nonlinear_arith)
        requires
            rest.0 == 0,
            rest.1 == 0,
            x * x >= 0,
            y * y >= 0,
    ;
    assert(crate::runtime::smoothed(rest, (x, y)) == (x, y));
    let seen = one.recognizer.step(second.frame).1;
    assert(seen is Scroll && seen->dx_um == dx && seen->dy_um == dy);
    assert(one.scroll_velocity(dx, dy, second.frame.timestamp_us) == (x, y));
    assert(two.scroll == Some((x, y)));
}

proof fn lemma_shift_range(
    from: Seq<crate::touchpad::TouchContact>,
    dx: int,
    dy: int,
    to: Seq<crate::touchpad::TouchContact>,
)
    requires
        from.len() > 0,
        crate::touchpad::motion_laws::shifted(from, dx, dy, to),
    ensures
        -0xffff_ffff <= dx <= 0xffff_ffff,
        -0xffff_ffff <= dy <= 0xffff_ffff,
{
    assert(to[0].x_um == from[0].x_um + dx);
    assert(to[0].y_um == from[0].y_um + dy);
}

/// A scroll stream that goes on at least as fast as before leaves with its latest velocity, on
/// both axes; in particular one of constant motion leaves with that motion.
pub proof fn law_exit_velocity_follows_a_steady_scroll(
    state: RuntimeModel,
    from: FrameModel,
    input: RuntimeInput,
    dx: int,
    dy: int,
    enabled: bool,
)
    requires
        state.recognizer.valid(),
        state.recognizer is Tracking,
        state.recognizer->Tracking_0.latest == from.contacts,
        state.last_frame_us == Some(from.timestamp_us),
        crate::touchpad::motion_laws::shifted(from.contacts, dx, dy, input.frame.contacts),
        from.timestamp_us < input.frame.timestamp_us,
        state.step(input.frame, input.bindings, input.enabled, input.native).1.output is Scroll,
        state.scroll matches Some(before) ==> exists|x: int, y: int|
            {
                let elapsed = input.frame.timestamp_us - from.timestamp_us;
                &&& is_travel_per_second(x, dx, elapsed)
                &&& is_travel_per_second(y, dy, elapsed)
                &&& #[trigger] (x * x) + #[trigger] (y * y) >= before.0 * before.0 + before.1
                    * before.1
            },
    ensures
        ({
            let (next, outcome) = state.step(
                input.frame,
                input.bindings,
                input.enabled,
                input.native,
            );
            let elapsed = input.frame.timestamp_us - from.timestamp_us;
            let exit = next.lifted(enabled).output;
            &&& outcome.output is Scroll
            &&& outcome.output->dx_um == dx
            &&& outcome.output->dy_um == dy
            &&& exit is ScrollEnd
            &&& exit->exit_velocity_um_per_s is Some
            &&& is_travel_per_second(exit->exit_velocity_um_per_s.unwrap().0 as int, dx, elapsed)
            &&& is_travel_per_second(exit->exit_velocity_um_per_s.unwrap().1 as int, dy, elapsed)
        }),
{
    let elapsed = (input.frame.timestamp_us - from.timestamp_us) as nat;
    crate::touchpad::laws::law_scroll_delta_is_travel_since_previous_frame(
        state.recognizer,
        input.frame,
    );
    crate::touchpad::motion_laws::law_shift_moves_the_centroid(
        from.contacts,
        dx,
        dy,
        input.frame.contacts,
    );
    lemma_shift_range(from.contacts, dx, dy, input.frame.contacts);
    lemma_sample(dx, elapsed);
    lemma_sample(dy, elapsed);
    let x = crate::runtime::velocity_sample(dx, elapsed);
    let y = crate::runtime::velocity_sample(dy, elapsed);
    assert(x * x >= 0 && y * y >= 0) by (nonlinear_arith);
    assert forall|v: int, travel: int| is_travel_per_second(v, travel, elapsed as int) && (travel
        == dx || travel == dy) implies v == crate::runtime::velocity_sample(travel, elapsed) by {
        let w = crate::runtime::velocity_sample(travel, elapsed);
        lemma_one_velocity(v, w, travel, elapsed as int);
    }
}

proof fn lemma_one_velocity(v: int, w: int, travel: int, elapsed: int)
    requires
        elapsed > 0,
        is_travel_per_second(v, travel, elapsed),
        is_travel_per_second(w, travel, elapsed),
    ensures
        v == w,
{
    let p = travel * 1_000_000;
    if travel >= 0 {
        assert(v == w) by (nonlinear_arith)
            requires
                elapsed > 0,
                v * elapsed <= p < (v + 1) * elapsed,
                w * elapsed <= p < (w + 1) * elapsed,
        ;
    } else {
        assert(v == w) by (nonlinear_arith)
            requires
                elapsed > 0,
                (v - 1) * elapsed < p <= v * elapsed,
                (w - 1) * elapsed < p <= w * elapsed,
        ;
    }
}

/// A slower sample moves the exit velocity a hundredth of the way, on both axes, up to rounding.
pub proof fn law_slow_sample_counts_a_hundredth(velocity: (int, int), sample: (int, int))
    requires
        sample.0 * sample.0 + sample.1 * sample.1 < velocity.0 * velocity.0 + velocity.1
            * velocity.1,
    ensures
        ({
            let next = crate::runtime::smoothed(velocity, sample);
            &&& -100 < next.0 * 100 - 99 * velocity.0 - sample.0 < 100
            &&& -100 < next.1 * 100 - 99 * velocity.1 - sample.1 < 100
        }),
{
}

/// A recognized gesture runs the action bound to its trigger at the stroke's first frame, and
/// reports that trigger, unless the action is streamed; a gesture without an action runs nothing.
pub proof fn law_gesture_runs_its_bound_action(
    state: RuntimeModel,
    input: RuntimeInput,
    trigger: ButtonId,
)
    requires
        state.recognizer.step(input.frame).1 == crate::touchpad::GestureRecognition::Gesture(
            trigger,
        ),
        state.frozen is Some,
        state.frozen_enabled,
        input.enabled,
    ensures
        ({
            let bound = state.frozen->0;
            let (next, outcome) = state.step(
                input.frame,
                input.bindings,
                input.enabled,
                input.native,
            );
            &&& !bound.dom().contains(trigger) ==> outcome.output == TouchpadOutput::Idle
            &&& bound.dom().contains(trigger) && !input.native ==> outcome.output
                == TouchpadOutput::Action { trigger, action: bound[trigger] }
            &&& bound.dom().contains(trigger) && input.native && crate::swipe::stream_axis(
                trigger,
                bound[trigger],
            ) is None ==> outcome.output == TouchpadOutput::Action {
                trigger,
                action: bound[trigger],
            }
            &&& bound.dom().contains(trigger) && input.native && crate::swipe::stream_axis(
                trigger,
                bound[trigger],
            ) is Some ==> {
                &&& outcome.output == TouchpadOutput::Idle
                &&& next.stream is Some
                &&& next.stream->0.fallback == (trigger, bound[trigger])
                &&& Some(next.stream->0.motion) == crate::swipe::stream_axis(
                    trigger,
                    bound[trigger],
                )
            }
        }),
{
}

/// A tap runs the action bound to its trigger at the stroke's first frame.
pub proof fn law_tap_runs_its_bound_action(state: RuntimeModel, trigger: ButtonId)
    requires
        state.recognizer.tap_on_end() == Some(trigger),
        state.scroll is None,
        state.frozen is Some,
        state.frozen_enabled,
    ensures
        state.lifted(true).output == if state.frozen->0.dom().contains(trigger) {
            TouchpadOutput::Action { trigger, action: state.frozen->0[trigger] }
        } else {
            TouchpadOutput::Idle
        },
{
}

/// A streamed swipe follows every frame of its stroke: what the frame posts to the animation is what
/// its fingers' motion since the frame before comes to.
pub proof fn law_streamed_swipe_follows_every_frame(
    state: RuntimeModel,
    swipe: crate::swipe::SwipeModel,
    frame: crate::touchpad::FrameModel,
    bindings: Map<ButtonId, Action>,
    enabled: bool,
    native: bool,
)
    requires
        state.stream == Some(swipe),
        state.recognizer is Committed || state.recognizer is Cancelled,
    ensures
        ({
            let (after, outcome) = state.step(frame, bindings, enabled, native);
            let (followed, posted) = swipe.advanced(frame.contacts);
            &&& outcome.stream == posted
            &&& after.stream == Some(followed)
            &&& outcome.output is Idle
        }),
{
}

} // verus!
