//! What holds of every input an [`crate::dispatch::InputDispatcher`] routes.
use vstd::prelude::*;

use crate::binding::{ButtonId, GestureDirection};
use crate::dispatch::{Command, DispatchContext, DispatcherModel, InputModel};
use crate::dockswipe::DockSwipePhase;
use crate::plan::DispatchModel;
use crate::runtime::TouchpadOutput;
use crate::session::SessionName;
use crate::swipe::{SwipeEnd, SwipeOutput};

verus! {

/// Whether two dispatchers hold the same state for a session.
pub open spec fn agree_on(a: DispatcherModel, b: DispatcherModel, session: SessionName) -> bool {
    &&& a.wheels.dom().contains(session) == b.wheels.dom().contains(session)
    &&& a.wheels.dom().contains(session) ==> a.wheels[session] == b.wheels[session]
    &&& a.touchpads.dom().contains(session) == b.touchpads.dom().contains(session)
    &&& a.touchpads.dom().contains(session) ==> a.touchpads[session] == b.touchpads[session]
    &&& forall|button: ButtonId|
        #![trigger a.presses.dom().contains((session, button))]
        #![trigger b.presses.dom().contains((session, button))]
        {
            &&& a.presses.dom().contains((session, button)) == b.presses.dom().contains(
                (session, button),
            )
            &&& a.presses.dom().contains((session, button)) ==> a.presses[(session, button)]
                == b.presses[(session, button)]
        }
}

/// Sessions are isolated: an input of one session leaves every other session's state alone.
pub proof fn law_sessions_are_isolated(
    state: DispatcherModel,
    session: SessionName,
    plan: DispatchModel,
    input: InputModel,
    context: DispatchContext,
    other: SessionName,
)
    requires
        other != session,
    ensures
        agree_on(state.dispatched(session, plan, input, context).0, state, other),
{
}

/// Cancelling a session forgets all of its state and nothing else: a replacement under another
/// epoch keeps what it has.
pub proof fn law_cancel_forgets_exactly_one_session(
    state: DispatcherModel,
    session: SessionName,
    other: SessionName,
    button: ButtonId,
)
    requires
        other != session,
    ensures
        agree_on(state.without(session), state, other),
        !state.without(session).wheels.dom().contains(session),
        !state.without(session).touchpads.dom().contains(session),
        !state.without(session).presses.dom().contains((session, button)),
{
}

/// A session that has no state yet starts from nothing, whatever other sessions of the same device
/// have gathered.
pub proof fn law_fresh_session_inherits_nothing(state: DispatcherModel, session: SessionName)
    requires
        !state.wheels.dom().contains(session),
        !state.touchpads.dom().contains(session),
    ensures
        crate::dispatch::wheel_of(state.wheels, session) == crate::wheel::WheelModel::fresh(),
        crate::dispatch::touchpad_of(state.touchpads, session)
            == crate::runtime::RuntimeModel::idle(),
{
}

/// A gesture runs an action only for a press that was admitted: after the button went up, or after
/// its session was cancelled, it runs nothing.
pub proof fn law_gesture_needs_an_admitted_press(
    state: DispatcherModel,
    session: SessionName,
    plan: DispatchModel,
    button: ButtonId,
    direction: GestureDirection,
    context: DispatchContext,
)
    ensures
        ({
            let released = state.dispatched(
                session,
                plan,
                InputModel::ButtonUp(button),
                context,
            ).0;
            released.gesture_commands(session, plan, button, direction).len() == 0
        }),
        state.without(session).gesture_commands(session, plan, button, direction).len() == 0,
{
}

/// A gesture source never runs its single action on going down: its press is reported unbound.
pub proof fn law_gesture_source_is_unbound_on_down(
    state: DispatcherModel,
    session: SessionName,
    plan: DispatchModel,
    button: ButtonId,
    context: DispatchContext,
)
    requires
        plan.is_gesture_source(button),
    ensures
        state.dispatched(session, plan, InputModel::ButtonDown(button), context).1
            == seq![Command::ButtonDown { button, binding: None, gesture: true }],
{
}

/// Lost frames change nothing and carry nothing out.
pub proof fn law_dropped_frames_are_inert(
    state: DispatcherModel,
    session: SessionName,
    plan: DispatchModel,
    count: nat,
    context: DispatchContext,
)
    ensures
        state.dispatched(
            session,
            plan,
            InputModel::TouchpadDroppedFrames(count),
            context,
        ) == (state, Seq::<Command>::empty()),
{
}

/// Whether every dock-swipe step among the commands is posted under an owner.
pub open spec fn owned_by(commands: Seq<Command>, owner: u64) -> bool {
    forall|i: int|
        0 <= i < commands.len() ==> (#[trigger] commands[i] matches Command::DockSwipe {
            owner: poster,
            ..
        } ==> poster == owner)
}

proof fn lemma_touchpad_commands_owned(
    owner: u64,
    tuning: crate::scroll::TouchpadScrollTuning,
    outcome: crate::runtime::TouchpadOutcome,
)
    ensures
        owned_by(crate::dispatch::touchpad_commands(owner, tuning, outcome), owner),
        owned_by(crate::dispatch::output_commands(tuning, outcome.output), owner),
{
    let first = crate::dispatch::stream_commands(owner, outcome.stream);
    let second = crate::dispatch::output_commands(tuning, outcome.output);
    assert(owned_by(first, owner));
    assert(owned_by(second, owner));
    let all = first + second;
    assert forall|i: int| 0 <= i < all.len() implies (#[trigger] all[i] matches Command::DockSwipe {
        owner: poster,
        ..
    } ==> poster == owner) by {
        if i < first.len() {
            assert(all[i] == first[i]);
        } else {
            assert(all[i] == second[i - first.len()]);
        }
    }
}

/// Dock-swipe steps are posted under the epoch of the session whose fingers move.
pub proof fn law_dock_swipes_carry_their_session(
    state: DispatcherModel,
    session: SessionName,
    plan: DispatchModel,
    input: InputModel,
    context: DispatchContext,
)
    ensures
        owned_by(
            state.dispatched(session, plan, input, context).1,
            session.epoch,
        ),
{
    let tuning = crate::scroll::TouchpadScrollTuning::of_plan(plan);
    let touchpad = crate::dispatch::touchpad_of(state.touchpads, session);
    match input {
        InputModel::TouchpadFrame(frame) => {
            let outcome = touchpad.step(
                frame,
                plan.touchpad_bindings,
                context.touchpad_actions_enabled,
                context.native_streaming,
            ).1;
            lemma_touchpad_commands_owned(session.epoch, tuning, outcome);
            let commands = crate::dispatch::touchpad_commands(session.epoch, tuning, outcome);
            let all = seq![Command::StopGlide] + commands;
            assert forall|i: int| 0 <= i < all.len() implies (
            #[trigger] all[i] matches Command::DockSwipe { owner: poster, .. } ==> poster
                == session.epoch) by {
                if i > 0 {
                    assert(all[i] == commands[i - 1]);
                }
            }
        },
        InputModel::TouchpadEnd => {
            lemma_touchpad_commands_owned(
                session.epoch,
                tuning,
                touchpad.lifted(context.touchpad_actions_enabled),
            );
        },
        InputModel::TouchpadCancel => {
            lemma_touchpad_commands_owned(
                session.epoch,
                tuning,
                crate::runtime::TouchpadOutcome {
                    output: touchpad.scroll_cancelled(),
                    stream: crate::swipe::SwipeOutput::Idle,
                },
            );
        },
        InputModel::Scroll { increments, resolution } => {
            if increments != 0 {
                assert(owned_by(
                    state.rotated(
                        session,
                        plan,
                        crate::wheel::WheelRotation { increments },
                        resolution,
                        context.now_ms as nat,
                    ).1,
                    session.epoch,
                ));
            }
        },
        _ => {},
    }
}

/// A button is reported as what it did, by its own name: going down with what is bound to it, unless
/// it swipes; going up; or both at once. Going up forgets that button's press.
pub proof fn law_buttons_are_reported_by_name(
    state: DispatcherModel,
    session: SessionName,
    plan: DispatchModel,
    button: ButtonId,
    context: DispatchContext,
)
    ensures
        ({
            let down = state.dispatched(session, plan, InputModel::ButtonDown(button), context);
            let up = state.dispatched(session, plan, InputModel::ButtonUp(button), context);
            let pulse = state.dispatched(session, plan, InputModel::ButtonPulse(button), context);
            &&& down.0 == state
            &&& !plan.is_gesture_source(button) ==> down.1 == seq![
                Command::ButtonDown { button, binding: plan.binding(button), gesture: false },
            ]
            &&& up.1 == seq![Command::ButtonUp { button }]
            &&& !up.0.presses.contains_key((session, button))
            &&& up.0.wheels == state.wheels
            &&& up.0.touchpads == state.touchpads
            &&& pulse.0 == state
            &&& pulse.1 == seq![Command::ButtonPulse { button, binding: plan.binding(button) }]
        }),
{
}

/// A gesture of an admitted press runs what its direction is bound to, under that press; without a
/// binding it runs nothing. A press that was not admitted is forgotten, and its gestures run
/// nothing either.
pub proof fn law_gesture_runs_its_direction_under_its_press(
    state: DispatcherModel,
    session: SessionName,
    plan: DispatchModel,
    button: ButtonId,
    direction: GestureDirection,
    press: crate::session::PressToken,
    context: DispatchContext,
)
    ensures
        ({
            let gesture = InputModel::Gesture(button, direction);
            let admitted = state.admitted(session, button, Some(press));
            let refused = state.admitted(session, button, None);
            let (after, commands) = admitted.dispatched(session, plan, gesture, context);
            &&& after == admitted
            &&& plan.gesture_action(button, direction) matches Some(action) ==> commands == seq![
                Command::DispatchWhilePressed { press, action },
            ]
            &&& plan.gesture_action(button, direction) is None ==> commands.len() == 0
            &&& refused.dispatched(session, plan, gesture, context).1.len() == 0
            &&& admitted.wheels == state.wheels && admitted.touchpads == state.touchpads
            &&& refused.wheels == state.wheels && refused.touchpads == state.touchpads
        }),
{
}

/// A turn of the thumb wheel does what its direction is bound to: a horizontal scroll is offered to
/// the smoothing runtime, to the right with a positive and to the left with a negative distance;
/// any other action runs once the wheel fires; and a report without a turn does nothing.
pub proof fn law_wheel_turns_do_what_is_bound(
    state: DispatcherModel,
    session: SessionName,
    plan: DispatchModel,
    increments: i16,
    resolution: crate::wheel::WheelResolution,
    context: DispatchContext,
)
    requires
        1 <= plan.thumbwheel_sensitivity.value <= 100,
    ensures
        ({
            let (after, commands) = state.dispatched(
                session,
                plan,
                InputModel::Scroll { increments, resolution },
                context,
            );
            let action = plan.click_action(
                if increments > 0 {
                    ButtonId::ThumbwheelScrollUp
                } else {
                    ButtonId::ThumbwheelScrollDown
                },
            );
            let wheel = crate::dispatch::wheel_of(state.wheels, session);
            &&& increments == 0 ==> after == state && commands.len() == 0
            &&& increments != 0 && action is HorizontalScrollRight ==> commands.len() == 1 && (
            commands[0] matches Command::SmoothScroll { delta } && delta.numerator > 0
                && delta.denominator > 0)
            &&& increments != 0 && action is HorizontalScrollLeft ==> commands.len() == 1 && (
            commands[0] matches Command::SmoothScroll { delta } && delta.numerator < 0
                && delta.denominator > 0)
            &&& action is Nothing ==> commands.len() == 0
            &&& !(action is HorizontalScrollRight || action is HorizontalScrollLeft)
                && commands.len() > 0 ==> commands == seq![Command::RunAction { action }]
            &&& after.presses == state.presses && after.touchpads == state.touchpads
        }),
{
    if increments != 0 {
        let rotation = crate::wheel::WheelRotation { increments };
        let scale = crate::wheel::ScrollScale {
            resolution,
            sensitivity: plan.thumbwheel_sensitivity,
        };
        let wheel = crate::dispatch::wheel_of(state.wheels, session);
        crate::wheel::law_wheel_scrolls_the_bound_way(
            wheel,
            rotation,
            scale,
            context.now_ms as nat,
        );
        let turned = if increments < 0 {
            -(increments as int)
        } else {
            increments as int
        };
        let level = plan.thumbwheel_sensitivity.value as int;
        assert(turned * level > 0) by (nonlinear_arith)
            requires
                turned > 0,
                level > 0,
        ;
    }
}

/// A step of a streamed swipe is posted on the swipe's axis: opening with the progress so far, going
/// on with the delta, ending where the fingers lifted and cancelling where it was aborted.
pub proof fn law_swipe_steps_are_posted_in_their_phase(
    owner: u64,
    motion: crate::dockswipe::DockSwipeMotion,
    travel: i64,
)
    ensures
        crate::dispatch::stream_commands(owner, SwipeOutput::Idle).len() == 0,
        crate::dispatch::stream_commands(owner, SwipeOutput::Begin { motion, progress: travel })
            == seq![
            Command::DockSwipe { owner, motion, phase: DockSwipePhase::Began, progress: travel },
        ],
        crate::dispatch::stream_commands(owner, SwipeOutput::Advance { motion, delta: travel })
            == seq![
            Command::DockSwipe { owner, motion, phase: DockSwipePhase::Changed, progress: travel },
        ],
        crate::dispatch::stream_commands(
            owner,
            SwipeOutput::Finish { motion, end: SwipeEnd::AtRelease },
        ) == seq![Command::DockSwipe { owner, motion, phase: DockSwipePhase::End, progress: 0 }],
        crate::dispatch::stream_commands(
            owner,
            SwipeOutput::Finish { motion, end: SwipeEnd::Cancelled },
        ) == seq![Command::DockSwipe { owner, motion, phase: DockSwipePhase::Cancel, progress: 0 }],
{
}

/// Two fingers move the content with them: a scroll of the pad scrolls the content by a pixel for
/// forty micrometres at the sensitivity of fourteen, in proportion otherwise, in the scroll's own
/// phase, and the other way where the plan inverts it.
pub proof fn law_scrolling_moves_the_content(
    plan: DispatchModel,
    dx_um: i64,
    dy_um: i64,
    phase: crate::scroll::SmoothScrollPhase,
)
    ensures
        ({
            let commands = crate::dispatch::output_commands(
                crate::scroll::TouchpadScrollTuning::of_plan(plan),
                TouchpadOutput::Scroll { dx_um, dy_um, phase },
            );
            let level = plan.touchpad_scroll_sensitivity.value as int;
            let along_x = 560 * (dx_um * level);
            let along_y = 560 * (dy_um * level);
            &&& commands.len() == 1
            &&& commands[0] matches Command::TouchpadScroll { delta, phase: posted } && posted
                == phase && delta.x * 40 * 14 == (if plan.touchpad_scroll_inverted {
                along_x
            } else {
                -along_x
            }) && delta.y * 40 * 14 == (if plan.touchpad_scroll_inverted {
                -along_y
            } else {
                along_y
            })
        }),
{
    let tuning = crate::scroll::TouchpadScrollTuning::of_plan(plan);
    crate::scroll::law_content_goes_with_the_fingers(tuning, dx_um, dy_um);
}

/// An ended scroll is reported in its phase. A glide follows exactly where there is an exit velocity
/// that moves the content at more than a thousand pixels a second, and it starts at the content's
/// velocity.
pub proof fn law_fast_scrolls_glide_on(
    tuning: crate::scroll::TouchpadScrollTuning,
    phase: crate::scroll::SmoothScrollPhase,
    exit: Option<(i64, i64)>,
)
    ensures
        ({
            let commands = crate::dispatch::output_commands(
                tuning,
                TouchpadOutput::ScrollEnd { phase, exit_velocity_um_per_s: exit },
            );
            let content = tuning.content(exit.unwrap().0 as int, exit.unwrap().1 as int);
            let fast = exit is Some && content.x * content.x + content.y * content.y > 560_000
                * 560_000;
            &&& fast ==> commands == seq![
                Command::TouchpadScrollEnd { phase },
                Command::StartGlide { velocity: content },
            ]
            &&& !fast ==> commands == seq![Command::TouchpadScrollEnd { phase }]
        }),
{
    let commands = crate::dispatch::output_commands(
        tuning,
        TouchpadOutput::ScrollEnd { phase, exit_velocity_um_per_s: exit },
    );
    if exit is Some {
        let (x, y) = exit.unwrap();
        crate::scroll::law_glide_starts_above_a_thousand_pixels(tuning, x, y);
        let content = tuning.content(x as int, y as int);
        if content.x * content.x + content.y * content.y > 560_000 * 560_000 {
            assert(commands =~= seq![
                Command::TouchpadScrollEnd { phase },
                Command::StartGlide { velocity: content },
            ]);
        }
    }
}

/// A recognized gesture runs its own action, once, and an idle touchpad nothing.
pub proof fn law_touchpad_actions_are_run(
    tuning: crate::scroll::TouchpadScrollTuning,
    trigger: ButtonId,
    action: crate::binding::Action,
)
    ensures
        crate::dispatch::output_commands(tuning, TouchpadOutput::Action { trigger, action })
            == seq![Command::RunAction { action }],
        crate::dispatch::output_commands(tuning, TouchpadOutput::Idle).len() == 0,
{
}

/// The first frame of a stroke stops a running glide before anything else is done, and no later one
/// does; what a frame does to the animation is done before what it does otherwise.
pub proof fn law_touching_stops_the_glide(
    state: DispatcherModel,
    session: SessionName,
    plan: DispatchModel,
    frame: crate::touchpad::FrameModel,
    context: DispatchContext,
)
    ensures
        ({
            let (after, commands) = state.dispatched(
                session,
                plan,
                InputModel::TouchpadFrame(frame),
                context,
            );
            let touchpad = crate::dispatch::touchpad_of(state.touchpads, session);
            let (next, outcome) = touchpad.step(
                frame,
                plan.touchpad_bindings,
                context.touchpad_actions_enabled,
                context.native_streaming,
            );
            let tuning = crate::scroll::TouchpadScrollTuning::of_plan(plan);
            let animation = crate::dispatch::stream_commands(session.epoch, outcome.stream);
            let rest = crate::dispatch::output_commands(tuning, outcome.output);
            &&& touchpad.frozen is None ==> commands == seq![Command::StopGlide] + (animation + rest)
            &&& touchpad.frozen is Some ==> commands == animation + rest
            &&& after.touchpads.contains_key(session) && after.touchpads[session] == next
            &&& after.wheels == state.wheels && after.presses == state.presses
        }),
{
}

/// Lifting the last finger carries out what the stroke comes to and leaves the touchpad idle.
/// Cancelling the stroke ends an open scroll as cancelled and keeps a running animation.
pub proof fn law_lifting_ends_the_stroke(
    state: DispatcherModel,
    session: SessionName,
    plan: DispatchModel,
    context: DispatchContext,
)
    ensures
        ({
            let touchpad = crate::dispatch::touchpad_of(state.touchpads, session);
            let lifted = state.dispatched(session, plan, InputModel::TouchpadEnd, context);
            let outcome = touchpad.lifted(context.touchpad_actions_enabled);
            let tuning = crate::scroll::TouchpadScrollTuning::of_plan(plan);
            let cancelled = state.dispatched(session, plan, InputModel::TouchpadCancel, context);
            &&& lifted.1 == crate::dispatch::stream_commands(session.epoch, outcome.stream)
                + crate::dispatch::output_commands(tuning, outcome.output)
            &&& lifted.0.touchpads[session].frozen is None
            &&& lifted.0.touchpads[session].stream is None
            &&& lifted.0.touchpads[session].scroll is None
            &&& touchpad.scroll is Some ==> cancelled.1 == seq![
                Command::TouchpadScrollEnd { phase: crate::scroll::SmoothScrollPhase::Cancelled },
            ]
            &&& touchpad.scroll is None ==> cancelled.1.len() == 0
            &&& cancelled.0.touchpads[session].stream == touchpad.stream
            &&& cancelled.0.touchpads[session].scroll is None
            &&& lifted.0.wheels == state.wheels && lifted.0.presses == state.presses
            &&& cancelled.0.wheels == state.wheels && cancelled.0.presses == state.presses
        }),
{
}

/// Cancelling a session cancels its actions, its scrolling and its glide, in that order, and then
/// aborts an animation that was opened and a scroll that is open, and nothing that is not.
pub proof fn law_cancelling_aborts_what_is_open(state: DispatcherModel, session: SessionName)
    ensures
        ({
            let touchpad = crate::dispatch::touchpad_of(state.touchpads, session);
            let commands = state.cancel_commands(session);
            let animated = touchpad.stream matches Some(swipe) && swipe.opened;
            let abort = Command::DockSwipe {
                owner: session.epoch,
                motion: touchpad.stream->0.motion,
                phase: DockSwipePhase::Cancel,
                progress: 0,
            };
            let ended = Command::TouchpadScrollEnd {
                phase: crate::scroll::SmoothScrollPhase::Cancelled,
            };
            let always = seq![Command::CancelActions, Command::CancelScroll, Command::StopGlide];
            &&& animated && touchpad.scroll is Some ==> commands == always.push(abort).push(ended)
            &&& animated && touchpad.scroll is None ==> commands == always.push(abort)
            &&& !animated && touchpad.scroll is Some ==> commands == always.push(ended)
            &&& !animated && touchpad.scroll is None ==> commands == always
        }),
{
    let touchpad = crate::dispatch::touchpad_of(state.touchpads, session);
    let commands = state.cancel_commands(session);
    let abort = Command::DockSwipe {
        owner: session.epoch,
        motion: touchpad.stream->0.motion,
        phase: DockSwipePhase::Cancel,
        progress: 0,
    };
    let ended = Command::TouchpadScrollEnd { phase: crate::scroll::SmoothScrollPhase::Cancelled };
    let always = seq![Command::CancelActions, Command::CancelScroll, Command::StopGlide];
    let animated = touchpad.stream matches Some(swipe) && swipe.opened;
    if animated && touchpad.scroll is Some {
        assert(commands =~= always.push(abort).push(ended));
    } else if animated {
        assert(commands =~= always.push(abort));
    } else if touchpad.scroll is Some {
        assert(commands =~= always.push(ended));
    } else {
        assert(commands =~= always);
    }
}

/// An animation that could not be opened is replaced by the action it stood for, once: afterwards
/// nothing streams, and nothing is left to replace.
pub proof fn law_failed_animation_runs_its_action(state: DispatcherModel, session: SessionName)
    ensures
        ({
            let touchpad = crate::dispatch::touchpad_of(state.touchpads, session);
            let after = state.unstreamed(session);
            &&& touchpad.stream matches Some(swipe) ==> state.fallback_commands(session) == seq![
                Command::RunAction { action: swipe.fallback.1 },
            ]
            &&& touchpad.stream is None ==> state.fallback_commands(session).len() == 0
            &&& after.fallback_commands(session).len() == 0
            &&& crate::dispatch::touchpad_of(after.touchpads, session).stream is None
            &&& crate::dispatch::touchpad_of(after.touchpads, session).recognizer
                == touchpad.recognizer
            &&& crate::dispatch::touchpad_of(after.touchpads, session).frozen == touchpad.frozen
            &&& crate::dispatch::touchpad_of(after.touchpads, session).scroll == touchpad.scroll
            &&& after.wheels == state.wheels && after.presses == state.presses
        }),
{
}

/// A session's wheel goes on from where the session's last turn left it, at the time of the turn, by
/// the plan's sensitivity and the wheel's resolution: what it comes to is carried out and what is
/// left of it is kept for that session.
pub proof fn law_wheel_goes_on_from_its_last_turn(
    state: DispatcherModel,
    session: SessionName,
    plan: DispatchModel,
    increments: i16,
    resolution: crate::wheel::WheelResolution,
    context: DispatchContext,
)
    requires
        increments != 0,
    ensures
        ({
            let (after, commands) = state.dispatched(
                session,
                plan,
                InputModel::Scroll { increments, resolution },
                context,
            );
            let action = plan.click_action(
                if increments > 0 {
                    ButtonId::ThumbwheelScrollUp
                } else {
                    ButtonId::ThumbwheelScrollDown
                },
            );
            let (wheel, output) = crate::dispatch::wheel_of(state.wheels, session).advanced(
                crate::wheel::WheelRotation { increments },
                action,
                crate::wheel::ScrollScale { resolution, sensitivity: plan.thumbwheel_sensitivity },
                context.now_ms as nat,
            );
            &&& after.wheels.contains_key(session)
            &&& after.wheels[session] == wheel
            &&& output is Idle ==> commands.len() == 0
            &&& output is FireAction ==> commands == seq![Command::RunAction { action }]
            &&& output matches crate::wheel::WheelOutput::Scroll(delta) ==> commands == seq![
                Command::SmoothScroll { delta },
            ]
        }),
{
}

/// A session's wheel and touchpad are those kept for it; one that has none yet starts from nothing.
pub proof fn law_sessions_have_their_own_state(state: DispatcherModel, session: SessionName)
    ensures
        state.wheels.contains_key(session) ==> crate::dispatch::wheel_of(state.wheels, session)
            == state.wheels[session],
        !state.wheels.contains_key(session) ==> crate::dispatch::wheel_of(
            state.wheels,
            session,
        ).progress == 0 && crate::dispatch::wheel_of(state.wheels, session).quiet_until_ms == 0,
        state.touchpads.contains_key(session) ==> crate::dispatch::touchpad_of(
            state.touchpads,
            session,
        ) == state.touchpads[session],
        !state.touchpads.contains_key(session) ==> {
            let touchpad = crate::dispatch::touchpad_of(state.touchpads, session);
            &&& touchpad.recognizer is Idle
            &&& touchpad.frozen is None
            &&& touchpad.stream is None
            &&& touchpad.scroll is None
            &&& touchpad.last_frame_us is None
        },
{
}

} // verus!
