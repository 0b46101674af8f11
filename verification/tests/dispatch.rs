//! Captured input against a plan: wheels, touchpad strokes and the commands they decide.
use openlogi_touchpad::binding::{Action, Binding, ButtonId, GestureDirection, GestureMap};
use openlogi_touchpad::dispatch::{
    ActionDispatcher, CapturedInput, Command, DispatchContext, GestureOutputs, InputDispatcher,
    ScrollInputHandle, SessionWheels,
};
use openlogi_touchpad::dockswipe::{DockSwipeMotion, DockSwipePhase};
use openlogi_touchpad::plan::{DispatchPlan, ThumbwheelSensitivity, TouchpadScrollSensitivity};
use openlogi_touchpad::runtime::{TouchpadOutput, TouchpadRuntime};
use openlogi_touchpad::scroll::{ContentDelta, SmoothScrollPhase, TouchpadScrollTuning};
use openlogi_touchpad::session::{HidppSessionId, PressToken};
use openlogi_touchpad::swipe::{native_stream_plan, SwipeEnd, SwipeOutput};
use openlogi_touchpad::table::Table;
use openlogi_touchpad::touchpad::{TouchContact, TouchFrame};
use openlogi_touchpad::wheel::{
    ScrollScale, WheelAccumulators, WheelConfiguration, WheelDelta, WheelOutput, WheelResolution,
    WheelRotation,
};

fn rotation(magnitude: i32) -> WheelRotation {
    let increments = i16::try_from(magnitude).expect("test magnitude fits in i16");
    WheelRotation::from_increments(increments).expect("non-zero test rotation")
}

fn scale() -> ScrollScale {
    ScrollScale::new(WheelResolution::unknown(), ThumbwheelSensitivity::default())
}

fn bound(trigger: ButtonId, action: Action) -> Table<ButtonId, Action> {
    let mut table = Table::new();
    table.insert(trigger, action);
    table
}

fn two_fingers(timestamp_us: u64, travelled: u32) -> TouchFrame {
    TouchFrame::new(
        timestamp_us,
        false,
        vec![
            TouchContact { id: 1, x_um: 40_000 + travelled, y_um: 50_000 },
            TouchContact { id: 2, x_um: 60_000 + travelled, y_um: 50_000 },
        ],
    )
    .expect("valid frame")
}

fn three_fingers(timestamp_us: u64, travelled: u32) -> TouchFrame {
    TouchFrame::new(
        timestamp_us,
        false,
        vec![
            TouchContact { id: 1, x_um: 20_000 + travelled, y_um: 30_000 },
            TouchContact { id: 2, x_um: 35_000 + travelled, y_um: 30_000 },
            TouchContact { id: 3, x_um: 50_000 + travelled, y_um: 30_000 },
        ],
    )
    .expect("valid frame")
}

fn outputs() -> GestureOutputs {
    GestureOutputs::new(ActionDispatcher { id: 1 }, ScrollInputHandle { id: 2 })
}

fn context(native_streaming: bool) -> DispatchContext {
    DispatchContext { touchpad_actions_enabled: true, native_streaming, now_ms: 1_000 }
}

#[test]
fn replacement_session_does_not_inherit_progress_or_cooldown() {
    let old = HidppSessionId::with_epoch("mouse-a", 7);
    let replacement = HidppSessionId::with_epoch("mouse-a", 8);
    let threshold = ThumbwheelSensitivity::default().action_threshold();
    let now = 5_000;
    let mut wheels = SessionWheels::new();

    assert_eq!(
        wheels.advance(&old, rotation(threshold), &Action::VolumeUp, scale(), now),
        WheelOutput::FireAction
    );
    assert_eq!(
        wheels.advance(&replacement, rotation(threshold), &Action::VolumeUp, scale(), now),
        WheelOutput::FireAction,
        "a new session must not inherit the old session's cooldown"
    );

    wheels.cancel_session(&old);
    assert!(
        wheels.contains_session(&replacement),
        "canceling a stale epoch must not erase its replacement's state"
    );
    assert!(!wheels.contains_session(&old));
}

#[test]
fn replacement_session_does_not_inherit_partial_progress() {
    let old = HidppSessionId::with_epoch("mouse-a", 7);
    let replacement = HidppSessionId::with_epoch("mouse-a", 8);
    let threshold = ThumbwheelSensitivity::default().action_threshold();
    let now = 5_000;
    let mut wheels = SessionWheels::new();

    assert_eq!(
        wheels.advance(&old, rotation(threshold - 1), &Action::VolumeUp, scale(), now),
        WheelOutput::Idle
    );
    assert_eq!(
        wheels.advance(&replacement, rotation(1), &Action::VolumeUp, scale(), now),
        WheelOutput::Idle,
        "a new session must start with no action progress"
    );
}

#[test]
fn touchpad_stroke_freezes_bindings_from_its_first_frame() {
    let frame = TouchFrame::new(
        1_000,
        false,
        vec![
            TouchContact { id: 1, x_um: 10_000, y_um: 10_000 },
            TouchContact { id: 2, x_um: 20_000, y_um: 10_000 },
        ],
    )
    .expect("valid frame");
    let trigger = ButtonId::TouchpadTwoFingerTap;
    let mut runtime = TouchpadRuntime::default();
    let first_profile = bound(trigger, Action::Copy);
    let replacement_profile = bound(trigger, Action::Paste);

    assert_eq!(runtime.update(&frame, &first_profile, true), TouchpadOutput::Idle);
    assert_eq!(
        runtime.end(true),
        TouchpadOutput::Action { trigger: ButtonId::TouchpadTwoFingerTap, action: Action::Copy }
    );

    assert_eq!(runtime.update(&frame, &replacement_profile, true), TouchpadOutput::Idle);
    assert_eq!(
        runtime.end(true),
        TouchpadOutput::Action { trigger: ButtonId::TouchpadTwoFingerTap, action: Action::Paste }
    );
}

#[test]
fn a_profile_change_mid_stroke_waits_for_the_next_stroke() {
    let trigger = ButtonId::TouchpadTwoFingerTap;
    let mut runtime = TouchpadRuntime::default();
    runtime.update(&two_fingers(1_000, 0), &bound(trigger, Action::Copy), true);
    runtime.update(&two_fingers(2_000, 0), &bound(trigger, Action::Paste), true);
    assert_eq!(
        runtime.end(true),
        TouchpadOutput::Action { trigger, action: Action::Copy }
    );
}

#[test]
fn diagnostic_touchpad_stroke_cannot_fire_if_management_enables_mid_stroke() {
    let frame = TouchFrame::new(
        1_000,
        false,
        vec![
            TouchContact { id: 1, x_um: 10_000, y_um: 10_000 },
            TouchContact { id: 2, x_um: 20_000, y_um: 10_000 },
        ],
    )
    .expect("valid frame");
    let trigger = ButtonId::TouchpadTwoFingerTap;
    let bindings = bound(trigger, Action::Copy);
    let mut runtime = TouchpadRuntime::default();

    assert_eq!(runtime.update(&frame, &bindings, false), TouchpadOutput::Idle);
    assert_eq!(runtime.end(true), TouchpadOutput::Idle);

    assert_eq!(runtime.update(&frame, &bindings, true), TouchpadOutput::Idle);
    assert_eq!(runtime.end(true), TouchpadOutput::Action { trigger, action: Action::Copy });
}

#[test]
fn touchpad_scroll_streams_phases_and_terminates_on_end() {
    let resting = |travelled: u32| two_fingers(0, travelled);
    let bindings = bound(ButtonId::TouchpadTwoFingerTap, Action::Copy);
    let mut runtime = TouchpadRuntime::default();

    assert_eq!(runtime.update(&resting(0), &bindings, true), TouchpadOutput::Idle);
    assert_eq!(runtime.update(&resting(2_000), &bindings, true), TouchpadOutput::Idle);
    assert_eq!(
        runtime.update(&resting(5_000), &bindings, true),
        TouchpadOutput::Scroll { dx_um: 3_000, dy_um: 0, phase: SmoothScrollPhase::Began }
    );
    assert_eq!(
        runtime.update(&resting(7_000), &bindings, true),
        TouchpadOutput::Scroll { dx_um: 2_000, dy_um: 0, phase: SmoothScrollPhase::Changed }
    );
    assert_eq!(
        runtime.end(true),
        TouchpadOutput::ScrollEnd {
            phase: SmoothScrollPhase::Ended,
            exit_velocity_um_per_s: Some((0, 0)),
        }
    );
    assert_eq!(runtime.end(true), TouchpadOutput::Idle);
}

#[test]
fn touchpad_scroll_survives_disabled_actions_and_cancels_cleanly() {
    let resting = |travelled: u32| two_fingers(0, travelled);
    let bindings = bound(ButtonId::TouchpadTwoFingerTap, Action::Copy);
    let mut runtime = TouchpadRuntime::default();

    runtime.update(&resting(0), &bindings, true);
    runtime.update(&resting(2_000), &bindings, false);
    assert_eq!(
        runtime.update(&resting(5_000), &bindings, false),
        TouchpadOutput::Scroll { dx_um: 3_000, dy_um: 0, phase: SmoothScrollPhase::Began }
    );
    assert_eq!(
        runtime.cancel(),
        TouchpadOutput::ScrollEnd {
            phase: SmoothScrollPhase::Cancelled,
            exit_velocity_um_per_s: None,
        }
    );
    assert_eq!(runtime.cancel(), TouchpadOutput::Idle);
}

fn tuned(sensitivity: TouchpadScrollSensitivity, inverted: bool) -> TouchpadScrollTuning {
    TouchpadScrollTuning::from_plan(&DispatchPlan {
        config_key: "casa".to_string(),
        bindings: Table::new(),
        gesture_bindings: Table::new(),
        side_gesture_bindings: Table::new(),
        thumbwheel_sensitivity: ThumbwheelSensitivity::default(),
        touchpad_bindings: Table::new(),
        touchpad_scroll_sensitivity: sensitivity,
        touchpad_scroll_inverted: inverted,
    })
}

fn assert_pixels(delta: ContentDelta, x: f64, y: f64) {
    let (px, py) = (delta.x as f64 / 560.0, delta.y as f64 / 560.0);
    assert!((px - x).abs() < 1e-9, "x: {}", px);
    assert!((py - y).abs() < 1e-9, "y: {}", py);
}

#[test]
fn touchpad_scroll_tuning_scales_and_inverts_content_deltas() {
    assert_pixels(
        tuned(TouchpadScrollSensitivity::default(), false).content_delta(1_000, 2_000),
        -25.0,
        50.0,
    );
    let doubled = TouchpadScrollSensitivity::try_new(28).expect("valid sensitivity");
    assert_pixels(tuned(doubled, false).content_delta(1_000, 2_000), -50.0, 100.0);
    assert_pixels(
        tuned(TouchpadScrollSensitivity::default(), true).content_delta(1_000, 2_000),
        25.0,
        -50.0,
    );
}

#[test]
fn touchpad_scroll_exit_velocity_tracks_frames_and_releases_slowly() {
    let travelling = two_fingers;
    let bindings = bound(ButtonId::TouchpadTwoFingerTap, Action::Copy);
    let mut runtime = TouchpadRuntime::default();

    // Steady 3 mm per 25 ms frame = 120 mm/s to the right.
    runtime.update(&travelling(0, 0), &bindings, true);
    runtime.update(&travelling(25_000, 2_000), &bindings, true);
    runtime.update(&travelling(50_000, 5_000), &bindings, true);
    let TouchpadOutput::ScrollEnd { exit_velocity_um_per_s: Some((vx, _vy)), .. } =
        runtime.end(true)
    else {
        panic!("a streamed stroke must report its exit velocity");
    };
    assert!((vx as f64 - 120_000.0).abs() < 1.0, "got {vx} µm/s");

    let mut runtime = TouchpadRuntime::default();
    runtime.update(&travelling(0, 0), &bindings, true);
    runtime.update(&travelling(25_000, 2_000), &bindings, true);
    runtime.update(&travelling(50_000, 5_000), &bindings, true);
    runtime.update(&travelling(75_000, 5_500), &bindings, true);
    let TouchpadOutput::ScrollEnd { exit_velocity_um_per_s: Some((vx, _)), .. } =
        runtime.end(true)
    else {
        panic!("streamed stroke");
    };
    assert!(
        vx as f64 > 100_000.0,
        "a single slow frame must not collapse the exit velocity, got {vx}"
    );
}

#[test]
fn wheel_fires_at_the_threshold_and_stays_quiet_after() {
    let threshold = ThumbwheelSensitivity::default().action_threshold();
    assert_eq!(threshold, 20);
    let mut wheel = WheelAccumulators::default();
    assert_eq!(
        wheel.advance(rotation(threshold), &Action::Copy, scale(), 1_000),
        WheelOutput::FireAction
    );
    assert_eq!(
        wheel.advance(rotation(threshold), &Action::Copy, scale(), 1_100),
        WheelOutput::Idle
    );
    assert_eq!(
        wheel.advance(rotation(threshold), &Action::Copy, scale(), 1_200),
        WheelOutput::FireAction
    );
}

#[test]
fn unset_wheel_configuration_scrolls() {
    let plan = DispatchPlan::unbound("mouse-a".to_string());
    let configuration = WheelConfiguration::for_plan(&plan);
    let mut wheel = WheelAccumulators::default();
    let output = wheel.advance(
        rotation(1),
        &configuration.action(rotation(1)),
        ScrollScale::new(
            WheelResolution { increments_per_detent: 2 },
            ThumbwheelSensitivity::default(),
        ),
        0,
    );
    let WheelOutput::Scroll(WheelDelta { numerator, denominator }) = output else {
        panic!("horizontal scrolling is the default, got {output:?}");
    };
    assert_eq!(numerator.abs() * 2, denominator);
}

#[test]
fn gesture_needs_its_press() {
    let session = HidppSessionId::with_epoch("mouse-a", 1);
    let mut plan = DispatchPlan::unbound("mouse-a".to_string());
    let mut map = GestureMap::new();
    map.insert(GestureDirection::Up, Action::MissionControl);
    plan.gesture_bindings.insert(ButtonId::GestureButton, map);
    let mut dispatcher = InputDispatcher::new(outputs());
    let up = CapturedInput::Gesture(ButtonId::GestureButton, GestureDirection::Up);

    assert_eq!(dispatcher.dispatch(&session, &plan, &up, context(false)), vec![]);
    assert_eq!(
        dispatcher.dispatch(
            &session,
            &plan,
            &CapturedInput::ButtonDown(ButtonId::GestureButton),
            context(false)
        ),
        vec![Command::ButtonDown {
            button: ButtonId::GestureButton,
            binding: None,
            gesture: true
        }]
    );
    let press = PressToken { id: 9 };
    dispatcher.press_admitted(&session, ButtonId::GestureButton, Some(press));
    assert_eq!(
        dispatcher.dispatch(&session, &plan, &up, context(false)),
        vec![Command::DispatchWhilePressed { press, action: Action::MissionControl }]
    );
    // Another incarnation has no press.
    let other = HidppSessionId::with_epoch("mouse-a", 2);
    assert_eq!(dispatcher.dispatch(&other, &plan, &up, context(false)), vec![]);
    assert_eq!(
        dispatcher.dispatch(
            &session,
            &plan,
            &CapturedInput::ButtonUp(ButtonId::GestureButton),
            context(false)
        ),
        vec![Command::ButtonUp { button: ButtonId::GestureButton }]
    );
    assert_eq!(dispatcher.dispatch(&session, &plan, &up, context(false)), vec![]);
}

#[test]
fn buttons_carry_their_bindings() {
    let session = HidppSessionId::with_epoch("mouse-a", 1);
    let mut plan = DispatchPlan::unbound("mouse-a".to_string());
    plan.bindings.insert(ButtonId::Back, Binding::Single(Action::Copy));
    let mut dispatcher = InputDispatcher::new(outputs());
    assert_eq!(
        dispatcher.dispatch(
            &session,
            &plan,
            &CapturedInput::ButtonDown(ButtonId::Back),
            context(false)
        ),
        vec![Command::ButtonDown {
            button: ButtonId::Back,
            binding: Some(Binding::Single(Action::Copy)),
            gesture: false
        }]
    );
    assert_eq!(
        dispatcher.dispatch(
            &session,
            &plan,
            &CapturedInput::ButtonPulse(ButtonId::Back),
            context(false)
        ),
        vec![Command::ButtonPulse {
            button: ButtonId::Back,
            binding: Some(Binding::Single(Action::Copy))
        }]
    );
}

#[test]
fn wheel_scroll_is_offered_to_the_smoothing_runtime_first() {
    let session = HidppSessionId::with_epoch("mouse-a", 1);
    let plan = DispatchPlan::unbound("mouse-a".to_string());
    let input = CapturedInput::Scroll {
        increments: 2,
        resolution: WheelResolution { increments_per_detent: 2 },
    };
    let mut dispatcher = InputDispatcher::new(outputs());
    let commands = dispatcher.dispatch(&session, &plan, &input, context(false));
    let [Command::SmoothScroll { delta }] = commands[..] else {
        panic!("a scroll, got {commands:?}");
    };
    assert_eq!(outputs().post_scroll(delta, true), None);
    assert_eq!(outputs().post_scroll(delta, false), Some(Command::DirectScroll { delta }));
    let still = CapturedInput::Scroll { increments: 0, resolution: WheelResolution::unknown() };
    assert_eq!(dispatcher.dispatch(&session, &plan, &still, context(false)), vec![]);
}

#[test]
fn scrolling_ends_in_a_glide() {
    let session = HidppSessionId::with_epoch("pad", 4);
    let plan = DispatchPlan::unbound("pad".to_string());
    let mut dispatcher = InputDispatcher::new(outputs());
    let mut frame = |at: u64, travelled: u32| {
        dispatcher.dispatch(
            &session,
            &plan,
            &CapturedInput::TouchpadFrame(two_fingers(at, travelled)),
            context(false),
        )
    };
    // A fresh stroke stops a glide that is still running.
    assert_eq!(frame(0, 0), vec![Command::StopGlide]);
    assert_eq!(frame(25_000, 2_000), vec![]);
    assert_eq!(
        frame(50_000, 5_000),
        vec![Command::TouchpadScroll {
            delta: ContentDelta { x: -3_000 * 14, y: 0 },
            phase: SmoothScrollPhase::Began
        }]
    );
    assert_eq!(
        dispatcher.dispatch(&session, &plan, &CapturedInput::TouchpadEnd, context(false)),
        vec![
            Command::TouchpadScrollEnd { phase: SmoothScrollPhase::Ended },
            Command::StartGlide { velocity: ContentDelta { x: -120_000 * 14, y: 0 } },
        ]
    );
}

#[test]
fn swipe_bound_to_its_native_action_is_streamed() {
    assert_eq!(
        native_stream_plan(ButtonId::TouchpadThreeFingerSwipeRight, &Action::NextDesktop),
        Some(DockSwipeMotion::Horizontal)
    );
    assert_eq!(
        native_stream_plan(ButtonId::TouchpadThreeFingerSwipeRight, &Action::Copy),
        None
    );
    let session = HidppSessionId::with_epoch("pad", 4);
    let mut plan = DispatchPlan::unbound("pad".to_string());
    plan.touchpad_bindings
        .insert(ButtonId::TouchpadThreeFingerSwipeRight, Action::NextDesktop);
    let mut dispatcher = InputDispatcher::new(outputs());
    let mut phases = Vec::new();
    for step in 0..12_u32 {
        let frame = three_fingers(u64::from(step) * 20_000, step * 3_000);
        let input = CapturedInput::TouchpadFrame(frame);
        for command in dispatcher.dispatch(&session, &plan, &input, context(true)) {
            if let Command::DockSwipe { owner, motion, phase, .. } = command {
                assert_eq!(owner, 4);
                assert_eq!(motion, DockSwipeMotion::Horizontal);
                phases.push(phase);
            } else {
                assert_eq!(command, Command::StopGlide);
            }
        }
    }
    assert!(dispatcher.is_streaming(&session));
    assert_eq!(phases[0], DockSwipePhase::Began);
    assert!(phases.len() > 1);
    assert!(phases[1..].iter().all(|phase| *phase == DockSwipePhase::Changed));
    // An animation that cannot be opened runs the suppressed action instead.
    assert_eq!(
        dispatcher.dock_swipe_failed(&session),
        vec![Command::RunAction { action: Action::NextDesktop }]
    );
    assert!(!dispatcher.is_streaming(&session));
}

#[test]
fn cancelling_a_session_ends_what_it_streams() {
    let session = HidppSessionId::with_epoch("pad", 4);
    let mut plan = DispatchPlan::unbound("pad".to_string());
    plan.touchpad_bindings
        .insert(ButtonId::TouchpadThreeFingerSwipeRight, Action::NextDesktop);
    let mut dispatcher = InputDispatcher::new(outputs());
    for step in 0..12_u32 {
        let frame = three_fingers(u64::from(step) * 20_000, step * 3_000);
        dispatcher.dispatch(&session, &plan, &CapturedInput::TouchpadFrame(frame), context(true));
    }
    assert_eq!(
        dispatcher.cancel_session(&session),
        vec![
            Command::CancelActions,
            Command::CancelScroll,
            Command::StopGlide,
            Command::DockSwipe {
                owner: 4,
                motion: DockSwipeMotion::Horizontal,
                phase: DockSwipePhase::Cancel,
                progress: 0
            },
        ]
    );
    assert_eq!(
        dispatcher.cancel_session(&session),
        vec![Command::CancelActions, Command::CancelScroll, Command::StopGlide]
    );
}

#[test]
fn a_streamed_swipe_finishes_at_release() {
    let mut runtime = TouchpadRuntime::default();
    let bindings = bound(ButtonId::TouchpadThreeFingerSwipeRight, Action::NextDesktop);
    for step in 0..12_u32 {
        runtime.step(
            &three_fingers(u64::from(step) * 20_000, step * 3_000),
            &bindings,
            true,
            true,
        );
    }
    assert!(runtime.is_streaming());
    let outcome = runtime.finish(true);
    assert_eq!(
        outcome.stream,
        SwipeOutput::Finish { motion: DockSwipeMotion::Horizontal, end: SwipeEnd::AtRelease }
    );
    assert_eq!(outcome.output, TouchpadOutput::Idle);
    assert!(!runtime.is_streaming());
}

#[test]
fn an_unstreamed_swipe_runs_its_action_once() {
    let session = HidppSessionId::with_epoch("pad", 4);
    let mut plan = DispatchPlan::unbound("pad".to_string());
    plan.touchpad_bindings
        .insert(ButtonId::TouchpadThreeFingerSwipeRight, Action::NextDesktop);
    let mut dispatcher = InputDispatcher::new(outputs());
    let mut actions = Vec::new();
    for step in 0..12_u32 {
        let frame = three_fingers(u64::from(step) * 20_000, step * 3_000);
        let input = CapturedInput::TouchpadFrame(frame);
        for command in dispatcher.dispatch(&session, &plan, &input, context(false)) {
            if let Command::RunAction { action } = command {
                actions.push(action);
            }
        }
    }
    assert_eq!(actions, vec![Action::NextDesktop]);
}

#[test]
fn dropped_frames_change_nothing() {
    let session = HidppSessionId::with_epoch("pad", 4);
    let plan = DispatchPlan::unbound("pad".to_string());
    let mut dispatcher = InputDispatcher::new(outputs());
    assert_eq!(
        dispatcher.dispatch(
            &session,
            &plan,
            &CapturedInput::TouchpadDroppedFrames(3),
            context(false)
        ),
        vec![]
    );
}
