//! Capture sessions against the published plans.
use openlogi_touchpad::binding::{Action, Binding, ButtonId, GestureDirection, GestureMap};
use openlogi_touchpad::capture_plan::{
    effective_plan, wanted_sessions, CaptureSessionMode, CaptureSpec, CaptureTarget,
    DeviceCapturePlan, JournalState, PhysicalDeviceKey, PublishedPlan,
};
use openlogi_touchpad::dispatch::{
    ActionDispatcher, CapturedInput, Command, GestureOutputs, ScrollInputHandle,
};
use openlogi_touchpad::manager::{
    GestureManagerState, ManageEvent, ManageReaction, ManageStep, Moment, ReconcileAction,
    SessionFailure, ShutdownReaction, ShutdownStep,
};
use openlogi_touchpad::plan::DispatchPlan;
use openlogi_touchpad::session::{HidppSessionId, PressToken};
use openlogi_touchpad::touchpad::{TouchContact, TouchFrame};

fn plan(key: &str, mode: CaptureSessionMode) -> DeviceCapturePlan {
    DeviceCapturePlan {
        target: CaptureTarget {
            physical_key: PhysicalDeviceKey::new(key),
            route: "receiver/1".to_string(),
            spec: CaptureSpec {
                capture_touchpad: mode != CaptureSessionMode::TouchpadRecovery,
                touchpad_journal_id: Some(key.to_string()),
                mode,
            },
        },
        dispatch: DispatchPlan::unbound(key.to_string()),
    }
}

fn published(plan: DeviceCapturePlan, journal: JournalState) -> PublishedPlan {
    PublishedPlan { plan, diagnostic_requested: false, journal }
}

fn state() -> GestureManagerState {
    GestureManagerState::new(GestureOutputs::new(
        ActionDispatcher { id: 1 },
        ScrollInputHandle { id: 2 },
    ))
}

fn started(key: &str, now_ms: u64) -> (GestureManagerState, HidppSessionId) {
    let mut state = state();
    let wanted = vec![plan(key, CaptureSessionMode::Full)];
    assert!(state.begin_reconcile(&wanted, now_ms).changes.is_empty());
    let starts = state.start_sessions(&wanted, now_ms, &[true]);
    assert_eq!(starts.len(), 1);
    (state, starts[0].session.clone())
}

fn key(name: &str) -> PhysicalDeviceKey {
    PhysicalDeviceKey::new(name)
}

fn moment() -> Moment {
    Moment { native_streaming: false, now_ms: 0 }
}

#[test]
fn an_exclusive_request_wants_nothing() {
    let all = vec![published(plan("pad", CaptureSessionMode::Full), JournalState::NoRecord)];
    assert_eq!(wanted_sessions(false, &all).len(), 1);
    assert!(wanted_sessions(true, &all).is_empty());
}

#[test]
fn raw_reports_need_a_journal_and_a_recovery_needs_a_record() {
    let full = |journal| published(plan("pad", CaptureSessionMode::Full), journal);
    assert!(effective_plan(&full(JournalState::Unavailable)).is_none());
    assert!(effective_plan(&full(JournalState::NoRecord)).is_some());
    let recovery = |journal| published(plan("pad", CaptureSessionMode::TouchpadRecovery), journal);
    assert!(effective_plan(&recovery(JournalState::NoRecord)).is_none());
    assert!(effective_plan(&recovery(JournalState::Recorded)).is_some());
    assert!(effective_plan(&recovery(JournalState::Unreadable)).is_some());
}

#[test]
fn a_diagnostic_turns_a_recovery_into_a_capture() {
    let mut request =
        published(plan("pad", CaptureSessionMode::TouchpadRecovery), JournalState::NoRecord);
    request.diagnostic_requested = true;
    let armed = effective_plan(&request).expect("the diagnostic arms the pad");
    assert_eq!(armed.target.spec.mode, CaptureSessionMode::TouchpadOnly);
    assert!(armed.target.spec.capture_touchpad);
}

#[test]
fn sessions_start_once_and_under_fresh_epochs() {
    let (mut state, first) = started("pad", 0);
    let wanted = vec![plan("pad", CaptureSessionMode::Full)];
    assert!(state.start_sessions(&wanted, 0, &[true]).is_empty());
    let handling = state.handle_done(&key("pad"), &first, false, SessionFailure::Other, 0);
    assert!(handling.removed);
    // The restart waits for the retry delay.
    assert!(state.start_sessions(&wanted, 999, &[true]).is_empty());
    let again = state.start_sessions(&wanted, 1_000, &[true]);
    assert_eq!(again.len(), 1);
    assert_ne!(again[0].session.epoch(), first.epoch());
    // The old incarnation's completion is stale by now.
    assert!(!state.handle_done(&key("pad"), &first, false, SessionFailure::Other, 0).removed);
}

#[test]
fn a_start_without_the_receiver_is_delayed() {
    let mut state = state();
    let wanted = vec![plan("pad", CaptureSessionMode::Full)];
    assert!(state.start_sessions(&wanted, 500, &[false]).is_empty());
    assert_eq!(state.deadline(false), Some(1_500));
    assert_eq!(state.deadline(true), None);
    assert_eq!(state.next_step(false, 1_499), ManageStep::Wait { deadline: Some(1_500) });
    assert_eq!(state.next_step(false, 1_500), ManageStep::Reconcile);
    assert_eq!(state.next_step(true, 1_500), ManageStep::Wait { deadline: None });
}

#[test]
fn unwanted_sessions_stop_and_stay_until_they_complete() {
    let (mut state, session) = started("pad", 0);
    let start = state.begin_reconcile(&vec![], 0);
    assert_eq!(start.changes.len(), 1);
    assert_eq!(start.changes[0].action, ReconcileAction::Stop);
    assert!(state.has_sessions());
    // Wanted again, but the stopping session still stands in the way.
    let wanted = vec![plan("pad", CaptureSessionMode::Full)];
    assert_eq!(
        state.begin_reconcile(&wanted, 0).changes[0].action,
        ReconcileAction::Unchanged
    );
    assert!(state.start_sessions(&wanted, 0, &[true]).is_empty());
    assert!(state.handle_done(&key("pad"), &session, false, SessionFailure::Clean, 0).removed);
    assert!(!state.has_sessions());
    assert_eq!(state.start_sessions(&wanted, 0, &[true]).len(), 1);
}

#[test]
fn a_new_dispatch_plan_is_followed_without_a_restart() {
    let (mut state, session) = started("pad", 0);
    let mut changed = plan("pad", CaptureSessionMode::Full);
    changed.dispatch.bindings.insert(ButtonId::Back, Binding::Single(Action::Copy));
    let publication = published(changed, JournalState::NoRecord);
    let handling = state.handle_input(
        &key("pad"),
        &session,
        &CapturedInput::ButtonDown(ButtonId::Back),
        false,
        Some(&publication),
        moment(),
    );
    assert!(handling.dispatched);
    assert_eq!(
        handling.change.expect("the session catches up first").action,
        ReconcileAction::DispatchChanged
    );
    assert_eq!(
        handling.commands,
        vec![Command::ButtonDown {
            button: ButtonId::Back,
            binding: Some(Binding::Single(Action::Copy)),
            gesture: false
        }]
    );
}

#[test]
fn a_gesture_runs_while_its_press_is_held() {
    let mut state = state();
    let mut wanted = plan("mouse", CaptureSessionMode::Full);
    let mut map = GestureMap::new();
    map.insert(GestureDirection::Up, Action::MissionControl);
    wanted.dispatch.gesture_bindings.insert(ButtonId::GestureButton, map);
    let publication = published(wanted.duplicate(), JournalState::NoRecord);
    let session = state.start_sessions(&vec![wanted], 0, &[true])[0].session.clone();
    let up = CapturedInput::Gesture(ButtonId::GestureButton, GestureDirection::Up);
    let input = |state: &mut GestureManagerState| {
        state
            .handle_input(&key("mouse"), &session, &up, false, Some(&publication), moment())
            .commands
    };
    assert_eq!(input(&mut state), vec![]);
    let press = PressToken { id: 3 };
    state.press_admitted(&session, ButtonId::GestureButton, Some(press));
    assert_eq!(
        input(&mut state),
        vec![Command::DispatchWhilePressed { press, action: Action::MissionControl }]
    );
    state.press_admitted(&session, ButtonId::GestureButton, None);
    assert_eq!(input(&mut state), vec![]);
    assert_eq!(state.dock_swipe_failed(&session), vec![]);
}

#[test]
fn input_of_another_incarnation_is_not_dispatched() {
    let (mut state, session) = started("pad", 0);
    let stale = HidppSessionId::with_epoch("pad", session.epoch() + 1);
    let publication = published(plan("pad", CaptureSessionMode::Full), JournalState::NoRecord);
    let handling = state.handle_input(
        &key("pad"),
        &stale,
        &CapturedInput::ButtonDown(ButtonId::Back),
        false,
        Some(&publication),
        moment(),
    );
    assert!(!handling.dispatched);
    assert_eq!(
        handling.commands,
        vec![Command::CancelActions, Command::CancelScroll, Command::StopGlide]
    );
}

#[test]
fn a_raw_mode_conflict_blocks_the_pad_until_its_plan_changes() {
    let (mut state, session) = started("pad", 0);
    let conflict = SessionFailure::RawModeConflict { expected: 1, actual: 0 };
    let handling = state.handle_done(&key("pad"), &session, false, conflict, 0);
    assert_eq!(handling.conflict.as_deref(), Some("pad"));
    let wanted = vec![plan("pad", CaptureSessionMode::Full)];
    assert!(state.begin_reconcile(&wanted, 0).cleared_conflicts.is_empty());
    assert!(state.start_sessions(&wanted, 10_000, &[true]).is_empty());
    let changed = vec![plan("pad", CaptureSessionMode::TouchpadOnly)];
    assert_eq!(state.begin_reconcile(&changed, 0).cleared_conflicts, vec!["pad"]);
    assert_eq!(state.start_sessions(&changed, 10_000, &[true]).len(), 1);
}

#[test]
fn a_restore_comes_before_the_next_capture() {
    let (mut state, session) = started("pad", 0);
    state.handle_done(&key("pad"), &session, true, SessionFailure::Other, 0);
    assert!(state.has_pending_restores());
    let wanted = vec![plan("pad", CaptureSessionMode::Full)];
    assert!(state.start_sessions(&wanted, 50_000, &[true]).is_empty());
    assert!(!state.has_due_restore(999));
    assert_eq!(state.due_restores(1_000), vec![key("pad")]);
    state.restore_retried(&key("pad"), true, 1_000);
    assert!(!state.has_due_restore(1_999));
    state.restore_retried(&key("pad"), false, 2_000);
    assert!(!state.has_pending_restores());
    assert_eq!(state.start_sessions(&wanted, 50_000, &[true]).len(), 1);
}

#[test]
fn events_steer_the_loop() {
    let mut state = state();
    let mut react = |event: ManageEvent| state.react(event, 7);
    assert_eq!(react(ManageEvent::ShutdownRequested), ManageReaction::FinishShutdown);
    assert_eq!(react(ManageEvent::InputHandled), ManageReaction::Continue { reconcile: false });
    assert_eq!(
        react(ManageEvent::DoneHandled { removed: true }),
        ManageReaction::Continue { reconcile: true }
    );
    assert_eq!(
        react(ManageEvent::DoneHandled { removed: false }),
        ManageReaction::Continue { reconcile: false }
    );
    assert_eq!(react(ManageEvent::PlansChanged), ManageReaction::Continue { reconcile: true });
    assert_eq!(react(ManageEvent::RegistryChanged), ManageReaction::Continue { reconcile: true });
    assert_eq!(react(ManageEvent::PlansClosed), ManageReaction::Return);
    assert_eq!(react(ManageEvent::RegistryClosed), ManageReaction::Return);
}

#[test]
fn shutdown_stops_every_session_and_finishes_every_restore() {
    let (mut state, session) = started("pad", 0);
    let changes = state.begin_shutdown();
    assert_eq!(changes.len(), 1);
    assert_eq!(changes[0].action, ReconcileAction::Stop);
    assert_eq!(state.shutdown_step(0), ShutdownStep::Wait { deadline: None });
    state.handle_done(&key("pad"), &session, true, SessionFailure::Clean, 0);
    assert_eq!(state.shutdown_step(0), ShutdownStep::Wait { deadline: Some(1_000) });
    // A change of the devices makes the restore due at once.
    assert_eq!(
        state.react_during_shutdown(ManageEvent::RegistryChanged, 100),
        ShutdownReaction::Continue
    );
    assert_eq!(state.shutdown_step(100), ShutdownStep::RetryRestores);
    state.defer_due_pending_restores(100);
    assert_eq!(state.shutdown_step(100), ShutdownStep::Wait { deadline: Some(1_100) });
    state.restore_retried(&key("pad"), false, 1_100);
    assert_eq!(state.shutdown_step(1_100), ShutdownStep::Finished);
    assert_eq!(
        state.react_during_shutdown(ManageEvent::RegistryClosed, 0),
        ShutdownReaction::Return
    );
}

#[test]
fn a_streamed_swipe_belongs_to_its_device() {
    let (mut state, session) = started("pad", 0);
    let mut publication = plan("pad", CaptureSessionMode::Full);
    publication
        .dispatch
        .touchpad_bindings
        .insert(ButtonId::TouchpadThreeFingerSwipeRight, Action::NextDesktop);
    let publication = published(publication, JournalState::NoRecord);
    assert!(!state.is_streaming(&key("pad")));
    for step in 0..12_u32 {
        let x_um = 20_000 + step * 3_000;
        let contacts = vec![
            TouchContact { id: 1, x_um, y_um: 30_000 },
            TouchContact { id: 2, x_um: x_um + 15_000, y_um: 30_000 },
            TouchContact { id: 3, x_um: x_um + 30_000, y_um: 30_000 },
        ];
        let frame = TouchFrame::new(u64::from(step) * 20_000, false, contacts);
        state.handle_input(
            &key("pad"),
            &session,
            &CapturedInput::TouchpadFrame(frame.expect("a valid frame")),
            false,
            Some(&publication),
            Moment { native_streaming: true, now_ms: 0 },
        );
    }
    assert!(state.is_streaming(&key("pad")));
    assert!(!state.is_streaming(&key("mouse")));
    assert_eq!(
        state.dock_swipe_failed(&session),
        vec![Command::RunAction { action: Action::NextDesktop }]
    );
    assert!(!state.is_streaming(&key("pad")));
}
