//! The live dock-swipe stream. Progress is counted in 4 914 000ths.
use openlogi_touchpad::dockswipe::{
    post_began_with, release_phase, resend_wait_ms, DockSwipePhase, Stream,
    FIELD_DOCK_SWIPE_FLAVOR, FIELD_DOCK_SWIPE_MOTION, FIELD_DOCK_SWIPE_PROGRESS, FIELD_VELOCITY_X,
    PHASE_BEGAN, PHASE_CANCELLED, PHASE_ENDED, PHASE_SHIFT, PROGRESS_UNITS,
};

fn units(progress: f64) -> i64 {
    (progress * PROGRESS_UNITS as f64).round() as i64
}

#[test]
fn macos_failed_began_delivery_leaves_the_previous_owner_intact() {
    let mut stream = Stream::default();
    let plan = stream.began_plan(units(0.1));
    stream.commit_began(1, &plan);
    assert!(stream.advance(1, units(0.1)).is_some());

    // Owner 2 plans a Began whose delivery then fails: nothing is committed.
    let _failed_plan = stream.began_plan(units(0.2));
    assert!(stream.advance(1, units(-0.05)).is_some());
    assert!(stream.finish(1, DockSwipePhase::End).is_some());
    assert!(stream.advance(2, units(0.2)).is_none());
    assert!(stream.finish(2, DockSwipePhase::Cancel).is_none());
}

#[test]
fn committed_began_supersedes_the_previous_owner() {
    let mut stream = Stream::default();
    let plan = stream.began_plan(units(0.1));
    stream.commit_began(1, &plan);

    let plan = stream.began_plan(units(0.2));
    stream.commit_began(2, &plan);
    assert!(stream.advance(1, units(0.1)).is_none());
    assert!(stream.finish(1, DockSwipePhase::End).is_none());
    assert!(stream.advance(2, units(0.1)).is_some());
}

#[test]
fn macos_dock_swipe_field_ids_match_iohid_event_types() {
    assert_eq!(FIELD_DOCK_SWIPE_MOTION, 23 << 16 | 1);
    assert_eq!(FIELD_DOCK_SWIPE_PROGRESS, 23 << 16 | 2);
    assert_eq!(FIELD_DOCK_SWIPE_FLAVOR, 23 << 16 | 5);
    assert_eq!(FIELD_VELOCITY_X, 9 << 16);
}

fn check_release_rule() {
    let released = u64::from(PHASE_ENDED) << PHASE_SHIFT;
    let cancelled = u64::from(PHASE_CANCELLED) << PHASE_SHIFT;
    assert_eq!(
        u64::from(release_phase(DockSwipePhase::End, units(0.5), units(0.1))) << PHASE_SHIFT,
        released
    );
    assert_eq!(
        u64::from(release_phase(DockSwipePhase::End, units(-0.5), units(-0.1))) << PHASE_SHIFT,
        released
    );
    assert_eq!(
        u64::from(release_phase(DockSwipePhase::End, units(0.5), units(-0.1))) << PHASE_SHIFT,
        cancelled,
        "a release moving against the travel springs back"
    );
    assert_eq!(
        u64::from(release_phase(DockSwipePhase::End, units(0.0), units(0.1))) << PHASE_SHIFT,
        cancelled,
        "no accumulated progress cannot commit"
    );
    assert_eq!(
        u64::from(release_phase(DockSwipePhase::Cancel, units(0.5), units(0.1))) << PHASE_SHIFT,
        cancelled,
        "an explicit cancel always springs back"
    );
    assert_eq!(u64::from(PHASE_BEGAN) << PHASE_SHIFT, 1 << 24);
}

#[test]
fn macos_release_along_travel_commits_and_against_springs_back() {
    check_release_rule();
}

#[test]
fn dockswipe_release_along_travel_commits_and_against_springs_back() {
    check_release_rule();
}

#[test]
fn dockswipe_failed_began_delivery_leaves_the_previous_owner_intact() {
    let mut stream = Stream::default();
    assert!(post_began_with(&mut stream, 1, units(0.1), |_| true));
    assert!(stream.advance(1, units(0.1)).is_some());

    assert!(!post_began_with(&mut stream, 2, units(0.2), |_| false));
    assert!(stream.advance(1, units(-0.05)).is_some());
    assert!(stream.finish(1, DockSwipePhase::End).is_some());
    assert!(stream.advance(2, units(0.2)).is_none());
    assert!(stream.finish(2, DockSwipePhase::Cancel).is_none());
}

#[test]
fn delivered_began_commits_the_new_owner() {
    let mut stream = Stream::default();
    assert!(post_began_with(&mut stream, 2, units(0.2), |_| true));

    assert_eq!(stream.owner, 2);
    assert!((stream.progress as f64 / PROGRESS_UNITS as f64 - 0.2).abs() < 1e-9);
    assert!((stream.last_delta as f64 / PROGRESS_UNITS as f64 - 0.2).abs() < 1e-9);
    assert!(stream.advance(1, units(0.1)).is_none());
    assert!(stream.advance(2, units(0.1)).is_some());
}

#[test]
fn dockswipe_dock_swipe_field_ids_match_iohid_event_types() {
    assert_eq!(FIELD_DOCK_SWIPE_MOTION, 23 << 16 | 1);
    assert_eq!(FIELD_DOCK_SWIPE_PROGRESS, 23 << 16 | 2);
    assert_eq!(FIELD_DOCK_SWIPE_FLAVOR, 23 << 16 | 5);
    assert_eq!(FIELD_VELOCITY_X, 9 << 16);
}

#[test]
fn a_new_gesture_cancels_pending_resends() {
    let mut stream = Stream::default();
    assert!(post_began_with(&mut stream, 1, units(0.1), |_| true));
    let ended = stream.finish(1, DockSwipePhase::End).expect("owner 1 owns the stream");
    assert!(stream.may_resend(&ended));
    assert!(stream.advance(1, units(0.1)).is_some());
    assert!(stream.may_resend(&ended), "moving on keeps the gesture");
    assert!(post_began_with(&mut stream, 1, units(0.1), |_| true));
    assert!(!stream.may_resend(&ended));
}

#[test]
fn resends_wait_two_and_three_tenths_of_a_second() {
    assert_eq!(resend_wait_ms(0), 200);
    assert_eq!(resend_wait_ms(1), 300);
}

#[test]
fn a_still_frame_plans_nothing_and_a_release_carries_its_velocity() {
    let mut stream = Stream::default();
    assert!(post_began_with(&mut stream, 1, units(0.1), |_| true));
    assert!(stream.advance(1, 0).is_none());
    let moved = stream.advance(1, units(0.2)).expect("owner 1 owns the stream");
    assert_eq!(moved.progress, units(0.1) + units(0.2));
    assert_eq!(moved.options, 2 << 24);
    let ended = stream.finish(1, DockSwipePhase::End).expect("owner 1 owns the stream");
    assert_eq!(ended.options, 4 << 24);
    assert_eq!(ended.velocity, Some(100 * units(0.2)));
}

#[test]
fn a_release_without_motion_springs_back() {
    for progress in [units(0.5), units(-0.5), 0] {
        assert_eq!(release_phase(DockSwipePhase::End, progress, 0), PHASE_CANCELLED);
    }
    let still = Stream { owner: 1, progress: units(0.5), last_delta: 0, generation: 3 };
    let plan = still.finish(1, DockSwipePhase::End).expect("the owner's end");
    assert_eq!(plan.options, PHASE_CANCELLED << PHASE_SHIFT);
    assert_eq!(plan.velocity, Some(0));
}

#[test]
fn a_gesture_commits_exactly_when_its_mirror_image_does() {
    for progress in [-3_i64, -1, 0, 1, 3] {
        for last_delta in [-2_i64, 0, 2] {
            assert_eq!(
                release_phase(DockSwipePhase::End, progress, last_delta),
                release_phase(DockSwipePhase::End, -progress, -last_delta)
            );
        }
    }
}
