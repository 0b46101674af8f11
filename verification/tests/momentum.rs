//! The glide after a two-finger scroll.
use openlogi_touchpad::plan::{DispatchPlan, ThumbwheelSensitivity, TouchpadScrollSensitivity};
use openlogi_touchpad::scroll::{
    glide_velocity, ContentDelta, GlideVelocity, MomentumTail, TouchpadScrollTuning, GLIDE_PARTS,
};
use openlogi_touchpad::table::Table;

const DECAY_PER_TICK: f64 = 0.955;

fn speed(velocity: (f64, f64)) -> f64 {
    velocity.0.hypot(velocity.1)
}

fn pixels(delta: ContentDelta) -> (f64, f64) {
    (delta.x as f64 / 560.0, delta.y as f64 / 560.0)
}

fn glide_pixels(velocity: GlideVelocity) -> (f64, f64) {
    let scale = 560.0 * GLIDE_PARTS as f64;
    (velocity.x as f64 / scale, velocity.y as f64 / scale)
}

#[test]
fn decay_shrinks_the_tail_and_preserves_direction() {
    // A lift-off that glides at (3000, -4000) pixels per second.
    let mut tail = MomentumTail::start(TouchpadScrollTuning::neutral(), (-120_000, -160_000))
        .expect("a brisk lift-off glides");
    let start = glide_pixels(tail.velocity());
    assert_eq!(start, (3000.0, -4000.0));
    let magnitude = speed(start);
    tail.tick(false);

    let velocity = glide_pixels(tail.velocity());
    let shrunk = speed(velocity);
    assert!((magnitude - shrunk - magnitude * (1.0 - DECAY_PER_TICK)).abs() < 1e-9);
    assert!((velocity.0 / velocity.1 - 3000.0 / -4000.0).abs() < 1e-12);
}

#[test]
fn slow_lift_offs_never_glide() {
    let tuning = TouchpadScrollTuning::neutral();
    // 20 mm/s of finger travel is a deliberate placement, not a flick.
    assert_eq!(glide_velocity(tuning, (0, 20_000)), None);
    // 400 mm/s is a flick: 10 mm of travel per 25 ms frame.
    let glide = glide_velocity(tuning, (0, 400_000)).expect("a brisk lift-off glides");
    assert_eq!(pixels(glide), (0.0, 10_000.0));
}

#[test]
fn inverted_tuning_flips_the_glide() {
    let plan = DispatchPlan {
        config_key: "casa".to_string(),
        bindings: Table::new(),
        gesture_bindings: Table::new(),
        side_gesture_bindings: Table::new(),
        thumbwheel_sensitivity: ThumbwheelSensitivity::default(),
        touchpad_bindings: Table::new(),
        touchpad_scroll_sensitivity: TouchpadScrollSensitivity::default(),
        touchpad_scroll_inverted: true,
    };
    let glide = glide_velocity(TouchpadScrollTuning::from_plan(&plan), (400_000, 0))
        .expect("inversion must not gate off the glide");
    assert_eq!(pixels(glide), (10_000.0, 0.0));
}

#[test]
fn a_glide_comes_to_rest_by_itself() {
    let mut tail = MomentumTail::start(TouchpadScrollTuning::neutral(), (0, 400_000))
        .expect("a brisk lift-off glides");
    let mut ticks = 0;
    while !tail.tick(false).finished {
        ticks += 1;
        assert!(ticks < 1_000);
    }
    // 10 000 px/s decays below 10 px/s within 151 ticks of 0.955 each.
    assert!((150..=152).contains(&ticks), "{ticks} ticks");
}

#[test]
fn a_stopped_glide_is_over_at_once() {
    let mut tail = MomentumTail::start(TouchpadScrollTuning::neutral(), (0, 400_000))
        .expect("a brisk lift-off glides");
    assert!(tail.tick(true).finished);
}

#[test]
fn a_glide_follows_the_exponential_to_its_end() {
    let mut tail = MomentumTail::start(TouchpadScrollTuning::neutral(), (-123_457, 287_653))
        .expect("a brisk lift-off glides");
    let mut reference = glide_pixels(tail.velocity());
    loop {
        let velocity = glide_pixels(tail.velocity());
        assert!((velocity.0 - reference.0).abs() <= reference.0.abs() * 1e-13);
        assert!((velocity.1 - reference.1).abs() <= reference.1.abs() * 1e-13);
        let tick = tail.tick(false);
        let moved = (pixels(tick.distance).0 / 1e3, pixels(tick.distance).1 / 1e3);
        assert!((moved.0 - reference.0 * 0.011).abs() < 2e-6);
        assert!((moved.1 - reference.1 * 0.011).abs() < 2e-6);
        assert_eq!(tick.finished, speed(reference) <= 10.0);
        if tick.finished {
            break;
        }
        reference = (reference.0 * DECAY_PER_TICK, reference.1 * DECAY_PER_TICK);
    }
}
