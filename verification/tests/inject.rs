//! What is posted to the system.
use openlogi_touchpad::inject::effect::{
    dispatch_click, execute, CarrierButton, DockNotification, Effect, MediaKey, MouseButton,
    NativeAction, Post, Script, WorkflowStep,
};
use openlogi_touchpad::inject::hotkey::{HotkeyAction, HotkeyAnswer, HotkeyPress};
use openlogi_touchpad::inject::keys::{
    held_key_event, hid_usage_to_macos, hold_keys, EventFlag, EventFlags, HeldKey, HeldModifiers,
    KeyEdge, KeyPhase,
};
use openlogi_touchpad::inject::navigate::{
    button_names, find_button, find_nav_button_by_position, navigation_button, reads_children,
    AxNode,
};
use openlogi_touchpad::inject::shortcut::{combo, Shortcut};
use openlogi_touchpad::inject::wheel_event::{
    content_scroll, continuous_axis, glide_scroll, wheel_scroll, AxisFields, QuantizedScroll,
    ScrollDelta, ScrollPoster, ScrollQuantizer, ScrollUnit,
};
use openlogi_touchpad::key_combo::{KeyCombo, KeyUsage};
use openlogi_touchpad::scroll::{ContentDelta, MomentumTail, SmoothScrollPhase};
use openlogi_touchpad::wheel::WheelDelta;

#[test]
fn hid_usages_map_to_macos_virtual_keys() {
    assert_eq!(hid_usage_to_macos(0x04), Some(0x00));
    assert_eq!(hid_usage_to_macos(0x13), Some(0x23));
    assert_eq!(hid_usage_to_macos(0x50), Some(0x7b));
    assert_eq!(hid_usage_to_macos(0x3a), Some(0x7a));
    assert_eq!(hid_usage_to_macos(0x6f), Some(0x5a));
    assert_eq!(hid_usage_to_macos(0xff), None);
}

#[test]
fn combo_table_pins_representative_shortcuts() {
    assert_eq!(combo(Shortcut::Copy).rendered_label(), "Cmd+C");
    assert_eq!(combo(Shortcut::Redo).rendered_label(), "Cmd+Shift+Z");
    assert_eq!(combo(Shortcut::BrowserBack).rendered_label(), "Cmd+[");
    assert_eq!(combo(Shortcut::NextTab).rendered_label(), "Ctrl+Tab");
    for shortcut in Shortcut::ALL {
        let key = combo(shortcut).key().code();
        assert!(
            hid_usage_to_macos(key).is_some(),
            "{shortcut:?} table entry has no macOS virtual-key mapping"
        );
    }
}

#[test]
fn held_edges_carry_the_aggregate_modifier_state() {
    let mut modifiers = HeldModifiers::default();
    let (_, flags) = held_key_event(HeldKey::Command, KeyPhase::Down, &mut modifiers)
        .expect("Command has a macOS virtual-key mapping");
    assert!(flags.contains(EventFlag::Command));

    let (_, flags) = held_key_event(HeldKey::Control, KeyPhase::Down, &mut modifiers)
        .expect("Control has a macOS virtual-key mapping");
    assert!(flags.contains(EventFlag::Command));
    assert!(flags.contains(EventFlag::Control));

    let key = combo(Shortcut::Copy).key();
    let (_, flags) = held_key_event(HeldKey::Key(key), KeyPhase::Up, &mut modifiers)
        .expect("Copy's key has a macOS virtual-key mapping");
    assert!(flags.contains(EventFlag::Command));
    assert!(flags.contains(EventFlag::Control));

    let (_, flags) = held_key_event(HeldKey::Command, KeyPhase::Up, &mut modifiers)
        .expect("Command has a macOS virtual-key mapping");
    assert!(!flags.contains(EventFlag::Command));
    assert!(flags.contains(EventFlag::Control));
}

#[test]
fn no_two_keys_share_a_virtual_key() {
    let mut keys: Vec<u16> = (0..=255_u8).filter_map(hid_usage_to_macos).collect();
    let count = keys.len();
    keys.sort_unstable();
    keys.dedup();
    assert_eq!(keys.len(), count);
    assert_eq!(count, 81);
}

#[test]
fn keys_go_down_in_order_and_come_up_in_reverse() {
    let keys = [HeldKey::Command, HeldKey::Shift, HeldKey::Key(KeyUsage::new(0x1d))];
    let (held, down) = hold_keys(&keys, KeyPhase::Down, HeldModifiers::default());
    assert_eq!(down.iter().map(|edge| edge.key).collect::<Vec<_>>(), vec![0x37, 0x38, 0x06]);
    assert_eq!(down[2].flags.bits(), 0x12_0000);
    assert!(held.contains(HeldKey::Command) && held.contains(HeldKey::Shift));
    let (released, up) = hold_keys(&keys, KeyPhase::Up, held);
    assert_eq!(up.iter().map(|edge| edge.key).collect::<Vec<_>>(), vec![0x06, 0x38, 0x37]);
    assert_eq!(up[0].flags.bits(), 0x12_0000);
    assert_eq!(up[2].flags.bits(), 0);
    assert_eq!(released, HeldModifiers::default());
    // A key without a virtual key posts nothing.
    let (_, none) = hold_keys(
        &[HeldKey::Key(KeyUsage::new(0xff))],
        KeyPhase::Down,
        HeldModifiers::default(),
    );
    assert_eq!(none, vec![]);
}

fn flags(shift: bool, control: bool, command: bool) -> EventFlags {
    EventFlags { shift, control, alternate: false, command }
}

fn key_pair(key: u16, flags: EventFlags) -> Vec<Post<String>> {
    vec![
        Post::Key(KeyEdge { key, flags, phase: KeyPhase::Down }),
        Post::Key(KeyEdge { key, flags, phase: KeyPhase::Up }),
    ]
}

#[test]
fn effects_post_what_they_name() {
    assert_eq!(execute(&Effect::Nothing).posts, vec![]);
    assert_eq!(execute(&Effect::AgentSide).posts, vec![]);
    assert_eq!(
        execute(&Effect::Shortcut(Shortcut::Redo)).posts,
        key_pair(0x06, flags(true, false, true))
    );
    let chord = KeyCombo::parse("Ctrl+Left").expect("a chord");
    assert_eq!(execute(&Effect::Key(chord)).posts, key_pair(0x7b, flags(false, true, false)));
    assert_eq!(
        execute(&Effect::HeldKey(chord)).posts,
        key_pair(0x7b, flags(false, true, false))
    );
    assert_eq!(
        execute(&Effect::Scroll { dx: -1, dy: 1 }).posts,
        vec![Post::PixelScroll { vertical: 3, horizontal: -3 }]
    );
    assert_eq!(
        execute(&Effect::Media(MediaKey::PlayPause)).posts,
        vec![Post::SystemKey { data1: 0x10_0a00 }, Post::SystemKey { data1: 0x10_0b00 }]
    );
    assert_eq!(
        execute(&Effect::Text("a→".to_string())).posts,
        vec![Post::Character("a".to_string()), Post::Character("→".to_string())]
    );
    let scroll = execute(&Effect::Scroll { dx: 0, dy: 1 });
    assert!(!scroll.detached);
    assert!(scroll.posts[0].is_marked());
    assert!(!execute(&Effect::Key(chord)).posts[0].is_marked());
}

#[test]
fn clicks_use_the_system_buttons() {
    let pair = |carrier: CarrierButton, number: Option<i64>| {
        vec![
            Post::Mouse { carrier, number, phase: KeyPhase::Down },
            Post::Mouse { carrier, number, phase: KeyPhase::Up },
        ]
    };
    assert_eq!(dispatch_click(MouseButton::Left), pair(CarrierButton::Left, None));
    assert_eq!(dispatch_click(MouseButton::Right), pair(CarrierButton::Right, None));
    assert_eq!(dispatch_click(MouseButton::Middle), pair(CarrierButton::Center, None));
    assert_eq!(dispatch_click(MouseButton::Back), pair(CarrierButton::Center, Some(3)));
    assert_eq!(dispatch_click(MouseButton::Forward), pair(CarrierButton::Center, Some(4)));
}

#[test]
fn native_actions_reach_the_system() {
    let posts = |native: NativeAction| execute(&Effect::Native(native)).posts;
    assert_eq!(
        posts(NativeAction::MissionControl),
        vec![Post::Dock(DockNotification::MissionControl)]
    );
    assert_eq!(DockNotification::MissionControl.name(), "com.apple.expose.awake");
    assert_eq!(DockNotification::Launchpad.name(), "com.apple.launchpad.toggle");
    assert_eq!(
        posts(NativeAction::PreviousDesktop),
        vec![Post::SymbolicHotkey { hotkey: 79 }]
    );
    assert_eq!(posts(NativeAction::NextDesktop), vec![Post::SymbolicHotkey { hotkey: 81 }]);
    assert_eq!(posts(NativeAction::LockScreen), key_pair(0x0c, flags(false, true, true)));
    assert_eq!(posts(NativeAction::Screenshot), key_pair(0x14, flags(true, false, true)));
    assert_eq!(posts(NativeAction::CaptureRegion), key_pair(0x15, flags(true, true, true)));
    assert_eq!(posts(NativeAction::Sleep), vec![Post::SleepNow]);
}

#[test]
fn workflows_run_detached_and_in_order() {
    let steps = vec![
        WorkflowStep::PressKey(KeyCombo::parse("Cmd+A").expect("a chord")),
        WorkflowStep::Delay { millis: 50 },
        WorkflowStep::TypeText("x".to_string()),
        WorkflowStep::RunShellCommand("true".to_string()),
        WorkflowStep::RunAppleScript("beep".to_string()),
    ];
    let injection = execute(&Effect::Script(Script::Workflow(steps)));
    assert!(injection.detached);
    let mut expected = key_pair(0x00, flags(false, false, true));
    expected.push(Post::Wait { millis: 50 });
    expected.push(Post::Character("x".to_string()));
    expected.push(Post::ShellCommand("true".to_string()));
    expected.push(Post::AppleScript("beep".to_string()));
    assert_eq!(injection.posts, expected);
}

#[test]
fn a_disabled_hotkey_is_enabled_for_the_press_only() {
    let mut press = HotkeyPress::new(79);
    assert_eq!(press.action(), HotkeyAction::ReadValue { hotkey: 79 });
    press.answer(HotkeyAnswer::Value { status: 0, key: 0x7b, modifiers: 0x4_0000 });
    assert_eq!(press.action(), HotkeyAction::ReadEnabled { hotkey: 79 });
    press.answer(HotkeyAnswer::Enabled { enabled: false });
    assert_eq!(press.action(), HotkeyAction::SetEnabled { hotkey: 79, enabled: true });
    // Even where enabling reports an error.
    press.answer(HotkeyAnswer::Switched { status: 1 });
    assert_eq!(press.action(), HotkeyAction::PressKey { key: 0x7b, modifiers: 0x4_0000 });
    press.answer(HotkeyAnswer::Pressed);
    assert_eq!(press.action(), HotkeyAction::SetEnabled { hotkey: 79, enabled: false });
    press.answer(HotkeyAnswer::Switched { status: 0 });
    assert_eq!(press.action(), HotkeyAction::Finished);
}

#[test]
fn an_enabled_or_unknown_hotkey_is_not_switched() {
    let mut enabled = HotkeyPress::new(81);
    enabled.answer(HotkeyAnswer::Value { status: 0, key: 0x7c, modifiers: 0 });
    enabled.answer(HotkeyAnswer::Enabled { enabled: true });
    assert_eq!(enabled.action(), HotkeyAction::PressKey { key: 0x7c, modifiers: 0 });
    enabled.answer(HotkeyAnswer::Pressed);
    assert_eq!(enabled.action(), HotkeyAction::Finished);
    let mut unknown = HotkeyPress::new(81);
    unknown.answer(HotkeyAnswer::Value { status: 1000, key: 0, modifiers: 0 });
    assert_eq!(unknown.action(), HotkeyAction::Finished);
}

#[test]
fn fractions_of_a_pixel_add_up() {
    let mut quantizer = ScrollQuantizer::default();
    let half = ScrollDelta::Pixels { x: 280_000, y: -280_000 };
    assert_eq!(quantizer.quantize(half, 1), QuantizedScroll { x: 0, y: 0 });
    assert_eq!(quantizer.quantize(half, 1), QuantizedScroll { x: 1, y: -1 });
    assert_eq!(quantizer.quantize(half, 10), QuantizedScroll { x: 5, y: -5 });
    assert_eq!(quantizer, ScrollQuantizer::default());
}

#[test]
fn scroll_events_carry_their_fields() {
    let mut poster = ScrollPoster::default();
    assert_eq!(poster.post_scroll(ScrollDelta::Pixels { x: 10_000, y: 10_000 }), None);
    let pixels = poster
        .post_scroll(ScrollDelta::Pixels { x: 550_000, y: 25 * 560_000 })
        .expect("a whole pixel on each axis");
    assert_eq!((pixels.unit, pixels.vertical, pixels.horizontal), (ScrollUnit::Pixel, 25, 1));
    assert_eq!(
        pixels.continuous.expect("a continuous event").vertical,
        AxisFields { points: 25, lines: 2, fixed: 163_840 }
    );
    let lines = poster
        .post_scroll(ScrollDelta::WheelTicks { x: 0, y: -560_000 })
        .expect("a whole tick");
    assert_eq!((lines.unit, lines.vertical), (ScrollUnit::Line, -1));
    assert_eq!(lines.continuous, None);
    // A smooth step is posted even when it moves nothing, and a tick is ten points.
    let began = poster
        .post_smooth_scroll(ScrollDelta::WheelTicks { x: 0, y: 560_000 }, SmoothScrollPhase::Began);
    assert_eq!((began.vertical, began.phase), (10, Some(1)));
    let ended = poster
        .post_smooth_scroll(ScrollDelta::Pixels { x: 0, y: 0 }, SmoothScrollPhase::Ended);
    assert_eq!((ended.vertical, ended.phase), (0, Some(4)));
    assert_eq!(
        continuous_axis(-15),
        AxisFields { points: -15, lines: -1, fixed: -98_304 }
    );
    assert_eq!(
        content_scroll(ContentDelta { x: -560, y: i128::MAX }),
        ScrollDelta::Pixels { x: -560_000, y: i64::MAX }
    );
}

#[test]
fn a_glide_scrolls_the_distance_of_its_velocity() {
    // 10 000 pixels per second for eleven milliseconds.
    let mut tail = MomentumTail::gliding(ContentDelta { x: 0, y: 10_000 * 560 })
        .expect("a velocity in range");
    let mut poster = ScrollPoster::default();
    let event = poster.post_scroll(glide_scroll(tail.tick(false))).expect("whole pixels");
    assert_eq!((event.vertical, event.horizontal), (110, 0));
    assert_eq!(MomentumTail::gliding(ContentDelta { x: i128::MAX, y: 0 }), None);
}

#[test]
fn a_wheel_scrolls_its_share_of_a_tick() {
    assert_eq!(
        wheel_scroll(WheelDelta { numerator: -14, denominator: 28 }),
        ScrollDelta::WheelTicks { x: -280_000, y: 0 }
    );
    assert_eq!(
        wheel_scroll(WheelDelta { numerator: 1, denominator: 3 }),
        ScrollDelta::WheelTicks { x: 186_666, y: 0 }
    );
}

fn node(role: &str, children: Vec<AxNode>) -> AxNode {
    AxNode {
        role: Some(role.to_string()),
        identifier: None,
        subrole: None,
        description: None,
        children: children.into_iter().map(Some).collect(),
    }
}

fn button(identifier: Option<&str>, description: Option<&str>) -> AxNode {
    AxNode {
        identifier: identifier.map(str::to_string),
        description: description.map(str::to_string),
        ..node("AXButton", vec![])
    }
}

fn browser(back: AxNode, forward: AxNode) -> AxNode {
    node(
        "AXWindow",
        vec![
            node("AXTabGroup", vec![button(Some("BackForwardToolbarButton_Back"), None)]),
            node(
                "AXToolbar",
                vec![
                    node("AXGroup", vec![button(None, Some("Sidebar"))]),
                    node("AXGroup", vec![node("AXGroup", vec![back, forward])]),
                ],
            ),
        ],
    )
}

#[test]
fn buttons_are_found_by_any_of_their_names() {
    let window = browser(
        button(None, Some("Go back")),
        button(Some("BackForwardToolbarButton_Forward"), None),
    );
    // The tab bar is not searched, though it holds a match.
    assert_eq!(find_button(&window, button_names(false), 6), Some(vec![1, 1, 0, 0]));
    assert_eq!(find_button(&window, button_names(true), 6), Some(vec![1, 1, 0, 1]));
    assert_eq!(find_button(&window, button_names(true), 4), None);
    assert_eq!(navigation_button(&window, true), Some(vec![1, 1, 0, 1]));
}

#[test]
fn unnamed_buttons_are_found_by_position() {
    let window = browser(button(None, Some("Zurück")), button(None, Some("Vorwärts")));
    assert_eq!(find_button(&window, button_names(false), 6), None);
    assert_eq!(find_nav_button_by_position(&window, false), Some(vec![1, 1, 0, 0]));
    assert_eq!(navigation_button(&window, false), Some(vec![1, 1, 0, 0]));
    assert_eq!(navigation_button(&window, true), Some(vec![1, 1, 0, 1]));
    let other = browser(button(None, None), node("AXImage", vec![]));
    assert_eq!(navigation_button(&other, true), None);
}

#[test]
fn the_first_match_in_tree_order_wins() {
    let mut window = node(
        "AXWindow",
        vec![
            node("AXGroup", vec![node("AXGroup", vec![button(None, Some("Go back"))])]),
            button(Some("BackForwardToolbarButton_Back"), None),
        ],
    );
    assert_eq!(find_button(&window, button_names(false), 6), Some(vec![0, 0, 0]));
    window.children[0] = None;
    assert_eq!(find_button(&window, button_names(false), 6), Some(vec![1]));
}

#[test]
fn only_searched_elements_are_read() {
    let role = |text: &str| Some(text.to_string());
    assert!(reads_children(&role("AXTabGroup"), 0));
    assert!(!reads_children(&role("AXTabGroup"), 1));
    assert!(!reads_children(&role("AXButton"), 1));
    assert!(reads_children(&role("AXGroup"), 4));
    assert!(!reads_children(&role("AXGroup"), 5));
    assert!(reads_children(&None, 1));
}
