//! What the system gets for each effect, said event by event.
use vstd::prelude::*;

use crate::inject::effect::{
    CarrierButton, DockNotification, Effect, MediaKey, MouseButton, NativeAction, Post, Script,
    WorkflowStep,
};
use crate::inject::keys::{EventFlag, EventFlags, HeldKey, HeldModifiers, KeyEdge, KeyPhase};
use crate::inject::shortcut::Shortcut;
use crate::key_combo::{ChordModel, KeyCombo, KeyUsage, Modifier};

verus! {

/// Whether posts are one system event with a payload and then one with another.
pub open spec fn are_system_keys(posts: Seq<Post<Seq<char>>>, down: int, up: int) -> bool {
    &&& posts.len() == 2
    &&& posts[0] matches Post::SystemKey { data1 } && data1 == down
    &&& posts[1] matches Post::SystemKey { data1 } && data1 == up
}

/// Whether posts are a mouse button going down and coming up again.
pub open spec fn are_click(
    posts: Seq<Post<Seq<char>>>,
    button: CarrierButton,
    override_number: Option<i64>,
) -> bool {
    &&& posts.len() == 2
    &&& posts[0] matches Post::Mouse { carrier, number, phase } && carrier == button && number
        == override_number && phase is Down
    &&& posts[1] matches Post::Mouse { carrier, number, phase } && carrier == button && number
        == override_number && phase is Up
}

/// Whether an event is an edge of a virtual key under exactly the modifiers that are said.
pub open spec fn is_key_edge(
    post: Post<Seq<char>>,
    code: int,
    command: bool,
    shift: bool,
    control: bool,
    option: bool,
    down: bool,
) -> bool {
    post matches Post::Key(edge) && edge.key == code && edge.flags.command == command
        && edge.flags.shift == shift && edge.flags.control == control && edge.flags.alternate
        == option && edge.phase is Down == down
}

/// Whether posts press a virtual key and release it, under exactly the modifiers that are said.
pub open spec fn are_key_press(
    posts: Seq<Post<Seq<char>>>,
    code: int,
    command: bool,
    shift: bool,
    control: bool,
    option: bool,
) -> bool {
    &&& posts.len() == 2
    &&& is_key_edge(posts[0], code, command, shift, control, option, true)
    &&& is_key_edge(posts[1], code, command, shift, control, option, false)
}

/// A media key posts the press and the release of the system key it stands for. The key type is
/// sixteen for play, seventeen and eighteen for the next and the previous track, nought and one for
/// louder and quieter, and seven for mute; it stands above the low sixteen bits, which are `0a00`
/// for the press and `0b00` for the release.
pub proof fn law_media_keys_post_their_system_keys(key: MediaKey)
    ensures
        ({
            let posts = super::effect::effect_posts(Effect::Media(key));
            &&& key is PlayPause ==> are_system_keys(posts, 0x10_0a00, 0x10_0b00)
            &&& key is NextTrack ==> are_system_keys(posts, 0x11_0a00, 0x11_0b00)
            &&& key is PrevTrack ==> are_system_keys(posts, 0x12_0a00, 0x12_0b00)
            &&& key is VolumeUp ==> are_system_keys(posts, 0x0a00, 0x0b00)
            &&& key is VolumeDown ==> are_system_keys(posts, 0x1_0a00, 0x1_0b00)
            &&& key is Mute ==> are_system_keys(posts, 0x7_0a00, 0x7_0b00)
        }),
{
}

/// The key type of a media key, by its number.
pub proof fn law_media_key_types(key: MediaKey)
    ensures
        key is PlayPause ==> super::effect::media_key_type(key) == 16,
        key is NextTrack ==> super::effect::media_key_type(key) == 17,
        key is PrevTrack ==> super::effect::media_key_type(key) == 18,
        key is VolumeUp ==> super::effect::media_key_type(key) == 0,
        key is VolumeDown ==> super::effect::media_key_type(key) == 1,
        key is Mute ==> super::effect::media_key_type(key) == 7,
{
}

/// A click presses its button and releases it. The back button is the system's button number three
/// and the forward button its number four, both on the centre button.
pub proof fn law_clicks_press_their_button(button: MouseButton)
    ensures
        ({
            let posts = super::effect::effect_posts(Effect::Click(button));
            &&& button is Left ==> are_click(posts, CarrierButton::Left, None)
            &&& button is Right ==> are_click(posts, CarrierButton::Right, None)
            &&& button is Middle ==> are_click(posts, CarrierButton::Center, None)
            &&& button is Back ==> are_click(posts, CarrierButton::Center, Some(3i64))
            &&& button is Forward ==> are_click(posts, CarrierButton::Center, Some(4i64))
        }),
{
}

/// A system action asks for the one thing it is named after: the Dock by the name of its
/// notification, the space to the left by hotkey 79 and the one to the right by hotkey 81, the lock
/// by Command and Control with Q, a screenshot by Command and Shift with 3, a region by Command,
/// Shift and Control with 4, and sleep by asking for it.
pub proof fn law_native_actions_ask_for_what_they_name(native: NativeAction)
    ensures
        ({
            let posts = super::effect::effect_posts(Effect::Native(native));
            &&& native is MissionControl ==> posts.len() == 1 && (posts[0] matches Post::Dock(
                dock,
            ) && dock.name_text() == "com.apple.expose.awake"@)
            &&& native is AppExpose ==> posts.len() == 1 && (posts[0] matches Post::Dock(dock)
                && dock.name_text() == "com.apple.expose.front.awake"@)
            &&& native is ShowDesktop ==> posts.len() == 1 && (posts[0] matches Post::Dock(dock)
                && dock.name_text() == "com.apple.showdesktop.awake"@)
            &&& native is LaunchpadShow ==> posts.len() == 1 && (posts[0] matches Post::Dock(dock)
                && dock.name_text() == "com.apple.launchpad.toggle"@)
            &&& native is PreviousDesktop ==> posts.len() == 1
                && (posts[0] matches Post::SymbolicHotkey { hotkey } && hotkey == 79)
            &&& native is NextDesktop ==> posts.len() == 1
                && (posts[0] matches Post::SymbolicHotkey { hotkey } && hotkey == 81)
            &&& native is LockScreen ==> are_key_press(posts, 0x0c, true, false, true, false)
            &&& native is Screenshot ==> are_key_press(posts, 0x14, true, true, false, false)
            &&& native is CaptureRegion ==> are_key_press(posts, 0x15, true, true, true, false)
            &&& native is Sleep ==> posts.len() == 1 && posts[0] is SleepNow
        }),
{
}

/// The Dock's notifications have these names.
pub proof fn law_dock_notifications_have_their_names(dock: DockNotification)
    ensures
        dock is MissionControl ==> dock.name_text() == "com.apple.expose.awake"@,
        dock is AppExpose ==> dock.name_text() == "com.apple.expose.front.awake"@,
        dock is ShowDesktop ==> dock.name_text() == "com.apple.showdesktop.awake"@,
        dock is Launchpad ==> dock.name_text() == "com.apple.launchpad.toggle"@,
{
}

/// A scroll tick is one event of three pixels a step on each axis, in the direction of the tick.
pub proof fn law_scroll_ticks_are_three_pixels(dx: i8, dy: i8)
    ensures
        ({
            let posts = super::effect::effect_posts(Effect::Scroll { dx, dy });
            &&& posts.len() == 1
            &&& posts[0] matches Post::PixelScroll { vertical, horizontal } && vertical == dy + dy
                + dy && horizontal == dx + dx + dx
        }),
{
}

/// A chord presses the key it names and releases it, under exactly its own modifiers, whether it is
/// bound as a chord or as a held one.
pub proof fn law_chords_press_under_their_modifiers(combo: KeyCombo)
    ensures
        ({
            let posts = super::effect::effect_posts(Effect::Key(combo));
            let code = super::keys::virtual_key(combo.key.usage);
            &&& code matches Some(code) ==> are_key_press(
                posts,
                code as int,
                combo.command,
                combo.shift,
                combo.control,
                combo.option,
            )
            &&& code is None ==> posts.len() == 0
            &&& super::effect::effect_posts(Effect::HeldKey(combo)) == posts
        }),
{
}

/// Each shortcut presses this virtual key with these modifiers.
pub proof fn law_shortcuts_press_their_keys(shortcut: Shortcut)
    ensures
        ({
            let posts = super::effect::effect_posts(Effect::Shortcut(shortcut));
            &&& shortcut is Copy ==> are_key_press(posts, 0x08, true, false, false, false)
            &&& shortcut is Paste ==> are_key_press(posts, 0x09, true, false, false, false)
            &&& shortcut is Cut ==> are_key_press(posts, 0x07, true, false, false, false)
            &&& shortcut is Undo ==> are_key_press(posts, 0x06, true, false, false, false)
            &&& shortcut is Redo ==> are_key_press(posts, 0x06, true, true, false, false)
            &&& shortcut is SelectAll ==> are_key_press(posts, 0x00, true, false, false, false)
            &&& shortcut is Find ==> are_key_press(posts, 0x03, true, false, false, false)
            &&& shortcut is Save ==> are_key_press(posts, 0x01, true, false, false, false)
            &&& shortcut is BrowserBack ==> are_key_press(posts, 0x21, true, false, false, false)
            &&& shortcut is BrowserForward ==> are_key_press(posts, 0x1e, true, false, false, false)
            &&& shortcut is NewTab ==> are_key_press(posts, 0x11, true, false, false, false)
            &&& shortcut is CloseTab ==> are_key_press(posts, 0x0d, true, false, false, false)
            &&& shortcut is ReopenTab ==> are_key_press(posts, 0x11, true, true, false, false)
            &&& shortcut is NextTab ==> are_key_press(posts, 0x30, false, false, true, false)
            &&& shortcut is PrevTab ==> are_key_press(posts, 0x30, false, true, true, false)
            &&& shortcut is ReloadPage ==> are_key_press(posts, 0x0f, true, false, false, false)
            &&& shortcut is ZoomIn ==> are_key_press(posts, 0x18, true, false, false, false)
            &&& shortcut is ZoomOut ==> are_key_press(posts, 0x1b, true, false, false, false)
        }),
{
}

/// Nothing is posted for an action that does nothing, nor for one that is handled elsewhere.
pub proof fn law_idle_effects_post_nothing()
    ensures
        super::effect::effect_posts(Effect::Nothing).len() == 0,
        super::effect::effect_posts(Effect::AgentSide).len() == 0,
{
}

/// A text is typed in order, one event for each character.
pub proof fn law_texts_are_typed_in_order(text: String, i: int)
    ensures
        ({
            let posts = super::effect::effect_posts(Effect::Text(text));
            &&& posts.len() == text@.len()
            &&& 0 <= i < text@.len() ==> (posts[i] matches Post::Character(character)
                && character.len() == 1 && character[0] == text@[i])
        }),
{
}

/// A script is handed over as it is written.
pub proof fn law_scripts_are_handed_over(source: String)
    ensures
        super::effect::effect_posts(Effect::Script(Script::AppleScript(source))).len() == 1,
        super::effect::effect_posts(Effect::Script(Script::AppleScript(source)))[0]
            == Post::AppleScript(source@),
        super::effect::effect_posts(Effect::Script(Script::ShellCommand(source))).len() == 1,
        super::effect::effect_posts(Effect::Script(Script::ShellCommand(source)))[0]
            == Post::ShellCommand(source@),
{
}

/// A step added to a workflow is posted after everything before it: a pause as a pause of its
/// length, a script as it is written, a text character by character, a chord as the chord alone
/// would be.
pub proof fn law_workflow_steps_come_in_order(
    steps: Seq<WorkflowStep<Seq<char>>>,
    step: WorkflowStep<Seq<char>>,
)
    ensures
        ({
            let before = super::effect::workflow_posts(steps);
            let posts = super::effect::workflow_posts(steps.push(step));
            let added = posts.skip(before.len() as int);
            &&& posts.len() >= before.len()
            &&& posts.take(before.len() as int) == before
            &&& steps.len() == 0 ==> before.len() == 0
            &&& step matches WorkflowStep::Delay { millis } ==> added == seq![
                Post::<Seq<char>>::Wait { millis },
            ]
            &&& step matches WorkflowStep::RunAppleScript(source) ==> added == seq![
                Post::AppleScript(source),
            ]
            &&& step matches WorkflowStep::RunShellCommand(command) ==> added == seq![
                Post::ShellCommand(command),
            ]
            &&& step matches WorkflowStep::TypeText(text) ==> added.len() == text.len() && forall|
                i: int,
            |
                0 <= i < text.len() ==> (#[trigger] added[i] matches Post::Character(character)
                    && character.len() == 1 && character[0] == text[i])
            &&& step matches WorkflowStep::PressKey(combo) ==> added
                == super::effect::effect_posts(Effect::Key(combo))
        }),
{
    let before = super::effect::workflow_posts(steps);
    let posts = super::effect::workflow_posts(steps.push(step));
    assert(steps.push(step).drop_last() =~= steps);
    assert(posts == before + super::effect::step_posts(step));
    assert(posts.take(before.len() as int) =~= before);
    assert(posts.skip(before.len() as int) =~= super::effect::step_posts(step));
}

/// Exactly mouse and scroll events are marked, so that the event tap skips what was posted there;
/// keys are not.
pub proof fn law_mouse_and_scroll_events_are_marked(post: Post<Seq<char>>)
    ensures
        post matches Post::Mouse { .. } ==> post.marked(),
        post matches Post::PixelScroll { .. } ==> post.marked(),
        post matches Post::Key(_) ==> !post.marked(),
        post matches Post::Character(_) ==> !post.marked(),
        post matches Post::SystemKey { .. } ==> !post.marked(),
        post matches Post::Dock(_) ==> !post.marked(),
        post matches Post::SymbolicHotkey { .. } ==> !post.marked(),
        post is SleepNow ==> !post.marked(),
        post matches Post::Wait { .. } ==> !post.marked(),
        post matches Post::AppleScript(_) ==> !post.marked(),
        post matches Post::ShellCommand(_) ==> !post.marked(),
{
}

/// The virtual key of each keyboard usage, by number. A usage that is not among them has none.
pub proof fn law_usages_have_these_virtual_keys(usage: u8)
    ensures
        usage == 0x04 ==> super::keys::virtual_key(usage) == Some(0x00u16),
        usage == 0x05 ==> super::keys::virtual_key(usage) == Some(0x0bu16),
        usage == 0x06 ==> super::keys::virtual_key(usage) == Some(0x08u16),
        usage == 0x07 ==> super::keys::virtual_key(usage) == Some(0x02u16),
        usage == 0x08 ==> super::keys::virtual_key(usage) == Some(0x0eu16),
        usage == 0x09 ==> super::keys::virtual_key(usage) == Some(0x03u16),
        usage == 0x0a ==> super::keys::virtual_key(usage) == Some(0x05u16),
        usage == 0x0b ==> super::keys::virtual_key(usage) == Some(0x04u16),
        usage == 0x0c ==> super::keys::virtual_key(usage) == Some(0x22u16),
        usage == 0x0d ==> super::keys::virtual_key(usage) == Some(0x26u16),
        usage == 0x0e ==> super::keys::virtual_key(usage) == Some(0x28u16),
        usage == 0x0f ==> super::keys::virtual_key(usage) == Some(0x25u16),
        usage == 0x10 ==> super::keys::virtual_key(usage) == Some(0x2eu16),
        usage == 0x11 ==> super::keys::virtual_key(usage) == Some(0x2du16),
        usage == 0x12 ==> super::keys::virtual_key(usage) == Some(0x1fu16),
        usage == 0x13 ==> super::keys::virtual_key(usage) == Some(0x23u16),
        usage == 0x14 ==> super::keys::virtual_key(usage) == Some(0x0cu16),
        usage == 0x15 ==> super::keys::virtual_key(usage) == Some(0x0fu16),
        usage == 0x16 ==> super::keys::virtual_key(usage) == Some(0x01u16),
        usage == 0x17 ==> super::keys::virtual_key(usage) == Some(0x11u16),
        usage == 0x18 ==> super::keys::virtual_key(usage) == Some(0x20u16),
        usage == 0x19 ==> super::keys::virtual_key(usage) == Some(0x09u16),
        usage == 0x1a ==> super::keys::virtual_key(usage) == Some(0x0du16),
        usage == 0x1b ==> super::keys::virtual_key(usage) == Some(0x07u16),
        usage == 0x1c ==> super::keys::virtual_key(usage) == Some(0x10u16),
        usage == 0x1d ==> super::keys::virtual_key(usage) == Some(0x06u16),
        usage == 0x1e ==> super::keys::virtual_key(usage) == Some(0x12u16),
        usage == 0x1f ==> super::keys::virtual_key(usage) == Some(0x13u16),
        usage == 0x20 ==> super::keys::virtual_key(usage) == Some(0x14u16),
        usage == 0x21 ==> super::keys::virtual_key(usage) == Some(0x15u16),
        usage == 0x22 ==> super::keys::virtual_key(usage) == Some(0x17u16),
        usage == 0x23 ==> super::keys::virtual_key(usage) == Some(0x16u16),
        usage == 0x24 ==> super::keys::virtual_key(usage) == Some(0x1au16),
        usage == 0x25 ==> super::keys::virtual_key(usage) == Some(0x1cu16),
        usage == 0x26 ==> super::keys::virtual_key(usage) == Some(0x19u16),
        usage == 0x27 ==> super::keys::virtual_key(usage) == Some(0x1du16),
        usage == 0x28 ==> super::keys::virtual_key(usage) == Some(0x24u16),
        usage == 0x29 ==> super::keys::virtual_key(usage) == Some(0x35u16),
        usage == 0x2a ==> super::keys::virtual_key(usage) == Some(0x33u16),
        usage == 0x2b ==> super::keys::virtual_key(usage) == Some(0x30u16),
        usage == 0x2c ==> super::keys::virtual_key(usage) == Some(0x31u16),
        usage == 0x2d ==> super::keys::virtual_key(usage) == Some(0x1bu16),
        usage == 0x2e ==> super::keys::virtual_key(usage) == Some(0x18u16),
        usage == 0x2f ==> super::keys::virtual_key(usage) == Some(0x21u16),
        usage == 0x30 ==> super::keys::virtual_key(usage) == Some(0x1eu16),
        usage == 0x31 ==> super::keys::virtual_key(usage) == Some(0x2au16),
        usage == 0x33 ==> super::keys::virtual_key(usage) == Some(0x29u16),
        usage == 0x34 ==> super::keys::virtual_key(usage) == Some(0x27u16),
        usage == 0x35 ==> super::keys::virtual_key(usage) == Some(0x32u16),
        usage == 0x36 ==> super::keys::virtual_key(usage) == Some(0x2bu16),
        usage == 0x37 ==> super::keys::virtual_key(usage) == Some(0x2fu16),
        usage == 0x38 ==> super::keys::virtual_key(usage) == Some(0x2cu16),
        usage == 0x3a ==> super::keys::virtual_key(usage) == Some(0x7au16),
        usage == 0x3b ==> super::keys::virtual_key(usage) == Some(0x78u16),
        usage == 0x3c ==> super::keys::virtual_key(usage) == Some(0x63u16),
        usage == 0x3d ==> super::keys::virtual_key(usage) == Some(0x76u16),
        usage == 0x3e ==> super::keys::virtual_key(usage) == Some(0x60u16),
        usage == 0x3f ==> super::keys::virtual_key(usage) == Some(0x61u16),
        usage == 0x40 ==> super::keys::virtual_key(usage) == Some(0x62u16),
        usage == 0x41 ==> super::keys::virtual_key(usage) == Some(0x64u16),
        usage == 0x42 ==> super::keys::virtual_key(usage) == Some(0x65u16),
        usage == 0x43 ==> super::keys::virtual_key(usage) == Some(0x6du16),
        usage == 0x44 ==> super::keys::virtual_key(usage) == Some(0x67u16),
        usage == 0x45 ==> super::keys::virtual_key(usage) == Some(0x6fu16),
        usage == 0x4a ==> super::keys::virtual_key(usage) == Some(0x73u16),
        usage == 0x4b ==> super::keys::virtual_key(usage) == Some(0x74u16),
        usage == 0x4c ==> super::keys::virtual_key(usage) == Some(0x75u16),
        usage == 0x4d ==> super::keys::virtual_key(usage) == Some(0x77u16),
        usage == 0x4e ==> super::keys::virtual_key(usage) == Some(0x79u16),
        usage == 0x4f ==> super::keys::virtual_key(usage) == Some(0x7cu16),
        usage == 0x50 ==> super::keys::virtual_key(usage) == Some(0x7bu16),
        usage == 0x51 ==> super::keys::virtual_key(usage) == Some(0x7du16),
        usage == 0x52 ==> super::keys::virtual_key(usage) == Some(0x7eu16),
        usage == 0x68 ==> super::keys::virtual_key(usage) == Some(0x69u16),
        usage == 0x69 ==> super::keys::virtual_key(usage) == Some(0x6bu16),
        usage == 0x6a ==> super::keys::virtual_key(usage) == Some(0x71u16),
        usage == 0x6b ==> super::keys::virtual_key(usage) == Some(0x6au16),
        usage == 0x6c ==> super::keys::virtual_key(usage) == Some(0x40u16),
        usage == 0x6d ==> super::keys::virtual_key(usage) == Some(0x4fu16),
        usage == 0x6e ==> super::keys::virtual_key(usage) == Some(0x50u16),
        usage == 0x6f ==> super::keys::virtual_key(usage) == Some(0x5au16),
        super::keys::virtual_key(usage) is Some ==> 0x04 <= usage <= 0x38 && usage != 0x32 || 0x3a
            <= usage <= 0x45 || 0x4a <= usage <= 0x52 || 0x68 <= usage <= 0x6f,
{
}

/// Command is virtual key 0x37, shift 0x38, option 0x3a and control 0x3b; any other key has the
/// virtual key of its usage.
pub proof fn law_modifiers_have_these_virtual_keys(key: HeldKey)
    ensures
        key is Command ==> key.code() == Some(0x37u16),
        key is Shift ==> key.code() == Some(0x38u16),
        key is Alt ==> key.code() == Some(0x3au16),
        key is Control ==> key.code() == Some(0x3bu16),
        key matches HeldKey::Key(usage) ==> key.code() == super::keys::virtual_key(usage.usage),
{
}

/// A flag is set on an event of a held chord exactly where its own modifier is held, and on an event
/// of a chord exactly where the chord has it.
pub proof fn law_flags_are_the_modifiers(modifiers: HeldModifiers, chord: ChordModel)
    ensures
        EventFlags::of_held(modifiers).has(EventFlag::Command) == modifiers.command,
        EventFlags::of_held(modifiers).has(EventFlag::Shift) == modifiers.shift,
        EventFlags::of_held(modifiers).has(EventFlag::Alternate) == modifiers.alt,
        EventFlags::of_held(modifiers).has(EventFlag::Control) == modifiers.control,
        EventFlags::of_chord(chord).has(EventFlag::Command) == chord.command,
        EventFlags::of_chord(chord).has(EventFlag::Shift) == chord.shift,
        EventFlags::of_chord(chord).has(EventFlag::Alternate) == chord.option,
        EventFlags::of_chord(chord).has(EventFlag::Control) == chord.control,
{
}

/// Reading a flag gives the field that it is called after.
pub proof fn law_flags_are_read_by_name(flags: EventFlags)
    ensures
        flags.has(EventFlag::Command) == flags.command,
        flags.has(EventFlag::Shift) == flags.shift,
        flags.has(EventFlag::Alternate) == flags.alternate,
        flags.has(EventFlag::Control) == flags.control,
{
}

/// An edge of a key changes whether that modifier is held, and no other: after it the modifier is
/// held exactly if the edge was a press, and a key that is no modifier changes nothing.
pub proof fn law_edges_change_their_own_modifier(
    modifiers: HeldModifiers,
    key: HeldKey,
    held: bool,
)
    ensures
        ({
            let after = modifiers.after(key, held);
            &&& after.command == (if key is Command {
                held
            } else {
                modifiers.command
            })
            &&& after.shift == (if key is Shift {
                held
            } else {
                modifiers.shift
            })
            &&& after.alt == (if key is Alt {
                held
            } else {
                modifiers.alt
            })
            &&& after.control == (if key is Control {
                held
            } else {
                modifiers.control
            })
            &&& after.has(HeldKey::Command) == after.command
            &&& after.has(HeldKey::Shift) == after.shift
            &&& after.has(HeldKey::Alt) == after.alt
            &&& after.has(HeldKey::Control) == after.control
            &&& key is Key ==> !after.has(key)
        }),
{
}

/// A chord held from rest goes down modifier first: one edge per key in order, each with the
/// modifiers that are down by now. Released, it comes up key first.
pub proof fn law_held_chord_goes_down_and_up(usage: u8, code: u16)
    requires
        super::keys::virtual_key(usage) == Some(code),
    ensures
        ({
            let keys = seq![HeldKey::Command, HeldKey::Key(KeyUsage { usage })];
            let rest = HeldModifiers { command: false, shift: false, alt: false, control: false };
            let held = HeldModifiers { command: true, ..rest };
            let down = super::keys::edge_order(keys, KeyPhase::Down);
            let up = super::keys::edge_order(keys, KeyPhase::Up);
            let none = EventFlags {
                shift: false,
                control: false,
                alternate: false,
                command: false,
            };
            let command = EventFlags { command: true, ..none };
            &&& rest.after_all(down, true) == held
            &&& held.after_all(up, false) == rest
            &&& super::keys::held_edges(rest, down, KeyPhase::Down) == seq![
                KeyEdge { key: 0x37, flags: command, phase: KeyPhase::Down },
                KeyEdge { key: code, flags: command, phase: KeyPhase::Down },
            ]
            &&& super::keys::held_edges(held, up, KeyPhase::Up) == seq![
                KeyEdge { key: code, flags: command, phase: KeyPhase::Up },
                KeyEdge { key: 0x37, flags: none, phase: KeyPhase::Up },
            ]
        }),
{
    let key = HeldKey::Key(KeyUsage { usage });
    let keys = seq![HeldKey::Command, key];
    let rest = HeldModifiers { command: false, shift: false, alt: false, control: false };
    let held = HeldModifiers { command: true, ..rest };
    let down = super::keys::edge_order(keys, KeyPhase::Down);
    let up = super::keys::edge_order(keys, KeyPhase::Up);
    assert(down =~= seq![HeldKey::Command, key]);
    assert(up =~= seq![key, HeldKey::Command]);
    assert(down.drop_last() =~= seq![HeldKey::Command]);
    assert(down.drop_last().drop_last() =~= Seq::empty());
    assert(up.drop_last() =~= seq![key]);
    assert(up.drop_last().drop_last() =~= Seq::empty());
    reveal_with_fuel(HeldModifiers::after_all, 3);
    reveal_with_fuel(super::keys::held_edges, 3);
}

/// Keys go down in their order and come up in the reverse of it.
pub proof fn law_keys_come_up_in_reverse(keys: Seq<HeldKey>, i: int)
    requires
        0 <= i < keys.len(),
    ensures
        super::keys::edge_order(keys, KeyPhase::Down).len() == keys.len(),
        super::keys::edge_order(keys, KeyPhase::Up).len() == keys.len(),
        super::keys::edge_order(keys, KeyPhase::Down)[i] == keys[i],
        super::keys::edge_order(keys, KeyPhase::Up)[i] == keys[keys.len() - 1 - i],
{
}

/// A modifier added to a chord is the one that is asked for, and the key and the other modifiers stay.
pub proof fn law_modifiers_are_added_one_by_one(chord: ChordModel, modifier: Modifier)
    ensures
        ({
            let with = chord.with(modifier);
            &&& with.command == (chord.command || modifier is Command)
            &&& with.control == (chord.control || modifier is Control)
            &&& with.option == (chord.option || modifier is Option)
            &&& with.shift == (chord.shift || modifier is Shift)
            &&& with.usage == chord.usage
        }),
{
}

} // verus!
