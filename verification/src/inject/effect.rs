//! What an effect posts to the system.
//!
//! Text is generic, so that the same types hold the strings that are posted and the character
//! sequences that say what they are.
use vstd::prelude::*;
use vstd::string::{StrSliceExecFns, StringExecFns};

use crate::inject::keys::{combo_flags, hid_usage_to_macos, EventFlags, KeyEdge, KeyPhase};
use crate::inject::shortcut::{combo, Shortcut};
use crate::key_combo::{ChordModel, KeyCombo};

verus! {

/// A mouse button to click.
#[derive(Clone, Copy, Debug, PartialEq, Eq, Structural)]
pub enum MouseButton {
    Left,
    Right,
    Middle,
    Back,
    Forward,
}

/// A media key.
#[derive(Clone, Copy, Debug, PartialEq, Eq, Structural)]
pub enum MediaKey {
    PlayPause,
    NextTrack,
    PrevTrack,
    VolumeUp,
    VolumeDown,
    Mute,
}

/// A window-manager or power action.
#[derive(Clone, Copy, Debug, PartialEq, Eq, Structural)]
pub enum NativeAction {
    MissionControl,
    AppExpose,
    PreviousDesktop,
    NextDesktop,
    ShowDesktop,
    LaunchpadShow,
    LockScreen,
    Screenshot,
    CaptureRegion,
    Sleep,
}

/// A step of a workflow.
#[derive(Debug, PartialEq)]
pub enum WorkflowStep<T> {
    TypeText(T),
    PressKey(KeyCombo),
    Delay { millis: u64 },
    RunAppleScript(T),
    RunShellCommand(T),
}

/// A scripting action.
#[derive(Debug, PartialEq)]
pub enum Script<T> {
    AppleScript(T),
    ShellCommand(T),
    Workflow(Vec<WorkflowStep<T>>),
}

/// What an action does.
#[derive(Debug, PartialEq)]
pub enum Effect<T> {
    /// Captured input that deliberately does nothing.
    Nothing,
    Click(MouseButton),
    Shortcut(Shortcut),
    Key(KeyCombo),
    HeldKey(KeyCombo),
    /// One scroll tick in a direction.
    Scroll { dx: i8, dy: i8 },
    Media(MediaKey),
    Native(NativeAction),
    Script(Script<T>),
    Text(T),
    /// Handled where the input was captured.
    AgentSide,
}

/// The button a mouse event is made for; buttons beyond the third ride on the centre button.
#[derive(Clone, Copy, Debug, PartialEq, Eq, Structural)]
pub enum CarrierButton {
    Left,
    Right,
    Center,
}

/// A notification the Dock acts on.
#[derive(Clone, Copy, Debug, PartialEq, Eq, Structural)]
pub enum DockNotification {
    MissionControl,
    AppExpose,
    ShowDesktop,
    Launchpad,
}

/// One thing to post.
#[derive(Debug, PartialEq)]
pub enum Post<T> {
    /// A mouse-button edge at the pointer, with the button number to override the carrier's.
    Mouse { carrier: CarrierButton, number: Option<i64>, phase: KeyPhase },
    /// A keyboard edge.
    Key(KeyEdge),
    /// A key event that carries one character.
    Character(T),
    /// A system-defined media event, with its packed payload.
    SystemKey { data1: i64 },
    /// A pixel scroll event.
    PixelScroll { vertical: i32, horizontal: i32 },
    Dock(DockNotification),
    /// A press of the key configured for a symbolic hotkey.
    SymbolicHotkey { hotkey: u32 },
    /// Put the system to sleep.
    SleepNow,
    /// Pause before the next post.
    Wait { millis: u64 },
    AppleScript(T),
    ShellCommand(T),
}

/// The posts of an effect, and whether they run on a thread of their own, so that a pause or a
/// child process never stalls the event tap.
#[derive(Debug, PartialEq)]
pub struct Injection {
    pub detached: bool,
    pub posts: Vec<Post<String>>,
}

impl View for WorkflowStep<String> {
    type V = WorkflowStep<Seq<char>>;

    open spec fn view(&self) -> WorkflowStep<Seq<char>> {
        match *self {
            WorkflowStep::TypeText(text) => WorkflowStep::TypeText(text@),
            WorkflowStep::PressKey(combo) => WorkflowStep::PressKey(combo),
            WorkflowStep::Delay { millis } => WorkflowStep::Delay { millis },
            WorkflowStep::RunAppleScript(source) => WorkflowStep::RunAppleScript(source@),
            WorkflowStep::RunShellCommand(command) => WorkflowStep::RunShellCommand(command@),
        }
    }
}

impl View for Post<String> {
    type V = Post<Seq<char>>;

    open spec fn view(&self) -> Post<Seq<char>> {
        match *self {
            Post::Mouse { carrier, number, phase } => Post::Mouse { carrier, number, phase },
            Post::Key(edge) => Post::Key(edge),
            Post::Character(character) => Post::Character(character@),
            Post::SystemKey { data1 } => Post::SystemKey { data1 },
            Post::PixelScroll { vertical, horizontal } => Post::PixelScroll {
                vertical,
                horizontal,
            },
            Post::Dock(notification) => Post::Dock(notification),
            Post::SymbolicHotkey { hotkey } => Post::SymbolicHotkey { hotkey },
            Post::SleepNow => Post::SleepNow,
            Post::Wait { millis } => Post::Wait { millis },
            Post::AppleScript(source) => Post::AppleScript(source@),
            Post::ShellCommand(command) => Post::ShellCommand(command@),
        }
    }
}

/// The views of posts.
pub open spec fn post_views(posts: Seq<Post<String>>) -> Seq<Post<Seq<char>>> {
    posts.map_values(|post: Post<String>| post@)
}

/// The views of workflow steps.
pub open spec fn step_views(steps: Seq<WorkflowStep<String>>) -> Seq<WorkflowStep<Seq<char>>> {
    steps.map_values(|step: WorkflowStep<String>| step@)
}

/// A mouse button pressed and released.
pub open spec fn mouse_posts(carrier: CarrierButton, number: Option<i64>) -> Seq<Post<Seq<char>>> {
    seq![
        Post::Mouse { carrier, number, phase: KeyPhase::Down },
        Post::Mouse { carrier, number, phase: KeyPhase::Up },
    ]
}

/// A click. The extra buttons are the system's fourth and fifth, counted from zero.
pub open spec fn click_posts(button: MouseButton) -> Seq<Post<Seq<char>>> {
    match button {
        MouseButton::Left => mouse_posts(CarrierButton::Left, None),
        MouseButton::Right => mouse_posts(CarrierButton::Right, None),
        MouseButton::Middle => mouse_posts(CarrierButton::Center, None),
        MouseButton::Back => mouse_posts(CarrierButton::Center, Some(3)),
        MouseButton::Forward => mouse_posts(CarrierButton::Center, Some(4)),
    }
}

/// A virtual key pressed and released.
pub open spec fn key_posts(key: u16, flags: EventFlags) -> Seq<Post<Seq<char>>> {
    seq![
        Post::Key(KeyEdge { key, flags, phase: KeyPhase::Down }),
        Post::Key(KeyEdge { key, flags, phase: KeyPhase::Up }),
    ]
}

/// A chord pressed and released; nothing for a key that cannot be pressed.
pub open spec fn chord_posts(chord: ChordModel) -> Seq<Post<Seq<char>>> {
    match crate::inject::keys::virtual_key(chord.usage) {
        Some(key) => key_posts(key, EventFlags::of_chord(chord)),
        None => Seq::empty(),
    }
}

/// A text typed, one event per character.
pub open spec fn text_posts(text: Seq<char>) -> Seq<Post<Seq<char>>> {
    Seq::new(text.len(), |i: int| Post::Character(text.subrange(i, i + 1)))
}

/// The system's key type of a media key.
pub open spec fn media_key_type(key: MediaKey) -> int {
    match key {
        MediaKey::PlayPause => 16,
        MediaKey::NextTrack => 17,
        MediaKey::PrevTrack => 18,
        MediaKey::VolumeUp => 0,
        MediaKey::VolumeDown => 1,
        MediaKey::Mute => 7,
    }
}

/// A media key pressed and released. The payload has the key type in its high word and the key
/// state, ten for down and eleven for up, in the byte below.
pub open spec fn media_posts(key: MediaKey) -> Seq<Post<Seq<char>>> {
    seq![
        Post::SystemKey { data1: (media_key_type(key) * 0x1_0000 + 0x0a00) as i64 },
        Post::SystemKey { data1: (media_key_type(key) * 0x1_0000 + 0x0b00) as i64 },
    ]
}

/// Flags without the alternate modifier.
pub open spec fn native_flags(command: bool, shift: bool, control: bool) -> EventFlags {
    EventFlags { shift, control, alternate: false, command }
}

/// A window-manager or power action: a Dock notification, the configured hotkey for the space to
/// the left (79) or right (81), the system's own chord, or a sleep request.
pub open spec fn native_posts(native: NativeAction) -> Seq<Post<Seq<char>>> {
    match native {
        NativeAction::MissionControl => seq![Post::Dock(DockNotification::MissionControl)],
        NativeAction::AppExpose => seq![Post::Dock(DockNotification::AppExpose)],
        NativeAction::PreviousDesktop => seq![Post::SymbolicHotkey { hotkey: 79 }],
        NativeAction::NextDesktop => seq![Post::SymbolicHotkey { hotkey: 81 }],
        NativeAction::ShowDesktop => seq![Post::Dock(DockNotification::ShowDesktop)],
        NativeAction::LaunchpadShow => seq![Post::Dock(DockNotification::Launchpad)],
        NativeAction::LockScreen => key_posts(0x0c, native_flags(true, false, true)),
        NativeAction::Screenshot => key_posts(0x14, native_flags(true, true, false)),
        NativeAction::CaptureRegion => key_posts(0x15, native_flags(true, true, true)),
        NativeAction::Sleep => seq![Post::SleepNow],
    }
}

/// What a workflow step posts.
pub open spec fn step_posts(step: WorkflowStep<Seq<char>>) -> Seq<Post<Seq<char>>> {
    match step {
        WorkflowStep::TypeText(text) => text_posts(text),
        WorkflowStep::PressKey(combo) => chord_posts(combo@),
        WorkflowStep::Delay { millis } => seq![Post::Wait { millis }],
        WorkflowStep::RunAppleScript(source) => seq![Post::AppleScript(source)],
        WorkflowStep::RunShellCommand(command) => seq![Post::ShellCommand(command)],
    }
}

/// What the steps of a workflow post, in order.
pub open spec fn workflow_posts(steps: Seq<WorkflowStep<Seq<char>>>) -> Seq<Post<Seq<char>>>
    decreases steps.len(),
{
    if steps.len() == 0 {
        Seq::empty()
    } else {
        workflow_posts(steps.drop_last()) + step_posts(steps.last())
    }
}

/// What a script posts.
pub open spec fn script_posts(script: Script<String>) -> Seq<Post<Seq<char>>> {
    match script {
        Script::AppleScript(source) => seq![Post::AppleScript(source@)],
        Script::ShellCommand(command) => seq![Post::ShellCommand(command@)],
        Script::Workflow(steps) => workflow_posts(step_views(steps@)),
    }
}

/// What an effect posts. A scroll tick is three pixels.
pub open spec fn effect_posts(effect: Effect<String>) -> Seq<Post<Seq<char>>> {
    match effect {
        Effect::Nothing => Seq::empty(),
        Effect::Click(button) => click_posts(button),
        Effect::Shortcut(shortcut) => chord_posts(shortcut.chord()),
        Effect::Key(combo) => chord_posts(combo@),
        Effect::HeldKey(combo) => chord_posts(combo@),
        Effect::Scroll { dx, dy } => seq![
            Post::PixelScroll { vertical: (3 * dy) as i32, horizontal: (3 * dx) as i32 },
        ],
        Effect::Media(key) => media_posts(key),
        Effect::Native(native) => native_posts(native),
        Effect::Script(script) => script_posts(script),
        Effect::Text(text) => text_posts(text@),
        Effect::AgentSide => Seq::empty(),
    }
}

impl<T> Post<T> {
    /// Whether the event is marked as synthesized, so that the event tap skips it instead of
    /// translating it again.
    pub open spec fn marked(self) -> bool {
        self is Mouse || self is PixelScroll
    }

    /// Whether the event is marked as synthesized.
    pub fn is_marked(&self) -> (marked: bool)
        ensures
            marked == self.marked(),
    {
        match self {
            Post::Mouse { .. } | Post::PixelScroll { .. } => true,
            _ => false,
        }
    }
}

impl DockNotification {
    /// The notification's name.
    pub open spec fn name_text(self) -> Seq<char> {
        match self {
            DockNotification::MissionControl => "com.apple.expose.awake"@,
            DockNotification::AppExpose => "com.apple.expose.front.awake"@,
            DockNotification::ShowDesktop => "com.apple.showdesktop.awake"@,
            DockNotification::Launchpad => "com.apple.launchpad.toggle"@,
        }
    }

    /// The notification's name.
    pub fn name(self) -> (name: &'static str)
        ensures
            name@ == self.name_text(),
    {
        match self {
            DockNotification::MissionControl => "com.apple.expose.awake",
            DockNotification::AppExpose => "com.apple.expose.front.awake",
            DockNotification::ShowDesktop => "com.apple.showdesktop.awake",
            DockNotification::Launchpad => "com.apple.launchpad.toggle",
        }
    }
}

/// Appends a post.
fn append(posts: &mut Vec<Post<String>>, post: Post<String>)
    ensures
        post_views(final(posts)@) == post_views(old(posts)@).push(post@),
{
    posts.push(post);
    proof {
        assert(post_views(posts@) =~= post_views(old(posts)@).push(post@));
    }
}

/// Appends a mouse click.
fn append_mouse(posts: &mut Vec<Post<String>>, carrier: CarrierButton, number: Option<i64>)
    ensures
        post_views(final(posts)@) == post_views(old(posts)@) + mouse_posts(carrier, number),
{
    append(posts, Post::Mouse { carrier, number, phase: KeyPhase::Down });
    append(posts, Post::Mouse { carrier, number, phase: KeyPhase::Up });
    proof {
        assert(post_views(posts@) =~= post_views(old(posts)@) + mouse_posts(carrier, number));
    }
}

/// Appends a key press and release.
fn append_key(posts: &mut Vec<Post<String>>, key: u16, flags: EventFlags)
    ensures
        post_views(final(posts)@) == post_views(old(posts)@) + key_posts(key, flags),
{
    append(posts, Post::Key(KeyEdge { key, flags, phase: KeyPhase::Down }));
    append(posts, Post::Key(KeyEdge { key, flags, phase: KeyPhase::Up }));
    proof {
        assert(post_views(posts@) =~= post_views(old(posts)@) + key_posts(key, flags));
    }
}

/// Appends a chord.
fn append_chord(posts: &mut Vec<Post<String>>, combo: &KeyCombo)
    ensures
        post_views(final(posts)@) == post_views(old(posts)@) + chord_posts(combo@),
{
    match hid_usage_to_macos(combo.key().code()) {
        Some(key) => append_key(posts, key, combo_flags(combo)),
        None => {
            proof {
                assert(post_views(old(posts)@) + chord_posts(combo@) =~= post_views(old(posts)@));
            }
        },
    }
}

/// Appends a text.
fn append_text(posts: &mut Vec<Post<String>>, text: &str)
    ensures
        post_views(final(posts)@) == post_views(old(posts)@) + text_posts(text@),
{
    let count: usize = text.unicode_len();
    let ghost before = post_views(posts@);
    let mut i: usize = 0;
    proof {
        assert(before + text_posts(text@).take(0) =~= before);
    }
    while i < count
        invariant
            i <= count,
            count == text@.len(),
            before == post_views(old(posts)@),
            post_views(posts@) == before + text_posts(text@).take(i as int),
        decreases count - i,
    {
        let mut character: String = String::new();
        character.append(text.substring_char(i, i + 1));
        proof {
            assert(character@ =~= text@.subrange(i as int, i + 1));
        }
        append(posts, Post::Character(character));
        proof {
            assert(before + text_posts(text@).take(i + 1) =~= (before + text_posts(text@).take(
                i as int,
            )).push(text_posts(text@)[i as int]));
        }
        i = i + 1;
    }
    proof {
        assert(text_posts(text@).take(text@.len() as int) =~= text_posts(text@));
    }
}

/// Appends a media key.
fn append_media(posts: &mut Vec<Post<String>>, key: MediaKey)
    ensures
        post_views(final(posts)@) == post_views(old(posts)@) + media_posts(key),
{
    let key_type: i64 = nx_key(key);
    append(posts, Post::SystemKey { data1: key_type * 0x1_0000 + 0x0a00 });
    append(posts, Post::SystemKey { data1: key_type * 0x1_0000 + 0x0b00 });
    proof {
        assert(post_views(posts@) =~= post_views(old(posts)@) + media_posts(key));
    }
}

/// The system's key type of a media key.
pub fn nx_key(key: MediaKey) -> (key_type: i64)
    ensures
        key_type == media_key_type(key),
        0 <= key_type <= 18,
{
    match key {
        MediaKey::PlayPause => 16,
        MediaKey::NextTrack => 17,
        MediaKey::PrevTrack => 18,
        MediaKey::VolumeUp => 0,
        MediaKey::VolumeDown => 1,
        MediaKey::Mute => 7,
    }
}

/// The posts of a click.
pub fn dispatch_click(button: MouseButton) -> (posts: Vec<Post<String>>)
    ensures
        post_views(posts@) == click_posts(button),
{
    let mut posts: Vec<Post<String>> = Vec::new();
    match button {
        MouseButton::Left => append_mouse(&mut posts, CarrierButton::Left, None),
        MouseButton::Right => append_mouse(&mut posts, CarrierButton::Right, None),
        MouseButton::Middle => append_mouse(&mut posts, CarrierButton::Center, None),
        MouseButton::Back => append_mouse(&mut posts, CarrierButton::Center, Some(3)),
        MouseButton::Forward => append_mouse(&mut posts, CarrierButton::Center, Some(4)),
    }
    proof {
        assert(post_views(posts@) =~= click_posts(button));
    }
    posts
}

/// The posts of a window-manager or power action.
pub fn dispatch_native(native: NativeAction) -> (posts: Vec<Post<String>>)
    ensures
        post_views(posts@) == native_posts(native),
{
    let mut posts: Vec<Post<String>> = Vec::new();
    match native {
        NativeAction::MissionControl => append(
            &mut posts,
            Post::Dock(DockNotification::MissionControl),
        ),
        NativeAction::AppExpose => append(&mut posts, Post::Dock(DockNotification::AppExpose)),
        NativeAction::PreviousDesktop => append(
            &mut posts,
            Post::SymbolicHotkey { hotkey: 79 },
        ),
        NativeAction::NextDesktop => append(&mut posts, Post::SymbolicHotkey { hotkey: 81 }),
        NativeAction::ShowDesktop => append(&mut posts, Post::Dock(DockNotification::ShowDesktop)),
        NativeAction::LaunchpadShow => append(&mut posts, Post::Dock(DockNotification::Launchpad)),
        NativeAction::LockScreen => append_key(
            &mut posts,
            0x0c,
            EventFlags { shift: false, control: true, alternate: false, command: true },
        ),
        NativeAction::Screenshot => append_key(
            &mut posts,
            0x14,
            EventFlags { shift: true, control: false, alternate: false, command: true },
        ),
        NativeAction::CaptureRegion => append_key(
            &mut posts,
            0x15,
            EventFlags { shift: true, control: true, alternate: false, command: true },
        ),
        NativeAction::Sleep => append(&mut posts, Post::SleepNow),
    }
    proof {
        assert(post_views(posts@) =~= native_posts(native));
    }
    posts
}

/// The posts of a workflow, in order.
pub fn run_workflow(steps: &[WorkflowStep<String>]) -> (posts: Vec<Post<String>>)
    ensures
        post_views(posts@) == workflow_posts(step_views(steps@)),
{
    let mut posts: Vec<Post<String>> = Vec::new();
    let ghost views = step_views(steps@);
    let mut i: usize = 0;
    proof {
        assert(post_views(posts@) =~= workflow_posts(views.take(0)));
    }
    while i < steps.len()
        invariant
            i <= steps.len(),
            views == step_views(steps@),
            post_views(posts@) == workflow_posts(views.take(i as int)),
        decreases steps.len() - i,
    {
        let ghost before = post_views(posts@);
        match &steps[i] {
            WorkflowStep::TypeText(text) => append_text(&mut posts, text.as_str()),
            WorkflowStep::PressKey(combo) => append_chord(&mut posts, combo),
            WorkflowStep::Delay { millis } => append(&mut posts, Post::Wait { millis: *millis }),
            WorkflowStep::RunAppleScript(source) => append(
                &mut posts,
                Post::AppleScript(source.clone()),
            ),
            WorkflowStep::RunShellCommand(command) => append(
                &mut posts,
                Post::ShellCommand(command.clone()),
            ),
        }
        proof {
            assert(views.take(i + 1).drop_last() =~= views.take(i as int));
            assert(views.take(i + 1).last() == steps@[i as int]@);
            assert(post_views(posts@) =~= before + step_posts(steps@[i as int]@));
        }
        i = i + 1;
    }
    proof {
        assert(views.take(views.len() as int) =~= views);
    }
    posts
}

/// What an effect posts, and where.
pub fn execute(effect: &Effect<String>) -> (injection: Injection)
    ensures
        post_views(injection.posts@) == effect_posts(*effect),
        injection.detached == (effect is Script),
{
    let mut posts: Vec<Post<String>> = Vec::new();
    proof {
        assert(post_views(posts@) =~= Seq::empty());
    }
    let mut detached: bool = false;
    match effect {
        Effect::Nothing | Effect::AgentSide => {},
        Effect::Click(button) => posts = dispatch_click(*button),
        Effect::Shortcut(shortcut) => append_chord(&mut posts, &combo(*shortcut)),
        Effect::Key(combo) => append_chord(&mut posts, combo),
        Effect::HeldKey(combo) => append_chord(&mut posts, combo),
        Effect::Scroll { dx, dy } => append(
            &mut posts,
            Post::PixelScroll { vertical: *dy as i32 * 3, horizontal: *dx as i32 * 3 },
        ),
        Effect::Media(key) => append_media(&mut posts, *key),
        Effect::Native(native) => posts = dispatch_native(*native),
        Effect::Script(script) => {
            detached = true;
            match script {
                Script::AppleScript(source) => append(
                    &mut posts,
                    Post::AppleScript(source.clone()),
                ),
                Script::ShellCommand(command) => append(
                    &mut posts,
                    Post::ShellCommand(command.clone()),
                ),
                Script::Workflow(steps) => posts = run_workflow(steps.as_slice()),
            }
        },
        Effect::Text(text) => append_text(&mut posts, text.as_str()),
    }
    proof {
        assert(post_views(posts@) =~= effect_posts(*effect));
    }
    Injection { detached, posts }
}

/// Every shortcut presses and releases its chord.
pub proof fn law_shortcuts_press_and_release(shortcut: Shortcut)
    ensures
        ({
            let posts = effect_posts(Effect::Shortcut(shortcut));
            let key = crate::inject::keys::virtual_key(shortcut.chord().usage)->0;
            let flags = EventFlags::of_chord(shortcut.chord());
            &&& posts.len() == 2
            &&& posts[0] == Post::<Seq<char>>::Key(KeyEdge { key, flags, phase: KeyPhase::Down })
            &&& posts[1] == Post::<Seq<char>>::Key(KeyEdge { key, flags, phase: KeyPhase::Up })
        }),
{
    crate::inject::shortcut::law_shortcuts_can_be_pressed(shortcut);
}

/// Running two workflows one after the other posts what running their steps as one would.
pub proof fn law_workflows_concatenate(
    first: Seq<WorkflowStep<Seq<char>>>,
    second: Seq<WorkflowStep<Seq<char>>>,
)
    ensures
        workflow_posts(first + second) == workflow_posts(first) + workflow_posts(second),
    decreases second.len(),
{
    if second.len() == 0 {
        assert(first + second =~= first);
        assert(workflow_posts(first) + workflow_posts(second) =~= workflow_posts(first));
    } else {
        law_workflows_concatenate(first, second.drop_last());
        assert((first + second).drop_last() =~= first + second.drop_last());
        assert((first + second).last() == second.last());
        assert(workflow_posts(first + second) =~= workflow_posts(first) + workflow_posts(second));
    }
}

/// Two media keys never share an event, and a press is never taken for a release.
pub proof fn law_media_events_are_distinct(a: MediaKey, b: MediaKey)
    ensures
        media_posts(a)[0] != media_posts(b)[1],
        media_posts(a)[0] == media_posts(b)[0] ==> a == b,
        media_posts(a)[1] == media_posts(b)[1] ==> a == b,
{
}

} // verus!
