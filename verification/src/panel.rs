//! The touchpad settings: the rows of the gesture list, and the scroll-speed slider.
use vstd::prelude::*;
use vstd::string::StringExecFns;

use crate::binding::{Action, ButtonId};
use crate::defaults::default_binding;
use crate::plan::TouchpadScrollSensitivity;
use crate::table::Table;
use crate::touchpad::gesture::TouchpadGestureId;

verus! {

/// A row of the gesture list.
#[derive(Clone, Copy, Debug, PartialEq, Eq, Structural)]
pub struct GestureRow {
    pub trigger: ButtonId,
    pub action: Action,
    /// Whether a line divides the row from the one above.
    pub divided: bool,
}

/// The action shown for a trigger: the bound one, or else the default.
pub open spec fn shown_action(bindings: Map<ButtonId, Action>, trigger: ButtonId) -> Action {
    if bindings.dom().contains(trigger) {
        bindings[trigger]
    } else {
        crate::defaults::default_action(trigger)
    }
}

/// The rows of a group of triggers, in order.
pub open spec fn rows_of(bindings: Map<ButtonId, Action>, triggers: Seq<ButtonId>) -> Seq<
    GestureRow,
> {
    Seq::new(
        triggers.len(),
        |i: int|
            GestureRow {
                trigger: triggers[i],
                action: shown_action(bindings, triggers[i]),
                divided: i > 0,
            },
    )
}

/// What a gesture is called within its group.
pub open spec fn gesture_name(gesture: TouchpadGestureId) -> Seq<char> {
    match gesture {
        TouchpadGestureId::TwoFingerTap => "Tap"@,
        TouchpadGestureId::ThreeFingerTap => "Tap"@,
        TouchpadGestureId::FourFingerTap => "Tap"@,
        TouchpadGestureId::TwoFingerPinchIn => "Pinch In"@,
        TouchpadGestureId::FourFingerPinchIn => "Pinch In"@,
        TouchpadGestureId::TwoFingerPinchOut => "Pinch Out"@,
        TouchpadGestureId::FourFingerPinchOut => "Pinch Out"@,
        TouchpadGestureId::ThreeFingerSwipeUp => "Swipe Up"@,
        TouchpadGestureId::FourFingerSwipeUp => "Swipe Up"@,
        TouchpadGestureId::ThreeFingerSwipeDown => "Swipe Down"@,
        TouchpadGestureId::FourFingerSwipeDown => "Swipe Down"@,
        TouchpadGestureId::ThreeFingerSwipeLeft => "Swipe Left"@,
        TouchpadGestureId::FourFingerSwipeLeft => "Swipe Left"@,
        TouchpadGestureId::ThreeFingerSwipeRight => "Swipe Right"@,
        TouchpadGestureId::FourFingerSwipeRight => "Swipe Right"@,
    }
}

/// What the gesture of a trigger is called within its group.
pub fn gesture_label(trigger: ButtonId) -> (label: &'static str)
    requires
        TouchpadGestureId::bound_under(trigger) is Some,
    ensures
        label@ == gesture_name(TouchpadGestureId::bound_under(trigger)->0),
{
    match trigger {
        ButtonId::TouchpadTwoFingerTap
        | ButtonId::TouchpadThreeFingerTap
        | ButtonId::TouchpadFourFingerTap => "Tap",
        ButtonId::TouchpadTwoFingerPinchIn | ButtonId::TouchpadFourFingerPinchIn => "Pinch In",
        ButtonId::TouchpadTwoFingerPinchOut | ButtonId::TouchpadFourFingerPinchOut => "Pinch Out",
        ButtonId::TouchpadThreeFingerSwipeUp | ButtonId::TouchpadFourFingerSwipeUp => "Swipe Up",
        ButtonId::TouchpadThreeFingerSwipeDown
        | ButtonId::TouchpadFourFingerSwipeDown => "Swipe Down",
        ButtonId::TouchpadThreeFingerSwipeLeft
        | ButtonId::TouchpadFourFingerSwipeLeft => "Swipe Left",
        _ => "Swipe Right",
    }
}

/// What a trigger is called in the identities of its widgets.
pub open spec fn trigger_name(gesture: TouchpadGestureId) -> Seq<char> {
    match gesture {
        TouchpadGestureId::TwoFingerTap => "TouchpadTwoFingerTap"@,
        TouchpadGestureId::ThreeFingerTap => "TouchpadThreeFingerTap"@,
        TouchpadGestureId::FourFingerTap => "TouchpadFourFingerTap"@,
        TouchpadGestureId::TwoFingerPinchIn => "TouchpadTwoFingerPinchIn"@,
        TouchpadGestureId::FourFingerPinchIn => "TouchpadFourFingerPinchIn"@,
        TouchpadGestureId::TwoFingerPinchOut => "TouchpadTwoFingerPinchOut"@,
        TouchpadGestureId::FourFingerPinchOut => "TouchpadFourFingerPinchOut"@,
        TouchpadGestureId::ThreeFingerSwipeUp => "TouchpadThreeFingerSwipeUp"@,
        TouchpadGestureId::FourFingerSwipeUp => "TouchpadFourFingerSwipeUp"@,
        TouchpadGestureId::ThreeFingerSwipeDown => "TouchpadThreeFingerSwipeDown"@,
        TouchpadGestureId::FourFingerSwipeDown => "TouchpadFourFingerSwipeDown"@,
        TouchpadGestureId::ThreeFingerSwipeLeft => "TouchpadThreeFingerSwipeLeft"@,
        TouchpadGestureId::FourFingerSwipeLeft => "TouchpadFourFingerSwipeLeft"@,
        TouchpadGestureId::ThreeFingerSwipeRight => "TouchpadThreeFingerSwipeRight"@,
        TouchpadGestureId::FourFingerSwipeRight => "TouchpadFourFingerSwipeRight"@,
    }
}

/// Identity of the popover that picks a gesture's action.
pub open spec fn popover_identity(gesture: TouchpadGestureId) -> Seq<char> {
    "touchpad-action-"@ + trigger_name(gesture)
}

/// Identity of the button that opens the popover.
pub open spec fn button_identity(gesture: TouchpadGestureId) -> Seq<char> {
    popover_identity(gesture) + "-trigger"@
}

/// Identity of the list of actions in the popover.
pub open spec fn list_identity(gesture: TouchpadGestureId) -> Seq<char> {
    "touchpad-action-list-"@ + trigger_name(gesture)
}

/// Identities of the widgets that pick an action.
#[derive(Debug, PartialEq)]
pub struct ActionPicker {
    pub popover: String,
    pub button: String,
    pub list: String,
}

/// What a trigger is called in the identities of its widgets.
fn trigger_text(trigger: ButtonId) -> (name: &'static str)
    requires
        TouchpadGestureId::bound_under(trigger) is Some,
    ensures
        name@ == trigger_name(TouchpadGestureId::bound_under(trigger)->0),
{
    match trigger {
        ButtonId::TouchpadTwoFingerTap => "TouchpadTwoFingerTap",
        ButtonId::TouchpadThreeFingerTap => "TouchpadThreeFingerTap",
        ButtonId::TouchpadFourFingerTap => "TouchpadFourFingerTap",
        ButtonId::TouchpadTwoFingerPinchIn => "TouchpadTwoFingerPinchIn",
        ButtonId::TouchpadFourFingerPinchIn => "TouchpadFourFingerPinchIn",
        ButtonId::TouchpadTwoFingerPinchOut => "TouchpadTwoFingerPinchOut",
        ButtonId::TouchpadFourFingerPinchOut => "TouchpadFourFingerPinchOut",
        ButtonId::TouchpadThreeFingerSwipeUp => "TouchpadThreeFingerSwipeUp",
        ButtonId::TouchpadFourFingerSwipeUp => "TouchpadFourFingerSwipeUp",
        ButtonId::TouchpadThreeFingerSwipeDown => "TouchpadThreeFingerSwipeDown",
        ButtonId::TouchpadFourFingerSwipeDown => "TouchpadFourFingerSwipeDown",
        ButtonId::TouchpadThreeFingerSwipeLeft => "TouchpadThreeFingerSwipeLeft",
        ButtonId::TouchpadFourFingerSwipeLeft => "TouchpadFourFingerSwipeLeft",
        ButtonId::TouchpadThreeFingerSwipeRight => "TouchpadThreeFingerSwipeRight",
        _ => "TouchpadFourFingerSwipeRight",
    }
}

/// The widgets that pick the action of a trigger.
pub fn action_picker(trigger: ButtonId) -> (picker: ActionPicker)
    requires
        TouchpadGestureId::bound_under(trigger) is Some,
    ensures
        ({
            let gesture = TouchpadGestureId::bound_under(trigger)->0;
            &&& picker.popover@ == popover_identity(gesture)
            &&& picker.button@ == button_identity(gesture)
            &&& picker.list@ == list_identity(gesture)
        }),
{
    let name: &'static str = trigger_text(trigger);
    let mut popover: String = String::from_str("touchpad-action-");
    popover.append(name);
    let mut button: String = String::from_str(popover.as_str());
    button.append("-trigger");
    let mut list: String = String::from_str("touchpad-action-list-");
    list.append(name);
    ActionPicker { popover, button, list }
}

/// The rows of a group of triggers.
pub fn gesture_group(triggers: &[ButtonId], bindings: &Table<ButtonId, Action>) -> (rows: Vec<
    GestureRow,
>)
    ensures
        rows@ == rows_of(bindings@, triggers@),
{
    let mut rows: Vec<GestureRow> = Vec::new();
    let mut i: usize = 0;
    while i < triggers.len()
        invariant
            i <= triggers.len(),
            rows@ == rows_of(bindings@, triggers@).take(i as int),
        decreases triggers.len() - i,
    {
        let trigger: ButtonId = triggers[i];
        let action: Action = match bindings.get(&trigger) {
            Some(action) => *action,
            None => default_binding(trigger),
        };
        rows.push(GestureRow { trigger, action, divided: i > 0 });
        proof {
            assert(rows@ =~= rows_of(bindings@, triggers@).take(i + 1));
        }
        i = i + 1;
    }
    proof {
        assert(rows@ =~= rows_of(bindings@, triggers@));
    }
    rows
}

/// A titled group of gestures.
#[derive(Debug, PartialEq)]
pub struct GestureGroup {
    pub title: &'static str,
    pub rows: Vec<GestureRow>,
}

impl GestureGroup {
    /// Whether the group shows triggers with their actions under a title.
    pub open spec fn shows(
        self,
        title: Seq<char>,
        bindings: Map<ButtonId, Action>,
        triggers: Seq<ButtonId>,
    ) -> bool {
        self.title@ == title && self.rows@ == rows_of(bindings, triggers)
    }
}

/// The gesture list.
#[derive(Debug, PartialEq)]
pub struct GesturePanel {
    /// Whether gestures are managed.
    pub enabled: bool,
    /// Label of the switch for that.
    pub switch: &'static str,
    pub two_finger: GestureGroup,
    pub three_finger: GestureGroup,
    pub four_finger: GestureGroup,
}

impl GesturePanel {
    /// Whether the list shows a configuration.
    pub open spec fn shows(self, enabled: bool, bindings: Map<ButtonId, Action>) -> bool {
        &&& self.enabled == enabled
        &&& self.switch@ == if enabled {
            "On"@
        } else {
            "Off"@
        }
        &&& self.two_finger.shows(
            "2-finger gestures"@,
            bindings,
            ButtonId::TOUCHPAD_TWO_FINGER@,
        )
        &&& self.three_finger.shows(
            "3-finger gestures"@,
            bindings,
            ButtonId::TOUCHPAD_THREE_FINGER@,
        )
        &&& self.four_finger.shows(
            "4-finger gestures"@,
            bindings,
            ButtonId::TOUCHPAD_FOUR_FINGER@,
        )
    }
}

/// The gesture list for whether gestures are managed and the bound actions. Before the state is
/// there, gestures count as not managed and every action as the default.
pub fn gesture_panel(state: Option<(bool, &Table<ButtonId, Action>)>) -> (panel: GesturePanel)
    ensures
        match state {
            Some((enabled, bindings)) => panel.shows(enabled, bindings@),
            None => panel.shows(false, Map::empty()),
        },
{
    let none: Table<ButtonId, Action> = Table::new();
    let (enabled, bindings): (bool, &Table<ButtonId, Action>) = match state {
        Some((enabled, bindings)) => (enabled, bindings),
        None => (false, &none),
    };
    GesturePanel {
        enabled,
        switch: if enabled {
            "On"
        } else {
            "Off"
        },
        two_finger: GestureGroup {
            title: "2-finger gestures",
            rows: gesture_group(&ButtonId::TOUCHPAD_TWO_FINGER, bindings),
        },
        three_finger: GestureGroup {
            title: "3-finger gestures",
            rows: gesture_group(&ButtonId::TOUCHPAD_THREE_FINGER, bindings),
        },
        four_finger: GestureGroup {
            title: "4-finger gestures",
            rows: gesture_group(&ButtonId::TOUCHPAD_FOUR_FINGER, bindings),
        },
    }
}

/// A change of the application's state.
#[derive(Debug, PartialEq)]
pub enum StateEvent {
    InventoryChanged,
    DeviceSelected,
    /// The configuration of the device with a key changed.
    DeviceConfigChanged(String),
    Other,
}

/// Whether a change concerns the slider of the selected device.
pub open spec fn concerns(event: StateEvent, selected: Option<Seq<char>>) -> bool {
    match event {
        StateEvent::InventoryChanged => true,
        StateEvent::DeviceSelected => true,
        StateEvent::DeviceConfigChanged(key) => selected == Some(key@),
        StateEvent::Other => false,
    }
}

/// An input of the slider.
#[derive(Clone, Copy, Debug, PartialEq, Eq, Structural)]
pub enum SliderInput {
    /// The thumb moved.
    Change,
    /// The thumb was let go at a sensitivity.
    Release { value: TouchpadScrollSensitivity },
}

/// What to do with the slider before showing it.
#[derive(Clone, Copy, Debug, PartialEq, Eq, Structural)]
pub enum SliderStep {
    /// Leave it as it is.
    Keep,
    /// Move the thumb.
    Reseat { value: TouchpadScrollSensitivity },
    /// Make a new one.
    Create { value: TouchpadScrollSensitivity },
}

/// Two-finger scroll speed, as a slider per device.
#[derive(Debug)]
pub struct TouchpadScrollPanel {
    slider_key: Option<String>,
    dragging: bool,
}

/// Where the panel stands.
#[verifier::ext_equal]
pub struct PanelModel {
    /// The device the slider was made for.
    pub slider_key: Option<Seq<char>>,
    /// Whether the thumb is being dragged. It then shows a value that the configuration only takes
    /// over when it is let go.
    pub dragging: bool,
}

impl PanelModel {
    /// What to do with the slider for a device and its sensitivity, given where the thumb of the
    /// slider rests, if there is a slider.
    pub open spec fn step(
        self,
        key: Seq<char>,
        sensitivity: TouchpadScrollSensitivity,
        thumb: Option<TouchpadScrollSensitivity>,
    ) -> SliderStep {
        if self.slider_key != Some(key) || thumb is None {
            SliderStep::Create { value: sensitivity }
        } else if !self.dragging && thumb != Some(sensitivity) {
            SliderStep::Reseat { value: sensitivity }
        } else {
            SliderStep::Keep
        }
    }
}

impl View for TouchpadScrollPanel {
    type V = PanelModel;

    closed spec fn view(&self) -> PanelModel {
        PanelModel {
            slider_key: match self.slider_key {
                Some(key) => Some(key@),
                None => None,
            },
            dragging: self.dragging,
        }
    }
}

impl TouchpadScrollPanel {
    /// A panel without a slider.
    pub fn new() -> (panel: Self)
        ensures
            panel@ == (PanelModel { slider_key: None, dragging: false }),
    {
        TouchpadScrollPanel { slider_key: None, dragging: false }
    }

    /// Whether a change concerns the panel.
    pub fn is_relevant(event: &StateEvent, selected: Option<&String>) -> (relevant: bool)
        ensures
            relevant == concerns(
                *event,
                match selected {
                    Some(key) => Some(key@),
                    None => None,
                },
            ),
    {
        match event {
            StateEvent::InventoryChanged | StateEvent::DeviceSelected => true,
            StateEvent::DeviceConfigChanged(key) => match selected {
                Some(selected) => *selected == *key,
                None => false,
            },
            StateEvent::Other => false,
        }
    }

    /// What to do with the slider before showing it: a slider of another device is made anew, and
    /// one whose thumb rests elsewhere than the configuration is moved, but never during a drag.
    pub fn ensure_slider(
        &mut self,
        key: &str,
        sensitivity: TouchpadScrollSensitivity,
        thumb: Option<TouchpadScrollSensitivity>,
    ) -> (step: SliderStep)
        ensures
            step == old(self)@.step(key@, sensitivity, thumb),
            final(self)@ == (PanelModel { slider_key: Some(key@), ..old(self)@ }),
    {
        let wanted: String = String::from_str(key);
        let same: bool = match &self.slider_key {
            Some(current) => *current == wanted,
            None => false,
        };
        if same {
            if let Some(thumb) = thumb {
                if !self.dragging && thumb != sensitivity {
                    return SliderStep::Reseat { value: sensitivity };
                }
                return SliderStep::Keep;
            }
        }
        self.slider_key = Some(wanted);
        SliderStep::Create { value: sensitivity }
    }

    /// What to show: no slider unless a device is selected that scrolls by touch, and otherwise its
    /// slider, brought up to date.
    pub fn render(
        &mut self,
        supported: bool,
        selected: Option<&str>,
        sensitivity: TouchpadScrollSensitivity,
        thumb: Option<TouchpadScrollSensitivity>,
    ) -> (step: Option<SliderStep>)
        ensures
            step is Some <==> supported && selected is Some,
            step is None ==> final(self)@ == old(self)@,
            step matches Some(step) ==> {
                &&& step == old(self)@.step(selected->0@, sensitivity, thumb)
                &&& final(self)@ == (PanelModel { slider_key: Some(selected->0@), ..old(self)@ })
            },
    {
        if !supported {
            return None;
        }
        match selected {
            Some(key) => Some(self.ensure_slider(key, sensitivity, thumb)),
            None => None,
        }
    }

    /// Takes an input of the slider; the sensitivity to commit, once the thumb is let go.
    pub fn slider_input(&mut self, input: SliderInput) -> (commit: Option<
        TouchpadScrollSensitivity,
    >)
        ensures
            final(self)@ == (PanelModel { dragging: input is Change, ..old(self)@ }),
            commit == (match input {
                SliderInput::Change => None,
                SliderInput::Release { value } => Some(value),
            }),
    {
        match input {
            SliderInput::Change => {
                self.dragging = true;
                None
            },
            SliderInput::Release { value } => {
                self.dragging = false;
                Some(value)
            },
        }
    }
}

/// The thumb is never moved under the user's finger: during a drag the slider of a device is left
/// as it is.
pub proof fn law_drag_keeps_the_thumb(
    panel: PanelModel,
    key: Seq<char>,
    sensitivity: TouchpadScrollSensitivity,
    thumb: TouchpadScrollSensitivity,
)
    requires
        panel.dragging,
        panel.slider_key == Some(key),
    ensures
        panel.step(key, sensitivity, Some(thumb)) == SliderStep::Keep,
{
}

/// Once the thumb rests on the configured sensitivity, showing the panel again changes nothing.
pub proof fn law_settled_slider_is_kept(
    panel: PanelModel,
    key: Seq<char>,
    sensitivity: TouchpadScrollSensitivity,
)
    ensures
        (PanelModel { slider_key: Some(key), ..panel }).step(key, sensitivity, Some(sensitivity))
            == SliderStep::Keep,
{
}

/// Three features of a trigger's name tell it from every other: how it goes on after the word
/// that all share, how long it is and how it ends.
proof fn lemma_trigger_name_features(gesture: TouchpadGestureId)
    ensures
        ({
            let name = trigger_name(gesture);
            &&& name.len() > 12
            &&& name[0] == 'T'
            &&& name.last() == 'p' || name.last() == 'n' || name.last() == 't'
            &&& (name[9], name.len(), name.last()) == (match gesture {
                TouchpadGestureId::TwoFingerTap => ('w', 20nat, 'p'),
                TouchpadGestureId::ThreeFingerTap => ('h', 22nat, 'p'),
                TouchpadGestureId::FourFingerTap => ('o', 21nat, 'p'),
                TouchpadGestureId::TwoFingerPinchIn => ('w', 24nat, 'n'),
                TouchpadGestureId::FourFingerPinchIn => ('o', 25nat, 'n'),
                TouchpadGestureId::TwoFingerPinchOut => ('w', 25nat, 't'),
                TouchpadGestureId::FourFingerPinchOut => ('o', 26nat, 't'),
                TouchpadGestureId::ThreeFingerSwipeUp => ('h', 26nat, 'p'),
                TouchpadGestureId::FourFingerSwipeUp => ('o', 25nat, 'p'),
                TouchpadGestureId::ThreeFingerSwipeDown => ('h', 28nat, 'n'),
                TouchpadGestureId::FourFingerSwipeDown => ('o', 27nat, 'n'),
                TouchpadGestureId::ThreeFingerSwipeLeft => ('h', 28nat, 't'),
                TouchpadGestureId::FourFingerSwipeLeft => ('o', 27nat, 't'),
                TouchpadGestureId::ThreeFingerSwipeRight => ('h', 29nat, 't'),
                TouchpadGestureId::FourFingerSwipeRight => ('o', 28nat, 't'),
            })
        }),
{
    reveal_strlit("TouchpadTwoFingerTap");
    reveal_strlit("TouchpadThreeFingerTap");
    reveal_strlit("TouchpadFourFingerTap");
    reveal_strlit("TouchpadTwoFingerPinchIn");
    reveal_strlit("TouchpadFourFingerPinchIn");
    reveal_strlit("TouchpadTwoFingerPinchOut");
    reveal_strlit("TouchpadFourFingerPinchOut");
    reveal_strlit("TouchpadThreeFingerSwipeUp");
    reveal_strlit("TouchpadFourFingerSwipeUp");
    reveal_strlit("TouchpadThreeFingerSwipeDown");
    reveal_strlit("TouchpadFourFingerSwipeDown");
    reveal_strlit("TouchpadThreeFingerSwipeLeft");
    reveal_strlit("TouchpadFourFingerSwipeLeft");
    reveal_strlit("TouchpadThreeFingerSwipeRight");
    reveal_strlit("TouchpadFourFingerSwipeRight");
}

/// No two widgets of the gesture list share an identity, neither of one gesture nor of two.
pub proof fn law_picker_identities_are_distinct(a: TouchpadGestureId, b: TouchpadGestureId)
    ensures
        popover_identity(a) == popover_identity(b) ==> a == b,
        button_identity(a) == button_identity(b) ==> a == b,
        list_identity(a) == list_identity(b) ==> a == b,
        popover_identity(a) != button_identity(b),
        popover_identity(a) != list_identity(b),
        button_identity(a) != list_identity(b),
{
    lemma_trigger_name_features(a);
    lemma_trigger_name_features(b);
    reveal_strlit("touchpad-action-");
    reveal_strlit("touchpad-action-list-");
    reveal_strlit("-trigger");
    assert(popover_identity(a)[16] == 'T');
    assert(button_identity(a)[16] == 'T');
    assert(list_identity(b)[16] == 'l');
    assert(popover_identity(a)[25] == trigger_name(a)[9]);
    assert(popover_identity(b)[25] == trigger_name(b)[9]);
    assert(button_identity(a)[25] == trigger_name(a)[9]);
    assert(button_identity(b)[25] == trigger_name(b)[9]);
    assert(list_identity(a)[30] == trigger_name(a)[9]);
    assert(list_identity(b)[30] == trigger_name(b)[9]);
    assert(popover_identity(a).last() == trigger_name(a).last());
    assert(popover_identity(b).last() == trigger_name(b).last());
    assert(list_identity(a).last() == trigger_name(a).last());
    assert(list_identity(b).last() == trigger_name(b).last());
    assert(button_identity(b).last() == 'r');
    assert(button_identity(a)[popover_identity(a).len() - 1] == trigger_name(a).last());
    assert(button_identity(b)[popover_identity(b).len() - 1] == trigger_name(b).last());
}

/// Every touchpad gesture is listed in exactly one of the three groups.
pub proof fn law_groups_list_every_gesture(gesture: TouchpadGestureId)
    ensures
        ({
            let trigger = gesture.trigger_of();
            let two = ButtonId::TOUCHPAD_TWO_FINGER@.contains(trigger);
            let three = ButtonId::TOUCHPAD_THREE_FINGER@.contains(trigger);
            let four = ButtonId::TOUCHPAD_FOUR_FINGER@.contains(trigger);
            &&& two || three || four
            &&& !(two && three)
            &&& !(two && four)
            &&& !(three && four)
        }),
{
    let two = ButtonId::TOUCHPAD_TWO_FINGER@;
    let three = ButtonId::TOUCHPAD_THREE_FINGER@;
    let four = ButtonId::TOUCHPAD_FOUR_FINGER@;
    assert(two[0] is TouchpadTwoFingerTap);
    assert(two[1] is TouchpadTwoFingerPinchOut);
    assert(two[2] is TouchpadTwoFingerPinchIn);
    assert(three[0] is TouchpadThreeFingerTap);
    assert(three[1] is TouchpadThreeFingerSwipeUp);
    assert(three[2] is TouchpadThreeFingerSwipeDown);
    assert(three[3] is TouchpadThreeFingerSwipeLeft);
    assert(three[4] is TouchpadThreeFingerSwipeRight);
    assert(four[0] is TouchpadFourFingerTap);
    assert(four[1] is TouchpadFourFingerSwipeUp);
    assert(four[2] is TouchpadFourFingerSwipeDown);
    assert(four[3] is TouchpadFourFingerSwipeLeft);
    assert(four[4] is TouchpadFourFingerSwipeRight);
    assert(four[5] is TouchpadFourFingerPinchOut);
    assert(four[6] is TouchpadFourFingerPinchIn);
    let trigger = gesture.trigger_of();
    assert(two.contains(trigger) <==> two[0] == trigger || two[1] == trigger || two[2] == trigger);
    assert(three.contains(trigger) <==> three[0] == trigger || three[1] == trigger || three[2]
        == trigger || three[3] == trigger || three[4] == trigger);
    assert(four.contains(trigger) <==> four[0] == trigger || four[1] == trigger || four[2]
        == trigger || four[3] == trigger || four[4] == trigger || four[5] == trigger || four[6]
        == trigger);
}

/// Within its group a gesture is called by what the fingers do.
pub proof fn law_gestures_are_called_by_their_motion(gesture: TouchpadGestureId)
    ensures
        gesture is TwoFingerTap ==> gesture_name(gesture) == "Tap"@,
        gesture is ThreeFingerTap ==> gesture_name(gesture) == "Tap"@,
        gesture is FourFingerTap ==> gesture_name(gesture) == "Tap"@,
        gesture is TwoFingerPinchIn ==> gesture_name(gesture) == "Pinch In"@,
        gesture is FourFingerPinchIn ==> gesture_name(gesture) == "Pinch In"@,
        gesture is TwoFingerPinchOut ==> gesture_name(gesture) == "Pinch Out"@,
        gesture is FourFingerPinchOut ==> gesture_name(gesture) == "Pinch Out"@,
        gesture is ThreeFingerSwipeUp ==> gesture_name(gesture) == "Swipe Up"@,
        gesture is FourFingerSwipeUp ==> gesture_name(gesture) == "Swipe Up"@,
        gesture is ThreeFingerSwipeDown ==> gesture_name(gesture) == "Swipe Down"@,
        gesture is FourFingerSwipeDown ==> gesture_name(gesture) == "Swipe Down"@,
        gesture is ThreeFingerSwipeLeft ==> gesture_name(gesture) == "Swipe Left"@,
        gesture is FourFingerSwipeLeft ==> gesture_name(gesture) == "Swipe Left"@,
        gesture is ThreeFingerSwipeRight ==> gesture_name(gesture) == "Swipe Right"@,
        gesture is FourFingerSwipeRight ==> gesture_name(gesture) == "Swipe Right"@,
{
}

/// The identities of a gesture's widgets hold the name of its trigger: the popover's after
/// `touchpad-action-`, the button's between that and `-trigger`, the list's after
/// `touchpad-action-list-`.
pub proof fn law_identities_hold_the_trigger(gesture: TouchpadGestureId)
    ensures
        gesture is TwoFingerTap ==> trigger_name(gesture) == "TouchpadTwoFingerTap"@,
        gesture is ThreeFingerTap ==> trigger_name(gesture) == "TouchpadThreeFingerTap"@,
        gesture is FourFingerTap ==> trigger_name(gesture) == "TouchpadFourFingerTap"@,
        gesture is TwoFingerPinchIn ==> trigger_name(gesture) == "TouchpadTwoFingerPinchIn"@,
        gesture is FourFingerPinchIn ==> trigger_name(gesture) == "TouchpadFourFingerPinchIn"@,
        gesture is TwoFingerPinchOut ==> trigger_name(gesture) == "TouchpadTwoFingerPinchOut"@,
        gesture is FourFingerPinchOut ==> trigger_name(gesture) == "TouchpadFourFingerPinchOut"@,
        gesture is ThreeFingerSwipeUp ==> trigger_name(gesture) == "TouchpadThreeFingerSwipeUp"@,
        gesture is FourFingerSwipeUp ==> trigger_name(gesture) == "TouchpadFourFingerSwipeUp"@,
        gesture is ThreeFingerSwipeDown ==> trigger_name(gesture) == "TouchpadThreeFingerSwipeDown"@,
        gesture is FourFingerSwipeDown ==> trigger_name(gesture) == "TouchpadFourFingerSwipeDown"@,
        gesture is ThreeFingerSwipeLeft ==> trigger_name(gesture) == "TouchpadThreeFingerSwipeLeft"@,
        gesture is FourFingerSwipeLeft ==> trigger_name(gesture) == "TouchpadFourFingerSwipeLeft"@,
        gesture is ThreeFingerSwipeRight ==> trigger_name(gesture) == "TouchpadThreeFingerSwipeRight"@,
        gesture is FourFingerSwipeRight ==> trigger_name(gesture) == "TouchpadFourFingerSwipeRight"@,
        popover_identity(gesture) == "touchpad-action-"@ + trigger_name(gesture),
        button_identity(gesture) == "touchpad-action-"@ + trigger_name(gesture) + "-trigger"@,
        list_identity(gesture) == "touchpad-action-list-"@ + trigger_name(gesture),
{
}

/// A row shows the trigger in its place, with the action bound to it or else its default, and every
/// row but the first has a line above it.
pub proof fn law_rows_show_their_triggers(
    bindings: Map<ButtonId, Action>,
    triggers: Seq<ButtonId>,
    i: int,
)
    requires
        0 <= i < triggers.len(),
    ensures
        ({
            let rows = rows_of(bindings, triggers);
            &&& rows.len() == triggers.len()
            &&& rows[i].trigger == triggers[i]
            &&& bindings.contains_key(triggers[i]) ==> rows[i].action == bindings[triggers[i]]
            &&& !bindings.contains_key(triggers[i]) ==> rows[i].action
                == crate::defaults::default_action(triggers[i])
            &&& rows[i].divided <==> i != 0
        }),
{
}

/// The list shows whether gestures are managed, by a switch that says so, and three groups under
/// their titles: tap and the two pinches for two fingers, tap and the four swipes for three, and
/// all of them for four, each in that order.
pub proof fn law_list_shows_its_groups(
    panel: GesturePanel,
    enabled: bool,
    bindings: Map<ButtonId, Action>,
)
    requires
        panel.shows(enabled, bindings),
    ensures
        panel.enabled == enabled,
        enabled ==> panel.switch@ == "On"@,
        !enabled ==> panel.switch@ == "Off"@,
        panel.two_finger.title@ == "2-finger gestures"@,
        panel.three_finger.title@ == "3-finger gestures"@,
        panel.four_finger.title@ == "4-finger gestures"@,
        panel.two_finger.rows@.len() == 3,
        panel.three_finger.rows@.len() == 5,
        panel.four_finger.rows@.len() == 7,
        panel.two_finger.rows@[0].trigger is TouchpadTwoFingerTap,
        panel.two_finger.rows@[1].trigger is TouchpadTwoFingerPinchOut,
        panel.two_finger.rows@[2].trigger is TouchpadTwoFingerPinchIn,
        panel.three_finger.rows@[0].trigger is TouchpadThreeFingerTap,
        panel.three_finger.rows@[1].trigger is TouchpadThreeFingerSwipeUp,
        panel.three_finger.rows@[2].trigger is TouchpadThreeFingerSwipeDown,
        panel.three_finger.rows@[3].trigger is TouchpadThreeFingerSwipeLeft,
        panel.three_finger.rows@[4].trigger is TouchpadThreeFingerSwipeRight,
        panel.four_finger.rows@[0].trigger is TouchpadFourFingerTap,
        panel.four_finger.rows@[1].trigger is TouchpadFourFingerSwipeUp,
        panel.four_finger.rows@[2].trigger is TouchpadFourFingerSwipeDown,
        panel.four_finger.rows@[3].trigger is TouchpadFourFingerSwipeLeft,
        panel.four_finger.rows@[4].trigger is TouchpadFourFingerSwipeRight,
        panel.four_finger.rows@[5].trigger is TouchpadFourFingerPinchOut,
        panel.four_finger.rows@[6].trigger is TouchpadFourFingerPinchIn,
        forall|i: int|
            0 <= i < 3 ==> (#[trigger] panel.two_finger.rows@[i]).action == shown_action(
                bindings,
                panel.two_finger.rows@[i].trigger,
            ),
        forall|i: int|
            0 <= i < 5 ==> (#[trigger] panel.three_finger.rows@[i]).action == shown_action(
                bindings,
                panel.three_finger.rows@[i].trigger,
            ),
        forall|i: int|
            0 <= i < 7 ==> (#[trigger] panel.four_finger.rows@[i]).action == shown_action(
                bindings,
                panel.four_finger.rows@[i].trigger,
            ),
{
}

/// A change of the inventory or of the selection concerns the slider; a change of a device's
/// configuration does exactly where that device is selected; no other change does.
pub proof fn law_slider_follows_the_selected_device(key: String, selected: Option<Seq<char>>)
    ensures
        concerns(StateEvent::InventoryChanged, selected),
        concerns(StateEvent::DeviceSelected, selected),
        !concerns(StateEvent::Other, selected),
        selected is None ==> !concerns(StateEvent::DeviceConfigChanged(key), selected),
        selected matches Some(current) ==> (concerns(
            StateEvent::DeviceConfigChanged(key),
            selected,
        ) <==> current == key@),
{
}

/// Another device gets a new slider at its own sensitivity, and so does a device without one; a
/// slider that is not dragged is moved to a sensitivity that changed.
pub proof fn law_slider_takes_the_devices_sensitivity(
    panel: PanelModel,
    key: Seq<char>,
    sensitivity: TouchpadScrollSensitivity,
    thumb: Option<TouchpadScrollSensitivity>,
)
    ensures
        panel.slider_key is None || panel.slider_key->0 != key || thumb is None ==> panel.step(
            key,
            sensitivity,
            thumb,
        ) == (SliderStep::Create { value: sensitivity }),
        panel.slider_key == Some(key) && !panel.dragging && thumb is Some && thumb->0
            != sensitivity ==> panel.step(key, sensitivity, thumb) == (SliderStep::Reseat {
            value: sensitivity,
        }),
{
}

} // verus!
