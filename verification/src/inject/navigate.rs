//! Finding a browser's back and forward buttons in its accessibility tree.
//!
//! The tree is read first, as far as [`reads_children`] says it is needed; the search then works on
//! what was read and answers with the way to the button: the child to take at each element, from
//! the window down.
use vstd::prelude::*;
use vstd::string::StringExecFns;

verus! {

/// How many levels of the tree are searched, the window's among them.
pub const SEARCH_DEPTH: u8 = 6;

/// An element of an accessibility tree, as far as it was read. An attribute that could not be read
/// is absent, and so is a child that could not be.
pub struct AxNode {
    pub role: Option<String>,
    pub identifier: Option<String>,
    pub subrole: Option<String>,
    pub description: Option<String>,
    pub children: Vec<Option<AxNode>>,
}

/// What names the wanted button.
#[derive(Clone, Copy, Debug, PartialEq, Eq)]
pub struct ButtonNames {
    pub identifier: &'static str,
    pub subrole: &'static str,
    pub description: &'static str,
}

/// Whether an attribute has a value.
pub open spec fn is_text(attribute: Option<String>, text: Seq<char>) -> bool {
    attribute matches Some(value) && value@ == text
}

/// Roles whose elements are not searched: tab bars, which would use up the search before it reaches
/// the toolbar.
pub open spec fn is_skipped_role(role: Seq<char>) -> bool {
    ||| role == "AXSplitGroup"@
    ||| role == "AXTabGroup"@
    ||| role == "AXOpaqueProviderGroup"@
    ||| role == "AXRadioButton"@
}

impl ButtonNames {
    /// Whether a button is the wanted one. The identifier and the subrole do not depend on the
    /// system's language; the description does.
    pub open spec fn name(self, node: AxNode) -> bool {
        ||| is_text(node.identifier, self.identifier@)
        ||| is_text(node.subrole, self.subrole@)
        ||| is_text(node.description, self.description@)
    }

    /// The names of the back or the forward button.
    pub open spec fn are_for(self, forward: bool) -> bool {
        if forward {
            &&& self.identifier@ == "BackForwardToolbarButton_Forward"@
            &&& self.subrole@ == "AXBackForwardButtonForward"@
            &&& self.description@ == "Go forward"@
        } else {
            &&& self.identifier@ == "BackForwardToolbarButton_Back"@
            &&& self.subrole@ == "AXBackForwardButtonBack"@
            &&& self.description@ == "Go back"@
        }
    }
}

impl AxNode {
    /// Whether the element is a button.
    pub open spec fn is_button(self) -> bool {
        is_text(self.role, "AXButton"@)
    }

    /// Whether the search goes on below the element. It never does below a button.
    pub open spec fn is_open(self) -> bool {
        self.role matches Some(role) ==> !is_skipped_role(role@) && role@ != "AXButton"@
    }

    /// A child that was read.
    pub open spec fn child(self, i: int) -> Option<AxNode> {
        if 0 <= i < self.children@.len() {
            self.children@[i]
        } else {
            None
        }
    }

    /// Whether a way leads through open elements to a button with one of the names, within a number
    /// of levels.
    pub open spec fn leads(self, names: ButtonNames, path: Seq<usize>, depth: nat) -> bool
        decreases depth,
    {
        if depth == 0 {
            false
        } else if path.len() == 0 {
            self.is_button() && names.name(self)
        } else {
            self.is_open() && (self.child(path[0] as int) matches Some(child) && child.leads(
                names,
                path.skip(1),
                (depth - 1) as nat,
            ))
        }
    }
}

/// Whether a way comes before another where they part.
pub open spec fn comes_before(first: Seq<usize>, second: Seq<usize>) -> bool
    decreases first.len(),
{
    first.len() > 0 && second.len() > 0 && (first[0] < second[0] || (first[0] == second[0]
        && comes_before(first.skip(1), second.skip(1))))
}

/// Whether a way is the first of those that lead to a wanted button.
pub open spec fn is_first_way(
    node: AxNode,
    names: ButtonNames,
    path: Seq<usize>,
    depth: nat,
) -> bool {
    &&& node.leads(names, path, depth)
    &&& forall|other: Seq<usize>| #[trigger]
        node.leads(names, other, depth) && other != path ==> comes_before(path, other)
}

/// Whether a text is the same as a literal.
fn reads(attribute: &Option<String>, text: &str) -> (same: bool)
    ensures
        same == is_text(*attribute, text@),
{
    match attribute {
        Some(value) => *value == String::from_str(text),
        None => false,
    }
}

/// The names of the back or the forward button.
pub fn button_names(forward: bool) -> (names: ButtonNames)
    ensures
        names.are_for(forward),
{
    if forward {
        ButtonNames {
            identifier: "BackForwardToolbarButton_Forward",
            subrole: "AXBackForwardButtonForward",
            description: "Go forward",
        }
    } else {
        ButtonNames {
            identifier: "BackForwardToolbarButton_Back",
            subrole: "AXBackForwardButtonBack",
            description: "Go back",
        }
    }
}

/// Whether the search goes on below an element.
fn opens(node: &AxNode) -> (open: bool)
    ensures
        open == node.is_open(),
{
    !(reads(&node.role, "AXSplitGroup") || reads(&node.role, "AXTabGroup") || reads(
        &node.role,
        "AXOpaqueProviderGroup",
    ) || reads(&node.role, "AXRadioButton") || reads(&node.role, "AXButton"))
}

/// The first way to a button with one of the names, going through the children in order and each
/// child's own children before the next child, within a number of levels.
pub fn find_button(node: &AxNode, names: ButtonNames, depth: u8) -> (found: Option<Vec<usize>>)
    ensures
        match found {
            Some(path) => is_first_way(*node, names, path@, depth as nat),
            None => forall|path: Seq<usize>| !#[trigger] node.leads(names, path, depth as nat),
        },
    decreases depth,
{
    if depth == 0 {
        return None;
    }
    if reads(&node.role, "AXButton") {
        let matches_target: bool = reads(&node.identifier, names.identifier) || reads(
            &node.subrole,
            names.subrole,
        ) || reads(&node.description, names.description);
        if matches_target {
            let path: Vec<usize> = Vec::new();
            proof {
                assert forall|other: Seq<usize>| #[trigger]
                    node.leads(names, other, depth as nat) implies other == path@ by {
                    assert(other =~= path@);
                }
            }
            return Some(path);
        }
        return None;
    }
    if !opens(node) {
        return None;
    }
    let ghost below = (depth - 1) as nat;
    let mut i: usize = 0;
    while i < node.children.len()
        invariant
            i <= node.children.len(),
            depth > 0,
            below == depth - 1,
            node.is_open(),
            !node.is_button(),
            forall|path: Seq<usize>| #[trigger]
                node.leads(names, path, depth as nat) ==> path.len() > 0 && path[0] >= i,
        decreases node.children.len() - i,
    {
        match &node.children[i] {
            Some(child) => {
                match find_button(child, names, depth - 1) {
                    Some(rest) => {
                        let mut path: Vec<usize> = vec![i];
                        let mut rest: Vec<usize> = rest;
                        let ghost way = rest@;
                        path.append(&mut rest);
                        proof {
                            assert(path@ =~= seq![i] + way);
                            assert(path@.skip(1) =~= way);
                            assert forall|other: Seq<usize>| #[trigger]
                                node.leads(names, other, depth as nat) && other
                                    != path@ implies comes_before(path@, other) by {
                                if other[0] == i {
                                    assert(child.leads(names, other.skip(1), below));
                                    if other.skip(1) == way {
                                        assert(other =~= seq![i] + other.skip(1));
                                    }
                                }
                            }
                        }
                        return Some(path);
                    },
                    None => {
                        proof {
                            assert forall|path: Seq<usize>| #[trigger]
                                node.leads(names, path, depth as nat) implies path.len() > 0
                                && path[0] >= i + 1 by {
                                if path[0] == i {
                                    assert(child.leads(names, path.skip(1), below));
                                }
                            }
                        }
                    },
                }
            },
            None => {},
        }
        i = i + 1;
    }
    None
}

impl AxNode {
    /// Whether a child was read and has a role.
    pub open spec fn child_has_role(self, i: int, role: Seq<char>) -> bool {
        self.child(i) matches Some(child) && is_text(child.role, role)
    }

    /// Whether a child is the toolbar's navigation group: a group whose first child is a group too.
    pub open spec fn child_is_navigation(self, i: int) -> bool {
        self.child_has_role(i, "AXGroup"@) && self.child(i)->0.child_has_role(0, "AXGroup"@)
    }

    /// Whether a child is the first toolbar.
    pub open spec fn first_toolbar(self, i: int) -> bool {
        &&& self.child_has_role(i, "AXToolbar"@)
        &&& forall|j: int| 0 <= j < i ==> !#[trigger] self.child_has_role(j, "AXToolbar"@)
    }

    /// Whether a child is the first navigation group.
    pub open spec fn first_navigation(self, i: int) -> bool {
        &&& self.child_is_navigation(i)
        &&& forall|j: int| 0 <= j < i ==> !#[trigger] self.child_is_navigation(j)
    }

    /// Whether a way leads to the navigation button by its position: window, first toolbar, first
    /// navigation group, its first child, and there the first button for back or the second for
    /// forward.
    pub open spec fn leads_by_position(self, forward: bool, path: Seq<usize>) -> bool {
        let toolbar = self.child(path[0] as int)->0;
        let inner = toolbar.child(path[1] as int)->0.child(0)->0;
        &&& path.len() == 4
        &&& self.first_toolbar(path[0] as int)
        &&& toolbar.first_navigation(path[1] as int)
        &&& path[2] == 0
        &&& path[3] == (if forward {
            1
        } else {
            0int
        })
        &&& inner.child_has_role(path[3] as int, "AXButton"@)
    }
}

/// A child that was read.
fn child_of(node: &AxNode, i: usize) -> (child: Option<&AxNode>)
    ensures
        child == (match node.child(i as int) {
            Some(child) => Some(&child),
            None => None,
        }),
{
    if i < node.children.len() {
        match &node.children[i] {
            Some(child) => Some(child),
            None => None,
        }
    } else {
        None
    }
}

/// Whether a child was read and has a role.
fn has_role_at(node: &AxNode, i: usize, role: &str) -> (has: bool)
    ensures
        has == node.child_has_role(i as int, role@),
{
    match child_of(node, i) {
        Some(child) => reads(&child.role, role),
        None => false,
    }
}

/// The first toolbar among the children.
fn find_toolbar(node: &AxNode) -> (found: Option<usize>)
    ensures
        match found {
            Some(i) => node.first_toolbar(i as int),
            None => forall|i: int| !#[trigger] node.child_has_role(i, "AXToolbar"@),
        },
{
    let mut i: usize = 0;
    while i < node.children.len()
        invariant
            i <= node.children.len(),
            forall|j: int| 0 <= j < i ==> !#[trigger] node.child_has_role(j, "AXToolbar"@),
        decreases node.children.len() - i,
    {
        if has_role_at(node, i, "AXToolbar") {
            return Some(i);
        }
        i = i + 1;
    }
    None
}

/// The first navigation group among the children.
fn find_navigation(node: &AxNode) -> (found: Option<usize>)
    ensures
        match found {
            Some(i) => node.first_navigation(i as int),
            None => forall|i: int| !#[trigger] node.child_is_navigation(i),
        },
{
    let mut i: usize = 0;
    while i < node.children.len()
        invariant
            i <= node.children.len(),
            forall|j: int| 0 <= j < i ==> !#[trigger] node.child_is_navigation(j),
        decreases node.children.len() - i,
    {
        if has_role_at(node, i, "AXGroup") {
            match child_of(node, i) {
                Some(group) => {
                    if has_role_at(group, 0, "AXGroup") {
                        return Some(i);
                    }
                },
                None => {},
            }
        }
        i = i + 1;
    }
    None
}

/// The way to the back or forward button by its position. It does not depend on the system's
/// language, and needs no attribute that names the button.
pub fn find_nav_button_by_position(window: &AxNode, forward: bool) -> (found: Option<Vec<usize>>)
    ensures
        match found {
            Some(path) => window.leads_by_position(forward, path@),
            None => forall|path: Seq<usize>| !#[trigger] window.leads_by_position(forward, path),
        },
{
    let toolbar_at: usize = match find_toolbar(window) {
        Some(i) => i,
        None => return None,
    };
    let ghost toolbar_node = window.child(toolbar_at as int)->0;
    let toolbar: &AxNode = match child_of(window, toolbar_at) {
        Some(toolbar) => toolbar,
        None => return None,
    };
    proof {
        assert forall|path: Seq<usize>| #[trigger]
            window.leads_by_position(forward, path) implies path[0] == toolbar_at by {
            if path[0] < toolbar_at {
                assert(window.child_has_role(path[0] as int, "AXToolbar"@));
            } else if path[0] > toolbar_at {
                assert(window.child_has_role(toolbar_at as int, "AXToolbar"@));
            }
        }
    }
    let group_at: usize = match find_navigation(toolbar) {
        Some(i) => i,
        None => return None,
    };
    proof {
        assert forall|path: Seq<usize>| #[trigger]
            window.leads_by_position(forward, path) implies path[1] == group_at by {
            if path[1] < group_at {
                assert(toolbar_node.child_is_navigation(path[1] as int));
            } else if path[1] > group_at {
                assert(toolbar_node.child_is_navigation(group_at as int));
            }
        }
    }
    let button_at: usize = if forward {
        1
    } else {
        0
    };
    match child_of(toolbar, group_at) {
        Some(group) => match child_of(group, 0) {
            Some(inner) => {
                if has_role_at(inner, button_at, "AXButton") {
                    Some(vec![toolbar_at, group_at, 0, button_at])
                } else {
                    None
                }
            },
            None => None,
        },
        None => None,
    }
}

/// The way to a browser's back or forward button: by its names, or else by its position.
pub fn navigation_button(window: &AxNode, forward: bool) -> (found: Option<Vec<usize>>)
    ensures
        exists|names: ButtonNames| #[trigger]
            names.are_for(forward) && (match found {
                Some(path) => {
                    ||| is_first_way(*window, names, path@, SEARCH_DEPTH as nat)
                    ||| {
                        &&& forall|way: Seq<usize>|
                            !#[trigger] window.leads(names, way, SEARCH_DEPTH as nat)
                        &&& window.leads_by_position(forward, path@)
                    }
                },
                None => {
                    &&& forall|way: Seq<usize>|
                        !#[trigger] window.leads(names, way, SEARCH_DEPTH as nat)
                    &&& forall|way: Seq<usize>| !#[trigger] window.leads_by_position(forward, way)
                },
            }),
{
    let names: ButtonNames = button_names(forward);
    match find_button(window, names, SEARCH_DEPTH) {
        Some(path) => Some(path),
        None => find_nav_button_by_position(window, forward),
    }
}

/// Whether the children of an element have to be read: the window's always, and further down those
/// of every element the search goes on below, to the last level.
pub fn reads_children(role: &Option<String>, level: u8) -> (needed: bool)
    ensures
        needed == (level == 0 || (level < SEARCH_DEPTH - 1 && (*role matches Some(text)
            ==> !is_skipped_role(text@) && text@ != "AXButton"@))),
{
    if level == 0 {
        return true;
    }
    level < SEARCH_DEPTH - 1 && !(reads(role, "AXSplitGroup") || reads(role, "AXTabGroup")
        || reads(role, "AXOpaqueProviderGroup") || reads(role, "AXRadioButton") || reads(
        role,
        "AXButton",
    ))
}

/// A way to a wanted button is never longer than the search is deep.
pub proof fn law_search_is_bounded(node: AxNode, names: ButtonNames, path: Seq<usize>, depth: nat)
    requires
        node.leads(names, path, depth),
    ensures
        path.len() < depth,
    decreases depth,
{
    if path.len() > 0 {
        let child = node.child(path[0] as int)->0;
        law_search_is_bounded(child, names, path.skip(1), (depth - 1) as nat);
    }
}

/// There is one first way at most, so that the search has one answer.
pub proof fn law_first_way_is_unique(
    node: AxNode,
    names: ButtonNames,
    a: Seq<usize>,
    b: Seq<usize>,
    depth: nat,
)
    requires
        is_first_way(node, names, a, depth),
        is_first_way(node, names, b, depth),
    ensures
        a == b,
{
    if a != b {
        assert(comes_before(a, b));
        assert(comes_before(b, a));
        lemma_before_is_strict(a, b);
    }
}

proof fn lemma_before_is_strict(a: Seq<usize>, b: Seq<usize>)
    requires
        comes_before(a, b),
    ensures
        !comes_before(b, a),
    decreases a.len(),
{
    if a[0] == b[0] {
        lemma_before_is_strict(a.skip(1), b.skip(1));
    }
}

/// The position stands for one button at most.
pub proof fn law_position_is_unique(window: AxNode, forward: bool, a: Seq<usize>, b: Seq<usize>)
    requires
        window.leads_by_position(forward, a),
        window.leads_by_position(forward, b),
    ensures
        a == b,
{
    if a[0] < b[0] {
        assert(window.child_has_role(a[0] as int, "AXToolbar"@));
    } else if b[0] < a[0] {
        assert(window.child_has_role(b[0] as int, "AXToolbar"@));
    }
    let toolbar = window.child(a[0] as int)->0;
    if a[1] < b[1] {
        assert(toolbar.child_is_navigation(a[1] as int));
    } else if b[1] < a[1] {
        assert(toolbar.child_is_navigation(b[1] as int));
    }
    assert(a =~= b);
}

/// The back and the forward button go by these names.
pub proof fn law_buttons_go_by_these_names(names: ButtonNames, forward: bool)
    requires
        names.are_for(forward),
    ensures
        forward ==> names.identifier@ == "BackForwardToolbarButton_Forward"@,
        forward ==> names.subrole@ == "AXBackForwardButtonForward"@,
        forward ==> names.description@ == "Go forward"@,
        !forward ==> names.identifier@ == "BackForwardToolbarButton_Back"@,
        !forward ==> names.subrole@ == "AXBackForwardButtonBack"@,
        !forward ==> names.description@ == "Go back"@,
{
}

/// The search stops at an element exactly where it is a button and one of its three names is a
/// wanted one.
pub proof fn law_search_stops_at_a_named_button(node: AxNode, names: ButtonNames, depth: nat)
    requires
        depth > 0,
    ensures
        node.leads(names, Seq::empty(), depth) <==> {
            &&& node.role is Some && node.role->0@ == "AXButton"@
            &&& {
                ||| node.identifier is Some && node.identifier->0@ == names.identifier@
                ||| node.subrole is Some && node.subrole->0@ == names.subrole@
                ||| node.description is Some && node.description->0@ == names.description@
            }
        },
{
}

/// The search never looks below a button, nor below the parts of a window that hold its tabs.
pub proof fn law_search_passes_over_tabs(
    node: AxNode,
    names: ButtonNames,
    path: Seq<usize>,
    depth: nat,
)
    requires
        path.len() > 0,
        node.role is Some,
        ({
            let role = node.role->0@;
            role == "AXSplitGroup"@ || role == "AXTabGroup"@ || role == "AXOpaqueProviderGroup"@
                || role == "AXRadioButton"@ || role == "AXButton"@
        }),
    ensures
        !node.leads(names, path, depth),
{
}

/// Below any other element a button is found by way of the child that leads to it, one level
/// deeper.
pub proof fn law_search_goes_through_children(
    node: AxNode,
    names: ButtonNames,
    i: usize,
    way: Seq<usize>,
    depth: nat,
)
    requires
        i < node.children@.len(),
        node.role matches Some(role) ==> role@ != "AXSplitGroup"@ && role@ != "AXTabGroup"@ && role@
            != "AXOpaqueProviderGroup"@ && role@ != "AXRadioButton"@ && role@ != "AXButton"@,
    ensures
        node.leads(names, seq![i] + way, depth + 1) <==> (node.children@[i as int] matches Some(
            child,
        ) && child.leads(names, way, depth)),
{
    assert((seq![i] + way).skip(1) =~= way);
}

/// No more than six levels are searched, the window's among them, so that a way takes five children
/// at most.
pub proof fn law_six_levels_are_searched(window: AxNode, names: ButtonNames, path: Seq<usize>)
    ensures
        window.leads(names, path, SEARCH_DEPTH as nat) ==> path.len() <= 5,
        window.leads(names, path, SEARCH_DEPTH as nat) <==> window.leads(names, path, 6),
{
    if window.leads(names, path, SEARCH_DEPTH as nat) {
        law_search_is_bounded(window, names, path, SEARCH_DEPTH as nat);
    }
}

/// Of two ways that part at some element, the one through the earlier child comes first.
pub proof fn law_earlier_children_come_first(
    shared: Seq<usize>,
    i: usize,
    j: usize,
    a: Seq<usize>,
    b: Seq<usize>,
)
    requires
        i < j,
    ensures
        comes_before(shared + seq![i] + a, shared + seq![j] + b),
        !comes_before(shared + seq![j] + b, shared + seq![i] + a),
    decreases shared.len(),
{
    let first = shared + seq![i] + a;
    let second = shared + seq![j] + b;
    if shared.len() > 0 {
        law_earlier_children_come_first(shared.skip(1), i, j, a, b);
        assert(first.skip(1) =~= shared.skip(1) + seq![i] + a);
        assert(second.skip(1) =~= shared.skip(1) + seq![j] + b);
    }
    lemma_before_is_strict(first, second);
}

/// By position, the way goes through a toolbar, through a group that starts with a group, through
/// that inner group, to its first button for back and to its second for forward.
pub proof fn law_position_is_toolbar_group_group_button(
    window: AxNode,
    forward: bool,
    path: Seq<usize>,
)
    requires
        window.leads_by_position(forward, path),
    ensures
        path.len() == 4,
        path[2] == 0,
        forward ==> path[3] == 1,
        !forward ==> path[3] == 0,
        window.child(path[0] as int) is Some,
        ({
            let toolbar = window.child(path[0] as int)->0;
            let group = toolbar.child(path[1] as int)->0;
            let inner = group.child(0)->0;
            let button = inner.child(path[3] as int)->0;
            &&& toolbar.role is Some && toolbar.role->0@ == "AXToolbar"@
            &&& toolbar.child(path[1] as int) is Some && group.role is Some && group.role->0@
                == "AXGroup"@
            &&& group.child(0) is Some && inner.role is Some && inner.role->0@ == "AXGroup"@
            &&& inner.child(path[3] as int) is Some && button.role is Some && button.role->0@
                == "AXButton"@
        }),
{
}

} // verus!
