//! The layout selector: a toggle showing the current layout symbol, and a
//! panel of three layout options that slides open beside it.
use crate::text::{lemma_no_occurrence, occurs_in, str_contains};
use vstd::prelude::*;

verus! {

/// The number of layout options in the panel.
pub const LAYOUT_OPTION_COUNT: u32 = 3;

/// What the selector shows: the window manager's layout symbol and whether
/// the option panel is open.
#[derive(Clone, Debug)]
pub struct LayoutSelectorState {
    pub layout_symbol: String,
    pub layout_open: bool,
}

impl Default for LayoutSelectorState {
    fn default() -> (s: Self)
        ensures
            s.layout_symbol@ == Seq::<char>::empty(),
            !s.layout_open,
    {
        LayoutSelectorState { layout_symbol: String::new(), layout_open: false }
    }
}

/// Messages the selector takes.
#[derive(Clone, Debug)]
pub enum LayoutSelectorInput {
    Sync(LayoutSelectorState),
}

/// Messages the selector sends: the toggle was clicked, or an option was.
#[derive(Clone, Copy, Debug, PartialEq, Eq, Structural)]
pub enum LayoutSelectorOutput {
    TogglePanel,
    SelectLayout(u32),
}

/// The CSS classes of the toggle: `layout-toggle`, then `open` or `closed`.
pub open spec fn toggle_classes(layout_open: bool) -> Seq<&'static str> {
    seq!["layout-toggle", if layout_open { "open" } else { "closed" }]
}

/// The CSS classes of the toggle button.
pub fn layout_toggle_classes(layout_open: bool) -> (classes: Vec<&'static str>)
    ensures
        classes@ == toggle_classes(layout_open),
{
    let mut classes: Vec<&'static str> = Vec::new();
    classes.push("layout-toggle");
    classes.push(if layout_open { "open" } else { "closed" });
    assert(classes@ =~= toggle_classes(layout_open));
    classes
}

/// The CSS classes of an option: `layout-option`, and `current` for the
/// layout in use.
pub open spec fn option_classes(is_current: bool) -> Seq<&'static str> {
    if is_current {
        seq!["layout-option", "current"]
    } else {
        seq!["layout-option"]
    }
}

/// The CSS classes of an option button.
pub fn layout_option_classes(is_current: bool) -> (classes: Vec<&'static str>)
    ensures
        classes@ == option_classes(is_current),
{
    let mut classes: Vec<&'static str> = Vec::new();
    classes.push("layout-option");
    if is_current {
        classes.push("current");
    }
    assert(classes@ =~= option_classes(is_current));
    classes
}

/// The label of option `option`: tiled, floating, monocle.
pub open spec fn option_label(option: u32) -> &'static str {
    if option == 0 {
        "[]="
    } else if option == 1 {
        "<><>"
    } else {
        "[M]"
    }
}

/// The text whose presence in the layout symbol marks option `option` as
/// current.
pub open spec fn option_marker(option: u32) -> &'static str {
    if option == 0 {
        "[]="
    } else if option == 1 {
        "><>"
    } else {
        "[M]"
    }
}

/// The label of option button `option`.
pub fn layout_option_label(option: u32) -> (label: &'static str)
    requires
        option < LAYOUT_OPTION_COUNT,
    ensures
        label == option_label(option),
{
    if option == 0 {
        "[]="
    } else if option == 1 {
        "<><>"
    } else {
        "[M]"
    }
}

/// The marker text of option `option`.
pub fn layout_option_marker(option: u32) -> (marker: &'static str)
    requires
        option < LAYOUT_OPTION_COUNT,
    ensures
        marker == option_marker(option),
{
    if option == 0 {
        "[]="
    } else if option == 1 {
        "><>"
    } else {
        "[M]"
    }
}

/// The model of the selector: the state it last received.
pub struct LayoutSelectorModel {
    state: LayoutSelectorState,
}

impl View for LayoutSelectorModel {
    type V = LayoutSelectorState;

    closed spec fn view(&self) -> LayoutSelectorState {
        self.state
    }
}

impl LayoutSelectorModel {
    /// A selector showing `state`.
    pub fn init(state: LayoutSelectorState) -> (model: Self)
        ensures
            model@ == state,
    {
        LayoutSelectorModel { state }
    }

    /// Applies a message: a sync replaces the whole state.
    pub fn update(&mut self, msg: LayoutSelectorInput)
        ensures
            match msg {
                LayoutSelectorInput::Sync(state) => final(self)@ == state,
            },
    {
        match msg {
            LayoutSelectorInput::Sync(state) => self.state = state,
        }
    }

    /// The state the selector shows.
    pub fn state(&self) -> (s: &LayoutSelectorState)
        ensures
            *s == self@,
    {
        &self.state
    }

    /// The CSS classes of option button `option`: current when the layout
    /// symbol holds the option's marker.
    pub fn option_classes(&self, option: u32) -> (classes: Vec<&'static str>)
        requires
            option < LAYOUT_OPTION_COUNT,
        ensures
            classes@ == option_classes(occurs_in(self@.layout_symbol@, option_marker(option)@)),
    {
        let marker = layout_option_marker(option);
        layout_option_classes(str_contains(self.state.layout_symbol.as_str(), marker))
    }
}


/// When the layout symbol is an option's own label, exactly that option is
/// marked current.
pub proof fn law_option_label_marks_itself(option: u32, other: u32)
    requires
        option < LAYOUT_OPTION_COUNT,
        other < LAYOUT_OPTION_COUNT,
    ensures
        occurs_in(option_label(option)@, option_marker(other)@) <==> option == other,
{
    reveal_strlit("[]=");
    reveal_strlit("<><>");
    reveal_strlit("><>");
    reveal_strlit("[M]");
    let hay = option_label(option)@;
    let needle = option_marker(other)@;
    if option == other {
        let at: int = if option == 1 { 1 } else { 0 };
        assert(hay.subrange(at, at + needle.len()) =~= needle);
    } else if other == 0 {
        if option == 1 {
            lemma_no_occurrence(hay, needle, 0);
        } else {
            lemma_no_occurrence(hay, needle, 1);
        }
    } else if other == 1 {
        lemma_no_occurrence(hay, needle, 0);
    } else {
        if option == 1 {
            lemma_no_occurrence(hay, needle, 0);
        } else {
            lemma_no_occurrence(hay, needle, 1);
        }
    }
}

/// The toggle always carries `layout-toggle` and exactly one of `open` and
/// `closed`, `open` exactly when the panel is open; an option carries
/// `current` exactly when it is the current layout.
pub proof fn law_selector_classes(layout_open: bool, is_current: bool)
    ensures
        toggle_classes(layout_open)[0] == "layout-toggle",
        toggle_classes(layout_open).len() == 2,
        layout_open <==> toggle_classes(layout_open)[1] == "open",
        !layout_open <==> toggle_classes(layout_open)[1] == "closed",
        option_classes(is_current)[0] == "layout-option",
        is_current <==> option_classes(is_current).len() == 2,
        is_current ==> option_classes(is_current)[1] == "current",
{
    reveal_strlit("open");
    reveal_strlit("closed");
    assert("open"@[0] != "closed"@[0]);
}

} // verus!
