//! The workspace strip: one button per tag, labelled with an emoji and
//! styled by the tag's state.
use vstd::prelude::*;

verus! {

/// Class bit: the tag is viewed (or is the active tab).
pub const CLS_SELECTED: u8 = 1;

/// Class bit: the tag holds windows.
pub const CLS_OCCUPIED: u8 = 2;

/// Class bit: the tag is filled (a fullscreen client).
pub const CLS_FILLED: u8 = 4;

/// Class bit: a window on the tag asks for attention.
pub const CLS_URGENT: u8 = 8;

/// Class bit: nothing of the above.
pub const CLS_EMPTY: u8 = 16;

/// The number of tab buttons in the strip.
pub const TAB_COUNT: usize = 9;

/// The state of one tag, as the window manager reports it.
#[derive(Clone, Copy, Debug, PartialEq, Eq, Structural)]
pub struct TagStatus {
    pub is_selected: bool,
    pub is_urg: bool,
    pub is_filled: bool,
    pub is_occ: bool,
}

/// What the strip shows: the active tab and the status of each tag.
#[derive(Clone, Debug)]
pub struct WorkspacesState {
    pub active_tab: usize,
    pub tag_status_vec: Vec<TagStatus>,
}

impl Default for WorkspacesState {
    fn default() -> (s: Self)
        ensures
            s.active_tab == 0,
            s.tag_status_vec@.len() == 0,
    {
        WorkspacesState { active_tab: 0, tag_status_vec: Vec::new() }
    }
}

/// Messages the strip takes.
#[derive(Clone, Debug)]
pub enum WorkspacesInput {
    Sync(WorkspacesState),
}

/// Messages the strip sends: the tab a user clicked.
#[derive(Clone, Copy, Debug, PartialEq, Eq, Structural)]
pub enum WorkspacesOutput {
    Selected(usize),
}

/// The label of the tab at `index`.
pub open spec fn tab_emoji(index: usize) -> &'static str {
    if index == 0 {
        "🖥"
    } else if index == 1 {
        "🌐"
    } else if index == 2 {
        "📁"
    } else if index == 3 {
        "💬"
    } else if index == 4 {
        "📝"
    } else if index == 5 {
        "🎵"
    } else if index == 6 {
        "⚙"
    } else if index == 7 {
        "📊"
    } else if index == 8 {
        "🏠"
    } else {
        "❔"
    }
}

/// The label of the tab at `index`: one emoji per tag, a question mark past
/// the ninth.
pub fn pick_emoji(index: usize) -> (r: &'static str)
    ensures
        r == tab_emoji(index),
{
    match index {
        0 => "🖥",
        1 => "🌐",
        2 => "📁",
        3 => "💬",
        4 => "📝",
        5 => "🎵",
        6 => "⚙",
        7 => "📊",
        8 => "🏠",
        _ => "❔",
    }
}

/// The class bits of a tab, by priority: urgent, then filled, then viewed
/// and occupied, then viewed (or active), then occupied, else empty. A tab
/// with no known status is selected when active and empty otherwise.
pub open spec fn tab_mask(tag: Option<TagStatus>, is_active_index: bool) -> u8 {
    match tag {
        Some(t) => {
            if t.is_urg {
                CLS_URGENT
            } else if t.is_filled {
                CLS_FILLED
            } else if t.is_selected && t.is_occ {
                CLS_SELECTED | CLS_OCCUPIED
            } else if t.is_selected || is_active_index {
                CLS_SELECTED
            } else if t.is_occ {
                CLS_OCCUPIED
            } else {
                CLS_EMPTY
            }
        },
        None => {
            if is_active_index {
                CLS_SELECTED
            } else {
                CLS_EMPTY
            }
        },
    }
}

/// The tag a reference points at, if any.
pub open spec fn tag_of(tag: Option<&TagStatus>) -> Option<TagStatus> {
    match tag {
        Some(t) => Some(*t),
        None => None,
    }
}

/// The class bits of a tab with status `tag`.
pub fn classes_mask_for(tag: Option<&TagStatus>, is_active_index: bool) -> (mask: u8)
    ensures
        mask == tab_mask(tag_of(tag), is_active_index),
{
    if let Some(tag) = tag {
        if tag.is_urg {
            CLS_URGENT
        } else if tag.is_filled {
            CLS_FILLED
        } else if tag.is_selected && tag.is_occ {
            CLS_SELECTED | CLS_OCCUPIED
        } else if tag.is_selected || is_active_index {
            CLS_SELECTED
        } else if tag.is_occ {
            CLS_OCCUPIED
        } else {
            CLS_EMPTY
        }
    } else if is_active_index {
        CLS_SELECTED
    } else {
        CLS_EMPTY
    }
}

/// Whether `mask` has the bit `flag`.
pub open spec fn has_flag(mask: u8, flag: u8) -> bool {
    mask & flag != 0
}

/// The one-class list `seq![name]` when `present`, else nothing.
pub open spec fn class_if(present: bool, name: &'static str) -> Seq<&'static str> {
    if present {
        seq![name]
    } else {
        Seq::empty()
    }
}

/// The CSS classes for the bits of `mask`: `tab-button`, then `urgent`,
/// `filled`, `selected`, `occupied` and `empty`, each when its bit is set.
pub open spec fn mask_classes(mask: u8) -> Seq<&'static str> {
    seq!["tab-button"] + class_if(has_flag(mask, CLS_URGENT), "urgent") + class_if(
        has_flag(mask, CLS_FILLED),
        "filled",
    ) + class_if(has_flag(mask, CLS_SELECTED), "selected") + class_if(
        has_flag(mask, CLS_OCCUPIED),
        "occupied",
    ) + class_if(has_flag(mask, CLS_EMPTY), "empty")
}

fn push_if(classes: &mut Vec<&'static str>, present: bool, name: &'static str)
    ensures
        final(classes)@ == old(classes)@ + class_if(present, name),
{
    if present {
        classes.push(name);
        assert(final(classes)@ =~= old(classes)@ + class_if(present, name));
    } else {
        assert(old(classes)@ =~= old(classes)@ + class_if(present, name));
    }
}

/// The CSS classes of a tab button with status `tag`.
pub fn button_classes(tag: Option<&TagStatus>, is_active_index: bool) -> (classes: Vec<
    &'static str,
>)
    ensures
        classes@ == mask_classes(tab_mask(tag_of(tag), is_active_index)),
{
    let mut classes: Vec<&'static str> = Vec::new();
    classes.push("tab-button");
    let class_mask = classes_mask_for(tag, is_active_index);
    push_if(&mut classes, class_mask & CLS_URGENT != 0, "urgent");
    push_if(&mut classes, class_mask & CLS_FILLED != 0, "filled");
    push_if(&mut classes, class_mask & CLS_SELECTED != 0, "selected");
    push_if(&mut classes, class_mask & CLS_OCCUPIED != 0, "occupied");
    push_if(&mut classes, class_mask & CLS_EMPTY != 0, "empty");
    assert(classes@ =~= mask_classes(class_mask));
    classes
}

/// The model of the strip: the state it last received.
pub struct WorkspacesModel {
    state: WorkspacesState,
}

impl View for WorkspacesModel {
    type V = WorkspacesState;

    closed spec fn view(&self) -> WorkspacesState {
        self.state
    }
}

/// The status of tag `index` in `state`, if the state has one.
pub open spec fn tag_at(state: WorkspacesState, index: usize) -> Option<TagStatus> {
    if index < state.tag_status_vec@.len() {
        Some(state.tag_status_vec@[index as int])
    } else {
        None
    }
}

impl WorkspacesModel {
    /// A strip showing `state`.
    pub fn init(state: WorkspacesState) -> (model: Self)
        ensures
            model@ == state,
    {
        WorkspacesModel { state }
    }

    /// Applies a message: a sync replaces the whole state.
    pub fn update(&mut self, msg: WorkspacesInput)
        ensures
            match msg {
                WorkspacesInput::Sync(state) => final(self)@ == state,
            },
    {
        match msg {
            WorkspacesInput::Sync(state) => self.state = state,
        }
    }

    /// The state the strip shows.
    pub fn state(&self) -> (s: &WorkspacesState)
        ensures
            *s == self@,
    {
        &self.state
    }

    /// The CSS classes of the button of tab `index`: its tag's status, and
    /// whether it is the active tab.
    pub fn tab_classes(&self, index: usize) -> (classes: Vec<&'static str>)
        ensures
            classes@ == mask_classes(tab_mask(tag_at(self@, index), index == self@.active_tab)),
    {
        let tag = if index < self.state.tag_status_vec.len() {
            Some(&self.state.tag_status_vec[index])
        } else {
            None
        };
        button_classes(tag, index == self.state.active_tab)
    }
}


proof fn lemma_flag_table()
    by (bit_vector)
    ensures
        1u8 | 2u8 == 3u8,
        1u8 & 1u8 != 0,
        1u8 & 2u8 == 0,
        1u8 & 4u8 == 0,
        1u8 & 8u8 == 0,
        1u8 & 16u8 == 0,
        2u8 & 1u8 == 0,
        2u8 & 2u8 != 0,
        2u8 & 4u8 == 0,
        2u8 & 8u8 == 0,
        2u8 & 16u8 == 0,
        3u8 & 1u8 != 0,
        3u8 & 2u8 != 0,
        3u8 & 4u8 == 0,
        3u8 & 8u8 == 0,
        3u8 & 16u8 == 0,
        4u8 & 1u8 == 0,
        4u8 & 2u8 == 0,
        4u8 & 4u8 != 0,
        4u8 & 8u8 == 0,
        4u8 & 16u8 == 0,
        8u8 & 1u8 == 0,
        8u8 & 2u8 == 0,
        8u8 & 4u8 == 0,
        8u8 & 8u8 != 0,
        8u8 & 16u8 == 0,
        16u8 & 1u8 == 0,
        16u8 & 2u8 == 0,
        16u8 & 4u8 == 0,
        16u8 & 8u8 == 0,
        16u8 & 16u8 != 0,
{
}

/// Every tab is drawn as a `tab-button` with one or two state classes, and
/// an `empty` tab has no other state class.
pub proof fn law_tab_classes_shape(tag: Option<TagStatus>, is_active_index: bool)
    ensures
        mask_classes(tab_mask(tag, is_active_index))[0] == "tab-button",
        2 <= mask_classes(tab_mask(tag, is_active_index)).len() <= 3,
        mask_classes(tab_mask(tag, is_active_index)).contains("empty") ==> mask_classes(
            tab_mask(tag, is_active_index),
        ).len() == 2,
{
    lemma_flag_table();
    let c = mask_classes(tab_mask(tag, is_active_index));
    if c.contains("empty") {
        let k = choose|k: int| 0 <= k < c.len() && c[k] == "empty";
        assert(c[k] == "empty");
    }
}

/// An urgent tag is drawn as urgent and nothing else, whatever else holds
/// of it and whether or not it is the active tab.
pub proof fn law_urgent_overrides(tag: TagStatus, is_active_index: bool)
    requires
        tag.is_urg,
    ensures
        mask_classes(tab_mask(Some(tag), is_active_index)) == seq!["tab-button", "urgent"],
{
    lemma_flag_table();
    assert(mask_classes(tab_mask(Some(tag), is_active_index)) =~= seq!["tab-button", "urgent"]);
}

/// The active tab is drawn as selected unless its tag is urgent or filled.
pub proof fn law_active_tab_selected(tag: Option<TagStatus>)
    requires
        tag matches Some(t) ==> !t.is_urg && !t.is_filled,
    ensures
        mask_classes(tab_mask(tag, true)).contains("selected"),
{
    lemma_flag_table();
    let c = mask_classes(tab_mask(tag, true));
    assert(c[1] == "selected");
}


/// A tab with no known status that is not active is drawn empty.
pub proof fn law_unmarked_tab_empty()
    ensures
        mask_classes(tab_mask(None, false)) == seq!["tab-button", "empty"],
{
    lemma_flag_table();
    assert(mask_classes(tab_mask(None, false)) =~= seq!["tab-button", "empty"]);
}


/// The class list of each class mask a tab can have.
pub proof fn law_mask_class_lists()
    ensures
        mask_classes(CLS_SELECTED) == seq!["tab-button", "selected"],
        mask_classes(CLS_OCCUPIED) == seq!["tab-button", "occupied"],
        mask_classes(CLS_SELECTED | CLS_OCCUPIED) == seq!["tab-button", "selected", "occupied"],
        mask_classes(CLS_FILLED) == seq!["tab-button", "filled"],
        mask_classes(CLS_URGENT) == seq!["tab-button", "urgent"],
        mask_classes(CLS_EMPTY) == seq!["tab-button", "empty"],
{
    lemma_flag_table();
    assert(mask_classes(CLS_SELECTED) =~= seq!["tab-button", "selected"]);
    assert(mask_classes(CLS_OCCUPIED) =~= seq!["tab-button", "occupied"]);
    assert(mask_classes(CLS_SELECTED | CLS_OCCUPIED) =~= seq!["tab-button", "selected", "occupied"]);
    assert(mask_classes(CLS_FILLED) =~= seq!["tab-button", "filled"]);
    assert(mask_classes(CLS_URGENT) =~= seq!["tab-button", "urgent"]);
    assert(mask_classes(CLS_EMPTY) =~= seq!["tab-button", "empty"]);
}


/// How a tab with a known status is drawn, for every status: urgent wins;
/// then filled; a viewed tag that holds windows is drawn selected and
/// occupied whether or not it is the active tab; a tag that is viewed or
/// active is selected; an occupied one is occupied; the rest is empty.
pub proof fn law_tab_mask_by_status(t: TagStatus, is_active_index: bool)
    ensures
        t.is_urg ==> tab_mask(Some(t), is_active_index) == CLS_URGENT,
        !t.is_urg && t.is_filled ==> tab_mask(Some(t), is_active_index) == CLS_FILLED,
        !t.is_urg && !t.is_filled && t.is_selected && t.is_occ ==> tab_mask(
            Some(t),
            is_active_index,
        ) == 3u8,
        !t.is_urg && !t.is_filled && t.is_selected && t.is_occ ==> mask_classes(
            tab_mask(Some(t), is_active_index),
        ) == seq!["tab-button", "selected", "occupied"],
        !t.is_urg && !t.is_filled && !(t.is_selected && t.is_occ) && (t.is_selected
            || is_active_index) ==> tab_mask(Some(t), is_active_index) == CLS_SELECTED,
        !t.is_urg && !t.is_filled && !t.is_selected && !is_active_index && t.is_occ ==> tab_mask(
            Some(t),
            is_active_index,
        ) == CLS_OCCUPIED,
        !t.is_urg && !t.is_filled && !t.is_selected && !is_active_index && !t.is_occ
            ==> tab_mask(Some(t), is_active_index) == CLS_EMPTY,
{
    lemma_flag_table();
    law_mask_class_lists();
}

/// A tab with no known status is selected when active and empty otherwise.
pub proof fn law_tab_mask_without_status(is_active_index: bool)
    ensures
        tab_mask(None, is_active_index) == (if is_active_index {
            CLS_SELECTED
        } else {
            CLS_EMPTY
        }),
{
}

/// Tab `index` takes the status of tag `index` whenever the state has one,
/// and none past the last tag.
pub proof fn law_tab_takes_its_own_tag(state: WorkspacesState, index: usize)
    ensures
        index < state.tag_status_vec@.len() ==> tag_at(state, index) == Some(
            state.tag_status_vec@[index as int],
        ),
        index >= state.tag_status_vec@.len() ==> tag_at(state, index) is None,
{
}


/// Every tab of the strip has its own emoji, and any index past the last
/// tab shows the question mark, which no tab uses.
pub proof fn law_tab_emojis_distinct(i: usize, j: usize)
    ensures
        i < TAB_COUNT && j < TAB_COUNT && i != j ==> tab_emoji(i) != tab_emoji(j),
        i >= TAB_COUNT ==> tab_emoji(i) == "❔",
        i < TAB_COUNT ==> tab_emoji(i) != "❔",
{
    reveal_strlit("🖥");
    reveal_strlit("🌐");
    reveal_strlit("📁");
    reveal_strlit("💬");
    reveal_strlit("📝");
    reveal_strlit("🎵");
    reveal_strlit("⚙");
    reveal_strlit("📊");
    reveal_strlit("🏠");
    reveal_strlit("❔");
    assert(tab_emoji(0)@[0] == "🖥"@[0]);
    assert(tab_emoji(1)@[0] == "🌐"@[0]);
    assert(tab_emoji(2)@[0] == "📁"@[0]);
    assert(tab_emoji(3)@[0] == "💬"@[0]);
    assert(tab_emoji(4)@[0] == "📝"@[0]);
    assert(tab_emoji(5)@[0] == "🎵"@[0]);
    assert(tab_emoji(6)@[0] == "⚙"@[0]);
    assert(tab_emoji(7)@[0] == "📊"@[0]);
    assert(tab_emoji(8)@[0] == "🏠"@[0]);
    if i < TAB_COUNT && j < TAB_COUNT && i != j {
        assert(tab_emoji(i)@[0] != tab_emoji(j)@[0]);
    }
    if i < TAB_COUNT {
        assert(tab_emoji(i)@[0] != "❔"@[0]);
    }
}


/// The status looked at is the one referred to.
pub proof fn law_tag_of(t: TagStatus)
    ensures
        tag_of(Some(&t)) == Some(t),
        tag_of(None) is None,
{
}

} // verus!
