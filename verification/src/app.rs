//! The bar's decisions: which window-manager action a user input becomes,
//! what each widget is told to show for a runtime snapshot, when to retry
//! the window-manager transport, and what the platform is asked to do for
//! each effect of a runtime update.
use crate::layout_selector::{
    option_marker, LayoutSelectorOutput, LayoutSelectorState, LAYOUT_OPTION_COUNT,
};
use crate::status_strip::{StatusStripOutput, StatusStripState, UsageReading};
use crate::status_strip::monitor_icon;
use crate::text::occurs_in;
use crate::workspaces::{
    mask_classes, tab_mask, tag_at, TagStatus, WorkspacesOutput, WorkspacesState, TAB_COUNT,
};
use vstd::prelude::*;

verus! {

/// How often the transport is polled, in milliseconds.
pub const TRANSPORT_POLL_INTERVAL_MS: u64 = 50;

/// How often the runtime ticks, in seconds.
pub const TICK_INTERVAL_SECS: u32 = 1;

/// How long after a failed or dropped connection the transport is tried
/// again, in milliseconds.
pub const TRANSPORT_RETRY_INTERVAL_MS: u64 = 2000;

/// The window width used when no monitor geometry is known.
pub const DEFAULT_BAR_WIDTH: i32 = 1000;

/// The height of the bar window.
pub const BAR_HEIGHT: i32 = 40;

/// The active tab of the strip while no tag is active.
pub const NO_ACTIVE_TAB: usize = usize::MAX;

/// The monitor badge number while the monitor is unknown.
pub const UNKNOWN_MONITOR_BADGE: u8 = u8::MAX;

/// What the bar's widgets and timers send to the application.
#[derive(Clone, Copy, Debug, PartialEq, Eq, Structural)]
pub enum AppInput {
    TabSelected(usize),
    LayoutChanged(u32),
    ToggleLayoutPanel,
    ToggleSeconds,
    ToggleTheme,
    ToggleMute,
    VolumeStep(i32),
    Screenshot,
    PollTransport,
    Tick,
}

/// What the bar asks of the runtime on behalf of the user.
#[derive(Clone, Copy, Debug, PartialEq, Eq, Structural)]
pub enum UserAction {
    ViewTagOn { tag: usize, monitor: i32 },
    SetLayoutOn { layout: u32, monitor: i32 },
    ToggleLayoutSelector,
    ToggleSeconds,
    ToggleTheme,
    ToggleMute,
    AdjustVolume(i32),
    Screenshot,
}

/// What becomes of an input.
#[derive(Clone, Copy, Debug, PartialEq, Eq, Structural)]
pub enum InputOutcome {
    /// The action is handed to the runtime.
    Dispatch(UserAction),
    /// The transport is polled.
    PollTransport,
    /// The runtime ticks.
    Tick,
    /// A tab outside the tag range was clicked: ignored.
    TagOutOfRange(usize),
    /// A tab was clicked before the first window-manager snapshot: ignored.
    TagBeforeSnapshot,
    /// A layout was picked before the first window-manager snapshot: ignored.
    LayoutBeforeSnapshot,
}

/// What the bar reads of a runtime snapshot.
#[derive(Clone, Debug)]
pub struct SnapshotView {
    pub wm_available: bool,
    pub monitor: i32,
    pub active_tag: Option<usize>,
    pub tags: Vec<TagStatus>,
    pub layout_symbol: String,
    pub layout_selector_open: bool,
    pub theme_dark: bool,
    pub time: String,
    pub volume_percent: Option<i32>,
    pub muted: bool,
    pub cpu_usage: UsageReading,
    pub memory_usage: UsageReading,
}

/// The outcome of `input`. Tab and layout choices name the snapshot's
/// monitor and wait for a window-manager snapshot; a tab also needs a tag,
/// `resolved_tag` being the tag the runtime resolves the tab index to.
pub open spec fn routed(
    input: AppInput,
    wm_available: bool,
    monitor: i32,
    resolved_tag: Option<usize>,
) -> InputOutcome {
    match input {
        AppInput::TabSelected(index) => match resolved_tag {
            None => InputOutcome::TagOutOfRange(index),
            Some(tag) => if wm_available {
                InputOutcome::Dispatch(UserAction::ViewTagOn { tag, monitor })
            } else {
                InputOutcome::TagBeforeSnapshot
            },
        },
        AppInput::LayoutChanged(layout) => if wm_available {
            InputOutcome::Dispatch(UserAction::SetLayoutOn { layout, monitor })
        } else {
            InputOutcome::LayoutBeforeSnapshot
        },
        AppInput::ToggleLayoutPanel => InputOutcome::Dispatch(UserAction::ToggleLayoutSelector),
        AppInput::ToggleSeconds => InputOutcome::Dispatch(UserAction::ToggleSeconds),
        AppInput::ToggleTheme => InputOutcome::Dispatch(UserAction::ToggleTheme),
        AppInput::ToggleMute => InputOutcome::Dispatch(UserAction::ToggleMute),
        AppInput::VolumeStep(step) => InputOutcome::Dispatch(UserAction::AdjustVolume(step)),
        AppInput::Screenshot => InputOutcome::Dispatch(UserAction::Screenshot),
        AppInput::PollTransport => InputOutcome::PollTransport,
        AppInput::Tick => InputOutcome::Tick,
    }
}

/// Decides what becomes of `input` with the bar's latest snapshot. For a
/// `TabSelected`, `resolved_tag` is the tag the runtime resolves its index
/// to (`None` when the index names no tag); other inputs ignore it.
pub fn route_input(input: AppInput, snapshot: &SnapshotView, resolved_tag: Option<usize>) -> (out:
    InputOutcome)
    ensures
        out == routed(input, snapshot.wm_available, snapshot.monitor, resolved_tag),
{
    match input {
        AppInput::TabSelected(index) => match resolved_tag {
            None => InputOutcome::TagOutOfRange(index),
            Some(tag) => if snapshot.wm_available {
                InputOutcome::Dispatch(UserAction::ViewTagOn { tag, monitor: snapshot.monitor })
            } else {
                InputOutcome::TagBeforeSnapshot
            },
        },
        AppInput::LayoutChanged(layout) => if snapshot.wm_available {
            InputOutcome::Dispatch(UserAction::SetLayoutOn { layout, monitor: snapshot.monitor })
        } else {
            InputOutcome::LayoutBeforeSnapshot
        },
        AppInput::ToggleLayoutPanel => InputOutcome::Dispatch(UserAction::ToggleLayoutSelector),
        AppInput::ToggleSeconds => InputOutcome::Dispatch(UserAction::ToggleSeconds),
        AppInput::ToggleTheme => InputOutcome::Dispatch(UserAction::ToggleTheme),
        AppInput::ToggleMute => InputOutcome::Dispatch(UserAction::ToggleMute),
        AppInput::VolumeStep(step) => InputOutcome::Dispatch(UserAction::AdjustVolume(step)),
        AppInput::Screenshot => InputOutcome::Dispatch(UserAction::Screenshot),
        AppInput::PollTransport => InputOutcome::PollTransport,
        AppInput::Tick => InputOutcome::Tick,
    }
}

/// The input a workspace-strip output becomes.
pub open spec fn forwarded_workspaces(output: WorkspacesOutput) -> AppInput {
    match output {
        WorkspacesOutput::Selected(index) => AppInput::TabSelected(index),
    }
}

/// The input a layout-selector output becomes.
pub open spec fn forwarded_layout_selector(output: LayoutSelectorOutput) -> AppInput {
    match output {
        LayoutSelectorOutput::TogglePanel => AppInput::ToggleLayoutPanel,
        LayoutSelectorOutput::SelectLayout(index) => AppInput::LayoutChanged(index),
    }
}

/// The input a status-strip output becomes.
pub open spec fn forwarded_status_strip(output: StatusStripOutput) -> AppInput {
    match output {
        StatusStripOutput::ToggleSeconds => AppInput::ToggleSeconds,
        StatusStripOutput::ToggleTheme => AppInput::ToggleTheme,
        StatusStripOutput::ToggleMute => AppInput::ToggleMute,
        StatusStripOutput::VolumeStep(step) => AppInput::VolumeStep(step),
        StatusStripOutput::Screenshot => AppInput::Screenshot,
    }
}

/// The input a click on the workspace strip becomes.
pub fn input_from_workspaces(output: WorkspacesOutput) -> (input: AppInput)
    ensures
        input == forwarded_workspaces(output),
{
    match output {
        WorkspacesOutput::Selected(index) => AppInput::TabSelected(index),
    }
}

/// The input a click on the layout selector becomes.
pub fn input_from_layout_selector(output: LayoutSelectorOutput) -> (input: AppInput)
    ensures
        input == forwarded_layout_selector(output),
{
    match output {
        LayoutSelectorOutput::TogglePanel => AppInput::ToggleLayoutPanel,
        LayoutSelectorOutput::SelectLayout(index) => AppInput::LayoutChanged(index),
    }
}

/// The input an action on the status strip becomes.
pub fn input_from_status_strip(output: StatusStripOutput) -> (input: AppInput)
    ensures
        input == forwarded_status_strip(output),
{
    match output {
        StatusStripOutput::ToggleSeconds => AppInput::ToggleSeconds,
        StatusStripOutput::ToggleTheme => AppInput::ToggleTheme,
        StatusStripOutput::ToggleMute => AppInput::ToggleMute,
        StatusStripOutput::VolumeStep(step) => AppInput::VolumeStep(step),
        StatusStripOutput::Screenshot => AppInput::Screenshot,
    }
}

/// Every child output becomes exactly one input, and the application can
/// tell every output from every other: no two outputs, of one child or of
/// two, become the same input, and none becomes a timer input.
pub proof fn law_child_outputs_distinct(
    w1: WorkspacesOutput,
    w2: WorkspacesOutput,
    l1: LayoutSelectorOutput,
    l2: LayoutSelectorOutput,
    s1: StatusStripOutput,
    s2: StatusStripOutput,
)
    ensures
        forwarded_workspaces(w1) == forwarded_workspaces(w2) ==> w1 == w2,
        forwarded_layout_selector(l1) == forwarded_layout_selector(l2) ==> l1 == l2,
        forwarded_status_strip(s1) == forwarded_status_strip(s2) ==> s1 == s2,
        forwarded_workspaces(w1) != forwarded_layout_selector(l1),
        forwarded_workspaces(w1) != forwarded_status_strip(s1),
        forwarded_layout_selector(l1) != forwarded_status_strip(s1),
        !(forwarded_workspaces(w1) is PollTransport || forwarded_workspaces(w1) is Tick),
        !(forwarded_layout_selector(l1) is PollTransport || forwarded_layout_selector(l1) is Tick),
        !(forwarded_status_strip(s1) is PollTransport || forwarded_status_strip(s1) is Tick),
{
}

/// The active tab shown for a snapshot: the active tag while the window
/// manager is known, else none.
pub open spec fn shown_active_tab(snapshot: SnapshotView) -> usize {
    if snapshot.wm_available && snapshot.active_tag is Some {
        snapshot.active_tag->0
    } else {
        NO_ACTIVE_TAB
    }
}

/// The tags shown for a snapshot: the snapshot's while the window manager is
/// known, else none.
pub open spec fn shown_tags(snapshot: SnapshotView) -> Seq<TagStatus> {
    if snapshot.wm_available {
        snapshot.tags@
    } else {
        Seq::empty()
    }
}

/// What the workspace strip is told to show for `snapshot`.
pub fn workspaces_state_for(snapshot: &SnapshotView) -> (state: WorkspacesState)
    ensures
        state.active_tab == shown_active_tab(*snapshot),
        state.tag_status_vec@ == shown_tags(*snapshot),
{
    let active_tab = match snapshot.active_tag {
        Some(tag) => if snapshot.wm_available {
            tag
        } else {
            NO_ACTIVE_TAB
        },
        None => NO_ACTIVE_TAB,
    };
    let mut tag_status_vec: Vec<TagStatus> = Vec::new();
    if snapshot.wm_available {
        let mut i: usize = 0;
        while i < snapshot.tags.len()
            invariant
                i <= snapshot.tags@.len(),
                tag_status_vec@ == snapshot.tags@.take(i as int),
            decreases snapshot.tags@.len() - i,
        {
            tag_status_vec.push(snapshot.tags[i]);
            assert(tag_status_vec@ =~= snapshot.tags@.take(i + 1));
            i = i + 1;
        }
        assert(snapshot.tags@.take(i as int) =~= snapshot.tags@);
    }
    proof {
        if !snapshot.wm_available {
            assert(tag_status_vec@ =~= shown_tags(*snapshot));
        }
    }
    WorkspacesState { active_tab, tag_status_vec }
}

/// The layout symbol shown while the window manager is unknown.
pub open spec fn unknown_layout_symbol() -> Seq<char> {
    " ? "@
}

/// The layout symbol shown for a snapshot.
pub open spec fn shown_layout_symbol(snapshot: SnapshotView) -> Seq<char> {
    if snapshot.wm_available {
        snapshot.layout_symbol@
    } else {
        unknown_layout_symbol()
    }
}

/// What the layout selector is told to show for `snapshot`.
pub fn layout_state_for(snapshot: &SnapshotView) -> (state: LayoutSelectorState)
    ensures
        state.layout_symbol@ == shown_layout_symbol(*snapshot),
        state.layout_open == snapshot.layout_selector_open,
{
    let layout_symbol = if snapshot.wm_available {
        snapshot.layout_symbol.clone()
    } else {
        String::from_str(" ? ")
    };
    LayoutSelectorState { layout_symbol, layout_open: snapshot.layout_selector_open }
}

/// The monitor badge number shown for a snapshot: the monitor while the
/// window manager is known and the number fits in a byte, else unknown.
pub open spec fn shown_monitor_num(snapshot: SnapshotView) -> u8 {
    if snapshot.wm_available && 0 <= snapshot.monitor <= 255 {
        snapshot.monitor as u8
    } else {
        UNKNOWN_MONITOR_BADGE
    }
}

/// What the status strip is told to show for `snapshot`.
pub fn status_state_for(snapshot: &SnapshotView) -> (state: StatusStripState)
    ensures
        state.current_time@ == snapshot.time@,
        state.current_volume == snapshot.volume_percent,
        state.current_muted == snapshot.muted,
        state.cpu_usage == snapshot.cpu_usage,
        state.memory_usage == snapshot.memory_usage,
        state.theme_dark == snapshot.theme_dark,
        state.monitor_num == shown_monitor_num(*snapshot),
{
    let monitor_num: u8 = if snapshot.wm_available && 0 <= snapshot.monitor
        && snapshot.monitor <= 255 {
        snapshot.monitor as u8
    } else {
        UNKNOWN_MONITOR_BADGE
    };
    StatusStripState {
        current_time: snapshot.time.clone(),
        current_volume: snapshot.volume_percent,
        current_muted: snapshot.muted,
        cpu_usage: snapshot.cpu_usage,
        memory_usage: snapshot.memory_usage,
        theme_dark: snapshot.theme_dark,
        monitor_num,
    }
}

/// The theme class of the root window.
pub open spec fn theme_class(theme_dark: bool) -> &'static str {
    if theme_dark {
        "theme-dark"
    } else {
        "theme-light"
    }
}

/// The theme class the root window carries; the other theme class is
/// removed.
pub fn root_theme_class(theme_dark: bool) -> (class: &'static str)
    ensures
        class == theme_class(theme_dark),
{
    if theme_dark {
        "theme-dark"
    } else {
        "theme-light"
    }
}


/// Whether a window-manager transport is wanted: a shared path was given.
pub fn wants_transport(shared_path: &str) -> (wanted: bool)
    ensures
        wanted == (shared_path@.len() > 0),
{
    shared_path.unicode_len() > 0
}

/// Whether to try opening the transport again on a tick: one is wanted,
/// none is open, and the last try lies `elapsed_ms` milliseconds back,
/// which is at least the retry interval.
pub fn transport_retry_due(shared_path: &str, has_transport: bool, elapsed_ms: u64) -> (due: bool)
    ensures
        due == (shared_path@.len() > 0 && !has_transport && elapsed_ms
            >= TRANSPORT_RETRY_INTERVAL_MS),
{
    wants_transport(shared_path) && !has_transport && elapsed_ms >= TRANSPORT_RETRY_INTERVAL_MS
}

/// Which part of the runtime reported a failure.
#[derive(Clone, Copy, Debug, PartialEq, Eq, Structural)]
pub enum RuntimeAdapter {
    Transport,
    Other,
}

/// A problem the runtime reports with an update.
#[derive(Clone, Copy, Debug, PartialEq, Eq, Structural)]
pub enum RuntimeIssue {
    AdapterFailed { adapter: RuntimeAdapter },
    Other,
}

/// Whether `issue` is a failure of the transport adapter.
pub open spec fn is_transport_failure(issue: RuntimeIssue) -> bool {
    issue == RuntimeIssue::AdapterFailed { adapter: RuntimeAdapter::Transport }
}

/// Whether any of `issues` is a failure of the transport adapter.
pub fn transport_failed(issues: &Vec<RuntimeIssue>) -> (failed: bool)
    ensures
        failed == exists|i: int| 0 <= i < issues@.len() && is_transport_failure(#[trigger] issues@[i]),
{
    let mut i: usize = 0;
    while i < issues.len()
        invariant
            i <= issues@.len(),
            forall|k: int| 0 <= k < i ==> !is_transport_failure(#[trigger] issues@[k]),
        decreases issues@.len() - i,
    {
        match issues[i] {
            RuntimeIssue::AdapterFailed { adapter: RuntimeAdapter::Transport } => {
                return true;
            },
            _ => {},
        }
        i = i + 1;
    }
    false
}

/// A platform effect requested by the runtime.
#[derive(Clone, Copy, Debug, PartialEq, Eq, Structural)]
pub enum BarEffect {
    /// Fit the bar to a monitor `width` physical pixels wide.
    ApplyMonitorGeometry { width: i64 },
    ClearMonitorGeometry,
    Screenshot,
    OpenAudioControl,
    WindowManager,
    ToggleMute,
    AdjustVolume,
    AdjustBrightness,
    RefreshBattery,
}

/// A helper program the bar launches.
#[derive(Clone, Copy, Debug, PartialEq, Eq, Structural)]
pub enum PlatformHelper {
    Screenshot,
    AudioControl,
}

/// What the platform side does for an effect.
#[derive(Clone, Copy, Debug, PartialEq, Eq, Structural)]
pub enum PlatformAction {
    /// Give the bar window this default size.
    SetDefaultSize { width: i32, height: i32 },
    /// Launch a helper program.
    Launch(PlatformHelper),
    /// A window-manager command with no transport to carry it: warn.
    WarnNoTransport,
    /// An effect that no enabled adapter handles: warn.
    WarnUnhandled,
}

/// `w / s` rounded to the nearest integer, halves away from zero, for
/// `s > 0`.
pub open spec fn div_round_half_away(w: int, s: int) -> int {
    if w >= 0 {
        (2 * w + s) / (2 * s)
    } else {
        -((-2 * w + s) / (2 * s))
    }
}

/// The logical width of a bar on a monitor `physical_width` pixels wide at
/// scale `scale_factor` (taken as 1 when below 1): the quotient rounded,
/// halves away from zero, then held to `1..=i32::MAX`.
pub open spec fn logical_width(physical_width: int, scale_factor: int) -> int {
    let scale = if scale_factor < 1 { 1 } else { scale_factor };
    let q = div_round_half_away(physical_width, scale);
    if q < 1 {
        1
    } else if q > i32::MAX {
        i32::MAX as int
    } else {
        q
    }
}

/// The logical width of the bar for a monitor geometry. For widths of at
/// most 32 bits this is exactly what dividing in `f64`, rounding and
/// clamping gives, since such a quotient is never rounded across a half.
pub fn logical_bar_width(physical_width: i64, scale_factor: i32) -> (width: i32)
    ensures
        width as int == logical_width(physical_width as int, scale_factor as int),
        1 <= width,
{
    let scale: i128 = if scale_factor < 1 { 1 } else { scale_factor as i128 };
    let w: i128 = physical_width as i128;
    let q: i128 = if w >= 0 {
        (2 * w + scale) / (2 * scale)
    } else {
        0 - ((0 - 2 * w + scale) / (2 * scale))
    };
    if q < 1 {
        1
    } else if q > 2147483647 {
        2147483647
    } else {
        q as i32
    }
}

/// What the platform side does for `effect`, at scale `scale_factor`.
pub open spec fn action_for(effect: BarEffect, scale_factor: i32) -> PlatformAction {
    match effect {
        BarEffect::ApplyMonitorGeometry { width } => PlatformAction::SetDefaultSize {
            width: logical_width(width as int, scale_factor as int) as i32,
            height: BAR_HEIGHT,
        },
        BarEffect::ClearMonitorGeometry => PlatformAction::SetDefaultSize {
            width: DEFAULT_BAR_WIDTH,
            height: BAR_HEIGHT,
        },
        BarEffect::Screenshot => PlatformAction::Launch(PlatformHelper::Screenshot),
        BarEffect::OpenAudioControl => PlatformAction::Launch(PlatformHelper::AudioControl),
        BarEffect::WindowManager => PlatformAction::WarnNoTransport,
        _ => PlatformAction::WarnUnhandled,
    }
}

/// Decides what the platform side does for `effect`; `scale_factor` is
/// the bar window's scale.
pub fn platform_action(effect: BarEffect, scale_factor: i32) -> (action: PlatformAction)
    ensures
        action == action_for(effect, scale_factor),
{
    match effect {
        BarEffect::ApplyMonitorGeometry { width } => PlatformAction::SetDefaultSize {
            width: logical_bar_width(width, scale_factor),
            height: BAR_HEIGHT,
        },
        BarEffect::ClearMonitorGeometry => PlatformAction::SetDefaultSize {
            width: DEFAULT_BAR_WIDTH,
            height: BAR_HEIGHT,
        },
        BarEffect::Screenshot => PlatformAction::Launch(PlatformHelper::Screenshot),
        BarEffect::OpenAudioControl => PlatformAction::Launch(PlatformHelper::AudioControl),
        BarEffect::WindowManager => PlatformAction::WarnNoTransport,
        BarEffect::ToggleMute => PlatformAction::WarnUnhandled,
        BarEffect::AdjustVolume => PlatformAction::WarnUnhandled,
        BarEffect::AdjustBrightness => PlatformAction::WarnUnhandled,
        BarEffect::RefreshBattery => PlatformAction::WarnUnhandled,
    }
}

/// The program a helper runs.
pub open spec fn helper_program_name(helper: PlatformHelper) -> &'static str {
    match helper {
        PlatformHelper::Screenshot => "flameshot",
        PlatformHelper::AudioControl => "pavucontrol",
    }
}

/// The program to launch for `helper`.
pub fn helper_program(helper: PlatformHelper) -> (program: &'static str)
    ensures
        program == helper_program_name(helper),
{
    match helper {
        PlatformHelper::Screenshot => "flameshot",
        PlatformHelper::AudioControl => "pavucontrol",
    }
}

/// The arguments a helper runs with.
pub open spec fn helper_argument_list(helper: PlatformHelper) -> Seq<&'static str> {
    match helper {
        PlatformHelper::Screenshot => seq!["gui"],
        PlatformHelper::AudioControl => Seq::empty(),
    }
}

/// The arguments to launch `helper` with.
pub fn helper_args(helper: PlatformHelper) -> (args: Vec<&'static str>)
    ensures
        args@ == helper_argument_list(helper),
{
    let mut args: Vec<&'static str> = Vec::new();
    match helper {
        PlatformHelper::Screenshot => {
            args.push("gui");
        },
        PlatformHelper::AudioControl => {},
    }
    assert(args@ =~= helper_argument_list(helper));
    args
}

/// What the bar does with one runtime update.
#[derive(Clone, Debug)]
pub struct UpdatePlan {
    /// One platform action per effect, in order.
    pub actions: Vec<PlatformAction>,
    /// The transport failed: drop it and restart the retry interval.
    pub drop_transport: bool,
    /// Take a fresh snapshot and sync every widget.
    pub redraw: bool,
}

/// Decides what to do with a runtime update: its `issues`, its `effects`,
/// and whether it `needs_redraw`; `scale_factor` is the bar window's scale.
pub fn plan_runtime_update(
    issues: &Vec<RuntimeIssue>,
    effects: &Vec<BarEffect>,
    needs_redraw: bool,
    scale_factor: i32,
) -> (plan: UpdatePlan)
    ensures
        plan.actions@.len() == effects@.len(),
        forall|i: int|
            0 <= i < effects@.len() ==> #[trigger] plan.actions@[i] == action_for(
                effects@[i],
                scale_factor,
            ),
        plan.drop_transport == exists|i: int|
            0 <= i < issues@.len() && is_transport_failure(#[trigger] issues@[i]),
        plan.redraw == needs_redraw,
{
    let drop_transport = transport_failed(issues);
    let mut actions: Vec<PlatformAction> = Vec::new();
    let mut i: usize = 0;
    while i < effects.len()
        invariant
            i <= effects@.len(),
            actions@.len() == i,
            forall|k: int|
                0 <= k < i ==> #[trigger] actions@[k] == action_for(effects@[k], scale_factor),
        decreases effects@.len() - i,
    {
        actions.push(platform_action(effects[i], scale_factor));
        i = i + 1;
    }
    UpdatePlan { actions, drop_transport, redraw: needs_redraw }
}

/// What polling a launched helper found.
#[derive(Clone, Copy, Debug, PartialEq, Eq, Structural)]
pub enum ChildPoll {
    Exited,
    Running,
    WaitFailed,
}

/// Whether a launched helper is kept for later reaping: only while it
/// runs; one that exited, or could not be polled, is let go.
pub fn keeps_child(poll: ChildPoll) -> (keep: bool)
    ensures
        keep == (poll == ChildPoll::Running),
{
    match poll {
        ChildPoll::Running => true,
        _ => false,
    }
}


/// Until the window manager is known, choosing a tab or a layout dispatches
/// nothing.
pub proof fn law_choices_wait_for_wm(input: AppInput, monitor: i32, resolved_tag: Option<usize>)
    requires
        input is TabSelected || input is LayoutChanged,
    ensures
        !(routed(input, false, monitor, resolved_tag) is Dispatch),
{
}

/// Every input other than a tab or layout choice has the same outcome
/// whether or not the window manager is known.
pub proof fn law_other_inputs_ignore_wm(input: AppInput, monitor: i32, resolved_tag: Option<usize>)
    requires
        !(input is TabSelected),
        !(input is LayoutChanged),
    ensures
        routed(input, true, monitor, resolved_tag) == routed(input, false, monitor, resolved_tag),
{
}

/// While the window manager is unknown, every tab of the strip is drawn
/// empty and none as selected.
pub proof fn law_unknown_wm_blank_tabs(snapshot: SnapshotView, state: WorkspacesState, index: usize)
    requires
        !snapshot.wm_available,
        state.active_tab == shown_active_tab(snapshot),
        state.tag_status_vec@ == shown_tags(snapshot),
        index < TAB_COUNT,
    ensures
        mask_classes(tab_mask(tag_at(state, index), index == state.active_tab)) == seq![
            "tab-button",
            "empty",
        ],
{
    crate::workspaces::law_unmarked_tab_empty();
}

/// While the window manager is unknown, no layout option is marked
/// current.
pub proof fn law_unknown_wm_no_current_layout(option: u32)
    requires
        option < LAYOUT_OPTION_COUNT,
    ensures
        !occurs_in(unknown_layout_symbol(), option_marker(option)@),
{
    reveal_strlit(" ? ");
    reveal_strlit("[]=");
    reveal_strlit("><>");
    reveal_strlit("[M]");
    let hay = unknown_layout_symbol();
    let needle = option_marker(option)@;
    assert forall|i: int|
        0 <= i && i + needle.len() <= hay.len() implies #[trigger] hay.subrange(i, i + needle.len())
        != needle by {
        assert(i == 0);
        assert(hay.subrange(i, i + needle.len())[0] != needle[0]);
    }
}

/// While the window manager is unknown, the monitor badge is the generic
/// screen.
pub proof fn law_unknown_wm_generic_badge(snapshot: SnapshotView)
    requires
        !snapshot.wm_available,
    ensures
        monitor_icon(shown_monitor_num(snapshot)) == "🖥",
{
}

/// At scale 1 (or below) a monitor width that fits in `i32` is kept as is.
pub proof fn law_unit_scale_keeps_width(physical_width: int, scale_factor: int)
    requires
        1 <= physical_width <= i32::MAX,
        scale_factor <= 1,
    ensures
        logical_width(physical_width, scale_factor) == physical_width,
{
    assert((2 * physical_width + 1) / 2 == physical_width);
}

/// A wider monitor never gives a narrower bar.
pub proof fn law_width_monotone(narrow: int, wide: int, scale_factor: int)
    requires
        narrow <= wide,
    ensures
        logical_width(narrow, scale_factor) <= logical_width(wide, scale_factor),
{
    let s = if scale_factor < 1 { 1 } else { scale_factor };
    if narrow >= 0 {
        vstd::arithmetic::div_mod::lemma_div_is_ordered(2 * narrow + s, 2 * wide + s, 2 * s);
    } else if wide < 0 {
        vstd::arithmetic::div_mod::lemma_div_is_ordered(-2 * wide + s, -2 * narrow + s, 2 * s);
    } else {
        vstd::arithmetic::div_mod::lemma_div_pos_is_pos(2 * wide + s, 2 * s);
        vstd::arithmetic::div_mod::lemma_div_pos_is_pos(-2 * narrow + s, 2 * s);
    }
}


/// Every input that is not a tab or layout choice dispatches its own
/// action, carrying its value unchanged, whatever the snapshot; the timer
/// inputs poll and tick.
pub proof fn law_routing_table(
    input: AppInput,
    wm_available: bool,
    monitor: i32,
    resolved_tag: Option<usize>,
    step: i32,
)
    ensures
        routed(AppInput::VolumeStep(step), wm_available, monitor, resolved_tag)
            == InputOutcome::Dispatch(UserAction::AdjustVolume(step)),
        routed(AppInput::ToggleLayoutPanel, wm_available, monitor, resolved_tag)
            == InputOutcome::Dispatch(UserAction::ToggleLayoutSelector),
        routed(AppInput::ToggleSeconds, wm_available, monitor, resolved_tag)
            == InputOutcome::Dispatch(UserAction::ToggleSeconds),
        routed(AppInput::ToggleTheme, wm_available, monitor, resolved_tag)
            == InputOutcome::Dispatch(UserAction::ToggleTheme),
        routed(AppInput::ToggleMute, wm_available, monitor, resolved_tag)
            == InputOutcome::Dispatch(UserAction::ToggleMute),
        routed(AppInput::Screenshot, wm_available, monitor, resolved_tag)
            == InputOutcome::Dispatch(UserAction::Screenshot),
        routed(AppInput::PollTransport, wm_available, monitor, resolved_tag)
            == InputOutcome::PollTransport,
        routed(AppInput::Tick, wm_available, monitor, resolved_tag) == InputOutcome::Tick,
{
}

/// Once the window manager is known, a tab choice views the resolved tag
/// and a layout choice sets the chosen layout, both on the snapshot's
/// monitor; a tab index that resolves to no tag is reported with its index.
pub proof fn law_choices_with_wm(index: usize, tag: usize, layout: u32, monitor: i32, wm_available: bool)
    ensures
        routed(AppInput::TabSelected(index), true, monitor, Some(tag)) == InputOutcome::Dispatch(
            UserAction::ViewTagOn { tag, monitor },
        ),
        routed(AppInput::LayoutChanged(layout), true, monitor, None) == InputOutcome::Dispatch(
            UserAction::SetLayoutOn { layout, monitor },
        ),
        routed(AppInput::TabSelected(index), wm_available, monitor, None)
            == InputOutcome::TagOutOfRange(index),
{
}

/// Each child output reaches the application with its value unchanged.
pub proof fn law_child_outputs_keep_values(index: usize, layout: u32, step: i32)
    ensures
        forwarded_workspaces(WorkspacesOutput::Selected(index)) == AppInput::TabSelected(index),
        forwarded_layout_selector(LayoutSelectorOutput::SelectLayout(layout))
            == AppInput::LayoutChanged(layout),
        forwarded_layout_selector(LayoutSelectorOutput::TogglePanel)
            == AppInput::ToggleLayoutPanel,
        forwarded_status_strip(StatusStripOutput::VolumeStep(step)) == AppInput::VolumeStep(step),
        forwarded_status_strip(StatusStripOutput::ToggleSeconds) == AppInput::ToggleSeconds,
        forwarded_status_strip(StatusStripOutput::ToggleTheme) == AppInput::ToggleTheme,
        forwarded_status_strip(StatusStripOutput::ToggleMute) == AppInput::ToggleMute,
        forwarded_status_strip(StatusStripOutput::Screenshot) == AppInput::Screenshot,
{
}

/// While the window manager is known, the widgets get the snapshot as it
/// is: tab `i` shows tag `i`, the active tab is the active tag, the layout
/// symbol is the snapshot's, and a monitor number that fits in a byte is
/// the badge.
pub proof fn law_known_wm_views(snapshot: SnapshotView)
    requires
        snapshot.wm_available,
    ensures
        shown_tags(snapshot) == snapshot.tags@,
        snapshot.active_tag matches Some(tag) ==> shown_active_tab(snapshot) == tag,
        snapshot.active_tag is None ==> shown_active_tab(snapshot) == NO_ACTIVE_TAB,
        shown_layout_symbol(snapshot) == snapshot.layout_symbol@,
        0 <= snapshot.monitor <= 255 ==> shown_monitor_num(snapshot) as int == snapshot.monitor,
        !(0 <= snapshot.monitor <= 255) ==> shown_monitor_num(snapshot) == UNKNOWN_MONITOR_BADGE,
{
}

/// While the window manager is unknown, the strip shows no tags and no
/// active tab, and the layout symbol is the unknown one.
pub proof fn law_unknown_wm_views(snapshot: SnapshotView)
    requires
        !snapshot.wm_available,
    ensures
        shown_tags(snapshot).len() == 0,
        shown_active_tab(snapshot) == NO_ACTIVE_TAB,
        shown_layout_symbol(snapshot) == " ? "@,
        shown_monitor_num(snapshot) == UNKNOWN_MONITOR_BADGE,
{
}


/// The scale a width is divided by: the window's scale, at least 1.
pub open spec fn effective_scale(scale_factor: int) -> int {
    if scale_factor < 1 {
        1
    } else {
        scale_factor
    }
}

/// The bar width is the monitor width over the scale rounded to the
/// nearest whole pixel, halves rounded up: where no clamping applies,
/// `2 * s * width - s <= 2 * physical_width < 2 * s * width + s` for the
/// effective scale `s`.
pub proof fn law_width_is_nearest(physical_width: int, scale_factor: int)
    requires
        2 * physical_width >= effective_scale(scale_factor),
        logical_width(physical_width, scale_factor) < i32::MAX,
    ensures
        2 * effective_scale(scale_factor) * logical_width(physical_width, scale_factor)
            - effective_scale(scale_factor) <= 2 * physical_width,
        2 * physical_width < 2 * effective_scale(scale_factor) * logical_width(
            physical_width,
            scale_factor,
        ) + effective_scale(scale_factor),
{
    let s = effective_scale(scale_factor);
    let n = 2 * physical_width + s;
    let d = 2 * s;
    let q = n / d;
    vstd::arithmetic::div_mod::lemma_fundamental_div_mod(n, d);
    vstd::arithmetic::div_mod::lemma_mod_bound(n, d);
    assert(q >= 1) by {
        vstd::arithmetic::div_mod::lemma_div_is_ordered(d, n, d);
        vstd::arithmetic::div_mod::lemma_div_basics(d);
    }
    assert(d * q == 2 * s * q) by (nonlinear_arith)
        requires
            d == 2 * s,
    ;
}

/// What the platform does for each effect: a monitor geometry resizes the
/// bar to the logical width at the bar's height, clearing it restores the
/// default width, a screenshot and the audio control launch their helpers,
/// a window-manager command without transport warns, and the rest are
/// unhandled.
pub proof fn law_effect_actions(effect: BarEffect, scale_factor: i32)
    ensures
        effect is ApplyMonitorGeometry ==> action_for(effect, scale_factor)
            == (PlatformAction::SetDefaultSize {
            width: logical_width(effect->width as int, scale_factor as int) as i32,
            height: 40,
        }),
        effect == BarEffect::ClearMonitorGeometry ==> action_for(effect, scale_factor)
            == (PlatformAction::SetDefaultSize { width: 1000, height: 40 }),
        effect == BarEffect::Screenshot ==> action_for(effect, scale_factor) == PlatformAction::Launch(
            PlatformHelper::Screenshot,
        ),
        effect == BarEffect::OpenAudioControl ==> action_for(effect, scale_factor)
            == PlatformAction::Launch(PlatformHelper::AudioControl),
        effect == BarEffect::WindowManager ==> action_for(effect, scale_factor)
            == PlatformAction::WarnNoTransport,
        (effect == BarEffect::ToggleMute || effect == BarEffect::AdjustVolume || effect
            == BarEffect::AdjustBrightness || effect == BarEffect::RefreshBattery) ==> action_for(
            effect,
            scale_factor,
        ) == PlatformAction::WarnUnhandled,
        helper_program_name(PlatformHelper::Screenshot) == "flameshot",
        helper_argument_list(PlatformHelper::Screenshot) == seq!["gui"],
        helper_program_name(PlatformHelper::AudioControl) == "pavucontrol",
        helper_argument_list(PlatformHelper::AudioControl).len() == 0,
{
}

/// The root window carries the dark class in the dark theme and the light
/// class otherwise, and the two differ.
pub proof fn law_theme_classes(theme_dark: bool)
    ensures
        theme_class(true) == "theme-dark",
        theme_class(false) == "theme-light",
        theme_class(true) != theme_class(false),
{
    reveal_strlit("theme-dark");
    reveal_strlit("theme-light");
    assert("theme-dark"@[6] != "theme-light"@[6]);
}

} // verus!
