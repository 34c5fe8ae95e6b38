//! The status strip: CPU and memory gauges, volume, theme, screenshot, clock
//! and monitor badge.
use crate::text::{decimal_string, int_decimal, law_decimal_roundtrip, parsed_i32};
use vstd::prelude::*;

verus! {

/// The volume change of one scroll step on the volume button, in percent.
pub const VOLUME_SCROLL_STEP: i32 = 3;

/// How loaded a gauge is: below half, from half, from three quarters, from
/// nine tenths.
#[derive(Clone, Copy, Debug, PartialEq, Eq, Structural)]
pub enum UsageLevel {
    Normal,
    Warn,
    High,
    Critical,
}

/// One gauge reading: the load as a whole percent and its level.
#[derive(Clone, Copy, Debug, PartialEq, Eq, Structural)]
pub struct UsageReading {
    pub percent: i32,
    pub level: UsageLevel,
}

/// What the strip shows.
#[derive(Clone, Debug)]
pub struct StatusStripState {
    pub current_time: String,
    pub current_volume: Option<i32>,
    pub current_muted: bool,
    pub cpu_usage: UsageReading,
    pub memory_usage: UsageReading,
    pub theme_dark: bool,
    pub monitor_num: u8,
}

/// The reading of an idle gauge.
pub open spec fn idle_reading() -> UsageReading {
    UsageReading { percent: 0, level: UsageLevel::Normal }
}

impl Default for StatusStripState {
    /// No time, no volume, unmuted, idle gauges, dark theme, first monitor.
    fn default() -> (s: Self)
        ensures
            s.current_time@ == Seq::<char>::empty(),
            s.current_volume is None,
            !s.current_muted,
            s.cpu_usage == idle_reading(),
            s.memory_usage == idle_reading(),
            s.theme_dark,
            s.monitor_num == 0,
    {
        StatusStripState {
            current_time: String::new(),
            current_volume: None,
            current_muted: false,
            cpu_usage: UsageReading { percent: 0, level: UsageLevel::Normal },
            memory_usage: UsageReading { percent: 0, level: UsageLevel::Normal },
            theme_dark: true,
            monitor_num: 0,
        }
    }
}

/// Messages the strip takes.
#[derive(Clone, Debug)]
pub enum StatusStripInput {
    Sync(StatusStripState),
}

/// Messages the strip sends.
#[derive(Clone, Copy, Debug, PartialEq, Eq, Structural)]
pub enum StatusStripOutput {
    ToggleSeconds,
    ToggleTheme,
    ToggleMute,
    VolumeStep(i32),
    Screenshot,
}

/// Which way the wheel turned over the volume button.
#[derive(Clone, Copy, Debug, PartialEq, Eq, Structural)]
pub enum ScrollDirection {
    Up,
    Down,
}

/// The volume step of one scroll: up raises, down lowers.
pub fn volume_step_for_scroll(direction: ScrollDirection) -> (step: i32)
    ensures
        direction == ScrollDirection::Up ==> step == VOLUME_SCROLL_STEP,
        direction == ScrollDirection::Down ==> step == -VOLUME_SCROLL_STEP,
{
    match direction {
        ScrollDirection::Up => VOLUME_SCROLL_STEP,
        ScrollDirection::Down => -VOLUME_SCROLL_STEP,
    }
}

/// The badge of monitor `monitor_num`: medals for the first three, a screen
/// for any other.
pub open spec fn monitor_icon(monitor_num: u8) -> &'static str {
    if monitor_num == 0 {
        "🥇"
    } else if monitor_num == 1 {
        "🥈"
    } else if monitor_num == 2 {
        "🥉"
    } else {
        "🖥"
    }
}

/// The badge of a monitor.
pub fn monitor_num_to_icon(monitor_num: u8) -> (icon: &'static str)
    ensures
        icon == monitor_icon(monitor_num),
{
    match monitor_num {
        0 => "🥇",
        1 => "🥈",
        2 => "🥉",
        _ => "🖥",
    }
}

/// The CSS class of a load level.
pub open spec fn level_class(level: UsageLevel) -> &'static str {
    match level {
        UsageLevel::Normal => "level-ok",
        UsageLevel::Warn => "level-warn",
        UsageLevel::High => "level-high",
        UsageLevel::Critical => "level-crit",
    }
}

/// The CSS class of a load level.
pub fn usage_level_class(level: UsageLevel) -> (class: &'static str)
    ensures
        class == level_class(level),
{
    match level {
        UsageLevel::Normal => "level-ok",
        UsageLevel::Warn => "level-warn",
        UsageLevel::High => "level-high",
        UsageLevel::Critical => "level-crit",
    }
}

/// The label of a gauge: its title, a space, the percent and `%`.
pub open spec fn metric_label(title: Seq<char>, percent: i32) -> Seq<char> {
    title + " "@ + int_decimal(percent as int) + "%"@
}

/// The label of a gauge titled `title` at `percent`.
pub fn metric_text(title: &str, percent: i32) -> (label: String)
    ensures
        label@ == metric_label(title@, percent),
{
    let mut label = String::new();
    label.append(title);
    label.append(" ");
    let digits = decimal_string(percent);
    label.append(digits.as_str());
    label.append("%");
    assert(label@ =~= metric_label(title@, percent));
    label
}

/// The CSS classes of a gauge: `metric-label` and its level's class.
pub fn metric_classes(level: UsageLevel) -> (classes: Vec<&'static str>)
    ensures
        classes@ == seq!["metric-label", level_class(level)],
{
    let mut classes: Vec<&'static str> = Vec::new();
    classes.push("metric-label");
    classes.push(usage_level_class(level));
    assert(classes@ =~= seq!["metric-label", level_class(level)]);
    classes
}

/// The label of the volume button: a speaker, crossed out when muted, and
/// the volume, or `--` while it is unknown.
pub open spec fn volume_text(current_volume: Option<i32>, current_muted: bool) -> Seq<char> {
    match current_volume {
        Some(volume) => (if current_muted {
            " 🔇 "@
        } else {
            " 🔊 "@
        }) + int_decimal(volume as int) + "% "@,
        None => " 🔊 --% "@,
    }
}

/// The label of the volume button.
pub fn volume_label(current_volume: Option<i32>, current_muted: bool) -> (label: String)
    ensures
        label@ == volume_text(current_volume, current_muted),
{
    match current_volume {
        Some(volume) => {
            let mut label = String::new();
            if current_muted {
                label.append(" 🔇 ");
            } else {
                label.append(" 🔊 ");
            }
            let digits = decimal_string(volume);
            label.append(digits.as_str());
            label.append("% ");
            assert(label@ =~= volume_text(current_volume, current_muted));
            label
        },
        None => String::from_str(" 🔊 --% "),
    }
}

/// The label of the theme button: a moon in the dark theme, a sun in the
/// light one.
pub open spec fn theme_icon(theme_dark: bool) -> &'static str {
    if theme_dark {
        " 🌙 "
    } else {
        " ☀️ "
    }
}

/// The label of the theme button.
pub fn theme_label(theme_dark: bool) -> (label: &'static str)
    ensures
        label == theme_icon(theme_dark),
{
    if theme_dark {
        " 🌙 "
    } else {
        " ☀️ "
    }
}

/// The model of the strip: the state it last received.
pub struct StatusStripModel {
    state: StatusStripState,
}

impl View for StatusStripModel {
    type V = StatusStripState;

    closed spec fn view(&self) -> StatusStripState {
        self.state
    }
}

impl StatusStripModel {
    /// A strip showing `state`.
    pub fn init(state: StatusStripState) -> (model: Self)
        ensures
            model@ == state,
    {
        StatusStripModel { state }
    }

    /// Applies a message: a sync replaces the whole state.
    pub fn update(&mut self, msg: StatusStripInput)
        ensures
            match msg {
                StatusStripInput::Sync(state) => final(self)@ == state,
            },
    {
        match msg {
            StatusStripInput::Sync(state) => self.state = state,
        }
    }

    /// The state the strip shows.
    pub fn state(&self) -> (s: &StatusStripState)
        ensures
            *s == self@,
    {
        &self.state
    }
}


/// The volume label shows the volume: between its speaker (three
/// characters) and the closing `% `, its text parses back to the volume,
/// muted or not; muting changes only the speaker; an unknown volume shows
/// the same label muted or not.
pub proof fn law_volume_label_shows_volume(volume: i32, muted: bool)
    ensures
        ({
            let label = volume_text(Some(volume), muted);
            &&& label.len() >= 5
            &&& parsed_i32(label.subrange(3, label.len() - 2)) == Some(volume)
            &&& label.subrange(label.len() - 2, label.len() as int) == "% "@
        }),
        volume_text(Some(volume), true).subrange(3, volume_text(Some(volume), true).len() as int)
            == volume_text(Some(volume), false).subrange(
            3,
            volume_text(Some(volume), false).len() as int,
        ),
        volume_text(Some(volume), true) != volume_text(Some(volume), false),
        volume_text(None, true) == volume_text(None, false),
{
    reveal_strlit(" 🔇 ");
    reveal_strlit(" 🔊 ");
    reveal_strlit("% ");
    law_decimal_roundtrip(volume);
    let digits = int_decimal(volume as int);
    lemma_decimal_nonempty(volume as int);
    let label = volume_text(Some(volume), muted);
    assert(label.subrange(3, label.len() - 2) =~= digits);
    assert(label.subrange(label.len() - 2, label.len() as int) =~= "% "@);
    let a = volume_text(Some(volume), true);
    let b = volume_text(Some(volume), false);
    assert(a.subrange(3, a.len() as int) =~= b.subrange(3, b.len() as int));
    assert(a[1] != b[1]);
}

proof fn lemma_decimal_nonempty(x: int)
    ensures
        int_decimal(x).len() >= 1,
{
    if x < 0 {
        lemma_nat_decimal_nonempty((-x) as nat);
    } else {
        lemma_nat_decimal_nonempty(x as nat);
    }
}

proof fn lemma_nat_decimal_nonempty(n: nat)
    ensures
        crate::text::nat_decimal(n).len() >= 1,
{
}

/// A gauge label is its title, a space, then text that parses back to the
/// percent, then `%`.
pub proof fn law_metric_label_shows_percent(title: Seq<char>, percent: i32)
    ensures
        ({
            let label = metric_label(title, percent);
            &&& label.subrange(0, title.len() as int) == title
            &&& label[title.len() as int] == ' '
            &&& parsed_i32(label.subrange(title.len() as int + 1, label.len() - 1)) == Some(percent)
            &&& label[label.len() - 1] == '%'
        }),
{
    reveal_strlit(" ");
    reveal_strlit("%");
    law_decimal_roundtrip(percent);
    lemma_decimal_nonempty(percent as int);
    let label = metric_label(title, percent);
    assert(label.subrange(0, title.len() as int) =~= title);
    assert(label.subrange(title.len() as int + 1, label.len() - 1) =~= int_decimal(percent as int));
}

/// The badges: medals for the first three monitors, all different, and the
/// generic screen for every other monitor.
pub proof fn law_monitor_badges(monitor_num: u8)
    ensures
        monitor_icon(0) == "🥇",
        monitor_icon(1) == "🥈",
        monitor_icon(2) == "🥉",
        monitor_num >= 3 ==> monitor_icon(monitor_num) == "🖥",
        monitor_num < 3 ==> monitor_icon(monitor_num) != "🖥",
        monitor_icon(0) != monitor_icon(1) && monitor_icon(1) != monitor_icon(2) && monitor_icon(0)
            != monitor_icon(2),
{
    reveal_strlit("🥇");
    reveal_strlit("🥈");
    reveal_strlit("🥉");
    reveal_strlit("🖥");
    assert("🥇"@[0] != "🥈"@[0]);
    assert("🥈"@[0] != "🥉"@[0]);
    assert("🥇"@[0] != "🥉"@[0]);
    assert("🥇"@[0] != "🖥"@[0]);
    assert("🥈"@[0] != "🖥"@[0]);
    assert("🥉"@[0] != "🖥"@[0]);
}

/// Each load level has its own class: `level-ok`, `level-warn`,
/// `level-high`, `level-crit`, in rising order of load.
pub proof fn law_level_classes()
    ensures
        level_class(UsageLevel::Normal) == "level-ok",
        level_class(UsageLevel::Warn) == "level-warn",
        level_class(UsageLevel::High) == "level-high",
        level_class(UsageLevel::Critical) == "level-crit",
{
}

/// The theme button shows a moon in the dark theme and a sun in the light
/// one.
pub proof fn law_theme_icons()
    ensures
        theme_icon(true) == " 🌙 ",
        theme_icon(false) == " ☀️ ",
        theme_icon(true) != theme_icon(false),
{
    reveal_strlit(" 🌙 ");
    reveal_strlit(" ☀️ ");
    assert(" 🌙 "@[1] != " ☀️ "@[1]);
}


/// An idle gauge reads 0 percent at the normal level.
pub proof fn law_idle_reading()
    ensures
        idle_reading().percent == 0,
        idle_reading().level == UsageLevel::Normal,
{
}

} // verus!
