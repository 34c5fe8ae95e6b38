use relm_bar::app::{
    helper_args, helper_program, input_from_layout_selector, input_from_status_strip,
    input_from_workspaces, keeps_child, layout_state_for, logical_bar_width, platform_action,
    plan_runtime_update, root_theme_class, route_input, status_state_for, transport_failed,
    transport_retry_due, wants_transport, workspaces_state_for, AppInput, BarEffect, ChildPoll,
    InputOutcome, PlatformAction, PlatformHelper, RuntimeAdapter, RuntimeIssue, SnapshotView,
    UserAction, BAR_HEIGHT, DEFAULT_BAR_WIDTH, NO_ACTIVE_TAB, UNKNOWN_MONITOR_BADGE,
};
use relm_bar::layout_selector::{LayoutSelectorModel, LayoutSelectorOutput};
use relm_bar::status_strip::{monitor_num_to_icon, StatusStripOutput, UsageLevel, UsageReading};
use relm_bar::workspaces::{TagStatus, WorkspacesModel, WorkspacesOutput, TAB_COUNT};

fn snapshot(wm_available: bool) -> SnapshotView {
    SnapshotView {
        wm_available,
        monitor: 1,
        active_tag: Some(3),
        tags: vec![TagStatus { is_selected: false, is_urg: false, is_filled: false, is_occ: true }; 9],
        layout_symbol: "[]=".to_string(),
        layout_selector_open: true,
        theme_dark: false,
        time: "09:15".to_string(),
        volume_percent: Some(70),
        muted: true,
        cpu_usage: UsageReading { percent: 12, level: UsageLevel::Normal },
        memory_usage: UsageReading { percent: 91, level: UsageLevel::Critical },
    }
}

#[test]
fn tab_choice_routing() {
    let s = snapshot(true);
    assert_eq!(route_input(AppInput::TabSelected(4), &s, Some(4)), InputOutcome::Dispatch(UserAction::ViewTagOn { tag: 4, monitor: 1 }));
    assert_eq!(route_input(AppInput::TabSelected(40), &s, None), InputOutcome::TagOutOfRange(40));
    let u = snapshot(false);
    assert_eq!(route_input(AppInput::TabSelected(4), &u, Some(4)), InputOutcome::TagBeforeSnapshot);
    assert_eq!(route_input(AppInput::TabSelected(40), &u, None), InputOutcome::TagOutOfRange(40));
}

#[test]
fn layout_choice_routing() {
    assert_eq!(route_input(AppInput::LayoutChanged(2), &snapshot(true), None), InputOutcome::Dispatch(UserAction::SetLayoutOn { layout: 2, monitor: 1 }));
    assert_eq!(route_input(AppInput::LayoutChanged(2), &snapshot(false), None), InputOutcome::LayoutBeforeSnapshot);
}

#[test]
fn other_inputs_ignore_wm_state() {
    let cases = [
        (AppInput::ToggleLayoutPanel, InputOutcome::Dispatch(UserAction::ToggleLayoutSelector)),
        (AppInput::ToggleSeconds, InputOutcome::Dispatch(UserAction::ToggleSeconds)),
        (AppInput::ToggleTheme, InputOutcome::Dispatch(UserAction::ToggleTheme)),
        (AppInput::ToggleMute, InputOutcome::Dispatch(UserAction::ToggleMute)),
        (AppInput::VolumeStep(-3), InputOutcome::Dispatch(UserAction::AdjustVolume(-3))),
        (AppInput::Screenshot, InputOutcome::Dispatch(UserAction::Screenshot)),
        (AppInput::PollTransport, InputOutcome::PollTransport),
        (AppInput::Tick, InputOutcome::Tick),
    ];
    for (input, expected) in cases {
        assert_eq!(route_input(input, &snapshot(true), None), expected);
        assert_eq!(route_input(input, &snapshot(false), None), expected);
    }
}

#[test]
fn widget_outputs_become_inputs() {
    assert_eq!(input_from_workspaces(WorkspacesOutput::Selected(5)), AppInput::TabSelected(5));
    assert_eq!(input_from_layout_selector(LayoutSelectorOutput::TogglePanel), AppInput::ToggleLayoutPanel);
    assert_eq!(input_from_layout_selector(LayoutSelectorOutput::SelectLayout(1)), AppInput::LayoutChanged(1));
    assert_eq!(input_from_status_strip(StatusStripOutput::ToggleSeconds), AppInput::ToggleSeconds);
    assert_eq!(input_from_status_strip(StatusStripOutput::ToggleTheme), AppInput::ToggleTheme);
    assert_eq!(input_from_status_strip(StatusStripOutput::ToggleMute), AppInput::ToggleMute);
    assert_eq!(input_from_status_strip(StatusStripOutput::VolumeStep(3)), AppInput::VolumeStep(3));
    assert_eq!(input_from_status_strip(StatusStripOutput::Screenshot), AppInput::Screenshot);
}

#[test]
fn views_with_known_wm() {
    let s = snapshot(true);
    let ws = workspaces_state_for(&s);
    assert_eq!(ws.active_tab, 3);
    assert_eq!(ws.tag_status_vec, s.tags);
    let ls = layout_state_for(&s);
    assert_eq!(ls.layout_symbol, "[]=");
    assert!(ls.layout_open);
    let st = status_state_for(&s);
    assert_eq!(st.current_time, "09:15");
    assert_eq!(st.current_volume, Some(70));
    assert!(st.current_muted);
    assert_eq!(st.cpu_usage.percent, 12);
    assert_eq!(st.memory_usage.level, UsageLevel::Critical);
    assert!(!st.theme_dark);
    assert_eq!(st.monitor_num, 1);
}

#[test]
fn views_with_unknown_wm_are_blank() {
    let s = snapshot(false);
    let ws = workspaces_state_for(&s);
    assert_eq!(ws.active_tab, NO_ACTIVE_TAB);
    assert!(ws.tag_status_vec.is_empty());
    let model = WorkspacesModel::init(ws);
    for i in 0..TAB_COUNT {
        assert_eq!(model.tab_classes(i), vec!["tab-button", "empty"]);
    }
    let ls = layout_state_for(&s);
    assert_eq!(ls.layout_symbol, " ? ");
    assert!(ls.layout_open);
    let lm = LayoutSelectorModel::init(ls);
    for k in 0..3 {
        assert_eq!(lm.option_classes(k), vec!["layout-option"]);
    }
    let st = status_state_for(&s);
    assert_eq!(st.monitor_num, UNKNOWN_MONITOR_BADGE);
    assert_eq!(monitor_num_to_icon(st.monitor_num), "🖥");
    assert_eq!(st.current_time, "09:15");
}

#[test]
fn monitor_badge_out_of_byte_range() {
    let mut s = snapshot(true);
    s.monitor = 256;
    assert_eq!(status_state_for(&s).monitor_num, UNKNOWN_MONITOR_BADGE);
    s.monitor = -1;
    assert_eq!(status_state_for(&s).monitor_num, UNKNOWN_MONITOR_BADGE);
    s.monitor = 255;
    assert_eq!(status_state_for(&s).monitor_num, 255);
    s.monitor = 0;
    assert_eq!(status_state_for(&s).monitor_num, 0);
}

#[test]
fn no_active_tag_shows_no_active_tab() {
    let mut s = snapshot(true);
    s.active_tag = None;
    assert_eq!(workspaces_state_for(&s).active_tab, NO_ACTIVE_TAB);
}

#[test]
fn theme_classes() {
    assert_eq!(root_theme_class(true), "theme-dark");
    assert_eq!(root_theme_class(false), "theme-light");
}

#[test]
fn transport_wanted_and_retried() {
    assert!(wants_transport("/dev/shm/jwm_0"));
    assert!(!wants_transport(""));
    assert!(transport_retry_due("/dev/shm/jwm_0", false, 2000));
    assert!(transport_retry_due("/dev/shm/jwm_0", false, 5000));
    assert!(!transport_retry_due("/dev/shm/jwm_0", false, 1999));
    assert!(!transport_retry_due("/dev/shm/jwm_0", true, 5000));
    assert!(!transport_retry_due("", false, 5000));
}

#[test]
fn transport_failure_detection() {
    assert!(!transport_failed(&vec![]));
    assert!(!transport_failed(&vec![RuntimeIssue::Other, RuntimeIssue::AdapterFailed { adapter: RuntimeAdapter::Other }]));
    assert!(transport_failed(&vec![RuntimeIssue::Other, RuntimeIssue::AdapterFailed { adapter: RuntimeAdapter::Transport }]));
}

#[test]
fn logical_widths() {
    assert_eq!(logical_bar_width(1920, 1), 1920);
    assert_eq!(logical_bar_width(2560, 2), 1280);
    assert_eq!(logical_bar_width(2561, 2), 1281);
    assert_eq!(logical_bar_width(2559, 2), 1280);
    assert_eq!(logical_bar_width(1000, 3), 333);
    assert_eq!(logical_bar_width(1001, 3), 334);
    assert_eq!(logical_bar_width(1920, 0), 1920);
    assert_eq!(logical_bar_width(1920, -4), 1920);
    assert_eq!(logical_bar_width(0, 1), 1);
    assert_eq!(logical_bar_width(-500, 2), 1);
    assert_eq!(logical_bar_width(u32::MAX as i64, 1), i32::MAX);
}

#[test]
fn logical_width_matches_float_rounding() {
    for w in [0i64, 1, 2, 3, 5, 7, 1279, 1280, 1281, 2559, 2561, 3839, 4095, 65535, 4294967295, -3, -1] {
        for s in [1i32, 2, 3, 4, 7, 10, 255, 1 << 20] {
            let f = (w as f64 / f64::from(s.max(1))).round().clamp(1.0, f64::from(i32::MAX)) as i32;
            assert_eq!(logical_bar_width(w, s), f, "{w} {s}");
        }
    }
}

#[test]
fn wider_monitor_never_narrower_bar() {
    let mut prev = logical_bar_width(-10, 3);
    for w in -9..3000i64 {
        let cur = logical_bar_width(w, 3);
        assert!(cur >= prev);
        prev = cur;
    }
}

#[test]
fn platform_actions_per_effect() {
    assert_eq!(platform_action(BarEffect::ApplyMonitorGeometry { width: 3840 }, 2), PlatformAction::SetDefaultSize { width: 1920, height: BAR_HEIGHT });
    assert_eq!(platform_action(BarEffect::ClearMonitorGeometry, 2), PlatformAction::SetDefaultSize { width: DEFAULT_BAR_WIDTH, height: 40 });
    assert_eq!(platform_action(BarEffect::Screenshot, 1), PlatformAction::Launch(PlatformHelper::Screenshot));
    assert_eq!(platform_action(BarEffect::OpenAudioControl, 1), PlatformAction::Launch(PlatformHelper::AudioControl));
    assert_eq!(platform_action(BarEffect::WindowManager, 1), PlatformAction::WarnNoTransport);
    for e in [BarEffect::ToggleMute, BarEffect::AdjustVolume, BarEffect::AdjustBrightness, BarEffect::RefreshBattery] {
        assert_eq!(platform_action(e, 1), PlatformAction::WarnUnhandled);
    }
}

#[test]
fn helper_programs() {
    assert_eq!(helper_program(PlatformHelper::Screenshot), "flameshot");
    assert_eq!(helper_args(PlatformHelper::Screenshot), vec!["gui"]);
    assert_eq!(helper_program(PlatformHelper::AudioControl), "pavucontrol");
    assert!(helper_args(PlatformHelper::AudioControl).is_empty());
}

#[test]
fn runtime_update_plan() {
    let issues = vec![RuntimeIssue::AdapterFailed { adapter: RuntimeAdapter::Transport }];
    let effects = vec![BarEffect::Screenshot, BarEffect::ApplyMonitorGeometry { width: 1920 }, BarEffect::RefreshBattery];
    let plan = plan_runtime_update(&issues, &effects, true, 1);
    assert_eq!(plan.actions, vec![
        PlatformAction::Launch(PlatformHelper::Screenshot),
        PlatformAction::SetDefaultSize { width: 1920, height: 40 },
        PlatformAction::WarnUnhandled,
    ]);
    assert!(plan.drop_transport);
    assert!(plan.redraw);
    let quiet = plan_runtime_update(&vec![RuntimeIssue::Other], &vec![], false, 1);
    assert!(quiet.actions.is_empty());
    assert!(!quiet.drop_transport);
    assert!(!quiet.redraw);
}

#[test]
fn children_kept_while_running() {
    assert!(keeps_child(ChildPoll::Running));
    assert!(!keeps_child(ChildPoll::Exited));
    assert!(!keeps_child(ChildPoll::WaitFailed));
}

#[test]
fn child_outputs_become_distinct_inputs() {
    let mut inputs = vec![
        input_from_layout_selector(LayoutSelectorOutput::TogglePanel),
        input_from_status_strip(StatusStripOutput::ToggleSeconds),
        input_from_status_strip(StatusStripOutput::ToggleTheme),
        input_from_status_strip(StatusStripOutput::ToggleMute),
        input_from_status_strip(StatusStripOutput::Screenshot),
    ];
    for i in 0..3 {
        inputs.push(input_from_workspaces(WorkspacesOutput::Selected(i)));
        inputs.push(input_from_layout_selector(LayoutSelectorOutput::SelectLayout(i as u32)));
        inputs.push(input_from_status_strip(StatusStripOutput::VolumeStep(i as i32)));
    }
    for a in 0..inputs.len() {
        assert_ne!(inputs[a], AppInput::Tick);
        assert_ne!(inputs[a], AppInput::PollTransport);
        for b in 0..inputs.len() {
            if a != b {
                assert_ne!(inputs[a], inputs[b]);
            }
        }
    }
}
