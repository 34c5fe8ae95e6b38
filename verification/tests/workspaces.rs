use relm_bar::workspaces::{
    button_classes, classes_mask_for, pick_emoji, TagStatus, WorkspacesInput, WorkspacesModel,
    WorkspacesState, CLS_EMPTY, CLS_FILLED, CLS_OCCUPIED, CLS_SELECTED, CLS_URGENT,
};

fn tag(is_selected: bool, is_urg: bool, is_filled: bool, is_occ: bool) -> TagStatus {
    TagStatus { is_selected, is_urg, is_filled, is_occ }
}

#[test]
fn emoji_per_tab() {
    let expected = ["🖥", "🌐", "📁", "💬", "📝", "🎵", "⚙", "📊", "🏠"];
    for (i, e) in expected.iter().enumerate() {
        assert_eq!(pick_emoji(i), *e);
    }
    assert_eq!(pick_emoji(9), "❔");
    assert_eq!(pick_emoji(usize::MAX), "❔");
}

#[test]
fn mask_priorities() {
    assert_eq!(classes_mask_for(Some(&tag(true, true, true, true)), true), CLS_URGENT);
    assert_eq!(classes_mask_for(Some(&tag(true, false, true, true)), false), CLS_FILLED);
    assert_eq!(classes_mask_for(Some(&tag(true, false, false, true)), false), CLS_SELECTED | CLS_OCCUPIED);
    assert_eq!(classes_mask_for(Some(&tag(true, false, false, false)), false), CLS_SELECTED);
    assert_eq!(classes_mask_for(Some(&tag(false, false, false, true)), true), CLS_SELECTED);
    assert_eq!(classes_mask_for(Some(&tag(false, false, false, true)), false), CLS_OCCUPIED);
    assert_eq!(classes_mask_for(Some(&tag(false, false, false, false)), false), CLS_EMPTY);
    assert_eq!(classes_mask_for(None, true), CLS_SELECTED);
    assert_eq!(classes_mask_for(None, false), CLS_EMPTY);
}

#[test]
fn button_class_lists() {
    assert_eq!(button_classes(Some(&tag(true, false, false, true)), false), vec!["tab-button", "selected", "occupied"]);
    assert_eq!(button_classes(Some(&tag(false, true, false, false)), true), vec!["tab-button", "urgent"]);
    assert_eq!(button_classes(Some(&tag(false, false, true, false)), true), vec!["tab-button", "filled"]);
    assert_eq!(button_classes(None, true), vec!["tab-button", "selected"]);
    assert_eq!(button_classes(None, false), vec!["tab-button", "empty"]);
}

#[test]
fn urgent_overrides_everything() {
    for bits in 0..8u8 {
        let t = tag(bits & 1 != 0, true, bits & 2 != 0, bits & 4 != 0);
        for active in [false, true] {
            assert_eq!(button_classes(Some(&t), active), vec!["tab-button", "urgent"]);
        }
    }
}

#[test]
fn active_tab_is_selected_unless_urgent_or_filled() {
    for bits in 0..4u8 {
        let t = tag(bits & 1 != 0, false, false, bits & 2 != 0);
        assert!(button_classes(Some(&t), true).contains(&"selected"));
    }
    assert!(button_classes(None, true).contains(&"selected"));
}

#[test]
fn every_tab_has_one_or_two_state_classes() {
    for bits in 0..16u8 {
        let t = tag(bits & 1 != 0, bits & 2 != 0, bits & 4 != 0, bits & 8 != 0);
        for active in [false, true] {
            let c = button_classes(Some(&t), active);
            assert_eq!(c[0], "tab-button");
            assert!(c.len() == 2 || c.len() == 3);
            if c.contains(&"empty") {
                assert_eq!(c.len(), 2);
            }
        }
    }
}

#[test]
fn workspaces_model_sync_and_tabs() {
    let mut model = WorkspacesModel::init(WorkspacesState::default());
    assert_eq!(model.state().active_tab, 0);
    assert!(model.state().tag_status_vec.is_empty());
    assert_eq!(model.tab_classes(0), vec!["tab-button", "selected"]);
    assert_eq!(model.tab_classes(1), vec!["tab-button", "empty"]);
    let state = WorkspacesState {
        active_tab: 2,
        tag_status_vec: vec![tag(false, true, false, false), tag(false, false, false, true), tag(false, false, false, false)],
    };
    model.update(WorkspacesInput::Sync(state));
    assert_eq!(model.state().active_tab, 2);
    assert_eq!(model.state().tag_status_vec.len(), 3);
    assert_eq!(model.tab_classes(0), vec!["tab-button", "urgent"]);
    assert_eq!(model.tab_classes(1), vec!["tab-button", "occupied"]);
    assert_eq!(model.tab_classes(2), vec!["tab-button", "selected"]);
    assert_eq!(model.tab_classes(3), vec!["tab-button", "empty"]);
}
