use relm_bar::layout_selector::{
    layout_option_classes, layout_option_label, layout_option_marker, layout_toggle_classes,
    LayoutSelectorInput, LayoutSelectorModel, LayoutSelectorOutput, LayoutSelectorState,
};

#[test]
fn toggle_classes_open_and_closed() {
    assert_eq!(layout_toggle_classes(true), vec!["layout-toggle", "open"]);
    assert_eq!(layout_toggle_classes(false), vec!["layout-toggle", "closed"]);
}

#[test]
fn option_classes_mark_current() {
    assert_eq!(layout_option_classes(true), vec!["layout-option", "current"]);
    assert_eq!(layout_option_classes(false), vec!["layout-option"]);
}

#[test]
fn option_labels_and_markers() {
    assert_eq!(layout_option_label(0), "[]=");
    assert_eq!(layout_option_label(1), "<><>");
    assert_eq!(layout_option_label(2), "[M]");
    assert_eq!(layout_option_marker(0), "[]=");
    assert_eq!(layout_option_marker(1), "><>");
    assert_eq!(layout_option_marker(2), "[M]");
}

#[test]
fn layout_model_marks_the_option_in_the_symbol() {
    let mut model = LayoutSelectorModel::init(LayoutSelectorState::default());
    assert_eq!(model.state().layout_symbol, "");
    assert!(!model.state().layout_open);
    assert_eq!(model.option_classes(0), vec!["layout-option"]);
    model.update(LayoutSelectorInput::Sync(LayoutSelectorState { layout_symbol: "<><>".to_string(), layout_open: true }));
    assert_eq!(model.state().layout_symbol, "<><>");
    assert!(model.state().layout_open);
    assert_eq!(model.option_classes(0), vec!["layout-option"]);
    assert_eq!(model.option_classes(1), vec!["layout-option", "current"]);
    assert_eq!(model.option_classes(2), vec!["layout-option"]);
    model.update(LayoutSelectorInput::Sync(LayoutSelectorState { layout_symbol: "[M] 3".to_string(), layout_open: false }));
    assert_eq!(model.option_classes(2), vec!["layout-option", "current"]);
    assert_eq!(model.option_classes(0), vec!["layout-option"]);
}

#[test]
fn layout_outputs_compare() {
    assert_eq!(LayoutSelectorOutput::SelectLayout(2), LayoutSelectorOutput::SelectLayout(2));
    assert_ne!(LayoutSelectorOutput::SelectLayout(1), LayoutSelectorOutput::TogglePanel);
}
