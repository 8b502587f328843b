use tachyomancer::begin::{on_confirm_buttons, BeginAction, BeginPhase};
use tachyomancer::camera::is_hotkey_held;
use tachyomancer::chip::{chip_icon_is_fixed, ChipIcon};
use tachyomancer::dialog::{
    button_dialog_layout, const_dialog_choice, dialog_choice, text_dialog_choice, hotkey_dialog_layout, score_graph_dialog_layout,
    text_dialog_layout, wire_size_dialog_layout, wire_size_label, DialogAction,
};
use tachyomancer::geom::CoordsRect;
use tachyomancer::lists::circuit_list_items;

fn rect(x: i32, y: i32, w: i32, h: i32) -> CoordsRect {
    CoordsRect { x, y, width: w, height: h }
}

#[test]
fn button_dialog_lays_out_buttons_right_to_left() {
    let (dialog, buttons) = button_dialog_layout(800, 600, 300, 50, &vec![20, 100]);
    assert_eq!(dialog, rect(226, 223, 348, 154));
    assert_eq!(buttons, vec![rect(470, 313, 80, 40), rect(336, 313, 120, 40)]);
    // Wide button rows widen the dialog.
    let (dialog, _) = button_dialog_layout(800, 600, 10, 0, &vec![400, 400]);
    assert_eq!(dialog.width, 420 + 14 + 420 + 48);
    assert_eq!(dialog.x, -51);
}

#[test]
fn score_graph_dialog_layout_centers_graph() {
    let (dialog, graph, buttons) = score_graph_dialog_layout(800, 600, 100, 20, &vec![10]);
    assert_eq!(dialog, rect(251, 105, 298, 390));
    assert_eq!(graph, rect(275, 165, 250, 250));
    assert_eq!(buttons, vec![rect(445, 431, 80, 40)]);
}

#[test]
fn text_dialog_layout_places_textbox_and_buttons() {
    let (dialog, textbox, ok, cancel) = text_dialog_layout(800, 600, 100, 24);
    assert_eq!(dialog, rect(289, 212, 222, 176));
    assert_eq!(textbox, rect(313, 276, 174, 32));
    assert_eq!(ok, rect(407, 324, 80, 40));
    assert_eq!(cancel, rect(313, 324, 80, 40));
}

#[test]
fn hotkey_dialog_layout_centers_box() {
    let (dialog, hotkey_box, ok, cancel) = hotkey_dialog_layout(800, 600, 100, 24, 200, 30);
    assert_eq!(dialog, rect(276, 213, 248, 174));
    assert_eq!(hotkey_box, (300, 277));
    assert_eq!(ok, rect(420, 323, 80, 40));
    assert_eq!(cancel, rect(326, 323, 80, 40));
}

#[test]
fn wire_size_dialog_fills_columns() {
    let (dialog, boxes, ok, cancel) = wire_size_dialog_layout(800, 600, 100, 24, 5, 20);
    assert_eq!(dialog, rect(272, 192, 256, 216));
    assert_eq!(boxes, vec![(296, 256), (296, 282), (296, 308), (408, 256), (408, 282)]);
    assert_eq!(ok, rect(424, 344, 80, 40));
    assert_eq!(cancel, rect(330, 344, 80, 40));
    assert_eq!(wire_size_label(8), "8-bit");
    assert_eq!(wire_size_label(16), "16-bit");
}

#[test]
fn dialog_choices() {
    assert!(matches!(dialog_choice(true, true, 5), Some(DialogAction::Value(5))));
    assert!(matches!(dialog_choice(false, true, 5), Some(DialogAction::Cancel)));
    assert!(dialog_choice(false, false, 5).is_none());
}

#[test]
fn circuit_list_starts_with_new_circuit() {
    let items = circuit_list_items(&vec!["a".to_string(), "b".to_string()]);
    assert_eq!(items.len(), 3);
    assert_eq!(items[0].value, "");
    assert_eq!(items[0].label, "    [New Circuit]");
    assert_eq!(items[1].value, "b");
    assert_eq!(items[2].label, "a");
    assert!(!items[2].marked);
}

#[test]
fn fixed_chip_icons() {
    assert!(chip_icon_is_fixed(ChipIcon::Halve));
    assert!(chip_icon_is_fixed(ChipIcon::Random));
    assert!(chip_icon_is_fixed(ChipIcon::Sub));
    assert!(!chip_icon_is_fixed(ChipIcon::Add));
}

#[test]
fn held_hotkeys() {
    assert!(is_hotkey_held(&vec![3, 7], 7));
    assert!(!is_hotkey_held(&vec![3, 7], 4));
    assert!(!is_hotkey_held(&vec![], 4));
}

#[test]
fn confirming_a_name() {
    let (action, phase) = on_confirm_buttons(BeginPhase::Confirm("Zed".to_string()), true, false);
    assert!(matches!(action, Some(BeginAction::CreateProfile(n)) if n == "Zed"));
    assert!(matches!(phase, BeginPhase::Confirm(_)));
    let (action, phase) = on_confirm_buttons(BeginPhase::Confirm("Zed".to_string()), false, true);
    assert!(action.is_none());
    assert!(matches!(phase, BeginPhase::Entry));
    let (action, phase) = on_confirm_buttons(BeginPhase::Entry, true, true);
    assert!(action.is_none());
    assert!(matches!(phase, BeginPhase::Entry));
}

#[test]
fn text_dialog_ok_needs_valid_text() {
    assert!(matches!(text_dialog_choice("abc".to_string(), true, true, false),
        Some(DialogAction::Value(v)) if v == "abc"));
    assert!(text_dialog_choice("abc".to_string(), false, true, false).is_none());
    assert!(matches!(text_dialog_choice("abc".to_string(), false, true, true), Some(DialogAction::Cancel)));
    assert!(matches!(const_dialog_choice("255".to_string(), true, false),
        Some(DialogAction::Value(v)) if v == "255"));
    assert!(const_dialog_choice("256".to_string(), true, false).is_none());
    assert!(const_dialog_choice("x1".to_string(), true, false).is_none());
}
