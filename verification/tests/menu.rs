use tachyomancer::geom::CoordsRect;
use tachyomancer::nav::{ship_status_text, solar_panels_text};
use tachyomancer::puzzles::{copy_and_delete_enabled, puzzles_layout};
use tachyomancer::menu::MenuSection::{Messages, Navigation, Prefs, Puzzles};
use tachyomancer::menu::{
    begin_slide, delete_circuit_prompt, menu_route, MenuRoute, delete_profile_prompt, error_prompt, past_left,
    past_right, section_button_rect, section_enabled, section_rect,
    slide_goal, MenuSection, SlideCarry, SlideGoal, SlideStart,
};

#[test]
fn section_buttons_share_the_width() {
    // 1000 pixels: 1000 - 80 - 60 = 860 for four buttons of 215.
    assert_eq!(section_button_rect(1000, 0), CoordsRect::new(40, 40, 215, 50));
    assert_eq!(section_button_rect(1000, 3), CoordsRect::new(745, 40, 215, 50));
    assert_eq!(section_rect(1000, 700), CoordsRect::new(40, 120, 920, 540));
    assert_eq!(MenuSection::Puzzles.label(), "Tasks");
    assert!(!section_enabled(MenuSection::Puzzles, false));
    assert!(section_enabled(MenuSection::Puzzles, true));
    assert!(section_enabled(MenuSection::Prefs, false));
}

#[test]
fn slides_begin_toward_the_goal() {
    assert_eq!(begin_slide(Puzzles, Puzzles, Messages), (Messages, Puzzles, Some(SlideStart::AtRight)));
    assert_eq!(begin_slide(Messages, Messages, Prefs), (Messages, Prefs, Some(SlideStart::AtLeft)));
    assert_eq!(begin_slide(Messages, Messages, Messages), (Messages, Messages, None));
    assert_eq!(begin_slide(Messages, Prefs, Navigation), (Messages, Prefs, None));
}

#[test]
fn slide_goals_and_carries() {
    assert_eq!(slide_goal(Messages, Prefs, Messages, true), SlideGoal::Left);
    assert_eq!(slide_goal(Messages, Prefs, Prefs, true), SlideGoal::Right);
    assert_eq!(slide_goal(Messages, Prefs, Navigation, false), SlideGoal::BeforeLeft);
    assert_eq!(slide_goal(Navigation, Puzzles, Prefs, true), SlideGoal::AfterRight);
    assert_eq!(slide_goal(Navigation, Puzzles, Messages, true), SlideGoal::BeforeLeft);
    assert_eq!(slide_goal(Navigation, Puzzles, Messages, false), SlideGoal::AfterRight);
    assert_eq!(past_left(Messages, Prefs, Navigation), (Navigation, Messages, SlideCarry::Shift, SlideGoal::Left));
    assert_eq!(past_left(Navigation, Prefs, Puzzles), (Navigation, Puzzles, SlideCarry::Reflect, SlideGoal::Right));
    assert_eq!(past_right(Navigation, Messages, Prefs), (Messages, Prefs, SlideCarry::Shift, SlideGoal::Right));
    assert_eq!(past_right(Navigation, Prefs, Messages), (Messages, Prefs, SlideCarry::Reflect, SlideGoal::Left));
}

#[test]
fn navigation_panels() {
    assert_eq!(
        ship_status_text(true, false),
        "$C $/$*H.L.S. Odyssey$*$/\n    LTF: $ROFFLINE$C\n Backup: $GONLINE$C\nSensors: $ROFFLINE$C\n  Orbit: $GSTABLE"
    );
    assert_eq!(solar_panels_text(true), "$CSolar panels\n$G(functional)");
    assert_eq!(solar_panels_text(false), "$CSolar panels\n    $R(jammed)");
}

#[test]
fn tasks_section_layout() {
    let l = puzzles_layout(CoordsRect::new(0, 0, 1000, 600));
    assert_eq!(l.puzzle_list, CoordsRect::new(0, 0, 250, 600));
    assert_eq!(l.graph, CoordsRect::new(709, 0, 291, 291));
    assert_eq!(l.description, CoordsRect::new(268, 0, 423, 291));
    assert_eq!(l.back_button, CoordsRect::new(268, 251, 90, 40));
    assert_eq!(l.circuit_list, CoordsRect::new(268, 309, 240, 291));
    assert_eq!(l.preview, CoordsRect::new(526, 309, 366, 291));
    assert_eq!(l.edit_button, CoordsRect::new(910, 309, 90, 59));
    assert_eq!(l.rename_button, CoordsRect::new(910, 386, 90, 59));
    assert_eq!(l.copy_button, CoordsRect::new(910, 463, 90, 59));
    assert_eq!(l.delete_button, CoordsRect::new(910, 540, 90, 59));
    assert!(copy_and_delete_enabled("My circuit"));
    assert!(!copy_and_delete_enabled(""));
}

#[test]
fn confirmation_prompts_show_names_literally() {
    assert_eq!(delete_circuit_prompt("Cost$aver"), "Really delete Cost$$aver?");
    assert_eq!(
        delete_profile_prompt("Ann"),
        "Are you sure you want to delete all progress\non profile \"Ann\"?\n\nThis cannot be undone!"
    );
    assert_eq!(
        error_prompt("save circuit", "disk $full"),
        "$R$*ERROR:$*$D Unable to save circuit.\n\ndisk $$full"
    );
}

#[test]
fn menu_dialogs_hold_events() {
    assert_eq!(menu_route(true, false, true), MenuRoute { to_section: false, to_buttons: false });
    assert_eq!(menu_route(true, true, false), MenuRoute { to_section: true, to_buttons: true });
    assert_eq!(menu_route(false, false, false), MenuRoute { to_section: false, to_buttons: true });
    assert_eq!(menu_route(false, false, true), MenuRoute { to_section: true, to_buttons: true });
}
