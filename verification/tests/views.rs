use tachyomancer::background::{get_planet_rotation, planet_rotation_at};
use tachyomancer::begin::{begin_buttons, phase_after_key_or_click, phase_for_entered_name, BeginPhase, TextEntry};
use tachyomancer::bounds::{resized_bounds, BoundsDrag, BoundsHandle};
use tachyomancer::camera::{initial_scroll, scroll_direction, scroll_limit, spring_target, track_towards};
use tachyomancer::controls::{
    button_press, controls_layout, controls_tray_event, ControlsAction, ControlsStatus, TrayButton,
    TrayEvent,
};
use tachyomancer::converse::{
    bubbles_to_show, choice_for_pt, more_action, pause_after_paragraph, puzzle_bubble_height,
    stack_tops, BubbleKind, BubbleSequence, BubbleSlot, ChoicePosition, MoreAction,
};
use tachyomancer::geom::{Coords, CoordsRect, Direction};
use tachyomancer::hotkey::{Cursor, Hotkey};
use tachyomancer::manip::{clicked_action, ManipulationAction, ManipulationButtons};
use tachyomancer::prefs::{
    audio_video_layout, hotkeys_layout, prefs_layout, resolution_label,
    PrefsAction, PrefsPane, ProfilesPane, RectSize,
};
use tachyomancer::lists::{
    circuit_list_items, first_unlocked_in_chapter, profile_list_items, unlocked_rows, ChapterEntry,
    Listable,
};
use tachyomancer::select::GridChange;

fn rect(x: i32, y: i32, w: i32, h: i32) -> CoordsRect {
    CoordsRect { x, y, width: w, height: h }
}

#[test]
fn controls_tray_layout() {
    let (tray, buttons) = controls_layout(600, true);
    assert_eq!(tray, rect(0, 396, 196, 224));
    assert_eq!(
        buttons,
        vec![
            (ControlsAction::RunOrPause, rect(12, 528, 60, 60)),
            (ControlsAction::FastForward, rect(80, 542, 48, 32)),
            (ControlsAction::Reset, rect(136, 542, 48, 32)),
            (ControlsAction::StepTime, rect(18, 488, 48, 32)),
            (ControlsAction::StepCycle, rect(18, 448, 48, 32)),
            (ControlsAction::StepSubcycle, rect(18, 408, 48, 32)),
        ]
    );
    let (tray, buttons) = controls_layout(600, false);
    assert_eq!(tray, rect(0, 436, 196, 184));
    assert_eq!(buttons.len(), 5);
    assert_eq!(buttons[4], (ControlsAction::StepSubcycle, rect(18, 448, 48, 32)));
}

#[test]
fn controls_buttons() {
    assert_eq!(ControlsAction::FastForward.hotkey(), Hotkey::EvalFastForward);
    assert_eq!(ControlsAction::RunOrPause.icon_index(ControlsStatus::Running), 1);
    assert_eq!(ControlsAction::RunOrPause.icon_index(ControlsStatus::Paused), 0);
    assert_eq!(ControlsAction::StepTime.icon_index(ControlsStatus::Paused), 6);
    assert!(!ControlsAction::Reset.is_enabled(ControlsStatus::Stopped));
    assert!(ControlsAction::Reset.is_enabled(ControlsStatus::Finished));
    assert!(!ControlsAction::FastForward.is_enabled(ControlsStatus::FastForwarding));
    assert!(!ControlsAction::StepCycle.is_enabled(ControlsStatus::Running));
    assert_eq!(
        button_press(ControlsAction::StepCycle, ControlsStatus::Paused, false),
        Some(ControlsAction::StepCycle)
    );
    assert_eq!(button_press(ControlsAction::StepCycle, ControlsStatus::Paused, true), None);
    assert!(ControlsAction::Reset.tooltip_format().starts_with("$*Reset simulation$*"));
}

#[test]
fn manipulation_buttons() {
    assert_eq!(ManipulationAction::from_hotkey(Hotkey::RotateCw), Some(ManipulationAction::RotateCw));
    assert_eq!(ManipulationAction::from_hotkey(Hotkey::ZoomIn), None);
    assert_eq!(ManipulationAction::RotateCcw.icon_index(), 2);
    assert!(ManipulationAction::FlipHorz.tooltip_format().starts_with("$*Flip horizontally$*"));
    let wide = rect(0, 0, 2, 3);
    let square = rect(0, 0, 2, 2);
    // The flip-horizontally button is centered 26 pixels left of and 18
    // below the selection's corner.
    assert_eq!(clicked_action(wide, 100, 100, 74, 118), Some(ManipulationAction::FlipHorz));
    assert_eq!(clicked_action(wide, 100, 100, 90, 118), Some(ManipulationAction::FlipHorz));
    assert_eq!(clicked_action(wide, 100, 100, 91, 118), None);
    // Rotation buttons are offered for square selections only.
    assert_eq!(clicked_action(square, 100, 100, 162, 74), Some(ManipulationAction::RotateCw));
    assert_eq!(clicked_action(wide, 100, 100, 162, 74), None);
    assert_eq!(clicked_action(wide, i32::MAX, i32::MIN, 0, 0), None);

    let mut buttons = ManipulationButtons::new();
    assert_eq!(buttons.hovered_action(), None);
    assert!(buttons.on_mouse_move(wide, 100, 100, 74, 118));
    assert_eq!(buttons.hovered_action(), Some(ManipulationAction::FlipHorz));
    assert!(!buttons.on_mouse_move(wide, 100, 100, 75, 118));
    buttons.unfocus();
    assert_eq!(buttons.hovered_action(), None);
}

#[test]
fn bounds_handles() {
    assert_eq!(BoundsHandle::for_side(Direction::North), BoundsHandle::Top);
    assert_eq!(BoundsHandle::TopRight.cursor(), Cursor::ResizeNortheastSouthwest);
    assert_eq!(BoundsHandle::Left.cursor(), Cursor::ResizeEastWest);
    assert_eq!(BoundsHandle::for_zone(false, true, true, false, true, false), Some(BoundsHandle::TopLeft));
    assert_eq!(BoundsHandle::for_zone(false, true, false, false, false, true), Some(BoundsHandle::Bottom));
    assert_eq!(BoundsHandle::for_zone(true, true, true, false, true, false), None);
    assert_eq!(BoundsHandle::for_zone(false, false, true, false, true, false), None);
}

#[test]
fn resizing_bounds() {
    let old = rect(0, 0, 10, 8);
    assert_eq!(resized_bounds(BoundsHandle::Left, old, 4, 3, Coords::new(3, 0)), rect(3, 0, 7, 8));
    assert_eq!(resized_bounds(BoundsHandle::Left, old, 4, 3, Coords::new(9, 5)), rect(6, 0, 4, 8));
    assert_eq!(
        resized_bounds(BoundsHandle::BottomRight, old, 4, 3, Coords::new(-20, -20)),
        rect(0, 0, 4, 3)
    );
    assert_eq!(resized_bounds(BoundsHandle::Top, old, 4, 3, Coords::new(5, -2)), rect(0, -2, 10, 10));
    assert_eq!(resized_bounds(BoundsHandle::Right, old, 4, 3, Coords::new(0, 0)), old);

    let mut drag = BoundsDrag::new(BoundsHandle::Right, old, 4, 3);
    assert!(drag.is_acceptable());
    assert!(!drag.move_to(Coords::new(0, 0), old));
    assert!(drag.move_to(Coords::new(2, 0), old));
    assert_eq!(drag.bounds(), rect(0, 0, 12, 8));
    drag.set_acceptable(false);
    assert!(drag.finish(old).is_none());
    drag.set_acceptable(true);
    match drag.finish(old) {
        Some(GridChange::SetBounds(from, to)) => {
            assert_eq!(from, old);
            assert_eq!(to, rect(0, 0, 12, 8));
        }
        _ => panic!("expected a bounds change"),
    }
    assert_eq!(drag.cursor(), Cursor::ResizeEastWest);
}

#[test]
fn camera_steps() {
    assert_eq!(track_towards(0, 10, 3), 3);
    assert_eq!(track_towards(0, 10, 0), 1);
    assert_eq!(track_towards(10, 0, 0), 9);
    assert_eq!(track_towards(5, 5, 0), 5);
    assert_eq!(initial_scroll(rect(0, 0, 4, 2)), (128, 64));
    assert_eq!(initial_scroll(rect(-1, 2, 3, 1)), (32, 160));
    assert_eq!(scroll_direction(true, false), -1);
    assert_eq!(scroll_direction(false, true), 1);
    assert_eq!(scroll_direction(true, true), 0);
    assert_eq!(spring_target(5, 10, 20), Some(10));
    assert_eq!(spring_target(25, 10, 20), Some(20));
    assert_eq!(spring_target(15, 10, 20), None);
    assert_eq!(scroll_limit(rect(0, 0, 2, 2), 10, 20), rect(-10, -20, 148, 168));
}

#[test]
fn planet_rotation() {
    assert_eq!(planet_rotation_at(3600 * 5 + 7, 999), 39);
    assert_eq!(planet_rotation_at(3599, 800), 17999);
    let now = get_planet_rotation();
    assert!((0..18000).contains(&now));
}

#[test]
fn conversation_choices_and_heights() {
    assert_eq!(ChoicePosition::from_index_and_count(0, 3), ChoicePosition::First);
    assert_eq!(ChoicePosition::from_index_and_count(1, 3), ChoicePosition::Middle);
    assert_eq!(ChoicePosition::from_index_and_count(2, 3), ChoicePosition::Last);
    assert_eq!(ChoicePosition::Middle.bubble_kind(), 2);
    assert_eq!(puzzle_bubble_height(1), 50);
    assert_eq!(puzzle_bubble_height(2), 103);
    assert_eq!(stack_tops(0, 16, &vec![10, 20, 30]), vec![0, 26, 62]);
    assert_eq!(stack_tops(5, 2, &vec![]), Vec::<i32>::new());
    let list = rect(0, 100, 200, 94);
    assert_eq!(choice_for_pt(list, 10, 100), Some(0));
    assert_eq!(choice_for_pt(list, 10, 131), None);
    assert_eq!(choice_for_pt(list, 10, 132), Some(1));
    assert_eq!(choice_for_pt(list, 10, 193), Some(2));
    assert_eq!(choice_for_pt(list, 10, 194), None);
    assert_eq!(choice_for_pt(list, 10, 99), None);
}

#[test]
fn conversation_decisions() {
    assert_eq!(more_action(0, 3, false), MoreAction::Increment);
    assert_eq!(more_action(2, 3, false), MoreAction::Complete);
    assert_eq!(more_action(2, 3, true), MoreAction::Increment);
    assert_eq!(bubbles_to_show(usize::MAX, 5), 5);
    assert_eq!(bubbles_to_show(1, 5), 2);
    assert!(!pause_after_paragraph(true, Some(BubbleKind::Choice), false));
    assert!(pause_after_paragraph(true, Some(BubbleKind::Speech), true));
    assert!(!pause_after_paragraph(true, None, true));
    assert!(pause_after_paragraph(true, None, false));
    assert!(!pause_after_paragraph(false, Some(BubbleKind::Speech), false));
}

fn slots() -> Vec<BubbleSlot> {
    vec![
        BubbleSlot { kind: BubbleKind::Speech, top: 0, height: 50 },
        BubbleSlot { kind: BubbleKind::Speech, top: 66, height: 50 },
        BubbleSlot { kind: BubbleKind::Choice, top: 132, height: 40 },
        BubbleSlot { kind: BubbleKind::Puzzle, top: 188, height: 50 },
    ]
}

#[test]
fn bubble_sequence_reveals() {
    let mut seq = BubbleSequence::new(400);
    seq.reset(slots(), false, 0);
    assert_eq!(seq.num_shown(), 1);
    let more = seq.more_button().unwrap();
    assert_eq!(more.rect, rect(0, 66, 374, 30));
    assert!(!more.visible);
    assert_eq!(seq.advance(), Some(1));
    assert_eq!(seq.num_shown(), 2);
    assert_eq!(seq.more_button().unwrap().rect.y, 132);
    assert_eq!(seq.total_height(), 162);
    seq.set_more_visible(true);
    assert!(seq.more_button().unwrap().visible);

    seq.reset(slots(), true, 2);
    assert_eq!(seq.num_shown(), 3);
    let more = seq.more_button().unwrap();
    assert_eq!(more.rect.y, 188);
    assert!(more.visible);
    assert_eq!(seq.advance(), Some(3));
    assert!(seq.more_button().is_none());
    assert_eq!(seq.total_height(), 238);
    assert!(seq.completes_on_advance());
    assert!(!seq.needs_rebuild());
    assert_eq!(seq.advance(), None);

    seq.reset(slots(), false, 9);
    assert_eq!(seq.num_shown(), 4);
    assert!(seq.needs_rebuild());
    assert!(!seq.completes_on_advance());
}

#[test]
fn begin_phases() {
    let (phase, beep) = phase_for_entered_name(String::new(), false);
    assert!(matches!(phase, BeginPhase::ErrorEmpty) && beep);
    let (phase, beep) = phase_for_entered_name("Ann".to_string(), true);
    assert!(matches!(phase, BeginPhase::ErrorTaken) && beep);
    let (phase, beep) = phase_for_entered_name("Ann".to_string(), false);
    assert!(matches!(&phase, BeginPhase::Confirm(n) if n == "Ann") && !beep);
    assert!(matches!(phase_after_key_or_click(BeginPhase::ErrorTaken), BeginPhase::Entry));
    assert!(matches!(
        phase_after_key_or_click(BeginPhase::Confirm("Bo".to_string())),
        BeginPhase::Confirm(n) if n == "Bo"
    ));
}

#[test]
fn begin_layout() {
    let (back, confirm) = begin_buttons(1000, 800);
    assert_eq!(back, rect(250, 674, 200, 44));
    assert_eq!(confirm, rect(550, 674, 200, 44));
    let (back, _) = begin_buttons(50, 100);
    assert_eq!(back.x, -225);
}

#[test]
fn text_entry_typing() {
    let mut entry = TextEntry::new(5);
    assert_eq!(entry.on_text_input("ab\u{1}c"), 3);
    assert_eq!(entry.text(), "abc");
    assert_eq!(entry.on_text_input("d\u{e9}fg"), 2);
    assert_eq!(entry.text(), "abcd\u{e9}");
    assert_eq!(entry.on_text_input("x"), 0);
    assert!(entry.backspace());
    assert_eq!(entry.text(), "abcd");
    let mut empty = TextEntry::new(3);
    assert!(!empty.backspace());
    assert_eq!(empty.on_text_input("\u{100}\u{7f}"), 0);
    assert_eq!(empty.text(), "");
}

#[test]
fn prefs_view_layout() {
    let layout = prefs_layout(rect(0, 0, 800, 600));
    assert_eq!(
        layout.pane_buttons,
        vec![
            (PrefsPane::AudioVideo, rect(0, 0, 180, 100)),
            (PrefsPane::Hotkeys, rect(0, 124, 180, 100)),
            (PrefsPane::Profiles, rect(0, 248, 180, 100)),
            (PrefsPane::Credits, rect(0, 372, 180, 100)),
        ]
    );
    assert_eq!(layout.quit_button, rect(0, 496, 180, 104));
    assert_eq!(layout.pane_rect, rect(204, 0, 596, 600));
    assert_eq!(PrefsPane::Hotkeys.label(), "Controls");
}

#[test]
fn profiles_pane() {
    let names = vec!["alice".to_string(), "bob".to_string()];
    let items = profile_list_items(&names);
    assert_eq!(items.len(), 2);
    assert_eq!(items[1].value, "bob");
    assert_eq!(items[1].label, "bob");
    assert!(!items[0].marked);
    let mut pane = ProfilesPane::new(&names, "alice".to_string());
    assert!(matches!(pane.on_event(Some("bob".to_string()), true, true), Some(PrefsAction::SwitchProfile(n)) if n == "bob"));
    assert!(matches!(pane.on_event(None, true, true), Some(PrefsAction::NewProfile)));
    assert!(matches!(pane.on_event(None, false, true), Some(PrefsAction::DeleteProfile)));
    assert!(pane.on_event(None, false, false).is_none());
    pane.update_profile_list(&vec!["carol".to_string()], "carol".to_string());
}

#[test]
fn audio_video_pane_layout() {
    assert_eq!(resolution_label(RectSize { width: 1920, height: 1080 }), "1920x1080");
    let l = audio_video_layout(rect(0, 0, 800, 600), 20, 5);
    assert_eq!(l.audio_frame, rect(0, 0, 800, 116));
    assert_eq!(l.video_frame, rect(0, 138, 800, 462));
    assert_eq!(l.music_slider, rect(80, 18, 640, 30));
    assert_eq!(l.sound_slider, rect(80, 68, 640, 30));
    assert_eq!(l.fullscreen_checkbox, (18, 156));
    assert_eq!(l.antialias_checkbox, (242, 156));
    assert_eq!(l.resolution_positions, vec![(18, 323), (18, 349), (18, 375), (190, 323), (190, 349)]);
    assert_eq!(l.apply_button, rect(18, 542, 200, 40));
    assert_eq!(l.revert_button, rect(242, 542, 200, 40));
    // With room for fewer rows than columns, the table is about square.
    let l = audio_video_layout(rect(0, 0, 800, 320), 20, 9);
    assert_eq!(l.resolution_positions.len(), 8);
    assert_eq!(l.resolution_positions[2], (190, 196));
    assert_eq!(l.resolution_positions[7], (534, 222));
    // A pane too short for any row of choices has an empty table.
    let l = audio_video_layout(rect(0, 0, 400, 260), 30, 1);
    assert!(l.resolution_positions.is_empty());
    assert_eq!(l.apply_button, rect(18, 202, 200, 40));
    // With a negative row count and a single column, every choice is kept
    // and placed by division toward zero.
    let l = audio_video_layout(rect(0, 0, 300, 100), 20, 3);
    assert_eq!(l.resolution_positions, vec![(18, 190), (18, 216), (18, 242)]);
    // No column at all: nothing is kept.
    let l = audio_video_layout(rect(0, 0, 100, 100), 20, 3);
    assert!(l.resolution_positions.is_empty());
}

#[test]
fn hotkeys_pane_layout() {
    let (labels, boxes, defaults) = hotkeys_layout(rect(0, 0, 800, 300), &vec![3, 4, 2]);
    assert_eq!(labels, vec![(18, 18), (400, 18), (400, 18)]);
    assert_eq!(boxes[0], vec![(18, 42), (18, 74), (18, 106)]);
    assert_eq!(boxes[1], vec![(400, 42), (400, 74), (400, 106), (400, 138)]);
    assert_eq!(boxes[2], vec![(400, 42), (400, 74)]);
    assert_eq!(defaults, rect(582, 242, 200, 40));
}

#[test]
fn lists_show_unlocked_entries_marking_unfinished_ones() {
    let entry = |title: &str, unlocked: bool, done: bool| Listable {
        title: title.to_string(),
        unlocked,
        done,
    };
    let entries = vec![
        entry("Tutorial: OR", true, true),
        entry("Locked", false, false),
        entry("Tutorial: XOR", true, false),
        entry("Also locked", false, true),
    ];
    let rows = unlocked_rows(&entries);
    assert_eq!(rows.len(), 2);
    assert_eq!((rows[0].index, rows[0].label.as_str(), rows[0].marked), (0, "Tutorial: OR", false));
    assert_eq!((rows[1].index, rows[1].label.as_str(), rows[1].marked), (2, "Tutorial: XOR", true));
    assert!(unlocked_rows(&Vec::new()).is_empty());
}

#[test]
fn picking_a_chapter_opens_its_first_unlocked_conversation() {
    let conv = |chapter: u32, unlocked: bool| ChapterEntry { chapter, unlocked };
    let convs = vec![conv(0, true), conv(1, false), conv(1, true), conv(1, true), conv(2, false)];
    assert_eq!(first_unlocked_in_chapter(&convs, 1), Some(2));
    assert_eq!(first_unlocked_in_chapter(&convs, 0), Some(0));
    assert_eq!(first_unlocked_in_chapter(&convs, 2), None);
    assert_eq!(first_unlocked_in_chapter(&convs, 7), None);
}

#[test]
fn controls_tray_dispatches_events() {
    let run = TrayButton { action: ControlsAction::RunOrPause, rect: rect(12, 100, 60, 60), key: 32 };
    let reset = TrayButton { action: ControlsAction::Reset, rect: rect(136, 114, 48, 32), key: 82 };
    let buttons = vec![run, reset];
    let tray = rect(0, 50, 196, 150);
    let at = |x: i32, y: i32| tachyomancer::geom::Coords::new(x, y);
    let stopped = ControlsStatus::Stopped;
    let go = |ev: TrayEvent, status: ControlsStatus, errors: bool, tab: bool| {
        controls_tray_event(&buttons, tray, tab, status, errors, false, ev)
    };
    assert_eq!(go(TrayEvent::KeyDown(32), stopped, false, false), Some(Some(ControlsAction::RunOrPause)));
    assert_eq!(go(TrayEvent::MouseDown(at(20, 120), true), stopped, false, false), Some(Some(ControlsAction::RunOrPause)));
    // Reset is disabled while stopped; the click still lands in the tray.
    assert_eq!(go(TrayEvent::MouseDown(at(140, 120), true), stopped, false, false), Some(None));
    assert_eq!(go(TrayEvent::KeyDown(82), ControlsStatus::Running, false, false), Some(Some(ControlsAction::Reset)));
    // Errors disable every button.
    assert_eq!(go(TrayEvent::KeyDown(32), stopped, true, false), None);
    assert_eq!(go(TrayEvent::MouseDown(at(500, 500), false), stopped, false, true), Some(None));
    assert_eq!(go(TrayEvent::MouseDown(at(500, 500), true), stopped, false, false), None);
    assert_eq!(go(TrayEvent::Scroll(at(10, 60)), stopped, false, false), Some(None));
    assert_eq!(go(TrayEvent::Scroll(at(300, 60)), stopped, false, false), None);
    assert_eq!(go(TrayEvent::Other, stopped, false, false), None);
}
