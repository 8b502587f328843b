use tachyomancer::graph::{axis_ticks, format_tick_maximum, tick_step_for_maximum};

#[test]
fn max_tick_format() {
    assert_eq!(format_tick_maximum(100), "100");
    assert_eq!(format_tick_maximum(700), "700");
    assert_eq!(format_tick_maximum(1000), "1k");
    assert_eq!(format_tick_maximum(3000), "3k");
    assert_eq!(format_tick_maximum(3500), "3500");
}

#[test]
fn tick_labels_of_small_and_negative_maxima() {
    assert_eq!(format_tick_maximum(0), "0");
    assert_eq!(format_tick_maximum(999), "999");
    assert_eq!(format_tick_maximum(-5), "-5");
    assert_eq!(format_tick_maximum(12000), "12k");
    assert_eq!(format_tick_maximum(2147483000), "2147483k");
}

#[test]
fn tick_steps_by_range() {
    assert_eq!(tick_step_for_maximum(50), 10);
    assert_eq!(tick_step_for_maximum(99), 10);
    assert_eq!(tick_step_for_maximum(100), 25);
    assert_eq!(tick_step_for_maximum(399), 25);
    assert_eq!(tick_step_for_maximum(400), 100);
    assert_eq!(tick_step_for_maximum(1000), 250);
    assert_eq!(tick_step_for_maximum(3999), 250);
    assert_eq!(tick_step_for_maximum(4000), 1000);
}

#[test]
fn axis_ticks_cover_the_axis() {
    assert_eq!(axis_ticks(50), vec![0, 10, 20, 30, 40, 50]);
    assert_eq!(axis_ticks(55), vec![0, 10, 20, 30, 40, 50]);
    assert_eq!(axis_ticks(100), vec![0, 25, 50, 75, 100]);
    assert_eq!(axis_ticks(0), vec![0]);
    assert_eq!(axis_ticks(-1), Vec::<i32>::new());
    assert_eq!(axis_ticks(4500).len(), 5);
}
