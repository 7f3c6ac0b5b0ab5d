use key_overlay::key_bar::{KeyBar, NANOS_PER_SEC};

#[test]
fn new_bar_holds_its_instants() {
    let bar = KeyBar::new(3, 9);
    assert_eq!(bar.press_instant, 3);
    assert_eq!(bar.release_instant, 9);
    assert_eq!(bar, KeyBar { press_instant: 3, release_instant: 9 });
}

#[test]
fn distance_is_time_times_speed() {
    assert_eq!(NANOS_PER_SEC, 1_000_000_000);
    assert_eq!(KeyBar::compute_pos(300_000_000, 500), 150);
    assert_eq!(KeyBar::compute_pos(NANOS_PER_SEC, 500), 500);
    assert_eq!(KeyBar::compute_pos(0, 500), 0);
    assert_eq!(KeyBar::compute_pos(NANOS_PER_SEC, 0), 0);
    assert_eq!(KeyBar::compute_pos(1_999_999, 500), 0);
    assert_eq!(KeyBar::compute_pos(2_000_000, 500), 1);
}

#[test]
fn distance_stops_at_the_largest_number() {
    assert_eq!(KeyBar::compute_pos(u64::MAX, u32::MAX), u64::MAX);
    assert_eq!(KeyBar::compute_pos(u64::MAX, 1_000_000_000), u64::MAX);
    assert_eq!(KeyBar::compute_pos(u64::MAX, 999_999_999), 18_446_744_055_262_807_541);
}

#[test]
fn head_and_tail_follow_press_and_release() {
    let bar = KeyBar::new(0, 200_000_000);
    assert_eq!(bar.get_head_pos(300_000_000, 500), 150);
    assert_eq!(bar.get_tail_pos(300_000_000, 500), 50);
    assert_eq!(bar.into_range(300_000_000, 500), (150, 50));
}

#[test]
fn bar_of_the_future_has_not_moved() {
    let bar = KeyBar::new(500, 900);
    assert_eq!(bar.into_range(100, 1_000_000_000), (0, 0));
    assert_eq!(bar.into_range(700, 1_000_000_000), (200, 0));
}
