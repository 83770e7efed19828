use tacd::screensaver::{
    after_idle, bounce, dance_position, next_step, place_text, takes_over, toggled, Idle, Watch,
    MAX_TEXT, STEP_MILLIS, TIMEOUT_SECONDS,
};

#[test]
fn bounce_is_a_triangle_wave() {
    let expected = [3, 2, 1, 0, 1, 2, 3, 2, 1, 0, 1, 2, 3];
    for (i, height) in expected.iter().enumerate() {
        assert_eq!(bounce(i as u32, 3), *height);
    }
    assert_eq!(bounce(0, 1), 1);
    assert_eq!(bounce(1, 1), 0);
    assert_eq!(bounce(2, 1), 1);
    assert_eq!(bounce(1000, 230), 150);
    assert_eq!(bounce(u32::MAX, 230), 35);
}

#[test]
fn bounce_is_flat_without_a_positive_range() {
    for i in [0, 1, 17, u32::MAX] {
        assert_eq!(bounce(i, 0), 0);
        assert_eq!(bounce(i, -1), 0);
        assert_eq!(bounce(i, i32::MIN), 0);
    }
}

#[test]
fn bounce_with_the_largest_range() {
    assert_eq!(bounce(0, i32::MAX), i32::MAX);
    assert_eq!(bounce(1, i32::MAX), i32::MAX - 1);
    assert_eq!(bounce(i32::MAX as u32, i32::MAX), 0);
    // The place in the period does not fit into an i32.
    assert_eq!(bounce(i32::MAX as u32 + 1, i32::MAX), 0);
    assert_eq!(bounce(u32::MAX - 2, i32::MAX), 0);
    // 2 * i32::MAX is the period.
    assert_eq!(bounce(u32::MAX - 1, i32::MAX), i32::MAX);
}

#[test]
fn dance_position_keeps_the_text_on_the_screen() {
    // A text of 60 x 20 pixels.
    assert_eq!(dance_position(0, 60, 20), (170, 240));
    assert_eq!(dance_position(1, 60, 20), (169, 239));
    assert_eq!(dance_position(170, 60, 20), (0, 70));
    assert_eq!(dance_position(220, 60, 20), (50, 20));
    assert_eq!(dance_position(221, 60, 20), (51, 21));
    for i in 0..2000 {
        let (x, y) = dance_position(i, 60, 20);
        assert!(0 <= x && x + 60 <= 230);
        assert!(20 <= y && y <= 240);
    }
}

#[test]
fn dance_position_of_a_text_that_does_not_fit() {
    assert_eq!(dance_position(5, 230, 240), (0, 240));
    assert_eq!(dance_position(5, 300, 20), (0, 235));
    assert_eq!(dance_position(5, 60, 500), (165, 500));
    assert_eq!(dance_position(5, i32::MAX as u32, i32::MAX as u32), (0, i32::MAX));
}

#[test]
fn next_step_wraps_around() {
    assert_eq!(next_step(0), 1);
    assert_eq!(next_step(41), 42);
    assert_eq!(next_step(u32::MAX), 0);
}

#[test]
fn watcher_activates_on_timeout_only() {
    assert_eq!(after_idle(Idle::Pressed), Watch::Again);
    assert_eq!(after_idle(Idle::TimedOut), Watch::Activate);
    assert_eq!(after_idle(Idle::Ended), Watch::Stop);
}

#[test]
fn screensaver_takes_over_where_the_screen_allows_it() {
    assert!(takes_over(Some(true)));
    assert!(!takes_over(Some(false)));
    assert!(!takes_over(None));
}

#[test]
fn locator_toggles() {
    assert!(toggled(None));
    assert!(toggled(Some(false)));
    assert!(!toggled(Some(true)));
}

#[test]
fn place_text_measures_the_text() {
    // Six characters of 10 x 20 pixels each.
    assert_eq!(place_text(0, "lxatac"), Some((170, 240)));
    assert_eq!(place_text(1, "lxatac"), Some((169, 239)));
    assert_eq!(place_text(220, "lxatac"), Some((50, 20)));
    // A longer name has less room to wander.
    assert_eq!(place_text(0, "lxatac-00017"), Some((110, 240)));
    assert_eq!(place_text(110, "lxatac-00017"), Some((0, 130)));
    // Exactly as wide as the area, and wider.
    assert_eq!(place_text(7, "12345678901234567890123"), Some((0, 233)));
    assert_eq!(place_text(7, "123456789012345678901234"), Some((0, 233)));
    // Two lines are twice as high.
    assert_eq!(place_text(0, "lxa\ntac"), Some((200, 240)));
    assert_eq!(place_text(1, "lxa\ntac"), Some((199, 239)));
    assert_eq!(place_text(200, "lxa\ntac"), Some((0, 40)));
}

#[test]
fn place_text_of_the_empty_text() {
    assert_eq!(place_text(0, ""), Some((230, 240)));
    assert_eq!(place_text(230, ""), Some((0, 10)));
}

#[test]
fn place_text_refuses_a_text_that_is_too_long() {
    let longest = "x".repeat(MAX_TEXT);
    assert_eq!(place_text(3, &longest), Some((0, 237)));
    let too_long = "x".repeat(MAX_TEXT + 1);
    assert_eq!(place_text(3, &too_long), None);
    // The limit counts characters, not bytes.
    let umlauts = "\u{e4}".repeat(MAX_TEXT);
    assert_eq!(place_text(3, &umlauts), Some((0, 237)));
}

#[test]
fn screensaver_timing() {
    assert_eq!(TIMEOUT_SECONDS, 600);
    assert_eq!(STEP_MILLIS, 100);
}
