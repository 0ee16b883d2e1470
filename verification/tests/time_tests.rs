//! Tests of the time primitives: wall clocks, day masks, windows, and
//! duration formatting.

use shepherd::time::{
    format_duration, DaysOfWeek, MonotonicInstant, TimeWindow, WallClock, WallTime,
    MOCK_TIME_ENV_VAR,
};

fn wall(days: u64, hour: u32, minute: u32, second: u32) -> WallTime {
    WallTime { days, secs: hour * 3600 + minute * 60 + second }
}

#[test]
fn test_wall_clock_ordering() {
    let morning = WallClock::new(8, 0).unwrap();
    let noon = WallClock::new(12, 0).unwrap();
    let evening = WallClock::new(18, 30).unwrap();

    assert!(morning < noon);
    assert!(noon < evening);
    assert!(morning < evening);
}

#[test]
fn test_wall_clock_rejects_invalid() {
    assert!(WallClock::new(24, 0).is_none());
    assert!(WallClock::new(12, 60).is_none());
    assert!(WallClock::new(23, 59).is_some());
}

#[test]
fn test_days_of_week() {
    let weekdays = DaysOfWeek::weekdays();
    assert!(weekdays.contains(0)); // Monday
    assert!(weekdays.contains(4)); // Friday
    assert!(!weekdays.contains(5)); // Saturday
    assert!(!weekdays.contains(6)); // Sunday

    let weekends = DaysOfWeek::weekends();
    assert!(!weekends.contains(0));
    assert!(weekends.contains(5));
    assert!(weekends.contains(6));
}

#[test]
fn test_time_window_contains() {
    let window = TimeWindow::new(
        DaysOfWeek::weekdays(),
        WallClock::new(14, 0).unwrap(),
        WallClock::new(18, 0).unwrap(),
    );

    // Monday (2025-12-29) at 3 PM - should be in window
    let dt = wall(20451, 15, 0, 0);
    assert!(window.contains(&dt));

    // Monday at 10 AM - outside window
    let dt = wall(20451, 10, 0, 0);
    assert!(!window.contains(&dt));

    // Saturday (2025-12-27) at 3 PM - wrong day
    let dt = wall(20449, 15, 0, 0);
    assert!(!window.contains(&dt));
}

#[test]
fn test_time_window_remaining() {
    let window = TimeWindow::new(
        DaysOfWeek::all_days(),
        WallClock::new(14, 0).unwrap(),
        WallClock::new(18, 0).unwrap(),
    );

    // Friday 2025-12-26 at 3 PM: 3 hours remaining
    let dt = wall(20448, 15, 0, 0);
    let remaining = window.remaining_duration(&dt).unwrap();
    assert_eq!(remaining, 3 * 3600);
}

#[test]
fn test_time_window_cross_midnight() {
    let window = TimeWindow::new(
        DaysOfWeek::all_days(),
        WallClock::new(22, 0).unwrap(),
        WallClock::new(2, 0).unwrap(),
    );

    // 23:00 is inside, remaining = 1h to midnight + 2h
    let dt = wall(20448, 23, 0, 0);
    assert!(window.contains(&dt));
    assert_eq!(window.remaining_duration(&dt).unwrap(), 3 * 3600);

    // 01:00 is inside (morning portion), remaining = 1h
    let dt = wall(20448, 1, 0, 0);
    assert!(window.contains(&dt));
    assert_eq!(window.remaining_duration(&dt).unwrap(), 3600);

    // 12:00 is outside
    let dt = wall(20448, 12, 0, 0);
    assert!(!window.contains(&dt));
}

#[test]
fn test_availability_with_specific_time() {
    let window = TimeWindow::new(
        DaysOfWeek::all_days(),
        WallClock::new(14, 0).unwrap(),
        WallClock::new(18, 0).unwrap(),
    );

    // Time within window (2025-12-25 15:00)
    let in_window = wall(20447, 15, 0, 0);
    assert!(window.contains(&in_window), "15:00 should be within 14:00-18:00 window");

    // Time before window
    let before_window = wall(20447, 10, 0, 0);
    assert!(!window.contains(&before_window), "10:00 should be before 14:00-18:00 window");

    // Time after window
    let after_window = wall(20447, 20, 0, 0);
    assert!(!window.contains(&after_window), "20:00 should be after 14:00-18:00 window");
}

#[test]
fn test_availability_with_day_restriction() {
    let window = TimeWindow::new(
        DaysOfWeek::weekdays(),
        WallClock::new(14, 0).unwrap(),
        WallClock::new(18, 0).unwrap(),
    );

    // Thursday (2025-12-25) at 3 PM - should be available
    let thursday = wall(20447, 15, 0, 0);
    assert!(window.contains(&thursday), "Thursday 15:00 should be in weekday afternoon window");

    // Saturday at 3 PM - should NOT be available
    let saturday = wall(20449, 15, 0, 0);
    assert!(!window.contains(&saturday), "Saturday should not be in weekday window");

    // Sunday at 3 PM - should NOT be available
    let sunday = wall(20450, 15, 0, 0);
    assert!(!window.contains(&sunday), "Sunday should not be in weekday window");
}

#[test]
fn test_format_duration() {
    assert_eq!(format_duration(30), "30s");
    assert_eq!(format_duration(90), "1m 30s");
    assert_eq!(format_duration(3661), "1h 1m 1s");
}

#[test]
fn test_format_duration_edges() {
    assert_eq!(format_duration(0), "0s");
    assert_eq!(format_duration(60), "1m 0s");
    assert_eq!(format_duration(3600), "1h 0m 0s");
    assert_eq!(format_duration(86400), "24h 0m 0s");
}

#[test]
fn test_mock_time_env_var_name() {
    assert_eq!(MOCK_TIME_ENV_VAR, "SHEPHERD_MOCK_TIME");
}

#[test]
fn test_monotonic_arithmetic() {
    let t1 = MonotonicInstant::from_millis(1000);
    let t2 = MonotonicInstant::from_millis(3500);
    assert_eq!(t2.duration_since(t1), 2500);
    assert_eq!(t1.duration_since(t2), 0);
    assert_eq!(t1.saturating_duration_until(t2), 0);
    assert_eq!(t2.saturating_duration_until(t1), 2500);
    assert_eq!(t1.add_millis(500).millis, 1500);
    assert_eq!(t1.checked_add(u64::MAX), None);
}

#[test]
fn test_wall_time_plus_secs() {
    let t = wall(100, 23, 59, 30);
    let t2 = t.plus_secs(45);
    assert_eq!(t2.days, 101);
    assert_eq!(t2.secs, 15);
    let t3 = t.plus_secs(0);
    assert_eq!(t3, t);
}

#[test]
fn test_wall_time_weekday() {
    assert_eq!(wall(20451, 0, 0, 0).weekday(), 0); // a Monday
    assert_eq!(wall(20447, 0, 0, 0).weekday(), 3); // a Thursday
    assert_eq!(wall(20450, 0, 0, 0).weekday(), 6); // a Sunday
}
