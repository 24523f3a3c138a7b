use pomodoro::display::format_mm_ss;
use pomodoro::engine::{TimerEngine, BREAK_DURATION, WORK_DURATION};

#[test]
fn formats_minutes_and_seconds_with_two_digits() {
    assert_eq!(format_mm_ss(0), "00:00");
    assert_eq!(format_mm_ss(1), "00:01");
    assert_eq!(format_mm_ss(59), "00:59");
    assert_eq!(format_mm_ss(60), "01:00");
    assert_eq!(format_mm_ss(65), "01:05");
    assert_eq!(format_mm_ss(3599), "59:59");
}

#[test]
fn formats_the_configured_intervals() {
    assert_eq!(format_mm_ss(WORK_DURATION), "25:00");
    assert_eq!(format_mm_ss(BREAK_DURATION), "05:00");
}

#[test]
fn formats_a_running_countdown() {
    let mut e = TimerEngine::new();
    e.start();
    e.on_tick();
    assert_eq!(format_mm_ss(e.remaining), "24:59");
}
