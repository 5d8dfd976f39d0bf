use silksong_autosplit::text::decimal_string;
use silksong_autosplit::{delta_string, is_timer_state_between_runs, should_split, str_take_right};
use silksong_autosplit::{SplitterAction, TimerState};

#[test]
fn delta_of_positive_has_plus() {
    assert_eq!(delta_string(5), "+5");
}

#[test]
fn delta_of_negative_has_minus_glyph() {
    assert_eq!(delta_string(-3), "\u{2212}3");
}

#[test]
fn delta_of_zero_is_bare() {
    assert_eq!(delta_string(0), "0");
}

#[test]
fn delta_of_extremes() {
    assert_eq!(delta_string(i64::MAX), "+9223372036854775807");
    assert_eq!(delta_string(i64::MIN), "\u{2212}9223372036854775808");
    assert_eq!(delta_string(-120), "\u{2212}120");
}

#[test]
fn decimal_digits() {
    assert_eq!(decimal_string(0), "0");
    assert_eq!(decimal_string(10), "10");
    assert_eq!(decimal_string(907), "907");
}

#[test]
fn take_right_keeps_suffix() {
    assert_eq!(str_take_right("Hollow_Knight", 6), "Knight");
    assert_eq!(str_take_right("abc", 10), "abc");
    assert_eq!(str_take_right("abc", 0), "");
}

#[test]
fn between_runs_states() {
    assert!(is_timer_state_between_runs(TimerState::NotRunning));
    assert!(is_timer_state_between_runs(TimerState::Ended));
    assert!(!is_timer_state_between_runs(TimerState::Running));
    assert!(!is_timer_state_between_runs(TimerState::Paused));
}

#[test]
fn should_split_maps_condition() {
    assert_eq!(should_split(true), SplitterAction::Split);
    assert_eq!(should_split(false), SplitterAction::Pass);
}
