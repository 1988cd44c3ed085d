use pi_radio::station::{next_station, prev_station, starting_station};
use pi_radio::timer::{is_long_press, is_short_press, next_timer_minutes, remaining_minutes};

#[test]
fn stations_wrap_around() {
    assert_eq!(next_station(0, 3), 1);
    assert_eq!(next_station(2, 3), 0);
    assert_eq!(prev_station(0, 3), 2);
    assert_eq!(prev_station(2, 3), 1);
    assert_eq!(next_station(0, 1), 0);
    assert_eq!(prev_station(0, 1), 0);
}

#[test]
fn next_then_prev_returns() {
    for n in 1..6 {
        for i in 0..n {
            assert_eq!(prev_station(next_station(i, n), n), i);
            assert_eq!(next_station(prev_station(i, n), n), i);
        }
    }
}

#[test]
fn full_round_returns() {
    let n = 7;
    let mut i = 4;
    for _ in 0..n {
        i = next_station(i, n);
    }
    assert_eq!(i, 4);
}

#[test]
fn starting_station_resets_out_of_range() {
    assert_eq!(starting_station(2, 5), (2, false));
    assert_eq!(starting_station(5, 5), (0, true));
    assert_eq!(starting_station(usize::MAX, 1), (0, true));
}

#[test]
fn timer_cycle() {
    let mut m = 0;
    let mut seen = vec![];
    for _ in 0..10 {
        m = next_timer_minutes(m);
        seen.push(m);
    }
    assert_eq!(seen, vec![90, 80, 70, 60, 50, 40, 30, 20, 10, 0]);
    assert_eq!(next_timer_minutes(5), 0);
    assert_eq!(next_timer_minutes(15), 5);
}

#[test]
fn press_lengths() {
    assert!(is_long_press(100, 104));
    assert!(!is_long_press(100, 103));
    assert!(!is_long_press(0, 1000));
    assert!(!is_long_press(100, 50));
    assert!(is_short_press(100, 103));
    assert!(!is_short_press(100, 104));
    assert!(is_short_press(100, 50));
}

#[test]
fn shown_minutes() {
    assert_eq!(remaining_minutes(false, 30, 100, 200), 0);
    assert_eq!(remaining_minutes(true, 30, 0, 200), 30);
    assert_eq!(remaining_minutes(true, 30, 100, 100 + 60 * 10 + 59), 20);
    assert_eq!(remaining_minutes(true, 30, 100, 100 + 60 * 30), 1);
    assert_eq!(remaining_minutes(true, 30, 100, 100 + 60 * 100), 1);
    assert_eq!(remaining_minutes(true, 30, 500, 100), 30);
}
