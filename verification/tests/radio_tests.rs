use pi_radio::radio::{timer_button_step, TimerButtonAction};
use pi_radio::news::NewsWindow;
use pi_radio::radio::{button_edge, ButtonEdge, Radio, StreamChoice, TimerTick};

fn window(start_minute: usize, end_minute: usize) -> NewsWindow {
    NewsWindow { start_minute, end_minute }
}

#[test]
fn start_up_keeps_or_resets_index() {
    let (r, reset) = Radio::new(4, 2, window(0, 5));
    assert_eq!(r.current_station(), 2);
    assert!(!reset);
    assert!(r.is_running());
    let (r, reset) = Radio::new(4, 9, window(0, 5));
    assert_eq!(r.current_station(), 0);
    assert!(reset);
}

#[test]
fn buttons_move_and_restart() {
    let (mut r, _) = Radio::new(3, 2, window(0, 5));
    r.press_next();
    assert_eq!(r.current_station(), 0);
    assert_eq!(r.station_direction(), 1);
    assert!(!r.keeps_playing());
    let index = r.finish_playback(1);
    assert_eq!(index, 0);
    assert!(r.keeps_playing());
    r.press_prev();
    assert_eq!(r.current_station(), 2);
    assert_eq!(r.station_direction(), -1);
    r.finish_playback(-1);
    assert_eq!(r.station_direction(), 1);
}

#[test]
fn timer_presses_and_expiry() {
    let (mut r, _) = Radio::new(2, 0, window(0, 5));
    r.press_timer(1000);
    assert_eq!(r.timer_minutes(), 90);
    assert!(r.timer_active());
    assert_eq!(r.shown_timer_minutes(1000 + 60 * 15), 75);
    assert_eq!(r.timer_tick(1000 + 60, usize::MAX), TimerTick::Continue(89));
    assert_eq!(r.timer_tick(1000 + 90 * 60, 89), TimerTick::Expired);
    assert!(!r.is_running());
}

#[test]
fn ten_timer_presses_turn_it_off_again() {
    let (mut r, _) = Radio::new(2, 0, window(0, 5));
    for _ in 0..9 {
        r.press_timer(50);
        assert!(r.timer_active());
    }
    assert_eq!(r.timer_minutes(), 10);
    r.press_timer(50);
    assert_eq!(r.timer_minutes(), 0);
    assert!(!r.timer_active());
    assert_eq!(r.shown_timer_minutes(1_000_000), 0);
    assert_eq!(r.timer_tick(60, 7), TimerTick::Continue(usize::MAX));
}

#[test]
fn countdown_starts_on_first_tick_without_start() {
    let (mut r, _) = Radio::new(2, 0, window(0, 5));
    r.press_timer(0);
    assert_eq!(r.timer_minutes(), 90);
    assert_eq!(r.model().timer_start, 0);
    assert_eq!(r.timer_tick(500, usize::MAX), TimerTick::Continue(90));
    assert_eq!(r.model().timer_start, 500);
}

#[test]
fn news_window_saves_and_restores_station() {
    let (mut r, _) = Radio::new(5, 3, window(0, 5));
    assert!(r.press_news());
    r.news_tick(120); // minute 2: news due
    assert!(r.model().news_station);
    assert_eq!(r.stream_choice(120, true), StreamChoice::News);
    assert_eq!(r.stream_choice(120, false), StreamChoice::Station(3));
    r.press_next();
    assert_eq!(r.current_station(), 4);
    r.news_tick(600); // minute 10: news over
    assert!(!r.model().news_station);
    assert_eq!(r.current_station(), 3);
}

#[test]
fn news_button_off_leaves_news() {
    let (mut r, _) = Radio::new(2, 0, window(0, 5));
    r.press_news();
    r.news_tick(60);
    assert!(r.model().news_active);
    assert!(!r.press_news());
    assert!(!r.model().news_active);
    assert!(!r.model().news_station);
    assert!(!r.news_due(60));
}

#[test]
fn switch_when_news_starts_or_ends() {
    let (mut r, _) = Radio::new(2, 0, window(10, 20));
    r.press_news();
    assert!(!r.check_news_switch(0, false));
    assert!(r.keeps_playing());
    assert!(r.check_news_switch(11 * 60, false));
    assert!(!r.keeps_playing());
    r.finish_playback(1);
    assert!(r.check_news_switch(25 * 60, true));
}

#[test]
fn new_window_and_stop() {
    let (mut r, _) = Radio::new(2, 1, window(0, 5));
    r.set_news_window(window(30, 40));
    assert_eq!(r.news_window(), window(30, 40));
    assert!(r.news_due(0) == false);
    r.request_power_off();
    assert!(r.power_off_requested());
    assert!(!r.is_running());
    let (mut r, _) = Radio::new(2, 1, window(0, 5));
    assert_eq!(r.stop(), 1);
    assert!(!r.is_running());
    assert!(!r.news_enabled());
}

#[test]
fn button_edges() {
    assert_eq!(button_edge(true, false), ButtonEdge::Pressed);
    assert_eq!(button_edge(false, true), ButtonEdge::Released);
    assert_eq!(button_edge(true, true), ButtonEdge::Held);
    assert_eq!(button_edge(false, false), ButtonEdge::Idle);
}

#[test]
fn timer_button_polls() {
    assert_eq!(timer_button_step(ButtonEdge::Pressed, 0, 100), (100, TimerButtonAction::Nothing));
    assert_eq!(timer_button_step(ButtonEdge::Held, 100, 103), (100, TimerButtonAction::Nothing));
    assert_eq!(timer_button_step(ButtonEdge::Held, 100, 104), (100, TimerButtonAction::PowerOff));
    assert_eq!(timer_button_step(ButtonEdge::Released, 100, 103), (100, TimerButtonAction::ShortPress));
    assert_eq!(timer_button_step(ButtonEdge::Released, 100, 104), (100, TimerButtonAction::Nothing));
    assert_eq!(timer_button_step(ButtonEdge::Idle, 100, 500), (100, TimerButtonAction::Nothing));
    assert_eq!(timer_button_step(ButtonEdge::Held, 0, 500), (0, TimerButtonAction::Nothing));
}
