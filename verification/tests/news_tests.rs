use pi_radio::news::{in_news_window, news_minute, news_window_from_config, should_play_news, NewsWindow};

fn lines(text: &str) -> Vec<String> {
    text.lines().map(|l| l.to_string()).collect()
}

#[test]
fn minute_of_the_hour() {
    assert_eq!(news_minute(0), 0);
    assert_eq!(news_minute(59), 0);
    assert_eq!(news_minute(60), 1);
    assert_eq!(news_minute(3599), 59);
    assert_eq!(news_minute(3600 * 5 + 61), 1);
}

#[test]
fn plain_and_wrapping_windows() {
    assert!(in_news_window(0, 0, 5));
    assert!(in_news_window(4, 0, 5));
    assert!(!in_news_window(5, 0, 5));
    assert!(in_news_window(58, 55, 5));
    assert!(in_news_window(2, 55, 5));
    assert!(!in_news_window(30, 55, 5));
    assert!(!in_news_window(7, 7, 7));
}

#[test]
fn swapped_window_is_complement() {
    for m in 0..60 {
        assert_eq!(in_news_window(m, 10, 20), !in_news_window(m, 20, 10));
    }
}

#[test]
fn news_only_when_enabled() {
    assert!(should_play_news(true, 120, 0, 5));
    assert!(!should_play_news(false, 120, 0, 5));
    assert!(!should_play_news(true, 600, 0, 5));
}

#[test]
fn config_defaults_and_values() {
    let w = |start_minute, end_minute| NewsWindow { start_minute, end_minute };
    assert_eq!(news_window_from_config(None), w(0, 5));
    assert_eq!(news_window_from_config(Some(&lines(""))), w(0, 5));
    assert_eq!(news_window_from_config(Some(&lines("30\n35\n"))), w(30, 35));
    assert_eq!(news_window_from_config(Some(&lines("\n  \n 58 \n\n2\n"))), w(58, 2));
    assert_eq!(news_window_from_config(Some(&lines("x\ny\n"))), w(0, 5));
    assert_eq!(news_window_from_config(Some(&lines("12\n"))), w(12, 5));
    assert_eq!(news_window_from_config(Some(&lines("-3\n9\n"))), w(0, 9));
}
