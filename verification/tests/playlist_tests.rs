use pi_radio::playlist::{is_playing_news, news_stream, parse_station_names, parse_stations};

fn lines(text: &str) -> Vec<String> {
    text.lines().map(|l| l.to_string()).collect()
}

const M3U: &str = "#EXTM3U\n#EXTINF:-1,Radio Uno\n  http://one.example/stream  \n\n#EXTINF:-1,Jazz FM\r\nhttp://two.example/live\r\n# comment\n#EXTINF:0,Other\n";

#[test]
fn stations_skip_comments_and_blank_lines() {
    let stations = parse_stations(&lines(M3U));
    assert_eq!(stations, vec!["http://one.example/stream".to_string(), "http://two.example/live".to_string()]);
}

#[test]
fn names_follow_the_marker() {
    let names = parse_station_names(&lines(M3U));
    assert_eq!(names, vec!["Radio Uno".to_string(), "Jazz FM".to_string()]);
}

#[test]
fn empty_playlist() {
    assert!(parse_stations(&[]).is_empty());
    assert!(parse_station_names(&lines("#EXTINF:-1\n")).is_empty());
    assert_eq!(parse_station_names(&lines("#EXTINF:-1,")), vec![String::new()]);
}

#[test]
fn news_stream_is_first_entry() {
    assert_eq!(news_stream(&[]), "");
    assert_eq!(news_stream(&["a".to_string(), "b".to_string()]), "a");
}

#[test]
fn playing_news_compares_addresses() {
    assert!(is_playing_news("http://n", "http://n"));
    assert!(!is_playing_news("http://m", "http://n"));
    assert!(!is_playing_news("", ""));
    assert!(!is_playing_news("http://n/x", "http://n"));
}
