use pi_radio::persist::stored_or_reset;
use pi_radio::persist::{read_station_index, station_index_record};

#[test]
fn record_is_index_and_newline() {
    assert_eq!(station_index_record(0), "0\n");
    assert_eq!(station_index_record(12), "12\n");
    assert_eq!(station_index_record(usize::MAX), format!("{}\n", usize::MAX));
}

#[test]
fn reading_back_what_was_written() {
    for i in [0usize, 1, 9, 10, 4711, usize::MAX] {
        let text = station_index_record(i);
        let first = text.lines().next().unwrap();
        assert_eq!(read_station_index(Some(first)), Some(i));
    }
}

#[test]
fn reading_index_lines() {
    assert_eq!(read_station_index(Some(" 3 \r")), Some(3));
    assert_eq!(read_station_index(Some("+4")), Some(4));
    assert_eq!(read_station_index(Some("")), None);
    assert_eq!(read_station_index(Some("tres")), None);
    assert_eq!(read_station_index(Some("-1")), None);
    assert_eq!(read_station_index(None), None);
}

#[test]
fn missing_or_bad_index_resets_to_zero() {
    assert_eq!(stored_or_reset(None), (0, true));
    assert_eq!(stored_or_reset(Some("abc")), (0, true));
    assert_eq!(stored_or_reset(Some("")), (0, true));
    assert_eq!(stored_or_reset(Some(" 6 ")), (6, false));
    assert_eq!(station_index_record(stored_or_reset(None).0), "0\n");
}
