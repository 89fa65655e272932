use statusline::duration::{
    count_record_lines, find_first_stamp, find_last_stamp, format_duration, read_stamp, stamp_of,
    Stamp,
};
use statusline::get_session_duration;

fn chars(text: &str) -> Vec<char> {
    text.chars().collect()
}

fn lines(text: &str) -> Vec<Vec<char>> {
    text.lines().map(chars).collect()
}

fn json(text: &str) -> serde_json::Value {
    serde_json::from_str(text).unwrap()
}

#[test]
fn equal_timestamps_give_under_a_minute() {
    assert_eq!(format_duration(1_700_000_000_000, 1_700_000_000_000), "<1m");
    let transcript = "{\"timestamp\":1000}\n{\"timestamp\":1000}\n";
    assert_eq!(get_session_duration(Some(transcript)), Some(String::from("<1m")));
}

#[test]
fn minutes_are_cut_off() {
    assert_eq!(format_duration(0, 125_000), "2m");
    assert_eq!(format_duration(0, 59_999), "<1m");
    assert_eq!(format_duration(0, 60_000), "1m");
    assert_eq!(format_duration(0, 119_999), "1m");
    assert_eq!(format_duration(0, 3_599_999), "59m");
}

#[test]
fn hours_and_minutes_from_one_hour_on() {
    assert_eq!(format_duration(0, 3_725_000), "1h2m");
    assert_eq!(format_duration(0, 3_600_000), "1h0m");
    assert_eq!(format_duration(5_000, 3_605_000 + 59 * 60_000), "1h59m");
    assert_eq!(format_duration(0, 360_000_000), "100h0m");
}

#[test]
fn negative_elapsed_time_gives_under_a_minute() {
    assert_eq!(format_duration(3_725_000, 0), "<1m");
    assert_eq!(format_duration(i64::MAX, i64::MIN), "<1m");
    let transcript = "{\"timestamp\":9000000}\n{\"timestamp\":1000}\n";
    assert_eq!(get_session_duration(Some(transcript)), Some(String::from("<1m")));
}

#[test]
fn widest_elapsed_time_does_not_overflow() {
    assert_eq!(format_duration(i64::MIN, i64::MAX), "5124095576030h25m");
}

#[test]
fn duration_runs_from_first_to_last_timestamp() {
    let transcript = "{\"timestamp\":\"2024-01-01T00:00:00Z\",\"message\":{\"role\":\"user\"}}\n\
                      {\"note\":\"no time here\"}\n\
                      not json\n\
                      {\"timestamp\":\"2024-01-01T01:02:05Z\"}\n\
                      {\"summary\":true}\n";
    assert_eq!(get_session_duration(Some(transcript)), Some(String::from("1h2m")));
}

#[test]
fn integer_timestamps_are_milliseconds() {
    let transcript = "{\"timestamp\":1000}\n\n{\"timestamp\":126000}\n";
    assert_eq!(get_session_duration(Some(transcript)), Some(String::from("2m")));
}

#[test]
fn no_duration_without_transcript_or_with_one_line() {
    assert_eq!(get_session_duration(None), None);
    assert_eq!(get_session_duration(Some("")), None);
    assert_eq!(get_session_duration(Some("{\"timestamp\":1000}\n")), None);
    assert_eq!(get_session_duration(Some("{\"timestamp\":1000}\n   \n\n")), None);
}

#[test]
fn one_timestamp_among_two_lines_gives_under_a_minute() {
    assert_eq!(
        get_session_duration(Some("{\"timestamp\":1000}\n{\"other\":1}\n")),
        Some(String::from("<1m"))
    );
}

#[test]
fn no_duration_without_any_timestamp() {
    assert_eq!(get_session_duration(Some("{\"a\":1}\n{\"b\":2}\n")), None);
    assert_eq!(get_session_duration(Some("one\ntwo\n")), None);
}

#[test]
fn no_duration_when_an_end_cannot_be_read() {
    assert_eq!(
        get_session_duration(Some("{\"timestamp\":\"soon\"}\n{\"timestamp\":1000}\n")),
        None
    );
    assert_eq!(
        get_session_duration(Some("{\"timestamp\":1000}\n{\"timestamp\":1.5}\n")),
        None
    );
    assert_eq!(
        get_session_duration(Some("{\"timestamp\":1000}\n{\"timestamp\":\"soon\"}\n{\"x\":1}\n")),
        None
    );
}

#[test]
fn stamps_tell_absent_from_unreadable() {
    assert_eq!(stamp_of(&json("{\"timestamp\":7}")), Stamp::At(7));
    assert_eq!(stamp_of(&json("{\"timestamp\":null}")), Stamp::Unreadable);
    assert_eq!(stamp_of(&json("{\"time\":7}")), Stamp::Absent);
    assert_eq!(stamp_of(&json("[7]")), Stamp::Absent);
    assert_eq!(read_stamp(&chars("{\"timestamp\":7}")), Stamp::At(7));
    assert_eq!(read_stamp(&chars("  ")), Stamp::Absent);
    assert_eq!(read_stamp(&chars("{\"timestamp\":")), Stamp::Absent);
    assert_eq!(read_stamp(&chars("{\"timestamp\":\"x\"}")), Stamp::Unreadable);
}

#[test]
fn scans_find_the_outermost_stamps() {
    let transcript = lines("\n{\"a\":1}\n{\"timestamp\":1}\n{\"timestamp\":2}\n{\"timestamp\":\"x\"}\n{}\n");
    assert_eq!(find_first_stamp(&transcript), Stamp::At(1));
    assert_eq!(find_last_stamp(&transcript), Stamp::Unreadable);
    assert_eq!(count_record_lines(&transcript), 5);
    assert_eq!(find_first_stamp(&[]), Stamp::Absent);
    assert_eq!(find_last_stamp(&[]), Stamp::Absent);
    assert_eq!(count_record_lines(&[]), 0);
}
