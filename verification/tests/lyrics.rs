use terminal_dj::json::Json;
use terminal_dj::karaoke::{current_line_index, lrc_entries, sort_by_start, synced_lyrics, LrcLine};

fn lrc_response(field: &str, value: Json) -> Json {
    Json::Object(vec![(field.to_string(), value)])
}

fn line(ms: u64, text: &str) -> LrcLine {
    LrcLine { timestamp_ms: ms, text: text.to_string() }
}

fn stamps(lines: &[LrcLine]) -> Vec<u64> {
    lines.iter().map(|l| l.timestamp_ms).collect()
}

fn entry_fields(lrc: &str) -> Vec<(u64, String, String)> {
    lrc_entries(lrc).into_iter().map(|e| (e.minutes, e.seconds, e.text)).collect()
}

/// The whole parse as the player does it: seconds read as `f64`.
fn timed(lrc: &str) -> Vec<LrcLine> {
    let mut lines = Vec::new();
    for e in lrc_entries(lrc) {
        if let Ok(s) = e.seconds.parse::<f64>() {
            lines.push(line(e.minutes * 60_000 + (s * 1000.0) as u64, &e.text));
        }
    }
    sort_by_start(lines)
}

#[test]
fn entries_split_minutes_seconds_and_trimmed_text() {
    assert_eq!(
        entry_fields("[00:12.50] second line \n[00:01.00]first\n[01:00]a minute in"),
        vec![
            (0, "12.50".to_string(), "second line".to_string()),
            (0, "01.00".to_string(), "first".to_string()),
            (1, "00".to_string(), "a minute in".to_string()),
        ]
    );
}

#[test]
fn entries_skip_lines_that_are_not_timed() {
    let got = entry_fields("plain words\n[ar:Someone]\n[xx:10.00]bad minutes\n[00:03.25]kept\n[00:04.00 no bracket end\n[0005]no colon");
    assert_eq!(got, vec![(0, "03.25".to_string(), "kept".to_string())]);
}

#[test]
fn entries_keep_the_seconds_text_as_written() {
    let got = entry_fields("[2:1e2]sci\n[3:inf]endless\n[4:a:b]two colons\n[+5:x]plus");
    assert_eq!(
        got,
        vec![
            (2, "1e2".to_string(), "sci".to_string()),
            (3, "inf".to_string(), "endless".to_string()),
            (4, "a:b".to_string(), "two colons".to_string()),
            (5, "x".to_string(), "plus".to_string()),
        ]
    );
}

#[test]
fn entries_handle_windows_line_ends() {
    assert_eq!(
        entry_fields("[00:02.00]b\r\n[00:01.00]a\r\n"),
        vec![(0, "02.00".to_string(), "b".to_string()), (0, "01.00".to_string(), "a".to_string())]
    );
}

#[test]
fn entries_of_empty_text_are_empty() {
    assert!(lrc_entries("").is_empty());
}

#[test]
fn sort_by_start_orders_and_keeps_equal_times_in_order() {
    let sorted = sort_by_start(vec![line(1000, "one"), line(1000, "two"), line(500, "zero"), line(1000, "three")]);
    assert_eq!(stamps(&sorted), vec![500, 1000, 1000, 1000]);
    let texts: Vec<&str> = sorted.iter().map(|l| l.text.as_str()).collect();
    assert_eq!(texts, vec!["zero", "one", "two", "three"]);
    assert!(sort_by_start(Vec::new()).is_empty());
}

#[test]
fn seconds_are_read_as_floating_point() {
    let lines = timed("[00:02.01]a\n[00:05.5]half\n[02:30.125]precise\n[00:00]start\n[00:1e2]late\n[00:nan]zero");
    assert_eq!(stamps(&lines), vec![0, 0, 2009, 5500, 100000, 150125]);
    assert_eq!(lines[0].text, "start");
    assert_eq!(lines[1].text, "zero");
    assert_eq!(lines[2].text, "a");
}

#[test]
fn current_line_is_the_last_started_one() {
    let lines = sort_by_start(vec![line(1000, "a"), line(12500, "b"), line(60000, "c")]);
    assert_eq!(current_line_index(&lines, 0), 0);
    assert_eq!(current_line_index(&lines, 1000), 0);
    assert_eq!(current_line_index(&lines, 12499), 0);
    assert_eq!(current_line_index(&lines, 12500), 1);
    assert_eq!(current_line_index(&lines, 59999), 1);
    assert_eq!(current_line_index(&lines, 60000), 2);
    assert_eq!(current_line_index(&lines, 999999), 2);
}

#[test]
fn current_line_of_no_lines_is_zero() {
    assert_eq!(current_line_index(&[], 5000), 0);
}

#[test]
fn synced_lyrics_text_is_taken_from_the_response() {
    let resp = lrc_response("syncedLyrics", Json::Str("[00:02.00]two\n[00:01.00]one".to_string()));
    assert_eq!(synced_lyrics(&resp), Some("[00:02.00]two\n[00:01.00]one".to_string()));
    let plain = lrc_response("syncedLyrics", Json::Str("no timing here".to_string()));
    assert_eq!(synced_lyrics(&plain), Some("no timing here".to_string()));
}

#[test]
fn synced_lyrics_missing_or_empty_give_nothing() {
    assert!(synced_lyrics(&lrc_response("syncedLyrics", Json::Str(String::new()))).is_none());
    assert!(synced_lyrics(&lrc_response("syncedLyrics", Json::Null)).is_none());
    assert!(synced_lyrics(&lrc_response("plainLyrics", Json::Str("[00:01.00]x".to_string()))).is_none());
    assert!(synced_lyrics(&Json::Array(vec![])).is_none());
}
