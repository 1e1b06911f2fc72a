use video_toolbox::progress::{percent, two_digits, ProgressEvent, Timestamp, TranscodeParser};

const BANNER: &[u8] = b"  Duration: 00:02:00.00, start: 0.000000, bitrate: 1205 kb/s";

#[test]
fn first_duration_is_cached_and_a_later_one_ignored() {
    let mut parser = TranscodeParser::new();
    assert_eq!(parser.total, None);
    assert_eq!(parser.observe(BANNER), None);
    assert_eq!(parser.total, Some(12_000));
    assert_eq!(parser.observe(b"  Duration: 00:05:00.00, start: 0.0"), None);
    assert_eq!(parser.total, Some(12_000));
}

#[test]
fn half_of_ten_seconds_is_fifty_percent() {
    let mut parser = TranscodeParser::new();
    parser.observe(b"Duration: 00:00:10.00");
    let event = parser.observe(b"frame=  10 time=00:00:05.00 bitrate=1kbits/s speed=1.5x");
    assert_eq!(
        event,
        Some(ProgressEvent {
            percent: 50,
            time: "00:00:05".to_string(),
            speed: "1.5x".to_string(),
        })
    );
}

#[test]
fn just_before_the_end_is_ninety_nine_percent() {
    let mut parser = TranscodeParser::new();
    parser.observe(b"Duration: 00:00:10.00");
    let event = parser.observe(b"time=00:00:09.99").unwrap();
    assert_eq!(event.percent, 99);
    assert_eq!(event.time, "00:00:09");
    assert_eq!(event.speed, "N/A");
}

#[test]
fn past_the_end_stays_at_ninety_nine_percent() {
    let mut parser = TranscodeParser::with_total(1_000);
    let event = parser.observe(b"time=00:01:00.00 speed= 2x").unwrap();
    assert_eq!(event.percent, 99);
    assert_eq!(event.speed, "2x");
}

#[test]
fn position_without_duration_gives_zero_percent() {
    let mut parser = TranscodeParser::new();
    let event = parser.observe(b"time=01:02:03.45 speed=0.5x").unwrap();
    assert_eq!(event.percent, 0);
    assert_eq!(event.time, "01:02:03");
    assert_eq!(event.speed, "0.5x");
    assert_eq!(parser.total, None);
}

#[test]
fn duration_and_position_in_one_record() {
    let mut parser = TranscodeParser::new();
    let event = parser.observe(b"Duration: 00:00:20.00 time=00:00:05.00").unwrap();
    assert_eq!(parser.total, Some(2_000));
    assert_eq!(event.percent, 25);
}

#[test]
fn record_without_pattern_gives_no_event() {
    let mut parser = TranscodeParser::new();
    assert_eq!(parser.observe(b"Stream mapping:"), None);
    assert_eq!(parser.observe(b""), None);
    assert_eq!(parser.observe(&[0xff, 0xfe, 0x00]), None);
}

#[test]
fn invalid_bytes_do_not_hide_a_position() {
    let mut parser = TranscodeParser::with_total(2_000);
    let mut record = vec![0xff_u8, 0xc3];
    record.extend_from_slice(b" time=00:00:10.00");
    let event = parser.observe(&record).unwrap();
    assert_eq!(event.percent, 50);
}

#[test]
fn zero_duration_gives_zero_percent() {
    let mut parser = TranscodeParser::new();
    parser.observe(b"Duration: 00:00:00.00");
    assert_eq!(parser.total, Some(0));
    let event = parser.observe(b"time=00:00:05.00").unwrap();
    assert_eq!(event.percent, 0);
}

#[test]
fn percent_rounds_to_nearest() {
    assert_eq!(percent(500, Some(1_000)), 50);
    assert_eq!(percent(999, Some(1_000)), 99);
    assert_eq!(percent(1, Some(3)), 33);
    assert_eq!(percent(2, Some(3)), 67);
    assert_eq!(percent(1, Some(200)), 1);
    assert_eq!(percent(1, Some(201)), 0);
    assert_eq!(percent(995, Some(1_000)), 99);
    assert_eq!(percent(u64::MAX, Some(1)), 99);
    assert_eq!(percent(7, Some(0)), 0);
    assert_eq!(percent(7, None), 0);
}

#[test]
fn two_digits_reads_only_two_plain_digits() {
    assert_eq!(two_digits("07"), 7);
    assert_eq!(two_digits("59"), 59);
    assert_eq!(two_digits("7"), 0);
    assert_eq!(two_digits("123"), 0);
    assert_eq!(two_digits("a1"), 0);
    assert_eq!(two_digits("\u{0663}\u{0664}"), 0);
}

#[test]
fn timestamp_in_hundredths_and_as_clock() {
    let t = Timestamp { hours: 1, minutes: 2, seconds: 3, hundredths: 45 };
    assert_eq!(t.centiseconds(), 372_345);
    assert_eq!(t.clock(), "01:02:03");
    let z = Timestamp { hours: 0, minutes: 0, seconds: 0, hundredths: 0 };
    assert_eq!(z.centiseconds(), 0);
    assert_eq!(z.clock(), "00:00:00");
    let m = Timestamp { hours: 99, minutes: 59, seconds: 59, hundredths: 99 };
    assert_eq!(m.clock(), "99:59:59");
    let wide = Timestamp { hours: 123, minutes: 4, seconds: 255, hundredths: 0 };
    assert_eq!(wide.clock(), "123:04:255");
}

#[test]
fn interpret_takes_groups_as_they_are() {
    let mut parser = TranscodeParser::new();
    let position = Some(vec![
        Some("time=00:00:30.00".to_string()),
        Some("00".to_string()),
        Some("00".to_string()),
        Some("30".to_string()),
        Some("00".to_string()),
    ]);
    let duration = Some(vec![
        Some("Duration: 00:01:00.00".to_string()),
        Some("00".to_string()),
        Some("01".to_string()),
        Some("00".to_string()),
        Some("00".to_string()),
    ]);
    let event = parser.interpret(&duration, &position, &None).unwrap();
    assert_eq!(parser.total, Some(6_000));
    assert_eq!(event.percent, 50);
    assert_eq!(event.time, "00:00:30");
    assert_eq!(event.speed, "N/A");
    assert_eq!(parser.interpret(&None, &None, &None), None);
}
