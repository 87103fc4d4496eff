use blink_timer::config::{format_config_duration, is_default, parse_duration};
use blink_timer::error::Error;
use blink_timer::frame::{decode_frame_len, encode_frame};
use blink_timer::util::{format_duration, format_string, notification_timeout, TimeoutKind};
use blink_timer::{actived_socket_path, DurationExt, Status};

#[test]
fn format_string_test() {
    assert_eq!(format_string("Hello {}!", "world"), "Hello world!");
    assert_eq!(format_string("A & {}", "B"), "A & B");
}

#[test]
fn format_string_without_placeholder_is_identity() {
    assert_eq!(format_string("no holes here", "x"), "no holes here");
    assert_eq!(format_string("", "x"), "");
    assert_eq!(format_string("{}", "all"), "all");
    assert_eq!(format_string("a{}b{}c", "1"), "a1b{}c");
}

#[test]
fn duration_display_shapes() {
    assert_eq!(format_duration(0), "00:00");
    assert_eq!(format_duration(59_499), "00:59");
    assert_eq!(format_duration(59_500), "01:00");
    assert_eq!(format_duration(300_000), "05:00");
    assert_eq!(format_duration(3_600_000), "01:00:00");
    assert_eq!(format_duration(3_661_000), "01:01:01");
    assert_eq!(format_duration(176_461_000), "2d 01:01:01");
    assert_eq!(format_duration(172_861_000), "2d 01:01");
}

#[test]
fn status_renders_both_durations() {
    let st = Status::new(300_000, 1_200_000);
    assert_eq!(st.to_text(), "05:00/20:00");
    assert_eq!(st.elapsed, 300_000);
    assert_eq!(st.next_timer, 1_200_000);
}

#[test]
fn duration_ext_wraps_milliseconds() {
    assert_eq!(300_000u64.display().to_text(), "05:00");
    assert_eq!(0u64.display().to_text(), "00:00");
}

#[test]
fn parse_duration_reads_both_shapes() {
    assert_eq!(parse_duration("05:00").unwrap(), 300_000);
    assert_eq!(parse_duration("00:01").unwrap(), 1_000);
    assert_eq!(parse_duration("90:00").unwrap(), 5_400_000);
    assert_eq!(parse_duration("01:02:03").unwrap(), 3_723_000);
    assert_eq!(parse_duration("00:00:00").unwrap(), 0);
    assert_eq!(parse_duration("100:00:00").unwrap(), 360_000_000);
}

#[test]
fn parse_duration_rejects_bad_shapes() {
    let cases = [
        ("", "duration must be in format 'mm:ss' or 'hh:mm:ss'"),
        ("500", "duration must be in format 'mm:ss' or 'hh:mm:ss'"),
        ("1:2:3:4", "duration must be in format 'mm:ss' or 'hh:mm:ss'"),
        ("xx:10", "failed to parse minutes"),
        ("10:xx", "failed to parse seconds"),
        ("zz:10:10", "failed to parse hours"),
        ("10:60", "seconds must be in range 0-59"),
        ("01:60:00", "minutes must be in range 0-59"),
        ("01:00:60", "seconds must be in range 0-59"),
        (":10", "failed to parse minutes"),
        ("10:", "failed to parse seconds"),
        ("99999999999999999999:00", "failed to parse minutes"),
    ];
    for (input, expected) in cases {
        match parse_duration(input) {
            Err(Error::Config(msg)) => assert_eq!(msg, expected, "for input {input:?}"),
            other => panic!("expected a config error for {input:?}, got {other:?}"),
        }
    }
}

#[test]
fn config_duration_round_trips() {
    assert_eq!(format_config_duration(300_000), "05:00");
    assert_eq!(format_config_duration(3_723_000), "01:02:03");
    assert_eq!(format_config_duration(5_400_000), "01:30:00");
    for ms in [0u64, 1_000, 59_000, 60_000, 3_599_000, 3_600_000, 86_399_000] {
        let text = format_config_duration(ms);
        assert_eq!(parse_duration(&text).unwrap(), ms, "for {ms}");
    }
}

#[test]
fn is_default_checks_for_zero() {
    assert!(is_default(&0));
    assert!(!is_default(&50));
}

#[test]
fn error_messages_carry_their_category() {
    assert_eq!(
        Error::IO("socket gone".to_string()).message(),
        "I/O error: socket gone"
    );
    assert_eq!(
        Error::Config("bad".to_string()).message(),
        "Configuration error: bad"
    );
    assert_eq!(Error::Custom("plain".to_string()).message(), "plain");
}

#[test]
fn frames_carry_a_big_endian_length_prefix() {
    let payload = vec![1u8, 2, 3];
    let framed = encode_frame(&payload).unwrap();
    assert_eq!(framed, vec![0, 0, 0, 3, 1, 2, 3]);

    let empty = encode_frame(&Vec::new()).unwrap();
    assert_eq!(empty, vec![0, 0, 0, 0]);

    let long = vec![7u8; 300];
    let framed = encode_frame(&long).unwrap();
    assert_eq!(&framed[..4], &[0, 0, 1, 44]);
    assert_eq!(&framed[4..], &long[..]);
}

#[test]
fn frame_length_decodes_big_endian() {
    assert_eq!(decode_frame_len(0, 0, 0, 3), 3);
    assert_eq!(decode_frame_len(0, 0, 1, 44), 300);
    assert_eq!(decode_frame_len(1, 0, 0, 0), 16_777_216);
    assert_eq!(decode_frame_len(255, 255, 255, 255), u32::MAX);

    let payload = vec![9u8; 1234];
    let framed = encode_frame(&payload).unwrap();
    let n = decode_frame_len(framed[0], framed[1], framed[2], framed[3]);
    assert_eq!(n as usize, payload.len());
}

#[test]
fn notification_timeout_policy() {
    assert_eq!(
        notification_timeout(None),
        (TimeoutKind::DefaultExpiry, false)
    );
    assert_eq!(notification_timeout(Some(0)), (TimeoutKind::Never, true));
    assert_eq!(
        notification_timeout(Some(10)),
        (TimeoutKind::Millis(10_000), false)
    );
}

#[test]
fn activity_socket_path_is_fixed() {
    assert_eq!(actived_socket_path(), "/run/blink/actived.sock");
}
