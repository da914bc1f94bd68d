use shairport_dashboard::clock::now_ms;
use shairport_dashboard::iw_event::iw_event_from_line;
use shairport_dashboard::metadata::{decode_xml_b64_utf8, decode_xml_hex, MetadataParserState};
use shairport_dashboard::shairport::parse_shairport_line;
use shairport_dashboard::system::{
    cpu_totals_in_range, cpu_usage_step, is_fan_input_name, max_fan_speed, parse_cpu_totals,
    parse_fan_rpm, parse_meminfo_kb, parse_throttled, ram_usage_kb, sort_fan_speeds,
};

const LOG_LINE: &str = "2024-05-01T10:00:00+0000 raspberrypi shairport-sync[612]:      -1.25     12.5   3.1   0   2   44.10   N/A";

#[test]
fn reads_a_shairport_timing_line() {
    let sample = parse_shairport_line(LOG_LINE).expect("timing line");
    assert_eq!(sample.timestamp, "2024-05-01T10:00:00+0000 raspberrypi");
    assert_eq!(sample.av_sync_error_ms, "-1.25");
    assert_eq!(sample.ppm, "12.5");
    assert_eq!(sample.sync_window_ms, "3.1");
    assert_eq!(sample.missing, 0);
    assert_eq!(sample.resend, 2);
    assert_eq!(sample.fps_r.as_deref(), Some("44.10"));
    assert_eq!(sample.fps_c, None);
}

#[test]
fn other_journal_lines_are_no_samples() {
    assert!(parse_shairport_line("2024-05-01T10:00:00+0000 host systemd[1]: Started.").is_none());
    let too_big = "2024-05-01 host shairport-sync[1]: 1.0 2.0 3.0 4294967296 0 1.0 1.0";
    assert!(parse_shairport_line(too_big).is_none());
    let odd_rate = "2024-05-01 host shairport-sync[1]: 1.0 2.0 3.0 1 0 fast 1.0";
    let sample = parse_shairport_line(odd_rate).expect("timing line");
    assert_eq!(sample.fps_r, None);
    assert_eq!(sample.fps_c.as_deref(), Some("1.0"));
}

#[test]
fn hex_and_base64_payloads_that_do_not_decode() {
    assert_eq!(decode_xml_hex("  6d696e6d \n"), "minm");
    assert_eq!(decode_xml_hex("636"), "");
    assert_eq!(decode_xml_hex("zz"), "");
    assert_eq!(decode_xml_hex("ff"), "");
    assert_eq!(decode_xml_b64_utf8(" U2hh\ncGUg b2YgWW91 "), "Shape of You");
    assert_eq!(decode_xml_b64_utf8(" /w== "), "/w==");
}

#[test]
fn single_line_data_tag_emits_with_clock_time() {
    let mut parser = MetadataParserState::new();
    parser.parse_line_at("<item><type>636f7265</type><code>6d696e6d</code>", 1);
    let sample = parser
        .parse_line_at("<data encoding=\"base64\">U2hhcGUgb2YgWW91</data></item>", 77)
        .expect("track");
    assert_eq!(sample.timestamp_ms, 77);
    assert_eq!(sample.track.as_deref(), Some("Shape of You"));
    assert!(parser.metadata_changed() == false);
}

#[test]
fn lines_that_the_data_slicing_cannot_take_are_refused() {
    let parser = MetadataParserState::new();
    assert!(!parser.accepts_line("</data><data>"));
    assert!(parser.accepts_line("<data>x</data>"));
    assert!(parser.accepts_line("</data>"));
}

#[test]
fn iw_event_lines() {
    let sample = iw_event_from_line("  wlan0: new station aa \n", 5).expect("event");
    assert_eq!(sample.line, "wlan0: new station aa");
    assert_eq!(sample.timestamp_ms, 5);
    assert!(iw_event_from_line(" \t ", 5).is_none());
}

const MEMINFO: &str = "MemTotal:        3884128 kB\nMemFree:          512000 kB\nMemAvailable:    2884128 kB\n";

#[test]
fn reads_meminfo() {
    assert_eq!(parse_meminfo_kb(MEMINFO, "MemTotal:"), Some(3884128));
    assert_eq!(parse_meminfo_kb(MEMINFO, "MemAvailable:"), Some(2884128));
    assert_eq!(parse_meminfo_kb(MEMINFO, "Swap:"), None);
    assert_eq!(parse_meminfo_kb("MemTotal:\n", "MemTotal:"), None);
    assert_eq!(ram_usage_kb(MEMINFO), Some((1000000, 3884128)));
    assert_eq!(ram_usage_kb("MemTotal: 0 kB\nMemAvailable: 5 kB\n"), None);
    assert_eq!(ram_usage_kb("MemTotal: 4 kB\nMemAvailable: 5 kB\n"), Some((0, 4)));
}

#[test]
fn reads_cpu_totals() {
    let stat = "cpu  100 0 50 1000 20 0 5 0 0 0\ncpu0 1 2 3 4\n";
    assert!(cpu_totals_in_range(stat));
    assert_eq!(parse_cpu_totals(stat), Some((1020, 1175)));
    assert_eq!(parse_cpu_totals("cpu 1 2 3 4\n"), Some((4, 10)));
    assert_eq!(parse_cpu_totals("cpu 1 x 2 3\n"), None);
    assert_eq!(parse_cpu_totals("cpu 1 x 2 3 4\n"), Some((4, 10)));
    assert_eq!(parse_cpu_totals("intr 1 2 3 4\n"), None);
    assert_eq!(parse_cpu_totals(""), None);
    assert!(!cpu_totals_in_range("cpu 18446744073709551615 1 0 0\n"));
}

#[test]
fn cpu_usage_bookkeeping() {
    assert_eq!(cpu_usage_step(None, Some((10, 100))), (Some((10, 100)), None));
    assert_eq!(cpu_usage_step(Some((10, 100)), Some((30, 200))), (Some((30, 200)), Some((20, 100))));
    assert_eq!(cpu_usage_step(Some((10, 100)), Some((5, 100))), (Some((5, 100)), None));
    assert_eq!(cpu_usage_step(Some((10, 100)), None), (Some((10, 100)), None));
    assert_eq!(cpu_usage_step(Some((10, 100)), Some((5, 150))), (Some((5, 150)), Some((0, 50))));
}

#[test]
fn reads_throttled_flags() {
    assert_eq!(parse_throttled(b"throttled=0x50005\n".to_vec()), Some(true));
    assert_eq!(parse_throttled(b"throttled=0x50000\n".to_vec()), Some(false));
    assert_eq!(parse_throttled(b"throttled=0x0".to_vec()), Some(false));
    assert_eq!(parse_throttled(b"throttled=0x4 0x1".to_vec()), None);
    assert_eq!(parse_throttled(b"throttled=0x40x1".to_vec()), Some(true));
    assert_eq!(parse_throttled(b"throttled=5".to_vec()), None);
    assert_eq!(parse_throttled(vec![0xff, 0x30, 0x78, 0x34]), None);
}

#[test]
fn fan_inputs() {
    assert!(is_fan_input_name("fan1_input"));
    assert!(!is_fan_input_name("fan1_label"));
    assert!(!is_fan_input_name("temp1_input"));
    assert_eq!(parse_fan_rpm(" 3120\n"), Some(3120));
    assert_eq!(parse_fan_rpm("-1"), None);
    assert_eq!(sort_fan_speeds(vec![3120, 0, 1500, 0]), vec![0, 0, 1500, 3120]);
    assert_eq!(max_fan_speed(&vec![3120, 0, 4500, 10]), Some(4500));
    assert_eq!(max_fan_speed(&vec![]), None);
}

#[test]
fn the_clock_reads_after_2020() {
    assert!(now_ms() > 1_577_836_800_000);
}

#[test]
fn payloads_of_unknown_items_change_nothing() {
    let mut parser = MetadataParserState::new();
    parser.current_type = "core".to_string();
    parser.current_code = "asdk".to_string();
    assert!(parser.process_data("U2hhcGU=").is_none());
    assert!(parser.track.is_none());
    assert!(parser.parse_line_at("plain text", 0).is_none());
    assert_eq!(parser.current_code, "asdk");
}
