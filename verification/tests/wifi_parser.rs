use shairport_dashboard::wifi::{
    parse_bool_flag, parse_bool_yes_no, parse_first_token_f64_text, parse_first_token_i32,
    parse_first_token_u32, parse_first_token_u64, parse_station_dump_at, parse_station_header,
    strip_ansi_and_cr,
};
use shairport_dashboard::WifiStationParser;

#[test]
fn strips_control_sequences_and_carriage_returns() {
    assert_eq!(strip_ansi_and_cr("\u{1b}[31mred\u{1b}[0m\r\n"), "red\n");
    assert_eq!(strip_ansi_and_cr("a\u{1b}"), "a");
    assert_eq!(strip_ansi_and_cr("a\u{1b}xb"), "axb");
    assert_eq!(strip_ansi_and_cr("a\u{1b}[12;34"), "a");
    assert_eq!(strip_ansi_and_cr("\u{e9}"), "\u{c3}\u{a9}");
}

#[test]
fn reads_boolean_fields() {
    assert_eq!(parse_bool_yes_no("yes"), Some(true));
    assert_eq!(parse_bool_yes_no("no"), Some(false));
    assert_eq!(parse_bool_yes_no("on"), None);
    assert_eq!(parse_bool_flag("on"), Some(true));
    assert_eq!(parse_bool_flag("off"), Some(false));
    assert_eq!(parse_bool_flag("yes"), Some(true));
    assert_eq!(parse_bool_flag("maybe"), None);
}

#[test]
fn reads_station_headers() {
    assert_eq!(
        parse_station_header("Station 3a:98:b5:31:9d:34 (on wlan0)"),
        Some(("3a:98:b5:31:9d:34".to_string(), "wlan0".to_string()))
    );
    assert_eq!(
        parse_station_header("Station aa (on  wlan1)"),
        Some(("aa".to_string(), " wlan1".to_string()))
    );
    assert_eq!(parse_station_header("Station aa (on wlan0"), None);
    assert_eq!(parse_station_header("Station aa"), None);
    assert_eq!(parse_station_header("station aa (on wlan0)"), None);
}

#[test]
fn finish_closes_open_record_once() {
    let mut parser = WifiStationParser::new();
    assert!(parser.parse_line_at("Station aa (on wlan0)", 7).is_none());
    assert!(parser.parse_line_at("\trx bytes:\t12", 7).is_none());
    assert!(parser.parse_line_at("\tunknown key:\t99", 7).is_none());
    let sample = parser.finish_at(42).expect("open record");
    assert_eq!(sample.station_mac, "aa");
    assert_eq!(sample.rx_bytes, 12);
    assert_eq!(sample.tx_bytes, 0);
    assert_eq!(sample.current_time_ms, 42);
    assert_eq!(sample.tx_bitrate_mbit_s, "0.0");
    assert_eq!(sample.power_save_enabled, None);
    assert!(parser.finish_at(43).is_none());
}

#[test]
fn unreadable_values_fall_back_to_defaults() {
    let mut parser = WifiStationParser::new();
    parser.parse_line_at("Station aa (on wlan0)", 0);
    parser.parse_line_at("signal: strong", 0);
    parser.parse_line_at("tx bitrate: fast MBit/s", 0);
    parser.parse_line_at("power save: on", 0);
    parser.parse_line_at("DTIM period: 4294967296", 0);
    let sample = parser.parse_line_at("current time: soon", 99).expect("closed");
    assert_eq!(sample.signal_dbm, 0);
    assert_eq!(sample.tx_bitrate_mbit_s, "0.0");
    assert_eq!(sample.power_save_enabled, Some(true));
    assert_eq!(sample.dtim_period, 0);
    assert_eq!(sample.current_time_ms, 99);
    assert!(parser.finish_at(0).is_none());
}

#[test]
fn lines_before_a_header_are_ignored() {
    let mut parser = WifiStationParser::new();
    assert!(parser.parse_line_at("rx bytes: 5", 0).is_none());
    assert!(parser.parse_line_at("current time: 5 ms", 0).is_none());
    assert!(parser.finish_at(0).is_none());
}

#[test]
fn a_new_header_discards_the_unfinished_record() {
    let mut parser = WifiStationParser::new();
    parser.parse_line_at("Station aa (on wlan0)", 0);
    parser.parse_line_at("rx bytes: 5", 0);
    parser.parse_line_at("Station bb (on wlan1)", 0);
    let sample = parser.parse_line_at("current time: 8 ms", 0).expect("closed");
    assert_eq!(sample.station_mac, "bb");
    assert_eq!(sample.interface_name, "wlan1");
    assert_eq!(sample.rx_bytes, 0);
    assert_eq!(sample.current_time_ms, 8);
}

#[test]
fn a_dump_yields_every_closed_station() {
    let dump = "Station aa (on wlan0)\n\trx bytes:\t1\n\tcurrent time:\t10 ms\n\
                Station bb (on wlan0)\r\n\trx bytes:\t2\r\n\tcurrent time:\t20 ms\r\n\
                Station cc (on wlan0)\n\trx bytes:\t3\n";
    let samples = parse_station_dump_at(dump, 5);
    assert_eq!(samples.len(), 2);
    assert_eq!(samples[0].station_mac, "aa");
    assert_eq!(samples[0].rx_bytes, 1);
    assert_eq!(samples[0].current_time_ms, 10);
    assert_eq!(samples[1].station_mac, "bb");
    assert_eq!(samples[1].rx_bytes, 2);
    assert_eq!(samples[1].current_time_ms, 20);
}

#[test]
fn stripping_ascii_twice_changes_nothing() {
    for input in ["\u{1b}[31mred\u{1b}[0m\r\n", "a\u{1b}xb\r", "plain", "\u{1b}[", "x\u{1b}\u{1b}[1m"] {
        let once = strip_ansi_and_cr(input);
        assert_eq!(strip_ansi_and_cr(&once), once, "{input:?}");
    }
}

#[test]
fn written_headers_read_back() {
    for (mac, iface) in [("3a:98:b5:31:9d:34", "wlan0"), ("", "x y"), ("aa", ""), ("m", " (on )")] {
        let line = format!("Station {mac} (on {iface})");
        assert_eq!(
            parse_station_header(&line),
            Some((mac.to_string(), iface.to_string())),
            "{line:?}"
        );
    }
}

#[test]
fn first_tokens_read_as_numbers() {
    assert_eq!(parse_first_token_u64("  2191 seconds"), Some(2191));
    assert_eq!(parse_first_token_u64("-1 ms"), None);
    assert_eq!(parse_first_token_u64("   "), None);
    assert_eq!(parse_first_token_u32("108"), Some(108));
    assert_eq!(parse_first_token_u32("4294967296"), None);
    assert_eq!(parse_first_token_i32("-36 dBm"), Some(-36));
    assert_eq!(parse_first_token_f64_text("72.2 MBit/s").as_deref(), Some("72.2"));
    assert_eq!(parse_first_token_f64_text("fast MBit/s"), None);
}
