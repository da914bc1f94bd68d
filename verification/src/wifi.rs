//! `iw dev <iface> station dump` output, also as shown by `watch`: ANSI escape
//! sequences and carriage returns are dropped, a `Station <mac> (on <iface>)`
//! header starts a record, `key: value` lines fill it, and `current time`
//! closes it into a `WifiStationSample`.
use vstd::prelude::*;
use vstd::utf8::encode_utf8;
use crate::clock::now_ms;
use crate::models::{WifiStationSample, WifiStationSampleView};
use crate::numbers::{
    is_float_literal, is_float_literal_exec, parse_i32, parse_i32_spec, parse_u32, parse_u32_spec,
    parse_u64, parse_u64_spec,
};
use crate::text::{
    lines, seq_views, split_lines, chars_of, ends_with, ends_with_chars, eq_str, first_token, first_token_chars,
    split_once, split_once_chars, starts_with, starts_with_chars, string_of, subvec, trim,
    trim_chars,
};

verus! {

/// What is left of `b[i..]` once ANSI control sequences and carriage returns
/// are dropped, each remaining byte read as the character of that code.
/// `mode` 0 reads text, 1 follows an ESC, 2 is inside a `ESC [` sequence,
/// which ends with a byte in `0x40..=0x7E`.
pub open spec fn strip_ansi_from(b: Seq<u8>, i: int, mode: int) -> Seq<char>
    decreases b.len() - i, mode,
{
    if i < 0 || i >= b.len() {
        Seq::empty()
    } else if mode == 0 {
        if b[i] == 0x1B {
            strip_ansi_from(b, i + 1, 1)
        } else if b[i] == 0x0D {
            strip_ansi_from(b, i + 1, 0)
        } else {
            seq![b[i] as char] + strip_ansi_from(b, i + 1, 0)
        }
    } else if mode == 1 {
        if b[i] == 0x5B {
            strip_ansi_from(b, i + 1, 2)
        } else {
            strip_ansi_from(b, i, 0)
        }
    } else {
        if 0x40 <= b[i] && b[i] <= 0x7E {
            strip_ansi_from(b, i + 1, 0)
        } else {
            strip_ansi_from(b, i + 1, 2)
        }
    }
}

/// `strip_ansi_and_cr` on the UTF-8 bytes of `s`.
pub open spec fn strip_ansi(s: Seq<char>) -> Seq<char> {
    strip_ansi_from(encode_utf8(s), 0, 0)
}

/// Drops ANSI control sequences (`ESC [ ... final`) and carriage returns from
/// `input`; every other byte is kept as the character of that code.
pub fn strip_ansi_and_cr(input: &str) -> (r: String)
    ensures
        r@ == strip_ansi(input@),
{
    string_of(&strip_ansi_chars(input))
}

fn strip_ansi_chars(input: &str) -> (r: Vec<char>)
    ensures
        r@ == strip_ansi(input@),
{
    let bytes = input.as_bytes();
    let ghost b = bytes@;
    let n = bytes.len();
    let mut out: Vec<char> = Vec::new();
    let mut i: usize = 0;
    let mut mode: u8 = 0;
    while i < n
        invariant
            b == bytes@,
            n == b.len(),
            i <= n,
            mode <= 2,
            out@ + strip_ansi_from(b, i as int, mode as int) == strip_ansi_from(b, 0, 0),
        decreases 3 * (n - i) + mode,
    {
        let c = bytes[i];
        if mode == 0 {
            if c == 0x1B {
                mode = 1;
            } else if c != 0x0D {
                let ghost before = out@;
                out.push(c as char);
                assert(out@ + strip_ansi_from(b, i + 1, 0) =~= before + (seq![c as char]
                    + strip_ansi_from(b, i + 1, 0)));
            }
            i = i + 1;
        } else if mode == 1 {
            if c == 0x5B {
                mode = 2;
                i = i + 1;
            } else {
                mode = 0;
            }
        } else {
            if 0x40 <= c && c <= 0x7E {
                mode = 0;
            }
            i = i + 1;
        }
    }
    assert(out@ + strip_ansi_from(b, i as int, mode as int) =~= out@);
    out
}

/// `yes`/`no` fields.
pub open spec fn yes_no(v: Seq<char>) -> Option<bool> {
    if v == "yes"@ {
        Some(true)
    } else if v == "no"@ {
        Some(false)
    } else {
        None
    }
}

/// The `power save` field: `yes`/`on` or `no`/`off`.
pub open spec fn on_off(v: Seq<char>) -> Option<bool> {
    if v == "yes"@ || v == "on"@ {
        Some(true)
    } else if v == "no"@ || v == "off"@ {
        Some(false)
    } else {
        None
    }
}

/// The first token of `v` read as a `u64`.
pub open spec fn token_u64(v: Seq<char>) -> Option<u64> {
    match first_token(v) {
        Some(t) => parse_u64_spec(t),
        None => None,
    }
}

/// The first token of `v` read as a `u32`.
pub open spec fn token_u32(v: Seq<char>) -> Option<u32> {
    match first_token(v) {
        Some(t) => parse_u32_spec(t),
        None => None,
    }
}

/// The first token of `v` read as an `i32`.
pub open spec fn token_i32(v: Seq<char>) -> Option<i32> {
    match first_token(v) {
        Some(t) => parse_i32_spec(t),
        None => None,
    }
}

/// The first token of `v` if `f64::from_str` accepts it.
pub open spec fn token_float(v: Seq<char>) -> Option<Seq<char>> {
    match first_token(v) {
        Some(t) => if is_float_literal(t) {
            Some(t)
        } else {
            None
        },
        None => None,
    }
}

/// `Station <mac> (on <iface>)`: the MAC address and the interface.
pub open spec fn station_header(line: Seq<char>) -> Option<(Seq<char>, Seq<char>)> {
    if starts_with(line, "Station "@) {
        match split_once(line.skip("Station "@.len() as int), ' ') {
            None => None,
            Some((mac, tail)) => {
                let t = trim(tail);
                if starts_with(t, "(on "@) {
                    let u = t.skip("(on "@.len() as int);
                    if ends_with(u, ")"@) {
                        Some((mac, u.take(u.len() - ")"@.len())))
                    } else {
                        None
                    }
                } else {
                    None
                }
            },
        }
    } else {
        None
    }
}

/// Exact `yes`/`no` reading.
pub fn parse_bool_yes_no(value: &str) -> (r: Option<bool>)
    ensures
        r == yes_no(value@),
{
    yes_no_chars(&chars_of(value))
}

/// Exact `yes`/`on`/`no`/`off` reading.
pub fn parse_bool_flag(value: &str) -> (r: Option<bool>)
    ensures
        r == on_off(value@),
{
    on_off_chars(&chars_of(value))
}

fn yes_no_chars(v: &Vec<char>) -> (r: Option<bool>)
    ensures
        r == yes_no(v@),
{
    if eq_str(v, "yes") {
        Some(true)
    } else if eq_str(v, "no") {
        Some(false)
    } else {
        None
    }
}

fn on_off_chars(v: &Vec<char>) -> (r: Option<bool>)
    ensures
        r == on_off(v@),
{
    if eq_str(v, "yes") || eq_str(v, "on") {
        Some(true)
    } else if eq_str(v, "no") || eq_str(v, "off") {
        Some(false)
    } else {
        None
    }
}

/// `parse_first_token::<u64>`: the first whitespace-separated token of
/// `value` read as a `u64`.
pub fn parse_first_token_u64(value: &str) -> (r: Option<u64>)
    ensures
        r == token_u64(value@),
{
    token_u64_chars(&chars_of(value))
}

/// `parse_first_token::<u32>`: the first token of `value` read as a `u32`.
pub fn parse_first_token_u32(value: &str) -> (r: Option<u32>)
    ensures
        r == token_u32(value@),
{
    token_u32_chars(&chars_of(value))
}

/// `parse_first_token::<i32>`: the first token of `value` read as an `i32`.
pub fn parse_first_token_i32(value: &str) -> (r: Option<i32>)
    ensures
        r == token_i32(value@),
{
    token_i32_chars(&chars_of(value))
}

/// `parse_first_token::<f64>`: the first token of `value` as the decimal text
/// that `f64::from_str` reads, if it accepts it.
pub fn parse_first_token_f64_text(value: &str) -> (r: Option<String>)
    ensures
        crate::models::opt_str(r) == token_float(value@),
{
    token_float_chars(&chars_of(value))
}

fn token_u64_chars(v: &Vec<char>) -> (r: Option<u64>)
    ensures
        r == token_u64(v@),
{
    match first_token_chars(v) {
        Some(t) => parse_u64(&t),
        None => None,
    }
}

fn token_u32_chars(v: &Vec<char>) -> (r: Option<u32>)
    ensures
        r == token_u32(v@),
{
    match first_token_chars(v) {
        Some(t) => parse_u32(&t),
        None => None,
    }
}

fn token_i32_chars(v: &Vec<char>) -> (r: Option<i32>)
    ensures
        r == token_i32(v@),
{
    match first_token_chars(v) {
        Some(t) => parse_i32(&t),
        None => None,
    }
}

fn token_float_chars(v: &Vec<char>) -> (r: Option<String>)
    ensures
        match r {
            Some(s) => token_float(v@) == Some(s@),
            None => token_float(v@) is None,
        },
{
    match first_token_chars(v) {
        Some(t) => if is_float_literal_exec(&t) {
            Some(string_of(&t))
        } else {
            None
        },
        None => None,
    }
}

fn station_header_chars(line: &Vec<char>) -> (r: Option<(Vec<char>, Vec<char>)>)
    ensures
        match r {
            Some((mac, iface)) => station_header(line@) == Some((mac@, iface@)),
            None => station_header(line@) is None,
        },
{
    let prefix = chars_of("Station ");
    if !starts_with_chars(line, &prefix) {
        return None;
    }
    let rest = subvec(line, prefix.len(), line.len());
    assert(rest@ =~= line@.skip("Station "@.len() as int));
    let (mac, tail) = match split_once_chars(&rest, ' ') {
        Some(p) => p,
        None => return None,
    };
    let t = trim_chars(&tail);
    let on = chars_of("(on ");
    if !starts_with_chars(&t, &on) {
        return None;
    }
    let u = subvec(&t, on.len(), t.len());
    assert(u@ =~= t@.skip("(on "@.len() as int));
    let close = chars_of(")");
    if !ends_with_chars(&u, &close) {
        return None;
    }
    let iface = subvec(&u, 0, u.len() - close.len());
    Some((mac, iface))
}

/// The MAC address and interface of a `Station <mac> (on <iface>)` header.
pub fn parse_station_header(line: &str) -> (r: Option<(String, String)>)
    ensures
        match r {
            Some((mac, iface)) => station_header(line@) == Some((mac@, iface@)),
            None => station_header(line@) is None,
        },
{
    match station_header_chars(&chars_of(line)) {
        Some((mac, iface)) => Some((string_of(&mac), string_of(&iface))),
        None => None,
    }
}

/// The fields of one station gathered so far.
pub struct StationRecord {
    pub station_mac: Seq<char>,
    pub interface_name: Seq<char>,
    pub power_save_enabled: Option<bool>,
    pub inactive_time_ms: Option<u64>,
    pub rx_bytes: Option<u64>,
    pub rx_packets: Option<u64>,
    pub tx_bytes: Option<u64>,
    pub tx_packets: Option<u64>,
    pub tx_failed: Option<u64>,
    pub signal_dbm: Option<i32>,
    pub tx_bitrate_mbit_s: Option<Seq<char>>,
    pub rx_bitrate_mbit_s: Option<Seq<char>>,
    pub authorized: Option<bool>,
    pub authenticated: Option<bool>,
    pub associated: Option<bool>,
    pub wmm_wme: Option<bool>,
    pub tdls_peer: Option<bool>,
    pub dtim_period: Option<u32>,
    pub beacon_interval: Option<u32>,
    pub short_preamble: Option<bool>,
    pub short_slot_time: Option<bool>,
    pub connected_time_seconds: Option<u64>,
    pub current_time_ms: Option<u64>,
}

/// A record that a header has just started.
pub open spec fn fresh_record(mac: Seq<char>, iface: Seq<char>) -> StationRecord {
    StationRecord {
        station_mac: mac,
        interface_name: iface,
        power_save_enabled: None,
        inactive_time_ms: None,
        rx_bytes: None,
        rx_packets: None,
        tx_bytes: None,
        tx_packets: None,
        tx_failed: None,
        signal_dbm: None,
        tx_bitrate_mbit_s: None,
        rx_bitrate_mbit_s: None,
        authorized: None,
        authenticated: None,
        associated: None,
        wmm_wme: None,
        tdls_peer: None,
        dtim_period: None,
        beacon_interval: None,
        short_preamble: None,
        short_slot_time: None,
        connected_time_seconds: None,
        current_time_ms: None,
    }
}

pub open spec fn or_default<T>(o: Option<T>, d: T) -> T {
    match o {
        Some(v) => v,
        None => d,
    }
}

/// The sample a record closes into at time `now`: a missing number is 0, a
/// missing flag false, a missing bitrate `0.0`, a missing current time `now`.
pub open spec fn build_sample(r: StationRecord, now: u64) -> WifiStationSampleView {
    WifiStationSampleView {
        station_mac: r.station_mac,
        interface_name: r.interface_name,
        power_save_enabled: r.power_save_enabled,
        inactive_time_ms: or_default(r.inactive_time_ms, 0),
        rx_bytes: or_default(r.rx_bytes, 0),
        rx_packets: or_default(r.rx_packets, 0),
        tx_bytes: or_default(r.tx_bytes, 0),
        tx_packets: or_default(r.tx_packets, 0),
        tx_failed: or_default(r.tx_failed, 0),
        signal_dbm: or_default(r.signal_dbm, 0),
        tx_bitrate_mbit_s: or_default(r.tx_bitrate_mbit_s, "0.0"@),
        rx_bitrate_mbit_s: or_default(r.rx_bitrate_mbit_s, "0.0"@),
        authorized: or_default(r.authorized, false),
        authenticated: or_default(r.authenticated, false),
        associated: or_default(r.associated, false),
        wmm_wme: or_default(r.wmm_wme, false),
        tdls_peer: or_default(r.tdls_peer, false),
        dtim_period: or_default(r.dtim_period, 0),
        beacon_interval: or_default(r.beacon_interval, 0),
        short_preamble: or_default(r.short_preamble, false),
        short_slot_time: or_default(r.short_slot_time, false),
        connected_time_seconds: or_default(r.connected_time_seconds, 0),
        current_time_ms: or_default(r.current_time_ms, now),
    }
}

/// The record after one `key: value` line other than `current time`; an
/// unknown key leaves it as it is.
pub open spec fn apply_field(r: StationRecord, key: Seq<char>, value: Seq<char>) -> StationRecord {
    if key == "power save"@ {
        StationRecord { power_save_enabled: on_off(value), ..r }
    } else if key == "inactive time"@ {
        StationRecord { inactive_time_ms: token_u64(value), ..r }
    } else if key == "rx bytes"@ {
        StationRecord { rx_bytes: token_u64(value), ..r }
    } else if key == "rx packets"@ {
        StationRecord { rx_packets: token_u64(value), ..r }
    } else if key == "tx bytes"@ {
        StationRecord { tx_bytes: token_u64(value), ..r }
    } else if key == "tx packets"@ {
        StationRecord { tx_packets: token_u64(value), ..r }
    } else if key == "tx failed"@ {
        StationRecord { tx_failed: token_u64(value), ..r }
    } else if key == "signal"@ {
        StationRecord { signal_dbm: token_i32(value), ..r }
    } else if key == "tx bitrate"@ {
        StationRecord { tx_bitrate_mbit_s: token_float(value), ..r }
    } else if key == "rx bitrate"@ {
        StationRecord { rx_bitrate_mbit_s: token_float(value), ..r }
    } else if key == "authorized"@ {
        StationRecord { authorized: yes_no(value), ..r }
    } else if key == "authenticated"@ {
        StationRecord { authenticated: yes_no(value), ..r }
    } else if key == "associated"@ {
        StationRecord { associated: yes_no(value), ..r }
    } else if key == "WMM/WME"@ {
        StationRecord { wmm_wme: yes_no(value), ..r }
    } else if key == "TDLS peer"@ {
        StationRecord { tdls_peer: yes_no(value), ..r }
    } else if key == "DTIM period"@ {
        StationRecord { dtim_period: token_u32(value), ..r }
    } else if key == "beacon interval"@ {
        StationRecord { beacon_interval: token_u32(value), ..r }
    } else if key == "short preamble"@ {
        StationRecord { short_preamble: yes_no(value), ..r }
    } else if key == "short slot time"@ {
        StationRecord { short_slot_time: yes_no(value), ..r }
    } else if key == "connected time"@ {
        StationRecord { connected_time_seconds: token_u64(value), ..r }
    } else {
        r
    }
}

/// A raw line with control sequences and carriage returns dropped, trimmed.
pub open spec fn clean_line(raw: Seq<char>) -> Seq<char> {
    trim(strip_ansi(raw))
}

/// What one raw line does to the parser: the new open record, and the record
/// that it closes, if any.
pub open spec fn station_step(st: Option<StationRecord>, raw: Seq<char>) -> (
    Option<StationRecord>,
    Option<StationRecord>,
) {
    let line = clean_line(raw);
    if line.len() == 0 || starts_with(line, "Every "@) {
        (st, None)
    } else {
        match station_header(line) {
            Some((mac, iface)) => (Some(fresh_record(mac, iface)), None),
            None => match st {
                None => (None, None),
                Some(b) => match split_once(line, ':') {
                    None => (st, None),
                    Some((k, v)) => {
                        let key = trim(k);
                        let value = trim(v);
                        if key == "current time"@ {
                            (None, Some(StationRecord { current_time_ms: token_u64(value), ..b }))
                        } else {
                            (Some(apply_field(b, key, value)), None)
                        }
                    },
                },
            },
        }
    }
}

/// The exec form of a `StationRecord`.
struct WifiStationSampleBuilder {
    station_mac: String,
    interface_name: String,
    power_save_enabled: Option<bool>,
    inactive_time_ms: Option<u64>,
    rx_bytes: Option<u64>,
    rx_packets: Option<u64>,
    tx_bytes: Option<u64>,
    tx_packets: Option<u64>,
    tx_failed: Option<u64>,
    signal_dbm: Option<i32>,
    tx_bitrate_mbit_s: Option<String>,
    rx_bitrate_mbit_s: Option<String>,
    authorized: Option<bool>,
    authenticated: Option<bool>,
    associated: Option<bool>,
    wmm_wme: Option<bool>,
    tdls_peer: Option<bool>,
    dtim_period: Option<u32>,
    beacon_interval: Option<u32>,
    short_preamble: Option<bool>,
    short_slot_time: Option<bool>,
    connected_time_seconds: Option<u64>,
    current_time_ms: Option<u64>,
}

impl View for WifiStationSampleBuilder {
    type V = StationRecord;

    closed spec fn view(&self) -> StationRecord {
        StationRecord {
            station_mac: self.station_mac@,
            interface_name: self.interface_name@,
            power_save_enabled: self.power_save_enabled,
            inactive_time_ms: self.inactive_time_ms,
            rx_bytes: self.rx_bytes,
            rx_packets: self.rx_packets,
            tx_bytes: self.tx_bytes,
            tx_packets: self.tx_packets,
            tx_failed: self.tx_failed,
            signal_dbm: self.signal_dbm,
            tx_bitrate_mbit_s: crate::models::opt_str(self.tx_bitrate_mbit_s),
            rx_bitrate_mbit_s: crate::models::opt_str(self.rx_bitrate_mbit_s),
            authorized: self.authorized,
            authenticated: self.authenticated,
            associated: self.associated,
            wmm_wme: self.wmm_wme,
            tdls_peer: self.tdls_peer,
            dtim_period: self.dtim_period,
            beacon_interval: self.beacon_interval,
            short_preamble: self.short_preamble,
            short_slot_time: self.short_slot_time,
            connected_time_seconds: self.connected_time_seconds,
            current_time_ms: self.current_time_ms,
        }
    }
}

fn text_or_zero(o: Option<String>) -> (r: String)
    ensures
        r@ == or_default(crate::models::opt_str(o), "0.0"@),
{
    match o {
        Some(s) => s,
        None => String::from_str("0.0"),
    }
}

impl WifiStationSampleBuilder {
    fn fresh(station_mac: String, interface_name: String) -> (r: Self)
        ensures
            r@ == fresh_record(station_mac@, interface_name@),
    {
        WifiStationSampleBuilder {
            station_mac,
            interface_name,
            power_save_enabled: None,
            inactive_time_ms: None,
            rx_bytes: None,
            rx_packets: None,
            tx_bytes: None,
            tx_packets: None,
            tx_failed: None,
            signal_dbm: None,
            tx_bitrate_mbit_s: None,
            rx_bitrate_mbit_s: None,
            authorized: None,
            authenticated: None,
            associated: None,
            wmm_wme: None,
            tdls_peer: None,
            dtim_period: None,
            beacon_interval: None,
            short_preamble: None,
            short_slot_time: None,
            connected_time_seconds: None,
            current_time_ms: None,
        }
    }

    fn build(self, now_ms: u64) -> (r: WifiStationSample)
        ensures
            r@ == build_sample(self@, now_ms),
    {
        proof {
            reveal_strlit("0.0");
        }
        WifiStationSample {
            station_mac: self.station_mac,
            interface_name: self.interface_name,
            power_save_enabled: self.power_save_enabled,
            inactive_time_ms: match self.inactive_time_ms { Some(v) => v, None => 0 },
            rx_bytes: match self.rx_bytes { Some(v) => v, None => 0 },
            rx_packets: match self.rx_packets { Some(v) => v, None => 0 },
            tx_bytes: match self.tx_bytes { Some(v) => v, None => 0 },
            tx_packets: match self.tx_packets { Some(v) => v, None => 0 },
            tx_failed: match self.tx_failed { Some(v) => v, None => 0 },
            signal_dbm: match self.signal_dbm { Some(v) => v, None => 0 },
            tx_bitrate_mbit_s: text_or_zero(self.tx_bitrate_mbit_s),
            rx_bitrate_mbit_s: text_or_zero(self.rx_bitrate_mbit_s),
            authorized: match self.authorized { Some(v) => v, None => false },
            authenticated: match self.authenticated { Some(v) => v, None => false },
            associated: match self.associated { Some(v) => v, None => false },
            wmm_wme: match self.wmm_wme { Some(v) => v, None => false },
            tdls_peer: match self.tdls_peer { Some(v) => v, None => false },
            dtim_period: match self.dtim_period { Some(v) => v, None => 0 },
            beacon_interval: match self.beacon_interval { Some(v) => v, None => 0 },
            short_preamble: match self.short_preamble { Some(v) => v, None => false },
            short_slot_time: match self.short_slot_time { Some(v) => v, None => false },
            connected_time_seconds: match self.connected_time_seconds { Some(v) => v, None => 0 },
            current_time_ms: match self.current_time_ms { Some(v) => v, None => now_ms },
        }
    }

    fn apply(&mut self, key: &Vec<char>, value: &Vec<char>)
        ensures
            final(self)@ == apply_field(old(self)@, key@, value@),
    {
        if eq_str(key, "power save") {
            self.power_save_enabled = on_off_chars(value);
        } else if eq_str(key, "inactive time") {
            self.inactive_time_ms = token_u64_chars(value);
        } else if eq_str(key, "rx bytes") {
            self.rx_bytes = token_u64_chars(value);
        } else if eq_str(key, "rx packets") {
            self.rx_packets = token_u64_chars(value);
        } else if eq_str(key, "tx bytes") {
            self.tx_bytes = token_u64_chars(value);
        } else if eq_str(key, "tx packets") {
            self.tx_packets = token_u64_chars(value);
        } else if eq_str(key, "tx failed") {
            self.tx_failed = token_u64_chars(value);
        } else if eq_str(key, "signal") {
            self.signal_dbm = token_i32_chars(value);
        } else if eq_str(key, "tx bitrate") {
            self.tx_bitrate_mbit_s = token_float_chars(value);
        } else if eq_str(key, "rx bitrate") {
            self.rx_bitrate_mbit_s = token_float_chars(value);
        } else if eq_str(key, "authorized") {
            self.authorized = yes_no_chars(value);
        } else if eq_str(key, "authenticated") {
            self.authenticated = yes_no_chars(value);
        } else if eq_str(key, "associated") {
            self.associated = yes_no_chars(value);
        } else if eq_str(key, "WMM/WME") {
            self.wmm_wme = yes_no_chars(value);
        } else if eq_str(key, "TDLS peer") {
            self.tdls_peer = yes_no_chars(value);
        } else if eq_str(key, "DTIM period") {
            self.dtim_period = token_u32_chars(value);
        } else if eq_str(key, "beacon interval") {
            self.beacon_interval = token_u32_chars(value);
        } else if eq_str(key, "short preamble") {
            self.short_preamble = yes_no_chars(value);
        } else if eq_str(key, "short slot time") {
            self.short_slot_time = yes_no_chars(value);
        } else if eq_str(key, "connected time") {
            self.connected_time_seconds = token_u64_chars(value);
        }
    }
}

/// Parser for `iw dev <iface> station dump` output, fed one line at a time.
pub struct WifiStationParser {
    builder: Option<WifiStationSampleBuilder>,
}

impl View for WifiStationParser {
    type V = Option<StationRecord>;

    closed spec fn view(&self) -> Option<StationRecord> {
        match self.builder {
            Some(b) => Some(b@),
            None => None,
        }
    }
}

impl Default for WifiStationParser {
    fn default() -> (r: Self)
        ensures
            r@ is None,
    {
        WifiStationParser { builder: None }
    }
}

impl WifiStationParser {
    /// A parser with no open record.
    pub fn new() -> (r: Self)
        ensures
            r@ is None,
    {
        WifiStationParser { builder: None }
    }

    /// Feeds one raw line; returns the sample that a `current time` line
    /// closes, stamped with `now_ms` if the line gave no readable time.
    pub fn parse_line_at(&mut self, raw_line: &str, now_ms: u64) -> (r: Option<WifiStationSample>)
        ensures
            final(self)@ == station_step(old(self)@, raw_line@).0,
            match station_step(old(self)@, raw_line@).1 {
                Some(rec) => r matches Some(s) && s@ == build_sample(rec, now_ms),
                None => r is None,
            },
    {
        let line = trim_chars(&strip_ansi_chars(raw_line));
        if line.len() == 0 || starts_with_chars(&line, &chars_of("Every ")) {
            return None;
        }
        if let Some((mac, iface)) = station_header_chars(&line) {
            self.builder = Some(WifiStationSampleBuilder::fresh(string_of(&mac), string_of(&iface)));
            return None;
        }
        if self.builder.is_none() {
            return None;
        }
        let (k, v) = match split_once_chars(&line, ':') {
            Some(p) => p,
            None => return None,
        };
        let key = trim_chars(&k);
        let value = trim_chars(&v);
        if eq_str(&key, "current time") {
            let mut finished = self.builder.take().unwrap();
            finished.current_time_ms = token_u64_chars(&value);
            return Some(finished.build(now_ms));
        }
        let mut active = self.builder.take().unwrap();
        active.apply(&key, &value);
        self.builder = Some(active);
        None
    }

    /// Feeds one raw line; a closed sample without a readable time is stamped
    /// with the clock.
    pub fn parse_line(&mut self, raw_line: &str) -> (r: Option<WifiStationSample>)
        ensures
            final(self)@ == station_step(old(self)@, raw_line@).0,
            match station_step(old(self)@, raw_line@).1 {
                Some(rec) => r matches Some(s) && s@ == build_sample(rec, s.current_time_ms),
                None => r is None,
            },
    {
        let now = now_ms();
        self.parse_line_at(raw_line, now)
    }

    /// Closes the open record, if any, stamped with `now_ms` if it has no time.
    pub fn finish_at(&mut self, now_ms: u64) -> (r: Option<WifiStationSample>)
        ensures
            final(self)@ is None,
            match old(self)@ {
                Some(rec) => r matches Some(s) && s@ == build_sample(rec, now_ms),
                None => r is None,
            },
    {
        match self.builder.take() {
            Some(b) => Some(b.build(now_ms)),
            None => None,
        }
    }

    /// Closes the open record, if any, stamped with the clock if it has no time.
    pub fn finish(&mut self) -> (r: Option<WifiStationSample>)
        ensures
            final(self)@ is None,
            match old(self)@ {
                Some(rec) => r matches Some(s) && s@ == build_sample(rec, s.current_time_ms),
                None => r is None,
            },
    {
        let now = now_ms();
        self.finish_at(now)
    }
}

/// The samples that the lines `ls` give, fed in order to a parser in state
/// `st`, closed records stamped with `now` where they have no time.
pub open spec fn dump_samples(st: Option<StationRecord>, ls: Seq<Seq<char>>, now: u64) -> Seq<
    WifiStationSampleView,
>
    decreases ls.len(),
{
    if ls.len() == 0 {
        Seq::empty()
    } else {
        let (next, closed) = station_step(st, ls[0]);
        (match closed {
            Some(rec) => seq![build_sample(rec, now)],
            None => Seq::empty(),
        }) + dump_samples(next, ls.drop_first(), now)
    }
}

pub open spec fn sample_views(v: Seq<WifiStationSample>) -> Seq<WifiStationSampleView> {
    v.map_values(|s: WifiStationSample| s@)
}

/// All samples of one `iw ... station dump` output, read line by line with a
/// fresh parser; a record that no `current time` line closes is dropped.
pub fn parse_station_dump_at(output: &str, now_ms: u64) -> (r: Vec<WifiStationSample>)
    ensures
        sample_views(r@) == dump_samples(None, lines(output@), now_ms),
{
    let ls = split_lines(&chars_of(output));
    let mut parser = WifiStationParser::new();
    let mut out: Vec<WifiStationSample> = Vec::new();
    let n = ls.len();
    let mut i: usize = 0;
    assert(seq_views(ls@).skip(0) =~= seq_views(ls@));
    while i < n
        invariant
            n == ls@.len(),
            i <= n,
            seq_views(ls@) == lines(output@),
            sample_views(out@) + dump_samples(parser@, seq_views(ls@).skip(i as int), now_ms)
                == dump_samples(None, lines(output@), now_ms),
        decreases n - i,
    {
        let ghost rest = seq_views(ls@).skip(i as int);
        let ghost st = parser@;
        assert(rest[0] == ls@[i as int]@);
        assert(rest.drop_first() =~= seq_views(ls@).skip(i + 1));
        let line = string_of(&ls[i]);
        let ghost before = out@;
        match parser.parse_line_at(line.as_str(), now_ms) {
            Some(sample) => {
                let ghost sv = sample@;
                out.push(sample);
                assert(sample_views(out@) =~= sample_views(before).push(sv));
                assert(sample_views(out@) + dump_samples(parser@, rest.drop_first(), now_ms)
                    =~= sample_views(before) + (seq![sv] + dump_samples(
                    parser@,
                    rest.drop_first(),
                    now_ms,
                )));
            },
            None => {
                assert(sample_views(before) + dump_samples(parser@, rest.drop_first(), now_ms)
                    =~= sample_views(before) + (Seq::<WifiStationSampleView>::empty()
                    + dump_samples(parser@, rest.drop_first(), now_ms)));
            },
        }
        i = i + 1;
    }
    assert(sample_views(out@) + Seq::<WifiStationSampleView>::empty() =~= sample_views(out@));
    out
}

/// All samples of one station dump, records without a readable time stamped
/// with one reading of the clock.
pub fn parse_station_dump(output: &str) -> (r: Vec<WifiStationSample>)
    ensures
        exists|now: u64| sample_views(r@) == dump_samples(None, lines(output@), now),
{
    let now = now_ms();
    parse_station_dump_at(output, now)
}

} // verus!
