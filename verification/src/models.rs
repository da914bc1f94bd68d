//! The samples that the collectors produce and the event that carries them.
//!
//! Every `f64` of a sample is held as the decimal text that `f64::from_str`
//! reads it from (see `numbers::is_float_literal`); the program converts it
//! where it serialises a sample.
use vstd::prelude::*;

verus! {

/// The view of an optional string.
pub open spec fn opt_str(o: Option<String>) -> Option<Seq<char>> {
    match o {
        Some(s) => Some(s@),
        None => None,
    }
}

/// A clone of an optional string that keeps its contents.
pub fn clone_opt_string(o: &Option<String>) -> (r: Option<String>)
    ensures
        r == *o,
{
    match o {
        Some(s) => Some(s.clone()),
        None => None,
    }
}

/// Equality of the contents of two optional strings.
pub fn opt_string_eq(a: &Option<String>, b: &Option<String>) -> (r: bool)
    ensures
        r == (opt_str(*a) == opt_str(*b)),
{
    match (a, b) {
        (Some(x), Some(y)) => x.eq(y),
        (None, None) => true,
        _ => false,
    }
}

/// One station of `iw dev <iface> station dump`.
#[derive(Debug, PartialEq)]
pub struct WifiStationSample {
    pub station_mac: String,
    pub interface_name: String,
    pub power_save_enabled: Option<bool>,
    pub inactive_time_ms: u64,
    pub rx_bytes: u64,
    pub rx_packets: u64,
    pub tx_bytes: u64,
    pub tx_packets: u64,
    pub tx_failed: u64,
    pub signal_dbm: i32,
    /// Decimal text of the transmit bitrate in MBit/s.
    pub tx_bitrate_mbit_s: String,
    /// Decimal text of the receive bitrate in MBit/s.
    pub rx_bitrate_mbit_s: String,
    pub authorized: bool,
    pub authenticated: bool,
    pub associated: bool,
    pub wmm_wme: bool,
    pub tdls_peer: bool,
    pub dtim_period: u32,
    pub beacon_interval: u32,
    pub short_preamble: bool,
    pub short_slot_time: bool,
    pub connected_time_seconds: u64,
    pub current_time_ms: u64,
}

pub struct WifiStationSampleView {
    pub station_mac: Seq<char>,
    pub interface_name: Seq<char>,
    pub power_save_enabled: Option<bool>,
    pub inactive_time_ms: u64,
    pub rx_bytes: u64,
    pub rx_packets: u64,
    pub tx_bytes: u64,
    pub tx_packets: u64,
    pub tx_failed: u64,
    pub signal_dbm: i32,
    pub tx_bitrate_mbit_s: Seq<char>,
    pub rx_bitrate_mbit_s: Seq<char>,
    pub authorized: bool,
    pub authenticated: bool,
    pub associated: bool,
    pub wmm_wme: bool,
    pub tdls_peer: bool,
    pub dtim_period: u32,
    pub beacon_interval: u32,
    pub short_preamble: bool,
    pub short_slot_time: bool,
    pub connected_time_seconds: u64,
    pub current_time_ms: u64,
}

impl View for WifiStationSample {
    type V = WifiStationSampleView;

    open spec fn view(&self) -> WifiStationSampleView {
        WifiStationSampleView {
            station_mac: self.station_mac@,
            interface_name: self.interface_name@,
            power_save_enabled: self.power_save_enabled,
            inactive_time_ms: self.inactive_time_ms,
            rx_bytes: self.rx_bytes,
            rx_packets: self.rx_packets,
            tx_bytes: self.tx_bytes,
            tx_packets: self.tx_packets,
            tx_failed: self.tx_failed,
            signal_dbm: self.signal_dbm,
            tx_bitrate_mbit_s: self.tx_bitrate_mbit_s@,
            rx_bitrate_mbit_s: self.rx_bitrate_mbit_s@,
            authorized: self.authorized,
            authenticated: self.authenticated,
            associated: self.associated,
            wmm_wme: self.wmm_wme,
            tdls_peer: self.tdls_peer,
            dtim_period: self.dtim_period,
            beacon_interval: self.beacon_interval,
            short_preamble: self.short_preamble,
            short_slot_time: self.short_slot_time,
            connected_time_seconds: self.connected_time_seconds,
            current_time_ms: self.current_time_ms,
        }
    }
}

impl Clone for WifiStationSample {
    fn clone(&self) -> (r: Self)
        ensures
            r@ == self@,
    {
        WifiStationSample {
            station_mac: self.station_mac.clone(),
            interface_name: self.interface_name.clone(),
            power_save_enabled: self.power_save_enabled,
            inactive_time_ms: self.inactive_time_ms,
            rx_bytes: self.rx_bytes,
            rx_packets: self.rx_packets,
            tx_bytes: self.tx_bytes,
            tx_packets: self.tx_packets,
            tx_failed: self.tx_failed,
            signal_dbm: self.signal_dbm,
            tx_bitrate_mbit_s: self.tx_bitrate_mbit_s.clone(),
            rx_bitrate_mbit_s: self.rx_bitrate_mbit_s.clone(),
            authorized: self.authorized,
            authenticated: self.authenticated,
            associated: self.associated,
            wmm_wme: self.wmm_wme,
            tdls_peer: self.tdls_peer,
            dtim_period: self.dtim_period,
            beacon_interval: self.beacon_interval,
            short_preamble: self.short_preamble,
            short_slot_time: self.short_slot_time,
            connected_time_seconds: self.connected_time_seconds,
            current_time_ms: self.current_time_ms,
        }
    }
}

/// One timing line of shairport-sync's log.
#[derive(Debug, PartialEq)]
pub struct ShairportSample {
    pub timestamp: String,
    /// Decimal text of the sync error in milliseconds.
    pub av_sync_error_ms: String,
    /// Decimal text of the clock drift in parts per million.
    pub ppm: String,
    /// Decimal text of the sync window in milliseconds.
    pub sync_window_ms: String,
    pub missing: u32,
    pub resend: u32,
    /// Decimal text of the received frame rate, if the log gave one.
    pub fps_r: Option<String>,
    /// Decimal text of the corrected frame rate, if the log gave one.
    pub fps_c: Option<String>,
}

pub struct ShairportSampleView {
    pub timestamp: Seq<char>,
    pub av_sync_error_ms: Seq<char>,
    pub ppm: Seq<char>,
    pub sync_window_ms: Seq<char>,
    pub missing: u32,
    pub resend: u32,
    pub fps_r: Option<Seq<char>>,
    pub fps_c: Option<Seq<char>>,
}

impl View for ShairportSample {
    type V = ShairportSampleView;

    open spec fn view(&self) -> ShairportSampleView {
        ShairportSampleView {
            timestamp: self.timestamp@,
            av_sync_error_ms: self.av_sync_error_ms@,
            ppm: self.ppm@,
            sync_window_ms: self.sync_window_ms@,
            missing: self.missing,
            resend: self.resend,
            fps_r: opt_str(self.fps_r),
            fps_c: opt_str(self.fps_c),
        }
    }
}

impl Clone for ShairportSample {
    fn clone(&self) -> (r: Self)
        ensures
            r@ == self@,
    {
        ShairportSample {
            timestamp: self.timestamp.clone(),
            av_sync_error_ms: self.av_sync_error_ms.clone(),
            ppm: self.ppm.clone(),
            sync_window_ms: self.sync_window_ms.clone(),
            missing: self.missing,
            resend: self.resend,
            fps_r: clone_opt_string(&self.fps_r),
            fps_c: clone_opt_string(&self.fps_c),
        }
    }
}

/// Track metadata from shairport-sync's metadata pipe.
#[derive(Debug, PartialEq)]
pub struct ShairportMetadataSample {
    pub timestamp_ms: u64,
    pub track: Option<String>,
    pub artist: Option<String>,
    pub album: Option<String>,
    pub genre: Option<String>,
    pub artwork_base64: Option<String>,
}

pub struct ShairportMetadataSampleView {
    pub timestamp_ms: u64,
    pub track: Option<Seq<char>>,
    pub artist: Option<Seq<char>>,
    pub album: Option<Seq<char>>,
    pub genre: Option<Seq<char>>,
    pub artwork_base64: Option<Seq<char>>,
}

impl View for ShairportMetadataSample {
    type V = ShairportMetadataSampleView;

    open spec fn view(&self) -> ShairportMetadataSampleView {
        ShairportMetadataSampleView {
            timestamp_ms: self.timestamp_ms,
            track: opt_str(self.track),
            artist: opt_str(self.artist),
            album: opt_str(self.album),
            genre: opt_str(self.genre),
            artwork_base64: opt_str(self.artwork_base64),
        }
    }
}

impl Clone for ShairportMetadataSample {
    fn clone(&self) -> (r: Self)
        ensures
            r@ == self@,
    {
        ShairportMetadataSample {
            timestamp_ms: self.timestamp_ms,
            track: clone_opt_string(&self.track),
            artist: clone_opt_string(&self.artist),
            album: clone_opt_string(&self.album),
            genre: clone_opt_string(&self.genre),
            artwork_base64: clone_opt_string(&self.artwork_base64),
        }
    }
}

/// One line of `iw event -t`.
#[derive(Debug, PartialEq)]
pub struct IwEventSample {
    pub timestamp_ms: u64,
    pub line: String,
}

pub struct IwEventSampleView {
    pub timestamp_ms: u64,
    pub line: Seq<char>,
}

impl View for IwEventSample {
    type V = IwEventSampleView;

    open spec fn view(&self) -> IwEventSampleView {
        IwEventSampleView { timestamp_ms: self.timestamp_ms, line: self.line@ }
    }
}

impl Clone for IwEventSample {
    fn clone(&self) -> (r: Self)
        ensures
            r@ == self@,
    {
        IwEventSample { timestamp_ms: self.timestamp_ms, line: self.line.clone() }
    }
}

/// Raspberry Pi system statistics.
#[derive(Debug, PartialEq)]
pub struct SystemSample {
    pub timestamp_ms: u64,
    /// Decimal text of the CPU temperature in degrees Celsius.
    pub cpu_temp_c: String,
    /// Decimal text of the CPU usage in percent.
    pub cpu_usage_pct: String,
    /// Decimal text of the RAM usage in percent.
    pub ram_usage_pct: String,
    pub fan_speed_rpm: Option<u32>,
    pub fan_speeds_rpm: Vec<u32>,
    pub throttled_now: Option<bool>,
}

pub struct SystemSampleView {
    pub timestamp_ms: u64,
    pub cpu_temp_c: Seq<char>,
    pub cpu_usage_pct: Seq<char>,
    pub ram_usage_pct: Seq<char>,
    pub fan_speed_rpm: Option<u32>,
    pub fan_speeds_rpm: Seq<u32>,
    pub throttled_now: Option<bool>,
}

impl View for SystemSample {
    type V = SystemSampleView;

    open spec fn view(&self) -> SystemSampleView {
        SystemSampleView {
            timestamp_ms: self.timestamp_ms,
            cpu_temp_c: self.cpu_temp_c@,
            cpu_usage_pct: self.cpu_usage_pct@,
            ram_usage_pct: self.ram_usage_pct@,
            fan_speed_rpm: self.fan_speed_rpm,
            fan_speeds_rpm: self.fan_speeds_rpm@,
            throttled_now: self.throttled_now,
        }
    }
}

impl Clone for SystemSample {
    fn clone(&self) -> (r: Self)
        ensures
            r@ == self@,
    {
        let fans = self.fan_speeds_rpm.clone();
        assert(fans@ =~= self.fan_speeds_rpm@);
        SystemSample {
            timestamp_ms: self.timestamp_ms,
            cpu_temp_c: self.cpu_temp_c.clone(),
            cpu_usage_pct: self.cpu_usage_pct.clone(),
            ram_usage_pct: self.ram_usage_pct.clone(),
            fan_speed_rpm: self.fan_speed_rpm,
            fan_speeds_rpm: fans,
            throttled_now: self.throttled_now,
        }
    }
}

/// A sample of any collector, as it travels to subscribers and into history.
#[derive(Debug, PartialEq)]
pub enum SampleEvent {
    Shairport(ShairportSample),
    ShairportMetadata(ShairportMetadataSample),
    WifiStation(WifiStationSample),
    System(SystemSample),
    IwEvent(IwEventSample),
}

pub enum SampleEventView {
    Shairport(ShairportSampleView),
    ShairportMetadata(ShairportMetadataSampleView),
    WifiStation(WifiStationSampleView),
    System(SystemSampleView),
    IwEvent(IwEventSampleView),
}

impl View for SampleEvent {
    type V = SampleEventView;

    open spec fn view(&self) -> SampleEventView {
        match self {
            SampleEvent::Shairport(s) => SampleEventView::Shairport(s@),
            SampleEvent::ShairportMetadata(s) => SampleEventView::ShairportMetadata(s@),
            SampleEvent::WifiStation(s) => SampleEventView::WifiStation(s@),
            SampleEvent::System(s) => SampleEventView::System(s@),
            SampleEvent::IwEvent(s) => SampleEventView::IwEvent(s@),
        }
    }
}

impl Clone for SampleEvent {
    fn clone(&self) -> (r: Self)
        ensures
            r@ == self@,
    {
        match self {
            SampleEvent::Shairport(s) => SampleEvent::Shairport(s.clone()),
            SampleEvent::ShairportMetadata(s) => SampleEvent::ShairportMetadata(s.clone()),
            SampleEvent::WifiStation(s) => SampleEvent::WifiStation(s.clone()),
            SampleEvent::System(s) => SampleEvent::System(s.clone()),
            SampleEvent::IwEvent(s) => SampleEvent::IwEvent(s.clone()),
        }
    }
}

} // verus!
