//! The dashboard's replay history: the newest telemetry samples, capped at
//! `HISTORY_MAX_POINTS`, and the latest track metadata that carries data.
use vstd::prelude::*;
use std::collections::VecDeque;
use crate::clock::now_ms;
use crate::models::{
    SampleEvent, SampleEventView, ShairportMetadataSample, ShairportMetadataSampleView,
};

verus! {

/// How many telemetry samples the history keeps.
pub const HISTORY_MAX_POINTS: usize = 120;

/// Where the history is saved: `/tmp/<package name>.history`.
pub fn history_path() -> (r: String)
    ensures
        r@ == "/tmp/shairport-dashboard.history"@,
{
    String::from_str("/tmp/shairport-dashboard.history")
}

/// A sample with the time at which the server recorded it.
#[derive(Debug, PartialEq)]
pub struct TimedEvent {
    pub recorded_at_ms: u64,
    pub event: SampleEvent,
}

pub struct TimedEventView {
    pub recorded_at_ms: u64,
    pub event: SampleEventView,
}

impl View for TimedEvent {
    type V = TimedEventView;

    open spec fn view(&self) -> TimedEventView {
        TimedEventView { recorded_at_ms: self.recorded_at_ms, event: self.event@ }
    }
}

impl Clone for TimedEvent {
    fn clone(&self) -> (r: Self)
        ensures
            r@ == self@,
    {
        TimedEvent { recorded_at_ms: self.recorded_at_ms, event: self.event.clone() }
    }
}

/// The view of an optional timed event.
pub open spec fn opt_timed(o: Option<TimedEvent>) -> Option<TimedEventView> {
    match o {
        Some(e) => Some(e@),
        None => None,
    }
}

/// The views of a sequence of timed events.
pub open spec fn timed_views(s: Seq<TimedEvent>) -> Seq<TimedEventView> {
    s.map_values(|e: TimedEvent| e@)
}

pub proof fn lemma_timed_views_push(s: Seq<TimedEvent>, x: TimedEvent)
    ensures
        timed_views(s.push(x)) == timed_views(s).push(x@),
{
    assert(timed_views(s.push(x)) =~= timed_views(s).push(x@));
}

pub proof fn lemma_timed_views_subrange(s: Seq<TimedEvent>, a: int, b: int)
    requires
        0 <= a <= b <= s.len(),
    ensures
        timed_views(s.subrange(a, b)) == timed_views(s).subrange(a, b),
{
    assert(timed_views(s.subrange(a, b)) =~= timed_views(s).subrange(a, b));
}

/// Telemetry and latest track, as history holds them and as they are saved.
pub struct HistoryView {
    pub telemetry: Seq<TimedEventView>,
    pub last_track: Option<TimedEventView>,
}

/// Whether a metadata sample carries any track data.
pub open spec fn has_track(m: ShairportMetadataSampleView) -> bool {
    m.track is Some || m.artist is Some || m.album is Some || m.genre is Some
        || m.artwork_base64 is Some
}

/// Whether an event is telemetry: a shairport timing, Wi-Fi or system sample.
pub open spec fn is_telemetry(e: SampleEventView) -> bool {
    match e {
        SampleEventView::Shairport(_) => true,
        SampleEventView::WifiStation(_) => true,
        SampleEventView::System(_) => true,
        _ => false,
    }
}

/// The newest `HISTORY_MAX_POINTS` elements of `s`.
pub open spec fn keep_newest<T>(s: Seq<T>) -> Seq<T> {
    if s.len() > HISTORY_MAX_POINTS {
        s.skip(s.len() - HISTORY_MAX_POINTS)
    } else {
        s
    }
}

/// History after recording `e`: telemetry is appended and the oldest sample
/// dropped beyond the cap; metadata with track data becomes the latest track;
/// anything else is not recorded.
pub open spec fn apply_event_spec(h: HistoryView, e: TimedEventView) -> HistoryView {
    if is_telemetry(e.event) {
        let t = h.telemetry.push(e);
        HistoryView {
            telemetry: if t.len() > HISTORY_MAX_POINTS {
                t.skip(1)
            } else {
                t
            },
            ..h
        }
    } else {
        match e.event {
            SampleEventView::ShairportMetadata(m) => if has_track(m) {
                HistoryView { last_track: Some(e), ..h }
            } else {
                h
            },
            _ => h,
        }
    }
}

/// What a client that connects is sent first: the telemetry, oldest first,
/// then the latest track.
pub open spec fn replay_spec(h: HistoryView) -> Seq<TimedEventView> {
    match h.last_track {
        Some(t) => h.telemetry.push(t),
        None => h.telemetry,
    }
}

/// The history that a saved one restores to.
pub open spec fn restore_spec(p: HistoryView) -> HistoryView {
    HistoryView { telemetry: keep_newest(p.telemetry), last_track: p.last_track }
}

/// Whether a metadata sample carries any track data.
pub fn has_track_data(metadata: &ShairportMetadataSample) -> (r: bool)
    ensures
        r == has_track(metadata@),
{
    metadata.track.is_some() || metadata.artist.is_some() || metadata.album.is_some()
        || metadata.genre.is_some() || metadata.artwork_base64.is_some()
}

/// The saved form of the history.
#[derive(Debug, PartialEq)]
pub struct PersistedHistory {
    pub telemetry: Vec<TimedEvent>,
    pub last_track: Option<TimedEvent>,
}

impl View for PersistedHistory {
    type V = HistoryView;

    open spec fn view(&self) -> HistoryView {
        HistoryView { telemetry: timed_views(self.telemetry@), last_track: opt_timed(self.last_track) }
    }
}

/// The history in memory; it never holds more than `HISTORY_MAX_POINTS`
/// telemetry samples.
pub struct HistoryState {
    telemetry: VecDeque<TimedEvent>,
    last_track: Option<TimedEvent>,
}

impl View for HistoryState {
    type V = HistoryView;

    closed spec fn view(&self) -> HistoryView {
        HistoryView { telemetry: timed_views(self.telemetry@), last_track: opt_timed(self.last_track) }
    }
}

fn clone_opt_timed(o: &Option<TimedEvent>) -> (r: Option<TimedEvent>)
    ensures
        opt_timed(r) == opt_timed(*o),
{
    match o {
        Some(e) => Some(e.clone()),
        None => None,
    }
}

impl HistoryState {
    #[verifier::type_invariant]
    spec fn bounded(self) -> bool {
        self.telemetry@.len() <= HISTORY_MAX_POINTS
    }

    /// An empty history.
    pub fn new() -> (r: Self)
        ensures
            r@.telemetry.len() == 0,
            r@.last_track is None,
    {
        HistoryState { telemetry: VecDeque::new(), last_track: None }
    }

    /// Restores a saved history, keeping its newest `HISTORY_MAX_POINTS`
    /// telemetry samples.
    pub fn from_persisted(persisted: PersistedHistory) -> (r: Self)
        ensures
            r@ == restore_spec(persisted@),
    {
        let ghost p = persisted@;
        let PersistedHistory { telemetry: items, last_track } = persisted;
        let mut telemetry: VecDeque<TimedEvent> = VecDeque::new();
        let n = items.len();
        let mut i: usize = 0;
        while i < n
            invariant
                n == items@.len(),
                i <= n,
                p.telemetry == timed_views(items@),
                timed_views(telemetry@) == p.telemetry.take(i as int),
            decreases n - i,
        {
            let ghost before = telemetry@;
            let x = items[i].clone();
            telemetry.push_back(x);
            proof {
                lemma_timed_views_push(before, x);
                assert(p.telemetry[i as int] == items@[i as int]@);
                assert(p.telemetry.take(i + 1) =~= p.telemetry.take(i as int).push(p.telemetry[i as int]));
            }
            i = i + 1;
        }
        assert(p.telemetry.take(n as int) =~= p.telemetry);
        while telemetry.len() > HISTORY_MAX_POINTS
            invariant
                p.telemetry.len() == n,
                telemetry@.len() <= n,
                timed_views(telemetry@) == p.telemetry.skip(n - telemetry@.len()),
                telemetry@.len() >= HISTORY_MAX_POINTS || n <= HISTORY_MAX_POINTS,
                n <= HISTORY_MAX_POINTS ==> telemetry@.len() == n,
            decreases telemetry@.len(),
        {
            let ghost before = telemetry@;
            let _ = telemetry.pop_front();
            proof {
                lemma_timed_views_subrange(before, 1, before.len() as int);
                assert(timed_views(before).subrange(1, before.len() as int) =~= p.telemetry.skip(
                    n - telemetry@.len(),
                ));
            }
        }
        if n <= HISTORY_MAX_POINTS {
            assert(p.telemetry.skip(0) =~= p.telemetry);
        }
        assert(timed_views(telemetry@) == keep_newest(p.telemetry));
        HistoryState { telemetry, last_track }
    }

    /// The saved form of this history.
    pub fn to_persisted(&self) -> (r: PersistedHistory)
        ensures
            r@ == self@,
            r@.telemetry.len() <= HISTORY_MAX_POINTS,
    {
        proof {
            use_type_invariant(self);
        }
        let mut telemetry: Vec<TimedEvent> = Vec::new();
        let n = self.telemetry.len();
        let mut i: usize = 0;
        while i < n
            invariant
                n == self.telemetry@.len(),
                i <= n,
                timed_views(telemetry@) == timed_views(self.telemetry@).take(i as int),
            decreases n - i,
        {
            let ghost before = telemetry@;
            let x = self.telemetry[i].clone();
            telemetry.push(x);
            proof {
                lemma_timed_views_push(before, x);
                assert(timed_views(self.telemetry@).take(i + 1) =~= timed_views(self.telemetry@).take(
                    i as int,
                ).push(timed_views(self.telemetry@)[i as int]));
            }
            i = i + 1;
        }
        assert(timed_views(self.telemetry@).take(n as int) =~= timed_views(self.telemetry@));
        PersistedHistory { telemetry, last_track: clone_opt_timed(&self.last_track) }
    }

    /// Records `event` at `recorded_at_ms`.
    pub fn apply_event(&mut self, event: SampleEvent, recorded_at_ms: u64)
        ensures
            final(self)@ == apply_event_spec(
                old(self)@,
                TimedEventView { recorded_at_ms, event: event@ },
            ),
            final(self)@.telemetry.len() <= HISTORY_MAX_POINTS,
    {
        proof {
            use_type_invariant(&*self);
        }
        let timed = TimedEvent { recorded_at_ms, event };
        match &timed.event {
            SampleEvent::Shairport(_) | SampleEvent::WifiStation(_) | SampleEvent::System(_) => {
                let mut t: VecDeque<TimedEvent> = VecDeque::new();
                std::mem::swap(&mut t, &mut self.telemetry);
                let ghost before = t@;
                t.push_back(timed);
                assert(timed_views(t@) =~= timed_views(before).push(timed@));
                if t.len() > HISTORY_MAX_POINTS {
                    let _ = t.pop_front();
                    assert(timed_views(t@) =~= timed_views(before).push(timed@).skip(1));
                }
                self.telemetry = t;
            },
            SampleEvent::ShairportMetadata(metadata) => {
                if has_track_data(metadata) {
                    self.last_track = Some(timed);
                }
            },
            SampleEvent::IwEvent(_) => {},
        }
    }

    /// The events a newly connected client is sent first.
    pub fn replay_events(&self) -> (r: Vec<TimedEvent>)
        ensures
            timed_views(r@) == replay_spec(self@),
    {
        let p = self.to_persisted();
        let PersistedHistory { telemetry: mut events, last_track } = p;
        let ghost before = events@;
        if let Some(metadata) = last_track {
            events.push(metadata);
            assert(timed_views(events@) =~= timed_views(before).push(metadata@));
        }
        events
    }
}

/// The saved form used before samples carried a recording time.
#[derive(Debug, PartialEq)]
pub struct LegacyPersistedHistory {
    pub telemetry: Vec<SampleEvent>,
    pub last_track: Option<ShairportMetadataSample>,
}

/// A legacy saved history with every sample stamped `now`.
pub open spec fn into_timed_spec(
    telemetry: Seq<SampleEventView>,
    last_track: Option<ShairportMetadataSampleView>,
    now: u64,
) -> HistoryView {
    HistoryView {
        telemetry: telemetry.map_values(
            |e: SampleEventView| TimedEventView { recorded_at_ms: now, event: e },
        ),
        last_track: match last_track {
            Some(m) => Some(
                TimedEventView {
                    recorded_at_ms: now,
                    event: SampleEventView::ShairportMetadata(m),
                },
            ),
            None => None,
        },
    }
}

impl LegacyPersistedHistory {
    pub open spec fn telemetry_view(&self) -> Seq<SampleEventView> {
        self.telemetry@.map_values(|e: SampleEvent| e@)
    }

    pub open spec fn last_track_view(&self) -> Option<ShairportMetadataSampleView> {
        match self.last_track {
            Some(m) => Some(m@),
            None => None,
        }
    }

    /// The current saved form, every sample recorded at `now`.
    pub fn into_timed_at(self, now: u64) -> (r: PersistedHistory)
        ensures
            r@ == into_timed_spec(self.telemetry_view(), self.last_track_view(), now),
    {
        let ghost src = self.telemetry_view();
        let LegacyPersistedHistory { telemetry: items, last_track } = self;
        let mut telemetry: Vec<TimedEvent> = Vec::new();
        let n = items.len();
        let mut i: usize = 0;
        while i < n
            invariant
                n == items@.len(),
                i <= n,
                src == items@.map_values(|e: SampleEvent| e@),
                timed_views(telemetry@) == into_timed_spec(src, None, now).telemetry.take(i as int),
            decreases n - i,
        {
            let ghost before = telemetry@;
            let x = TimedEvent { recorded_at_ms: now, event: items[i].clone() };
            telemetry.push(x);
            proof {
                lemma_timed_views_push(before, x);
                let full = into_timed_spec(src, None, now).telemetry;
                assert(full[i as int] == x@);
                assert(full.take(i + 1) =~= full.take(i as int).push(full[i as int]));
            }
            i = i + 1;
        }
        assert(into_timed_spec(src, None, now).telemetry.take(n as int) =~= into_timed_spec(
            src,
            None,
            now,
        ).telemetry);
        let last = match last_track {
            Some(metadata) => Some(
                TimedEvent { recorded_at_ms: now, event: SampleEvent::ShairportMetadata(metadata) },
            ),
            None => None,
        };
        PersistedHistory { telemetry, last_track: last }
    }

    /// The current saved form, every sample recorded at the clock's time.
    pub fn into_timed(self) -> (r: PersistedHistory)
        ensures
            exists|now: u64| r@ == into_timed_spec(self.telemetry_view(), self.last_track_view(), now),
    {
        let now = now_ms();
        self.into_timed_at(now)
    }
}

} // verus!
