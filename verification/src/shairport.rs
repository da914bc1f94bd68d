//! shairport-sync timing lines from the systemd journal, matched with the
//! regex crate and turned into `ShairportSample`s.
use vstd::prelude::*;
use crate::external::{groups_view, regex_captures, regex_captures_of};
use crate::models::{ShairportSample, ShairportSampleView};
use crate::numbers::{is_float_literal, is_float_literal_exec, parse_u32, parse_u32_spec};
use crate::text::{chars_of, eq_str};

verus! {

/// The regex that picks a timing line apart: timestamp, then after
/// `shairport-sync` and a colon the sync error, drift, sync window, missing
/// and resent counts and the two frame rates.
pub open spec fn shairport_pattern() -> Seq<char> {
    "(?P<ts>\\S+ \\S+).*shairport-sync.*:\\s+(-?\\d+\\.\\d+)\\s+(-?\\d+\\.\\d+)\\s+(-?\\d+\\.\\d+)\\s+(\\d+)\\s+(\\d+)\\s+(\\S+)\\s+(\\S+)"@
}

/// Every group that a sample is read from (1 to 8) took part in the match.
pub open spec fn groups_present(caps: Seq<Option<Seq<char>>>) -> bool {
    caps.len() >= 9 && forall|i: int| 1 <= i <= 8 ==> (#[trigger] caps[i]) is Some
}

/// A frame-rate group: `N/A` is none, otherwise the text if it is a float.
pub open spec fn optional_rate(s: Seq<char>) -> Option<Seq<char>> {
    if s == "N/A"@ {
        None
    } else if is_float_literal(s) {
        Some(s)
    } else {
        None
    }
}

/// The sample that the groups of a match denote; `None` where a number group
/// does not read as its type.
pub open spec fn sample_from_groups(caps: Seq<Option<Seq<char>>>) -> Option<ShairportSampleView> {
    let g2 = caps[2]->0;
    let g3 = caps[3]->0;
    let g4 = caps[4]->0;
    let g5 = caps[5]->0;
    let g6 = caps[6]->0;
    if is_float_literal(g2) && is_float_literal(g3) && is_float_literal(g4) && parse_u32_spec(
        g5,
    ) is Some && parse_u32_spec(g6) is Some {
        Some(
            ShairportSampleView {
                timestamp: caps[1]->0,
                av_sync_error_ms: g2,
                ppm: g3,
                sync_window_ms: g4,
                missing: parse_u32_spec(g5)->0,
                resend: parse_u32_spec(g6)->0,
                fps_r: optional_rate(caps[7]->0),
                fps_c: optional_rate(caps[8]->0),
            },
        )
    } else {
        None
    }
}

pub open spec fn opt_sample_view(r: Option<ShairportSample>) -> Option<ShairportSampleView> {
    match r {
        Some(s) => Some(s@),
        None => None,
    }
}

fn optional_rate_exec(s: &String) -> (r: Option<String>)
    ensures
        crate::models::opt_str(r) == optional_rate(s@),
{
    let v = chars_of(s.as_str());
    if eq_str(&v, "N/A") {
        None
    } else if is_float_literal_exec(&v) {
        Some(s.clone())
    } else {
        None
    }
}

/// Reads a sample from the capture groups of a timing line.
pub fn shairport_sample_from_captures(caps: &Vec<Option<String>>) -> (r: Option<ShairportSample>)
    requires
        groups_present(groups_view(caps@)),
    ensures
        opt_sample_view(r) == sample_from_groups(
            groups_view(caps@),
        ),
{
    let ghost cv = groups_view(caps@);
    assert(cv[1] is Some && cv[2] is Some && cv[3] is Some && cv[4] is Some);
    assert(cv[5] is Some && cv[6] is Some && cv[7] is Some && cv[8] is Some);
    let g1 = caps[1].as_ref().unwrap();
    let g2 = caps[2].as_ref().unwrap();
    let g3 = caps[3].as_ref().unwrap();
    let g4 = caps[4].as_ref().unwrap();
    let g5 = caps[5].as_ref().unwrap();
    let g6 = caps[6].as_ref().unwrap();
    let g7 = caps[7].as_ref().unwrap();
    let g8 = caps[8].as_ref().unwrap();
    if !is_float_literal_exec(&chars_of(g2.as_str())) || !is_float_literal_exec(
        &chars_of(g3.as_str()),
    ) || !is_float_literal_exec(&chars_of(g4.as_str())) {
        return None;
    }
    let missing = match parse_u32(&chars_of(g5.as_str())) {
        Some(v) => v,
        None => return None,
    };
    let resend = match parse_u32(&chars_of(g6.as_str())) {
        Some(v) => v,
        None => return None,
    };
    Some(
        ShairportSample {
            timestamp: g1.clone(),
            av_sync_error_ms: g2.clone(),
            ppm: g3.clone(),
            sync_window_ms: g4.clone(),
            missing,
            resend,
            fps_r: optional_rate_exec(g7),
            fps_c: optional_rate_exec(g8),
        },
    )
}

/// Reads a sample from one journal line; `None` if the line is no timing line.
pub fn parse_shairport_line(line: &str) -> (r: Option<ShairportSample>)
    ensures
        match regex_captures_of(shairport_pattern(), line@) {
            Some(caps) => if groups_present(caps) {
                opt_sample_view(r) == sample_from_groups(caps)
            } else {
                r is None
            },
            None => r is None,
        },
{
    let caps = match regex_captures(
        "(?P<ts>\\S+ \\S+).*shairport-sync.*:\\s+(-?\\d+\\.\\d+)\\s+(-?\\d+\\.\\d+)\\s+(-?\\d+\\.\\d+)\\s+(\\d+)\\s+(\\d+)\\s+(\\S+)\\s+(\\S+)",
        line,
    ) {
        Some(c) => c,
        None => return None,
    };
    let ghost cv = groups_view(caps@);
    if caps.len() < 9 {
        assert(cv.len() == caps@.len());
        return None;
    }
    let mut i: usize = 1;
    while i <= 8
        invariant
            1 <= i <= 9,
            caps@.len() >= 9,
            cv == groups_view(caps@),
            regex_captures_of(shairport_pattern(), line@) == Some(cv),
            forall|k: int| 1 <= k < i ==> (#[trigger] cv[k]) is Some,
        decreases 9 - i,
    {
        if caps[i].is_none() {
            assert(cv[i as int] is None);
            return None;
        }
        i = i + 1;
    }
    shairport_sample_from_captures(&caps)
}

} // verus!
