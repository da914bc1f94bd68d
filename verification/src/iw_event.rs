//! Lines of `iw event -t`, each a sample of its own.
use vstd::prelude::*;
use crate::models::{IwEventSample, IwEventSampleView};
use crate::text::{chars_of, string_of, trim, trim_chars};

verus! {

/// The sample of one `iw event -t` line recorded at `timestamp_ms`: the
/// trimmed line, or nothing for a blank line.
pub open spec fn iw_event_spec(line: Seq<char>, timestamp_ms: u64) -> Option<IwEventSampleView> {
    if trim(line).len() == 0 {
        None
    } else {
        Some(IwEventSampleView { timestamp_ms, line: trim(line) })
    }
}

/// Turns one `iw event -t` line into a sample; `None` for a blank line.
pub fn iw_event_from_line(line: &str, timestamp_ms: u64) -> (r: Option<IwEventSample>)
    ensures
        match r {
            Some(s) => iw_event_spec(line@, timestamp_ms) == Some(s@),
            None => iw_event_spec(line@, timestamp_ms) is None,
        },
{
    let trimmed = trim_chars(&chars_of(line));
    if trimmed.len() == 0 {
        None
    } else {
        Some(IwEventSample { timestamp_ms, line: string_of(&trimmed) })
    }
}

} // verus!
