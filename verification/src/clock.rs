//! Wall-clock time in milliseconds since the Unix epoch.
use vstd::prelude::*;
use crate::external::{duration_as_millis, elapsed_since_unix_epoch};

verus! {

/// Milliseconds since the Unix epoch (truncated to 64 bits); 0 when the clock
/// reads earlier than the epoch. The value comes from the system clock, so
/// nothing is promised of it.
pub fn now_ms() -> u64 {
    match elapsed_since_unix_epoch() {
        Some(d) => {
            let ms = duration_as_millis(&d);
            #[verifier::truncate]
            (ms as u64)
        },
        None => 0,
    }
}

} // verus!
