//! Splitting a duration in whole seconds into days, hours, minutes and
//! seconds, ready for human-readable display.

use vstd::prelude::*;
use vstd::arithmetic::div_mod::{lemma_fundamental_div_mod, lemma_mod_mod};

verus! {

/// A duration split into calendar-free parts: `days` unbounded, `hours`
/// under 24, `minutes` and `seconds` under 60.
pub struct DurationParts {
    pub days: u64,
    pub hours: u64,
    pub minutes: u64,
    pub seconds: u64,
}

/// Splits a duration in whole seconds into days, hours, minutes and seconds
/// that add back up to it exactly.
pub fn split_duration(total_seconds: u64) -> (r: DurationParts)
    ensures
        r.days as int * 86400 + r.hours as int * 3600 + r.minutes as int * 60 + r.seconds as int
            == total_seconds as int,
        r.hours < 24,
        r.minutes < 60,
        r.seconds < 60,
{
    let days = total_seconds / 86400;
    let hours = (total_seconds % 86400) / 3600;
    let minutes = (total_seconds % 3600) / 60;
    let seconds = total_seconds % 60;
    proof {
        let t = total_seconds as int;
        lemma_fundamental_div_mod(t, 86400);
        let a = t % 86400;
        lemma_fundamental_div_mod(a, 3600);
        assert(86400int == 3600 * 24);
        lemma_mod_mod(t, 3600, 24);
        let b = t % 3600;
        lemma_fundamental_div_mod(b, 60);
        assert(3600int == 60 * 60);
        lemma_mod_mod(t, 60, 60);
    }
    DurationParts { days, hours, minutes, seconds }
}

} // verus!
