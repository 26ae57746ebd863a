//! Report arithmetic: the figures the terminal report renders. Total wall
//! duration, active and idle time with their hour/minute/second breakdowns,
//! the signed written deltas, and the created / modified / deleted counts are
//! computed here from the ended session; the rendering itself, and the
//! fractional per-hour rates, belong to the outer layer.

use vstd::prelude::*;
use crate::session::Session;

verus! {

/// A duration split into whole hours, minutes below an hour, and seconds
/// below a minute.
pub struct TimeParts {
    pub hours: i64,
    pub minutes: i64,
    pub seconds: i64,
}

/// `t` is the hour/minute/second breakdown of `total` seconds.
pub open spec fn is_time_parts(t: TimeParts, total: int) -> bool {
    &&& t.hours == total / 3600
    &&& t.minutes == (total % 3600) / 60
    &&& t.seconds == total % 60
    &&& t.hours * 3600 + t.minutes * 60 + t.seconds == total
    &&& 0 <= t.seconds < 60
    &&& 0 <= t.minutes < 60
    &&& 0 <= t.hours
}

/// Splits a non-negative duration in seconds into hours, minutes and seconds.
pub fn split_duration(total: i64) -> (t: TimeParts)
    requires
        0 <= total,
    ensures
        is_time_parts(t, total as int),
{
    let hours = total / 3600;
    let rem = total % 3600;
    let minutes = rem / 60;
    let seconds = rem % 60;
    proof {
        vstd::arithmetic::div_mod::lemma_fundamental_div_mod(total as int, 3600);
        vstd::arithmetic::div_mod::lemma_fundamental_div_mod(total as int % 3600, 60);
        vstd::arithmetic::div_mod::lemma_fundamental_div_mod(total as int, 60);
    }
    TimeParts { hours, minutes, seconds }
}

/// The figures of the final report, all in whole numbers.
pub struct StatsReport {
    pub total_seconds: i64,
    pub active_seconds: i64,
    pub idle_seconds: i64,
    pub total_time: TimeParts,
    pub active_time: TimeParts,
    pub idle_time: TimeParts,
    pub lines_written: i32,
    pub chars_written: i64,
    pub files_created: usize,
    pub files_modified: usize,
    pub files_deleted: usize,
}

/// Builds the report of an ended session at clock reading `end_time`: the
/// wall duration since the session started, the active time accumulated from
/// pulses, the idle remainder, the signed written deltas (zero where the
/// session never ended properly), and the diff counts.
pub fn build_report(s: &Session, end_time: i64) -> (r: StatsReport)
    requires
        s.wf(),
        s.start_time <= end_time,
        end_time - s.start_time <= i64::MAX,
        s.active_time_seconds <= end_time - s.start_time,
    ensures
        r.total_seconds == end_time - s.start_time,
        r.active_seconds == s.active_time_seconds,
        r.idle_seconds == r.total_seconds - r.active_seconds,
        is_time_parts(r.total_time, r.total_seconds as int),
        is_time_parts(r.active_time, r.active_seconds as int),
        is_time_parts(r.idle_time, r.idle_seconds as int),
        r.lines_written == match s.lines_written {
            Some(lw) => lw,
            None => 0,
        },
        r.chars_written == match s.chars_written {
            Some(cw) => cw,
            None => 0,
        },
        r.files_created == match s.files_created {
            Some(v) => v.len(),
            None => 0,
        },
        r.files_modified == match s.files_modified {
            Some(v) => v.len(),
            None => 0,
        },
        r.files_deleted == match s.files_deleted {
            Some(v) => v.len(),
            None => 0,
        },
{
    let total_seconds = end_time - s.start_time;
    let active_seconds = s.active_time_seconds;
    let idle_seconds = total_seconds - active_seconds;
    let lines_written = match s.lines_written {
        Some(lw) => lw,
        None => 0,
    };
    let chars_written = match s.chars_written {
        Some(cw) => cw,
        None => 0,
    };
    let files_created = match &s.files_created {
        Some(v) => v.len(),
        None => 0,
    };
    let files_modified = match &s.files_modified {
        Some(v) => v.len(),
        None => 0,
    };
    let files_deleted = match &s.files_deleted {
        Some(v) => v.len(),
        None => 0,
    };
    StatsReport {
        total_seconds,
        active_seconds,
        idle_seconds,
        total_time: split_duration(total_seconds),
        active_time: split_duration(active_seconds),
        idle_time: split_duration(idle_seconds),
        lines_written,
        chars_written,
        files_created,
        files_modified,
        files_deleted,
    }
}

} // verus!
