//! Core engine of a developer-activity tracker: it classifies which files of a
//! project directory are in scope, counts their lines and characters,
//! fingerprints their contents, diffs two snapshots into created / deleted /
//! modified sets, accounts active time from discrete activity pulses with an
//! idle cutoff, and manages the session record that ties these together.
//!
//! All filesystem walking, time sources, persistence encoding and terminal
//! rendering live outside this crate; the functions here work on plain values
//! handed in by that outer layer.

pub mod classify;
pub mod diff;
pub mod fingerprint;
pub mod report;
pub mod scan;
pub mod session;
pub mod snapshot;
