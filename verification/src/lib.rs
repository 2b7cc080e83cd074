//! Real-time input-tracking core for a typing-assistance engine.
//!
//! The crate has three parts: a debounced caret-event aggregator
//! ([`monitor::CaretMonitor`]) that coalesces raw editing events into settled
//! snapshots, and two pure text-window algorithms — the band computer
//! ([`band::compute_band`]) and the fragment extractor
//! ([`fragment::extract_fragment`]) — that hand a downstream correction
//! engine a bounded region of the text to analyze.

use vstd::prelude::*;

pub mod abi;
pub mod band;
pub mod fragment;
pub mod monitor;

verus! {

/// The semantic version of this core, as reported to embedders.
pub fn core_version() -> (v: &'static str)
    ensures
        v@ == "0.4.0-alpha.0"@,
{
    "0.4.0-alpha.0"
}

} // verus!
