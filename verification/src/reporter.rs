//! A custom reporter that can be plugged in for certain components.

use vstd::prelude::*;

verus! {

/// The level being reported.
pub enum Level {
    Info,
    Warn,
}

/// Receives progress reports of long running tasks; implemented by users of
/// the library.
pub trait Reporter {
    /// Start instrumenting.
    fn instrument_start(&self, source: &'static str, what: &str, total: Option<usize>);

    /// Report instrumenting progress.
    fn instrument_progress(&self, stride: usize);

    /// End instrumenting.
    fn instrument_end(&self, total: usize);
}

/// A reporter which ignores all reports.
pub struct EmptyReporter;

impl Reporter for EmptyReporter {
    fn instrument_start(&self, source: &'static str, what: &str, total: Option<usize>) {
    }

    fn instrument_progress(&self, stride: usize) {
    }

    fn instrument_end(&self, total: usize) {
    }
}

} // verus!
