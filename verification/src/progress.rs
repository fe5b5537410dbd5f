//! The shared download-progress cell.
//!
//! `None` means no update is in flight.  During one update the cell
//! holds a percentage that only grows; it is cleared exactly once, when
//! the state machine harvests the finished task.  The command loop and
//! the worker share the cell behind a mutual-exclusion primitive owned
//! by the caller; the library holds the value and the rules it obeys.

use vstd::prelude::*;

verus! {

/// An optional download percentage: `None` when no update is running.
pub struct ProgressState {
    progress: Option<i32>,
}

impl ProgressState {
    /// The value held: `None`, or a percentage between 0 and 100.
    pub closed spec fn spec_progress(self) -> Option<int> {
        match self.progress {
            None => None,
            Some(p) => Some(p as int),
        }
    }

    /// The percentage, when one is held, lies between 0 and 100.
    pub open spec fn wf(self) -> bool {
        match self.spec_progress() {
            None => true,
            Some(p) => 0 <= p <= 100,
        }
    }

    /// A fresh cell: no update in flight.
    pub fn new() -> (r: ProgressState)
        ensures
            r.spec_progress() is None,
            r.wf(),
    {
        ProgressState { progress: None }
    }

    /// Reads the current value.
    pub fn current(&self) -> (r: Option<i32>)
        ensures
            match r {
                None => self.spec_progress() is None,
                Some(p) => self.spec_progress() == Some(p as int),
            },
    {
        self.progress
    }

    /// Records a new percentage.  Within one update the percentage never
    /// goes down, so a new value must not undercut the one held.
    pub fn update_progress(&mut self, percent: i32)
        requires
            0 <= percent <= 100,
            match old(self).spec_progress() {
                None => true,
                Some(p) => p <= percent as int,
            },
        ensures
            final(self).spec_progress() == Some(percent as int),
            final(self).wf(),
    {
        self.progress = Some(percent);
    }

    /// Clears the cell: the running update's outcome has been harvested.
    pub fn clear(&mut self)
        ensures
            final(self).spec_progress() is None,
            final(self).wf(),
    {
        self.progress = None;
    }
}

} // verus!
