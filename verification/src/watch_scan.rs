//! The handoff watcher's decisions: when a scan stops, and what follows a
//! scan. What it records on a handoff is `memory_text::delivery_status`.
use vstd::prelude::*;

verus! {

/// What follows one delivery attempt within a scan.
#[derive(Clone, Copy, Debug, PartialEq, Eq, Structural)]
pub enum ScanStep {
    /// Go on with the next handoff.
    Next,
    /// Stop the scan with the delivery's error.
    Fail,
}

/// What the watcher does after a scan.
#[derive(Clone, Copy, Debug, PartialEq, Eq, Structural)]
pub enum WatchNext {
    /// A single scan was asked for: stop.
    Stop,
    /// Nothing was delivered: wait the interval before scanning again.
    Sleep,
    /// Scan again at once.
    Again,
}

/// The handoffs delivered so far in a scan.
#[derive(Debug)]
pub struct Scan {
    pub delivered: usize,
}

impl Scan {
    /// A scan before any delivery.
    pub fn new() -> (r: Scan)
        ensures
            r.delivered == 0,
    {
        Scan { delivered: 0 }
    }

    /// Takes a delivery attempt's outcome, after its patch was written: a
    /// delivery counts and the scan goes on; a failure ends the scan.
    pub fn record(&mut self, outcome: &Result<(), String>) -> (r: ScanStep)
        requires
            old(self).delivered < usize::MAX,
        ensures
            match outcome {
                Ok(()) => r == ScanStep::Next && final(self).delivered == old(self).delivered + 1,
                Err(_) => r == ScanStep::Fail && final(self).delivered == old(self).delivered,
            },
    {
        match outcome {
            Ok(()) => {
                self.delivered = self.delivered + 1;
                ScanStep::Next
            },
            Err(_) => ScanStep::Fail,
        }
    }
}

/// What follows a scan that delivered `delivered` handoffs.
pub fn after_scan(once: bool, delivered: usize) -> (r: WatchNext)
    ensures
        r == if once {
            WatchNext::Stop
        } else if delivered == 0 {
            WatchNext::Sleep
        } else {
            WatchNext::Again
        },
{
    if once {
        WatchNext::Stop
    } else if delivered == 0 {
        WatchNext::Sleep
    } else {
        WatchNext::Again
    }
}

} // verus!
