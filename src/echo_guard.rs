//! The watchdog on the bus echo: the node restarts once too many echo
//! periods in a row pass without an echo.
use vstd::prelude::*;

verus! {

/// How long the guard waits for an echo, and pauses after one, in seconds.
pub const ECHO_PERIOD_SECS: u64 = 40;

/// How long the guard waits before it restarts the node, in seconds.
pub const RESTART_DELAY_SECS: u64 = 2;

/// How many echo periods in a row may pass without an echo.
pub const MAX_MISSES: u32 = 3;

/// How one echo period ended.
#[derive(Debug, Clone, Copy, PartialEq, Eq, Structural)]
pub enum EchoOutcome {
    Echo,
    Timeout,
}

/// What the guard's task does next.
#[derive(Debug, Clone, Copy, PartialEq, Eq, Structural)]
pub enum EchoAction {
    /// Sleep one echo period, then watch again.
    Pause,
    /// Watch for the next echo at once.
    Watch,
    /// Wait the restart delay, then restart the node.
    Restart,
}

/// The count of echo periods missed in a row.
#[derive(Debug, Clone, Copy, PartialEq, Eq, Structural)]
pub struct EchoGuard {
    pub miss_count: u32,
}

/// The guard after a period ended with `o`, and what its task does next.
pub open spec fn echo_step(g: EchoGuard, o: EchoOutcome) -> (EchoGuard, EchoAction) {
    match o {
        EchoOutcome::Echo => (EchoGuard { miss_count: 0 }, EchoAction::Pause),
        EchoOutcome::Timeout => {
            let missed = if g.miss_count < u32::MAX {
                (g.miss_count + 1) as u32
            } else {
                g.miss_count
            };
            (
                EchoGuard { miss_count: missed },
                if missed > MAX_MISSES {
                    EchoAction::Restart
                } else {
                    EchoAction::Watch
                },
            )
        },
    }
}

impl EchoGuard {
    /// A guard that has missed nothing.
    pub fn new() -> (r: EchoGuard)
        ensures
            r.miss_count == 0,
    {
        EchoGuard { miss_count: 0 }
    }

    /// Takes how the current echo period ended: an echo clears the misses and
    /// pauses; a timeout counts one more miss and restarts the node once more
    /// than `MAX_MISSES` periods in a row were missed.
    pub fn iterate(&mut self, outcome: EchoOutcome) -> (r: EchoAction)
        ensures
            (*final(self), r) == echo_step(*old(self), outcome),
    {
        match outcome {
            EchoOutcome::Echo => {
                self.miss_count = 0;
                EchoAction::Pause
            },
            EchoOutcome::Timeout => {
                self.miss_count = self.miss_count.saturating_add(1);
                if self.miss_count > MAX_MISSES {
                    EchoAction::Restart
                } else {
                    EchoAction::Watch
                }
            },
        }
    }
}

} // verus!
