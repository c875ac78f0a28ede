//! The pace of the simulation.
//!
//! The loop that drives a simulation hears of three things: that the window
//! is to close, that it has nothing left to do before it waits, and that a
//! frame is to be drawn. The clock decides what follows each of them. Frames
//! are kept at least one interval apart by waiting; a frame that comes late is
//! not made up for: every frame drawn is exactly one tick of the swarm.

use vstd::prelude::*;

verus! {

/// The nanoseconds in a millisecond.
pub const NANOS_PER_MILLI: u64 = 1_000_000;

/// What the loop has heard.
#[derive(Clone, Copy, PartialEq, Eq, Structural, Debug)]
pub enum LoopEvent {
    /// The window is to close.
    CloseRequested,
    /// The loop is about to wait; `elapsed_nanos` have passed since it last
    /// was.
    AboutToWait { elapsed_nanos: u64 },
    /// A frame is to be drawn.
    RedrawRequested,
    /// Anything else.
    Other,
}

/// What the loop is to do.
#[derive(Clone, Copy, PartialEq, Eq, Structural, Debug)]
pub enum LoopAction {
    /// Leave the loop.
    Exit,
    /// Sleep for `sleep_nanos`, restart the measurement of time, and ask for
    /// a frame.
    Pace { sleep_nanos: u64 },
    /// Advance the swarm by one tick and draw it.
    Tick,
    /// Nothing.
    Ignore,
}

/// How long is left of an interval of `interval_nanos` when `elapsed_nanos` of
/// it have passed: the rest, or nothing once it is over.
pub open spec fn time_left(interval_nanos: int, elapsed_nanos: int) -> int {
    if elapsed_nanos < interval_nanos {
        interval_nanos - elapsed_nanos
    } else {
        0
    }
}

/// The clock of a simulation.
#[derive(Clone, Copy, PartialEq, Eq, Structural, Debug)]
pub struct FrameClock {
    /// The shortest time between two frames.
    pub interval_nanos: u64,
}

impl FrameClock {
    /// The clock for frames at least `interval_ms` milliseconds apart, or
    /// `None` when that many milliseconds are more nanoseconds than 64 bits
    /// hold.
    pub fn from_millis(interval_ms: u64) -> (clock: Option<FrameClock>)
        ensures
            clock is Some <==> interval_ms * NANOS_PER_MILLI <= u64::MAX,
            clock matches Some(c) ==> c.interval_nanos == interval_ms * NANOS_PER_MILLI,
    {
        match interval_ms.checked_mul(NANOS_PER_MILLI) {
            Some(interval_nanos) => Some(FrameClock { interval_nanos }),
            None => None,
        }
    }

    /// How long to sleep before the next frame when `elapsed_nanos` have
    /// passed since the last.
    pub fn remaining(&self, elapsed_nanos: u64) -> (sleep_nanos: u64)
        ensures
            sleep_nanos == time_left(self.interval_nanos as int, elapsed_nanos as int),
    {
        if elapsed_nanos < self.interval_nanos {
            self.interval_nanos - elapsed_nanos
        } else {
            0
        }
    }

    /// What the loop is to do about `event`.
    pub fn on_event(&self, event: LoopEvent) -> (action: LoopAction)
        ensures
            action == match event {
                LoopEvent::CloseRequested => LoopAction::Exit,
                LoopEvent::AboutToWait { elapsed_nanos } => LoopAction::Pace {
                    sleep_nanos: time_left(self.interval_nanos as int, elapsed_nanos as int) as u64,
                },
                LoopEvent::RedrawRequested => LoopAction::Tick,
                LoopEvent::Other => LoopAction::Ignore,
            },
    {
        match event {
            LoopEvent::CloseRequested => LoopAction::Exit,
            LoopEvent::AboutToWait { elapsed_nanos } => LoopAction::Pace {
                sleep_nanos: self.remaining(elapsed_nanos),
            },
            LoopEvent::RedrawRequested => LoopAction::Tick,
            LoopEvent::Other => LoopAction::Ignore,
        }
    }
}

} // verus!
