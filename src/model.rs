//! Mathematical model of the engine: its abstract state and the rules that
//! decide corrections, thresholds and seek positions.
use vstd::prelude::*;

verus! {

/// Cooldown after an interaction during which drift is left alone, in ms.
pub const GRACE_MS: u64 = 1600;

/// Smallest drift tolerance, in microseconds.
pub const MIN_THRESHOLD_US: u64 = 300_000;

/// Largest drift tolerance, in microseconds.
pub const MAX_THRESHOLD_US: u64 = 1_000_000;

/// The tolerance grows by one part in this many of the offset's magnitude.
pub const THRESHOLD_DIVISOR: u64 = 20;

/// Shortest advisory polling interval, in milliseconds.
pub const MIN_INTERVAL_MS: u32 = 200;

/// Longest advisory polling interval, in milliseconds.
pub const MAX_INTERVAL_MS: u32 = 1000;

pub open spec fn abs(x: int) -> int {
    if x < 0 { -x } else { x }
}

pub open spec fn clamp(x: int, lo: int, hi: int) -> int {
    if x < lo { lo } else if x > hi { hi } else { x }
}

pub open spec fn max0(x: int) -> int {
    if x < 0 { 0 } else { x }
}

/// Drift tolerance for an offset: 5% of its magnitude, kept within
/// `[MIN_THRESHOLD_US, MAX_THRESHOLD_US]`.
pub open spec fn threshold_of(delay: int) -> int {
    clamp(abs(delay) / THRESHOLD_DIVISOR as int, MIN_THRESHOLD_US as int, MAX_THRESHOLD_US as int)
}

/// Base-stream position for a reactive-stream seek target.
pub open spec fn seek_base_of(delay: int, t: int) -> int {
    max0(t + delay)
}

/// Reactive-stream position for a base-stream seek target.
pub open spec fn seek_react_of(delay: int, t: int) -> int {
    max0(t - delay)
}

/// Half of the way from `react` to `target`; when the gap is odd the half
/// microsecond is dropped, so the step stays on the side of `react`.
pub open spec fn half_step(react: int, target: int) -> int {
    if target >= react {
        react + (target - react) / 2
    } else {
        react - (react - target) / 2
    }
}

/// Abstract state of a [`crate::SyncEngine`].
pub struct SyncView {
    pub synced: bool,
    pub delay: int,
    pub seeking: bool,
    pub interacting: bool,
    pub last_interaction: int,
    pub source: Option<Seq<char>>,
}

impl SyncView {
    /// A seek source is recorded exactly while a seek is in progress.
    pub open spec fn wf(self) -> bool {
        self.seeking == self.source.is_some()
    }

    /// State of a freshly constructed engine.
    pub open spec fn initial() -> SyncView {
        SyncView {
            synced: false,
            delay: 0,
            seeking: false,
            interacting: false,
            last_interaction: 0,
            source: None,
        }
    }

    /// Where the reactive stream should be when the base stream is at `base`.
    pub open spec fn target(self, base: int) -> int {
        base + self.delay
    }

    /// The user interacted and the cooldown has not run out at time `now`.
    pub open spec fn in_grace(self, now: int) -> bool {
        self.interacting && now - self.last_interaction < GRACE_MS as int
    }

    /// No guard stops a correction at time `now`: the engine is enabled, no
    /// unforced call meets a seek in progress or an interaction cooldown.
    pub open spec fn may_correct(self, force: bool, now: int) -> bool {
        self.synced && !(self.seeking && !force) && !(!force && self.in_grace(now))
    }

    /// The position to move the reactive stream to, or 0 for "leave it".
    pub open spec fn correction(self, base: int, react: int, force: bool, now: int) -> int {
        if !self.may_correct(force, now) {
            0
        } else if force {
            self.target(base)
        } else if abs(react - self.target(base)) > threshold_of(self.delay) {
            half_step(react, self.target(base))
        } else {
            0
        }
    }

    pub open spec fn start_seek(self, source: Seq<char>, now: int) -> SyncView {
        SyncView { seeking: true, source: Some(source), last_interaction: now, ..self }
    }

    pub open spec fn end_seek(self) -> SyncView {
        SyncView { seeking: false, source: None, ..self }
    }

    pub open spec fn start_interaction(self, now: int) -> SyncView {
        SyncView { interacting: true, last_interaction: now, ..self }
    }

    pub open spec fn end_interaction(self) -> SyncView {
        SyncView { interacting: false, ..self }
    }
}

} // verus!
