//! The engine itself: its state, its mutators and the correction decision.
use vstd::prelude::*;
use crate::model::{
    clamp, seek_base_of, seek_react_of, threshold_of, SyncView, GRACE_MS, MAX_INTERVAL_MS, MAX_THRESHOLD_US,
    MIN_INTERVAL_MS, MIN_THRESHOLD_US, THRESHOLD_DIVISOR,
};

verus! {

/// Synchronisation state for one pair of streams.
pub struct SyncEngine {
    is_synced: bool,
    delay: i64,
    is_seeking: bool,
    is_user_interacting: bool,
    last_interaction_time: u64,
    seeking_source: Option<String>,
}

impl View for SyncEngine {
    type V = SyncView;

    closed spec fn view(&self) -> SyncView {
        SyncView {
            synced: self.is_synced,
            delay: self.delay as int,
            seeking: self.is_seeking,
            interacting: self.is_user_interacting,
            last_interaction: self.last_interaction_time as int,
            source: match &self.seeking_source {
                Some(s) => Some(s@),
                None => None,
            },
        }
    }
}

impl SyncEngine {
    /// The target position `base_time + delay` fits in an `i64`.
    pub open spec fn target_fits(&self, base_time: i64) -> bool {
        i64::MIN <= base_time + self@.delay <= i64::MAX
    }

    /// A disabled engine with zero offset and nothing in progress.
    pub fn new() -> (r: Self)
        ensures
            r@ == SyncView::initial(),
            r@.wf(),
    {
        SyncEngine {
            is_synced: false,
            delay: 0,
            is_seeking: false,
            is_user_interacting: false,
            last_interaction_time: 0,
            seeking_source: None,
        }
    }

    /// The drift tolerance for the current offset, in microseconds.
    pub fn get_sync_threshold(&self) -> (r: u64)
        ensures
            r == threshold_of(self@.delay),
            MIN_THRESHOLD_US <= r <= MAX_THRESHOLD_US,
    {
        let magnitude: u64 = if self.delay < 0 {
            (-(self.delay as i128)) as u64
        } else {
            self.delay as u64
        };
        let base: u64 = magnitude / THRESHOLD_DIVISOR;
        let floored: u64 = if base < MIN_THRESHOLD_US { MIN_THRESHOLD_US } else { base };
        if floored > MAX_THRESHOLD_US {
            MAX_THRESHOLD_US
        } else {
            floored
        }
    }

    /// Advisory polling interval for the current offset, in milliseconds.
    pub fn get_sync_interval(&self) -> (r: u32)
        ensures
            r == clamp(threshold_of(self@.delay) / 1000, MIN_INTERVAL_MS as int, MAX_INTERVAL_MS as int),
            MIN_INTERVAL_MS <= r <= MAX_INTERVAL_MS,
    {
        let threshold = self.get_sync_threshold();
        let interval: u32 = (threshold / 1000) as u32;
        let floored: u32 = if interval < MIN_INTERVAL_MS { MIN_INTERVAL_MS } else { interval };
        if floored > MAX_INTERVAL_MS {
            MAX_INTERVAL_MS
        } else {
            floored
        }
    }

    /// The correction for stream positions `base_time` and `react_time` at
    /// wall-clock time `now` (ms): a target position for the reactive stream,
    /// or 0 when it should be left alone.
    pub fn sync_videos(&mut self, base_time: i64, react_time: i64, force: bool, now: u64) -> (r: i64)
        requires
            old(self).target_fits(base_time),
        ensures
            *final(self) == *old(self),
            r == old(self)@.correction(base_time as int, react_time as int, force, now as int),
            !old(self)@.synced ==> r == 0,
            old(self)@.seeking && !force ==> r == 0,
            old(self)@.synced && force ==> r == base_time + old(self)@.delay,
    {
        if !self.is_synced {
            return 0;
        }
        if self.is_seeking && !force {
            return 0;
        }
        let since_interaction: i128 = now as i128 - self.last_interaction_time as i128;
        if !force && self.is_user_interacting && since_interaction < GRACE_MS as i128 {
            return 0;
        }
        let target_react_time: i64 = base_time + self.delay;
        let gap: i128 = target_react_time as i128 - react_time as i128;
        let time_diff: u128 = if gap < 0 { (-gap) as u128 } else { gap as u128 };
        let threshold = self.get_sync_threshold();
        if force || (time_diff > threshold as u128 && !self.is_seeking) {
            if force {
                target_react_time
            } else {
                let step: i128 = (time_diff / 2) as i128;
                if gap >= 0 {
                    (react_time as i128 + step) as i64
                } else {
                    (react_time as i128 - step) as i64
                }
            }
        } else {
            0
        }
    }

    /// Whether a call of [`Self::sync_videos`] with `force` at time `now` gets
    /// past the guards (enabled, seek in progress, interaction cooldown).
    pub fn may_correct(&self, force: bool, now: u64) -> (r: bool)
        ensures
            r == self@.may_correct(force, now as int),
    {
        let since_interaction: i128 = now as i128 - self.last_interaction_time as i128;
        self.is_synced && !(self.is_seeking && !force) && !(!force && self.is_user_interacting
            && since_interaction < GRACE_MS as i128)
    }

    /// Base-stream seek position for a reactive-stream target: `target_time +
    /// delay`, never below 0.
    pub fn sync_seek_base(&self, target_time: i64) -> (r: i64)
        requires
            seek_base_of(self@.delay, target_time as int) <= i64::MAX,
        ensures
            r == seek_base_of(self@.delay, target_time as int),
    {
        let position: i128 = target_time as i128 + self.delay as i128;
        if position < 0 {
            0
        } else {
            position as i64
        }
    }

    /// Reactive-stream seek position for a base-stream target: `target_time -
    /// delay`, never below 0.
    pub fn sync_seek_react(&self, target_time: i64) -> (r: i64)
        requires
            seek_react_of(self@.delay, target_time as int) <= i64::MAX,
        ensures
            r == seek_react_of(self@.delay, target_time as int),
    {
        let position: i128 = target_time as i128 - self.delay as i128;
        if position < 0 {
            0
        } else {
            position as i64
        }
    }

    /// Records that `source` started a seek at wall-clock time `now` (ms).
    pub fn mark_seeking(&mut self, source: String, now: u64)
        ensures
            final(self)@ == old(self)@.start_seek(source@, now as int),
            old(self)@.wf() ==> final(self)@.wf(),
    {
        self.is_seeking = true;
        self.seeking_source = Some(source);
        self.last_interaction_time = now;
    }

    /// Ends the seek in progress; the interaction time stays as it was.
    pub fn clear_seeking(&mut self)
        ensures
            final(self)@ == old(self)@.end_seek(),
            old(self)@.wf() ==> final(self)@.wf(),
    {
        self.is_seeking = false;
        self.seeking_source = None;
    }

    /// Records that the user started interacting at wall-clock time `now` (ms).
    pub fn mark_user_interaction(&mut self, now: u64)
        ensures
            final(self)@ == old(self)@.start_interaction(now as int),
            old(self)@.wf() ==> final(self)@.wf(),
    {
        self.is_user_interacting = true;
        self.last_interaction_time = now;
    }

    /// Ends the user interaction.
    pub fn clear_user_interaction(&mut self)
        ensures
            final(self)@ == old(self)@.end_interaction(),
            old(self)@.wf() ==> final(self)@.wf(),
    {
        self.is_user_interacting = false;
    }

    /// Sets the offset of the reactive stream from the base stream, in µs.
    pub fn set_delay(&mut self, delay: i64)
        ensures
            final(self)@ == (SyncView { delay: delay as int, ..old(self)@ }),
            old(self)@.wf() ==> final(self)@.wf(),
    {
        self.delay = delay;
    }

    pub fn get_delay(&self) -> (r: i64)
        ensures
            r == self@.delay,
    {
        self.delay
    }

    /// Turns the decision logic on or off.
    pub fn set_synced(&mut self, synced: bool)
        ensures
            final(self)@ == (SyncView { synced, ..old(self)@ }),
            old(self)@.wf() ==> final(self)@.wf(),
    {
        self.is_synced = synced;
    }

    pub fn is_synced(&self) -> (r: bool)
        ensures
            r == self@.synced,
    {
        self.is_synced
    }

    pub fn is_seeking(&self) -> (r: bool)
        ensures
            r == self@.seeking,
    {
        self.is_seeking
    }

    pub fn is_user_interacting(&self) -> (r: bool)
        ensures
            r == self@.interacting,
    {
        self.is_user_interacting
    }
}

impl Default for SyncEngine {
    fn default() -> (r: Self)
        ensures
            r@ == SyncView::initial(),
    {
        Self::new()
    }
}

} // verus!
