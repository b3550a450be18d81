//! Properties that relate several operations of the engine, proved over the
//! model that their contracts speak of.
use vstd::prelude::*;
use crate::model::{
    abs, half_step, seek_base_of, seek_react_of, threshold_of, SyncView, GRACE_MS,
    MAX_THRESHOLD_US, MIN_THRESHOLD_US,
};

verus! {

/// A disabled engine never corrects, forced or not. An enabled engine makes no
/// unforced correction while a seek is in progress, however large the drift.
/// A forced call on an enabled engine snaps exactly to `base + delay`, even
/// during a seek or an interaction.
pub proof fn lemma_correction_guards(e: SyncView, base: int, react: int, force: bool, now: int)
    ensures
        !e.synced ==> e.correction(base, react, force, now) == 0,
        e.seeking && !force ==> e.correction(base, react, force, now) == 0,
        e.synced && force ==> e.correction(base, react, force, now) == base + e.delay,
{
}

/// Once the user starts interacting at time `t`, an unforced correction is
/// withheld until `GRACE_MS` have passed since `t`. After that, on an enabled
/// engine with no seek in progress, drift beyond the tolerance is answered by
/// a half step toward the target.
pub proof fn lemma_interaction_grace(e: SyncView, t: int, base: int, react: int, now: int)
    ensures
        now - t < GRACE_MS ==> e.start_interaction(t).correction(base, react, false, now) == 0,
        e.synced && !e.seeking && now - t >= GRACE_MS && abs(react - e.target(base))
            > threshold_of(e.delay) ==> e.start_interaction(t).correction(base, react, false, now)
            == half_step(react, e.target(base)),
{
}

/// The drift tolerance never decreases as the offset's magnitude grows, and
/// always lies within `[MIN_THRESHOLD_US, MAX_THRESHOLD_US]`.
pub proof fn lemma_threshold_monotone(d1: int, d2: int)
    requires
        abs(d1) <= abs(d2),
    ensures
        threshold_of(d1) <= threshold_of(d2),
        MIN_THRESHOLD_US <= threshold_of(d1) <= MAX_THRESHOLD_US,
        MIN_THRESHOLD_US <= threshold_of(d2) <= MAX_THRESHOLD_US,
{
    assert(abs(d1) / 20 <= abs(d2) / 20) by (nonlinear_arith)
        requires
            0 <= abs(d1) <= abs(d2),
    ;
}

/// Seeking the base stream for a reactive target `t` and then mapping that
/// position back gives `t` again, when no clamping to 0 takes place.
pub proof fn lemma_seek_round_trip(delay: int, t: int)
    requires
        t >= 0,
        t - delay >= 0,
        t + delay >= 0,
    ensures
        seek_react_of(delay, seek_base_of(delay, t)) == t,
{
}

/// Starting a seek leaves the engine seeking with the source recorded;
/// ending it leaves the engine not seeking with no source; both keep the
/// state well formed.
pub proof fn lemma_seek_pairing(e: SyncView, source: Seq<char>, now: int)
    requires
        e.wf(),
    ensures
        e.start_seek(source, now).seeking,
        e.start_seek(source, now).source == Some(source),
        e.start_seek(source, now).wf(),
        !e.start_seek(source, now).end_seek().seeking,
        e.start_seek(source, now).end_seek().source is None,
        e.start_seek(source, now).end_seek().wf(),
{
}

} // verus!
