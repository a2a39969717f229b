//! Properties of the tick decision over any sequence of observations.

use vstd::prelude::*;
use crate::snapshot::{SnapshotView, empty_view};
use crate::sync::{
    LoopModel, Observation, ActionView, PlaybackStatus, next_model, action_of,
};

verus! {

/// Observing the same stop or pause twice in a row clears the display at most
/// once: the second tick does nothing and leaves the state as it was. When the
/// status was something else before, the first tick is the one clear.
pub proof fn lemma_repeated_idle_clears_once(m: LoopModel, o: Observation)
    requires
        o == Observation::Stopped || o == Observation::Paused,
    ensures
        action_of(next_model(m, o), o) == ActionView::Nothing,
        next_model(next_model(m, o), o) == next_model(m, o),
        m.last_status != (if o == Observation::Stopped {
            PlaybackStatus::Stopped
        } else {
            PlaybackStatus::Paused
        }) ==> action_of(m, o) == ActionView::Clear,
{
}

/// Two consecutive `Playing` observations with the same snapshot publish at
/// most once: the second tick does nothing.
pub proof fn lemma_unchanged_snapshot_publishes_once(m: LoopModel, s: SnapshotView)
    ensures
        action_of(next_model(m, Observation::Playing(s)), Observation::Playing(s))
            == ActionView::Nothing,
        next_model(next_model(m, Observation::Playing(s)), Observation::Playing(s))
            == next_model(m, Observation::Playing(s)),
{
}

/// Playing `a`, then pausing, then playing `a` again clears the display once at
/// the pause and publishes `a` again on resuming, though `a` did not change.
pub proof fn lemma_pause_then_resume_republishes(m: LoopModel, a: SnapshotView)
    requires
        a != empty_view(),
    ensures
        ({
            let m1 = next_model(m, Observation::Playing(a));
            let m2 = next_model(m1, Observation::Paused);
            &&& action_of(m1, Observation::Paused) == ActionView::Clear
            &&& m2.last_published == empty_view()
            &&& action_of(m2, Observation::Playing(a)) == ActionView::Publish(a)
            &&& next_model(m2, Observation::Playing(a)).last_published == a
        }),
{
}

/// A snapshot that differs from the displayed one in its album title alone is
/// a different snapshot, and observing it while playing publishes it.
pub proof fn lemma_album_title_change_publishes(m: LoopModel, b: SnapshotView)
    requires
        m.last_published.title == b.title,
        m.last_published.artist == b.artist,
        m.last_published.album_artist == b.album_artist,
        m.last_published.album_title != b.album_title,
    ensures
        m.last_published != b,
        action_of(m, Observation::Playing(b)) == ActionView::Publish(b),
        next_model(m, Observation::Playing(b)).last_published == b,
{
}

/// A benign "no session" error clears the display and resets what was shown,
/// keeps the last status, and does not stop the loop.
pub proof fn lemma_benign_error_clears_and_continues(m: LoopModel)
    ensures
        action_of(m, Observation::Benign) == ActionView::Clear,
        action_of(m, Observation::Benign) != ActionView::Halt,
        next_model(m, Observation::Benign) == (LoopModel {
            last_published: empty_view(),
            last_status: m.last_status,
        }),
        m.wf() ==> next_model(m, Observation::Benign).wf(),
{
}

/// Every tick keeps the display invariant: something is shown only while the
/// last status was `Playing`.
pub proof fn lemma_tick_preserves_wf(m: LoopModel, o: Observation)
    requires
        m.wf(),
    ensures
        next_model(m, o).wf(),
{
}

} // verus!
