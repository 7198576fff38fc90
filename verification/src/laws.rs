//! What holds of every run of frames: the latch closes once and stays
//! closed, one notification is sent, and the session ends when the delay
//! after the player's death is over, on that frame and on no other.

use crate::countdown::advanced;
use crate::player::{PlayerView, DEATH_DELAY_NANOS};
use crate::plugin::{pending_after, FrameView};
use crate::presentation::view_drop;
use vstd::prelude::*;

verus! {

/// The time for which the death countdown is advanced over `frames` once
/// the player is dead: the deltas of the frames that find the player dead.
pub open spec fn dying_time(frames: Seq<FrameView>) -> nat
    decreases frames.len(),
{
    if frames.len() == 0 {
        0
    } else if frames.last().strikes() {
        dying_time(frames.drop_last()) + frames.last().delta
    } else {
        dying_time(frames.drop_last())
    }
}

/// No frame before frame `k` finds the player dead.
pub open spec fn quiet_before(frames: Seq<FrameView>, k: int) -> bool {
    forall|j: int| 0 <= j < k && j < frames.len() ==> !(#[trigger] frames[j]).strikes()
}

/// A run can be cut at any frame: the record after the whole run is the
/// record after the first `k` frames, taken through the rest.
pub proof fn lemma_run_split(p: PlayerView, frames: Seq<FrameView>, k: int)
    requires
        0 <= k <= frames.len(),
    ensures
        p.run(frames) == p.run(frames.take(k)).run(frames.skip(k)),
    decreases frames.len(),
{
    if k == frames.len() {
        assert(frames.take(k) =~= frames);
        assert(frames.skip(k).len() == 0);
    } else {
        let shorter = frames.drop_last();
        lemma_run_split(p, shorter, k);
        assert(shorter.take(k) =~= frames.take(k));
        assert(frames.skip(k).drop_last() =~= shorter.skip(k));
        assert(frames.skip(k).last() == frames.last());
    }
}

/// Every record that a run of frames makes of a well-formed record is
/// well-formed: the countdowns never leave the range from zero to their
/// duration.
pub proof fn lemma_run_keeps_well_formed(p: PlayerView, frames: Seq<FrameView>)
    requires
        p.well_formed(),
    ensures
        p.run(frames).well_formed(),
    decreases frames.len(),
{
    if frames.len() > 0 {
        lemma_run_keeps_well_formed(p, frames.drop_last());
    }
}

/// Once the player is vulnerable, no run of frames makes the player
/// invulnerable again: nothing here re-arms the countdown.
pub proof fn lemma_vulnerability_is_stable(p: PlayerView, frames: Seq<FrameView>)
    requires
        p.is_vulnerable(),
    ensures
        p.run(frames).is_vulnerable(),
        p.run(frames).invulnerability_timer == p.invulnerability_timer,
    decreases frames.len(),
{
    if frames.len() > 0 {
        lemma_vulnerability_is_stable(p, frames.drop_last());
    }
}

/// The latch is monotonic: a dead player stays dead over every run of
/// frames, also over frames on which the health record reports life again.
pub proof fn lemma_latch_is_monotonic(p: PlayerView, frames: Seq<FrameView>)
    requires
        p.dead,
    ensures
        p.run(frames).dead,
    decreases frames.len(),
{
    if frames.len() > 0 {
        lemma_latch_is_monotonic(p, frames.drop_last());
    }
}

/// The latch is closed after a run exactly if it was closed before or some
/// frame of the run found the player dead.
pub proof fn lemma_latch_closes_on_first_strike(p: PlayerView, frames: Seq<FrameView>)
    ensures
        p.run(frames).dead <==> p.dead || !quiet_before(frames, frames.len() as int),
    decreases frames.len(),
{
    if frames.len() > 0 {
        let shorter = frames.drop_last();
        lemma_latch_closes_on_first_strike(p, shorter);
        if quiet_before(frames, frames.len() as int) {
            assert forall|j: int| 0 <= j < shorter.len() implies !(#[trigger] shorter[j]).strikes() by {
                assert(shorter[j] == frames[j]);
            }
        } else {
            let j = choose|j: int| 0 <= j < frames.len() && (#[trigger] frames[j]).strikes();
            if j < shorter.len() {
                assert(shorter[j].strikes());
            }
        }
        if !quiet_before(shorter, shorter.len() as int) {
            let j = choose|j: int| 0 <= j < shorter.len() && (#[trigger] shorter[j]).strikes();
            assert(frames[j].strikes());
        }
    }
}

/// The notification is sent on the first frame that finds a living player
/// dead, and on no other frame.
pub proof fn lemma_notifies_on_first_strike(p: PlayerView, frames: Seq<FrameView>, k: int)
    requires
        0 <= k < frames.len(),
    ensures
        p.notifies_at(frames, k) <==> !p.dead && frames[k].strikes() && quiet_before(frames, k),
{
    let before = frames.take(k);
    lemma_latch_closes_on_first_strike(p, before);
    if quiet_before(frames, k) {
        assert forall|j: int| 0 <= j < before.len() implies !(#[trigger] before[j]).strikes() by {
            assert(before[j] == frames[j]);
        }
    }
    if quiet_before(before, before.len() as int) {
        assert forall|j: int| 0 <= j < k implies !(#[trigger] frames[j]).strikes() by {
            assert(before[j] == frames[j]);
        }
    }
}

/// At most one notification is sent over a run, whatever the health record
/// reports from frame to frame.
pub proof fn lemma_at_most_one_notification(
    p: PlayerView,
    frames: Seq<FrameView>,
    k1: int,
    k2: int,
)
    requires
        0 <= k1 < frames.len(),
        0 <= k2 < frames.len(),
        p.notifies_at(frames, k1),
        p.notifies_at(frames, k2),
    ensures
        k1 == k2,
{
    lemma_notifies_on_first_strike(p, frames, k1);
    lemma_notifies_on_first_strike(p, frames, k2);
}

/// Where the health record reports death on every frame of a run that
/// starts with a living player, exactly one notification is sent, on the
/// first frame.
pub proof fn lemma_one_notification_on_first_frame(p: PlayerView, frames: Seq<FrameView>)
    requires
        !p.dead,
        frames.len() >= 1,
        forall|i: int| 0 <= i < frames.len() ==> (#[trigger] frames[i]).strikes(),
    ensures
        p.notifies_at(frames, 0),
        forall|k: int| 1 <= k < frames.len() ==> !p.notifies_at(frames, k),
{
    lemma_notifies_on_first_strike(p, frames, 0);
    assert forall|k: int| 1 <= k < frames.len() implies !p.notifies_at(frames, k) by {
        lemma_notifies_on_first_strike(p, frames, k);
        assert(frames[0].strikes());
    }
}

/// How far the viewpoint sinks on frame `k` of a run, where each frame
/// starts with an empty notification queue.
pub open spec fn drop_at(p: PlayerView, frames: Seq<FrameView>, k: int) -> nat
    recommends
        0 <= k < frames.len(),
{
    view_drop(pending_after(0, p.notifies_at(frames, k)))
}

/// The viewpoint sinks on the frame of the notification and on no other, so
/// it never sinks twice over one run.
pub proof fn lemma_viewpoint_sinks_once(p: PlayerView, frames: Seq<FrameView>, k1: int, k2: int)
    requires
        0 <= k1 < frames.len(),
        0 <= k2 < frames.len(),
        k1 != k2,
    ensures
        drop_at(p, frames, k1) == 0 || drop_at(p, frames, k2) == 0,
        drop_at(p, frames, k1) > 0 <==> p.notifies_at(frames, k1),
{
    if p.notifies_at(frames, k1) && p.notifies_at(frames, k2) {
        lemma_at_most_one_notification(p, frames, k1, k2);
    }
}

/// For a dead player the death countdown adds up the frames that find the
/// player dead, and stops at its duration.
pub proof fn lemma_dying_countdown(p: PlayerView, frames: Seq<FrameView>)
    requires
        p.dead,
        p.death_timer.bounded(),
    ensures
        p.run(frames).dead,
        p.run(frames).death_timer.duration == p.death_timer.duration,
        p.run(frames).death_timer.elapsed == advanced(
            p.death_timer.duration,
            p.death_timer.elapsed,
            dying_time(frames),
        ),
    decreases frames.len(),
{
    if frames.len() > 0 {
        lemma_dying_countdown(p, frames.drop_last());
    }
}

/// For a dead player the end of the session is asked for on the frame on
/// which the time spent dying reaches the duration of the death countdown:
/// not on a frame before it, and not again after it.
pub proof fn lemma_end_requested_when_countdown_arrives(
    p: PlayerView,
    frames: Seq<FrameView>,
    k: int,
)
    requires
        p.dead,
        p.death_timer.bounded(),
        0 <= k < frames.len(),
    ensures
        p.requests_end_at(frames, k) <==> frames[k].strikes() && p.death_timer.elapsed
            + dying_time(frames.take(k)) < p.death_timer.duration <= p.death_timer.elapsed
            + dying_time(frames.take(k)) + frames[k].delta,
{
    lemma_dying_countdown(p, frames.take(k));
}

/// The death delay. Let frame `d` be the first that finds a living player
/// dead. Then the end of the session is asked for on frame `k` exactly if
/// `k` comes after `d`, finds the player dead, and is the frame on which the
/// time that has passed since frame `d` reaches the delay: the deltas of the
/// frames after `d` up to `k` add up to the delay or more, and those before
/// `k` do not.
pub proof fn lemma_death_delay(p: PlayerView, frames: Seq<FrameView>, d: int, k: int)
    requires
        p.well_formed(),
        !p.dead,
        0 <= d < frames.len(),
        frames[d].strikes(),
        quiet_before(frames, d),
        0 <= k < frames.len(),
    ensures
        p.requests_end_at(frames, k) <==> d < k && frames[k].strikes() && dying_time(
            frames.subrange(d + 1, k),
        ) < DEATH_DELAY_NANOS <= dying_time(frames.subrange(d + 1, k)) + frames[k].delta,
{
    if k <= d {
        lemma_notifies_on_first_strike(p, frames, d);
        lemma_latch_closes_on_first_strike(p, frames.take(k));
        assert forall|j: int| 0 <= j < frames.take(k).len() implies !(
        #[trigger] frames.take(k)[j]).strikes() by {
            assert(frames.take(k)[j] == frames[j]);
        }
    } else {
        let upto = frames.take(k);
        let struck = p.run(frames.take(d + 1));
        // the record after the frame that closes the latch
        let alive = p.run(frames.take(d));
        lemma_latch_closes_on_first_strike(p, frames.take(d));
        assert forall|j: int| 0 <= j < frames.take(d).len() implies !(
        #[trigger] frames.take(d)[j]).strikes() by {
            assert(frames.take(d)[j] == frames[j]);
        }
        lemma_run_keeps_well_formed(p, frames.take(d));
        assert(frames.take(d + 1).drop_last() =~= frames.take(d));
        assert(frames.take(d + 1).last() == frames[d]);
        assert(struck == alive.frame(frames[d]));
        assert(struck.dead && struck.death_timer.elapsed == 0);
        // the frames after it, up to frame k
        lemma_run_split(p, upto, d + 1);
        assert(upto.take(d + 1) =~= frames.take(d + 1));
        assert(upto.skip(d + 1) =~= frames.subrange(d + 1, k));
        lemma_dying_countdown(struck, frames.subrange(d + 1, k));
    }
}

/// The end of the session is asked for at most once over a run.
pub proof fn lemma_end_requested_once(p: PlayerView, frames: Seq<FrameView>, k1: int, k2: int)
    requires
        0 <= k1 < k2 < frames.len(),
        p.requests_end_at(frames, k1),
    ensures
        !p.requests_end_at(frames, k2),
{
    let arrived = p.run(frames.take(k1 + 1));
    assert(frames.take(k1 + 1).drop_last() =~= frames.take(k1));
    assert(frames.take(k1 + 1).last() == frames[k1]);
    assert(arrived.dead && arrived.death_timer.finished() && arrived.death_timer.bounded());
    let upto = frames.take(k2);
    lemma_run_split(p, upto, k1 + 1);
    assert(upto.take(k1 + 1) =~= frames.take(k1 + 1));
    lemma_dying_countdown(arrived, upto.skip(k1 + 1));
}

} // verus!
