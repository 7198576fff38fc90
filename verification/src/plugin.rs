//! The frame schedule: which of the player systems run on a frame, and in
//! what order.

use crate::player::{handle_player_death, spawn_player, update_player};
use crate::player::{Player, PlayerDeathEvent, PlayerView};
use crate::presentation::{on_player_death, reacted, view_drop, Visibility};
use vstd::prelude::*;

verus! {

/// What one frame brings.
#[derive(Clone, Copy, Debug)]
pub struct Frame {
    /// The session is in its active state.
    pub in_game: bool,
    /// The game is not paused.
    pub unpaused: bool,
    /// The health record reports the player dead, after this frame's damage.
    pub health_dead: bool,
    /// The time since the last frame, in nanoseconds.
    pub delta: u64,
}

/// A frame as mathematical values.
pub struct FrameView {
    pub in_game: bool,
    pub unpaused: bool,
    pub health_dead: bool,
    pub delta: nat,
}

impl FrameView {
    /// The lifecycle systems run on this frame: the session is active and
    /// the game is not paused.
    pub open spec fn active(self) -> bool {
        self.in_game && self.unpaused
    }

    /// The lifecycle systems run on this frame and find the player dead.
    pub open spec fn strikes(self) -> bool {
        self.active() && self.health_dead
    }
}

impl View for Frame {
    type V = FrameView;

    open spec fn view(&self) -> FrameView {
        FrameView {
            in_game: self.in_game,
            unpaused: self.unpaused,
            health_dead: self.health_dead,
            delta: self.delta as nat,
        }
    }
}

impl PlayerView {
    /// The record after one frame: on an active frame the invulnerability
    /// countdown advances and the death sequencer looks at the health
    /// record; otherwise everything holds.
    pub open spec fn frame(self, f: FrameView) -> PlayerView {
        if f.active() {
            self.updated(f.delta).sequenced(f.health_dead, f.delta)
        } else {
            self
        }
    }

    /// The record after a run of frames.
    pub open spec fn run(self, frames: Seq<FrameView>) -> PlayerView
        decreases frames.len(),
    {
        if frames.len() == 0 {
            self
        } else {
            self.run(frames.drop_last()).frame(frames.last())
        }
    }

    /// Frame `k` of the run is the one that sends the death notification.
    pub open spec fn notifies_at(self, frames: Seq<FrameView>, k: int) -> bool
        recommends
            0 <= k < frames.len(),
    {
        frames[k].active() && self.run(frames.take(k)).notifies(frames[k].health_dead)
    }

    /// Frame `k` of the run is the one that asks for the end of the session.
    pub open spec fn requests_end_at(self, frames: Seq<FrameView>, k: int) -> bool
        recommends
            0 <= k < frames.len(),
    {
        frames[k].active() && self.run(frames.take(k)).requests_end(
            frames[k].health_dead,
            frames[k].delta,
        )
    }
}

/// What one frame did.
#[derive(Clone, Copy, Debug)]
pub struct Outcome {
    /// The death notification was sent on this frame.
    pub notified: bool,
    /// How far the viewpoint is to sink, in thousandths of a world unit.
    pub viewpoint_drop: u32,
    /// The session is to move to its end state.
    pub end_requested: bool,
}

/// What lives as long as the session is active: the player's record, the
/// death notifications of the current frame, and the view models of the
/// first-person view.
#[derive(Debug)]
pub struct Session {
    pub player: Player,
    pub death_events: Vec<PlayerDeathEvent>,
    pub view_models: Vec<Visibility>,
}

/// The player systems and their schedule.
pub struct PlayerPlugin;

impl PlayerPlugin {
    /// Sets up what the session needs when it becomes active: a fresh
    /// player and an empty notification queue, beside the view models given.
    pub fn enter(&self, view_models: Vec<Visibility>) -> (session: Session)
        ensures
            session.player@ == PlayerView::fresh(),
            session.player@.well_formed(),
            session.player@.is_vulnerable(),
            session.death_events@ == Seq::<PlayerDeathEvent>::empty(),
            session.view_models@ == view_models@,
    {
        Session { player: spawn_player(), death_events: Vec::new(), view_models }
    }

    /// Runs one frame. While the session is active and not paused the
    /// invulnerability countdown advances and then the death sequencer
    /// runs. The reaction to a death runs on every frame, after the
    /// sequencer, and sees what the sequencer has just sent. A notification
    /// lasts for one frame: the reaction takes it off the queue, which is
    /// empty when the frame is over.
    pub fn update(&self, session: &mut Session, frame: &Frame) -> (outcome: Outcome)
        ensures
            final(session).player@ == old(session).player@.frame(frame@),
            outcome.notified == (frame@.active() && old(session).player@.notifies(
                frame.health_dead,
            )),
            outcome.end_requested == (frame@.active() && old(session).player@.requests_end(
                frame.health_dead,
                frame.delta as nat,
            )),
            final(session).view_models@ == reacted(
                pending_after(old(session).death_events@.len(), outcome.notified),
                old(session).view_models@,
            ),
            outcome.viewpoint_drop == view_drop(
                pending_after(old(session).death_events@.len(), outcome.notified),
            ),
            final(session).death_events@ == Seq::<PlayerDeathEvent>::empty(),
            old(session).player.dead ==> final(session).player.dead,
            old(session).player@.well_formed() ==> final(session).player@.well_formed(),
    {
        let active = frame.in_game && frame.unpaused;
        let notified = active && frame.health_dead && !session.player.dead;
        let mut end_requested = false;
        if active {
            update_player(frame.delta, &mut session.player);
            end_requested = handle_player_death(
                frame.delta,
                frame.health_dead,
                &mut session.player,
                &mut session.death_events,
            );
        }
        let viewpoint_drop = on_player_death(&mut session.death_events, &mut session.view_models);
        Outcome { notified, viewpoint_drop, end_requested }
    }
}

/// How many notifications the reaction finds on a frame: those that were
/// already there, and the one that the sequencer has just sent.
pub open spec fn pending_after(pending: nat, notified: bool) -> nat {
    if notified {
        pending + 1
    } else {
        pending
    }
}

} // verus!
