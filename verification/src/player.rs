//! The player's lifecycle record and the two systems that advance it: the
//! invulnerability countdown and the death sequencer.

use crate::countdown::{Countdown, CountdownView};
use vstd::prelude::*;

verus! {

/// How long the player ignores damage after a hit that was accepted.
pub const INVULNERABILITY_NANOS: u64 = 200_000_000;

/// How long the session goes on after the player has died.
pub const DEATH_DELAY_NANOS: u64 = 2_000_000_000;

/// The tick that a new record's invulnerability countdown is given, so that
/// the player starts out vulnerable.
pub const HEAD_START_NANOS: u64 = 1_000_000_000_000;

/// Tells the rest of the game that the player has died on this frame.
#[derive(Debug, Default, Clone, Copy)]
pub struct PlayerDeathEvent;

/// Tells the rest of the game that the player has been hurt.
#[derive(Debug)]
pub struct PlayerHurtEvent {}

/// The lifecycle record as mathematical values.
pub struct PlayerView {
    pub invulnerability_timer: CountdownView,
    pub death_timer: CountdownView,
    pub dead: bool,
}

impl PlayerView {
    /// The record of a player that has just entered the game: vulnerable,
    /// alive, the death countdown not started.
    pub open spec fn fresh() -> PlayerView {
        PlayerView {
            invulnerability_timer: CountdownView {
                duration: INVULNERABILITY_NANOS as nat,
                elapsed: INVULNERABILITY_NANOS as nat,
            },
            death_timer: CountdownView { duration: DEATH_DELAY_NANOS as nat, elapsed: 0 },
            dead: false,
        }
    }

    /// What holds of every record that the systems of this crate produce
    /// from a fresh one: the countdowns have their fixed durations and stay
    /// within them, and the death countdown runs only for a dead player.
    pub open spec fn well_formed(self) -> bool {
        &&& self.invulnerability_timer.duration == INVULNERABILITY_NANOS
        &&& self.invulnerability_timer.bounded()
        &&& self.death_timer.duration == DEATH_DELAY_NANOS
        &&& self.death_timer.bounded()
        &&& !self.dead ==> self.death_timer.elapsed == 0
    }

    /// Damage counts: the invulnerability countdown has run out.
    pub open spec fn is_vulnerable(self) -> bool {
        self.invulnerability_timer.finished()
    }

    /// The record after the invulnerability countdown has been advanced.
    pub open spec fn updated(self, delta: nat) -> PlayerView {
        PlayerView { invulnerability_timer: self.invulnerability_timer.tick(delta), ..self }
    }

    /// The death sequencer sends its notification on this frame: the health
    /// record reports death and the latch is still open.
    pub open spec fn notifies(self, health_dead: bool) -> bool {
        health_dead && !self.dead
    }

    /// The death sequencer asks for the end of the session on this frame:
    /// the player was already dead and this frame's tick completes the delay.
    pub open spec fn requests_end(self, health_dead: bool, delta: nat) -> bool {
        health_dead && self.dead && self.death_timer.finishes_on(delta)
    }

    /// The record after the death sequencer has seen one frame. While the
    /// health record reports life nothing moves. The first frame that
    /// reports death closes the latch; every later one advances the delay.
    pub open spec fn sequenced(self, health_dead: bool, delta: nat) -> PlayerView {
        if !health_dead {
            self
        } else if !self.dead {
            PlayerView { dead: true, ..self }
        } else {
            PlayerView { death_timer: self.death_timer.tick(delta), ..self }
        }
    }
}

/// The player's lifecycle record: one per active session.
#[derive(Debug)]
pub struct Player {
    pub invulnerability_timer: Countdown,
    pub death_timer: Countdown,
    pub dead: bool,
}

impl View for Player {
    type V = PlayerView;

    open spec fn view(&self) -> PlayerView {
        PlayerView {
            invulnerability_timer: self.invulnerability_timer@,
            death_timer: self.death_timer@,
            dead: self.dead,
        }
    }
}

impl Default for Player {
    /// A fresh record. Its invulnerability countdown has already run out.
    fn default() -> (player: Player)
        ensures
            player@ == PlayerView::fresh(),
            player@.well_formed(),
            player@.is_vulnerable(),
    {
        let mut timer = Countdown::new(INVULNERABILITY_NANOS);
        timer.tick(HEAD_START_NANOS);
        Player {
            invulnerability_timer: timer,
            death_timer: Countdown::new(DEATH_DELAY_NANOS),
            dead: false,
        }
    }
}

impl Player {
    /// Whether damage counts at this moment.
    pub fn is_vulnerable(&self) -> (vulnerable: bool)
        ensures
            vulnerable == self@.is_vulnerable(),
    {
        self.invulnerability_timer.finished()
    }
}

/// Creates the record of a player that enters the game.
pub fn spawn_player() -> (player: Player)
    ensures
        player@ == PlayerView::fresh(),
        player@.well_formed(),
        player@.is_vulnerable(),
{
    Player::default()
}

/// Advances the invulnerability countdown by the frame's delta.
pub fn update_player(delta: u64, player: &mut Player)
    ensures
        final(player)@ == old(player)@.updated(delta as nat),
        old(player)@.well_formed() ==> final(player)@.well_formed(),
        old(player)@.is_vulnerable() ==> final(player)@.is_vulnerable(),
{
    player.invulnerability_timer.tick(delta);
}

/// Advances the invulnerability countdown of every player by the frame's
/// delta.
pub fn update_players(delta: u64, players: &mut Vec<Player>)
    ensures
        final(players)@.len() == old(players)@.len(),
        forall|i: int|
            0 <= i < old(players)@.len() ==> (#[trigger] final(players)@[i])@ == old(
                players,
            )@[i]@.updated(delta as nat),
{
    let n: usize = players.len();
    let mut i: usize = 0;
    while i < n
        invariant
            i <= n,
            players@.len() == n,
            old(players)@.len() == n,
            forall|j: int| 0 <= j < i ==> (#[trigger] players@[j])@ == old(players)@[j]@.updated(
                delta as nat,
            ),
            forall|j: int| i <= j < n ==> (#[trigger] players@[j]) == old(players)@[j],
        decreases n - i,
    {
        update_player(delta, &mut players[i]);
        i += 1;
    }
}

/// The death sequencer. `health_dead` is what the health record reports on
/// this frame, after damage has been resolved. A notification is appended to
/// `writer` on the frame that closes the latch, and on no other. The result
/// tells whether the session is to end now.
pub fn handle_player_death(
    delta: u64,
    health_dead: bool,
    player: &mut Player,
    writer: &mut Vec<PlayerDeathEvent>,
) -> (end_session: bool)
    ensures
        final(player)@ == old(player)@.sequenced(health_dead, delta as nat),
        final(writer)@ == (if old(player)@.notifies(health_dead) {
            old(writer)@.push(PlayerDeathEvent)
        } else {
            old(writer)@
        }),
        end_session == old(player)@.requests_end(health_dead, delta as nat),
        old(player).dead ==> final(player).dead,
        old(player)@.well_formed() ==> final(player)@.well_formed(),
{
    if !health_dead {
        return false;
    }
    if !player.dead {
        writer.push(PlayerDeathEvent);
        player.dead = true;
        return false;
    }
    player.death_timer.tick(delta)
}

} // verus!
