use player_lifecycle::countdown::Countdown;
use player_lifecycle::player::PlayerDeathEvent;
use player_lifecycle::plugin::{Frame, PlayerPlugin, Session};
use player_lifecycle::presentation::Visibility;

const HALF_SECOND: u64 = 500_000_000;

fn frame(health_dead: bool, delta: u64) -> Frame {
    Frame { in_game: true, unpaused: true, health_dead, delta }
}

fn new_session() -> Session {
    PlayerPlugin.enter(vec![Visibility::Visible, Visibility::Inherited])
}

#[test]
fn entering_the_game_makes_a_fresh_session() {
    let session = new_session();
    assert!(session.player.is_vulnerable());
    assert!(!session.player.dead);
    assert_eq!(session.player.death_timer.elapsed, 0);
    assert_eq!(session.player.death_timer.duration, 2_000_000_000);
    assert!(session.death_events.is_empty());
    assert_eq!(session.view_models, vec![Visibility::Visible, Visibility::Inherited]);
}

#[test]
fn end_to_end() {
    let mut session = new_session();
    for _ in 1..=10 {
        let outcome = PlayerPlugin.update(&mut session, &frame(false, HALF_SECOND));
        assert!(!outcome.notified);
        assert!(!outcome.end_requested);
        assert_eq!(outcome.viewpoint_drop, 0);
        assert!(!session.player.dead);
        assert_eq!(session.view_models, vec![Visibility::Visible, Visibility::Inherited]);
    }
    let mut notified_on: Vec<u32> = Vec::new();
    let mut ended_on: Vec<u32> = Vec::new();
    let mut dropped: Vec<(u32, u32)> = Vec::new();
    for n in 11..=20 {
        let outcome = PlayerPlugin.update(&mut session, &frame(true, HALF_SECOND));
        if outcome.notified {
            notified_on.push(n);
        }
        if outcome.end_requested {
            ended_on.push(n);
        }
        if outcome.viewpoint_drop != 0 {
            dropped.push((n, outcome.viewpoint_drop));
        }
        assert_eq!(session.view_models, vec![Visibility::Hidden, Visibility::Hidden]);
        assert!(session.player.dead);
        assert!(session.death_events.is_empty());
    }
    assert_eq!(notified_on, vec![11]);
    assert_eq!(dropped, vec![(11, 250)]);
    assert_eq!(ended_on, vec![15]);
}

#[test]
fn death_timer_reads_the_time_since_the_death() {
    let mut session = new_session();
    PlayerPlugin.update(&mut session, &frame(true, HALF_SECOND));
    assert_eq!(session.player.death_timer.elapsed, 0);
    PlayerPlugin.update(&mut session, &frame(true, HALF_SECOND));
    assert_eq!(session.player.death_timer.elapsed, 500_000_000);
    PlayerPlugin.update(&mut session, &frame(true, HALF_SECOND));
    PlayerPlugin.update(&mut session, &frame(true, HALF_SECOND));
    assert_eq!(session.player.death_timer.elapsed, 1_500_000_000);
    assert!(!session.player.death_timer.finished());
    let outcome = PlayerPlugin.update(&mut session, &frame(true, HALF_SECOND));
    assert!(outcome.end_requested);
    assert_eq!(session.player.death_timer.elapsed, 2_000_000_000);
}

#[test]
fn nothing_moves_while_paused() {
    let mut session = new_session();
    session.player.invulnerability_timer = Countdown::new(200_000_000);
    let paused = Frame { in_game: true, unpaused: false, health_dead: true, delta: HALF_SECOND };
    for _ in 0..5 {
        let outcome = PlayerPlugin.update(&mut session, &paused);
        assert!(!outcome.notified);
        assert!(!outcome.end_requested);
        assert_eq!(outcome.viewpoint_drop, 0);
    }
    assert!(!session.player.dead);
    assert_eq!(session.player.invulnerability_timer.elapsed, 0);
    assert_eq!(session.player.death_timer.elapsed, 0);
    assert_eq!(session.view_models, vec![Visibility::Visible, Visibility::Inherited]);
}

#[test]
fn nothing_moves_outside_the_game() {
    let mut session = new_session();
    session.player.invulnerability_timer = Countdown::new(200_000_000);
    let outside = Frame { in_game: false, unpaused: true, health_dead: true, delta: HALF_SECOND };
    let outcome = PlayerPlugin.update(&mut session, &outside);
    assert!(!outcome.notified);
    assert!(!outcome.end_requested);
    assert_eq!(outcome.viewpoint_drop, 0);
    assert!(!session.player.dead);
    assert_eq!(session.player.invulnerability_timer.elapsed, 0);
    assert_eq!(session.view_models, vec![Visibility::Visible, Visibility::Inherited]);
}

#[test]
fn pause_puts_the_delay_on_hold() {
    let mut session = new_session();
    let paused = Frame { in_game: true, unpaused: false, health_dead: true, delta: HALF_SECOND };
    PlayerPlugin.update(&mut session, &frame(true, HALF_SECOND));
    PlayerPlugin.update(&mut session, &frame(true, 1_900_000_000));
    for _ in 0..3 {
        assert!(!PlayerPlugin.update(&mut session, &paused).end_requested);
    }
    assert_eq!(session.player.death_timer.elapsed, 1_900_000_000);
    assert!(PlayerPlugin.update(&mut session, &frame(true, 100_000_000)).end_requested);
    assert!(!PlayerPlugin.update(&mut session, &frame(true, 100_000_000)).end_requested);
}

#[test]
fn update_advances_the_invulnerability_countdown() {
    let mut session = new_session();
    session.player.invulnerability_timer = Countdown::new(200_000_000);
    PlayerPlugin.update(&mut session, &frame(false, 150_000_000));
    assert!(!session.player.is_vulnerable());
    assert_eq!(session.player.invulnerability_timer.elapsed, 150_000_000);
    PlayerPlugin.update(&mut session, &frame(false, 150_000_000));
    assert!(session.player.is_vulnerable());
    assert_eq!(session.player.invulnerability_timer.elapsed, 200_000_000);
}

#[test]
fn reaction_runs_on_the_frame_of_the_notification_only() {
    let mut session = new_session();
    let first = PlayerPlugin.update(&mut session, &frame(true, 1));
    assert!(first.notified);
    assert_eq!(first.viewpoint_drop, 250);
    session.view_models = vec![Visibility::Visible, Visibility::Visible];
    let second = PlayerPlugin.update(&mut session, &frame(true, 1));
    assert!(!second.notified);
    assert_eq!(second.viewpoint_drop, 0);
    assert_eq!(session.view_models, vec![Visibility::Visible, Visibility::Visible]);
}

#[test]
fn reaction_runs_while_paused_when_a_notification_is_pending() {
    let mut session = new_session();
    session.death_events.push(PlayerDeathEvent);
    let paused = Frame { in_game: true, unpaused: false, health_dead: false, delta: 1 };
    let outcome = PlayerPlugin.update(&mut session, &paused);
    assert!(!outcome.notified);
    assert_eq!(outcome.viewpoint_drop, 250);
    assert_eq!(session.view_models, vec![Visibility::Hidden, Visibility::Hidden]);
    assert!(session.death_events.is_empty());
    let next = PlayerPlugin.update(&mut session, &paused);
    assert_eq!(next.viewpoint_drop, 0);
}

#[test]
fn revived_health_does_not_reopen_the_latch() {
    let mut session = new_session();
    assert!(PlayerPlugin.update(&mut session, &frame(true, HALF_SECOND)).notified);
    for _ in 0..4 {
        let outcome = PlayerPlugin.update(&mut session, &frame(false, HALF_SECOND));
        assert!(!outcome.notified);
        assert!(!outcome.end_requested);
        assert!(session.player.dead);
    }
    assert_eq!(session.player.death_timer.elapsed, 0);
    let outcome = PlayerPlugin.update(&mut session, &frame(true, HALF_SECOND));
    assert!(!outcome.notified);
    assert_eq!(outcome.viewpoint_drop, 0);
    assert_eq!(session.player.death_timer.elapsed, HALF_SECOND);
}
