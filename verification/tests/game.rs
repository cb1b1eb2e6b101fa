//! Tests for the game state machine and whole-world ticks.

use dodge::camera::MainCamera;
use dodge::character::Character;
use dodge::enemy::{Enemy, EnemyActor, EnemyKind};
use dodge::player::Player;
use dodge::world::{
    check_assets, check_restart, game_over, game_start, run_ticks, TickInput, World,
};
use dodge::AppState;

fn idle_input() -> TickInput {
    TickInput {
        assets_loaded: false,
        cursor: None,
        anim_timer: false,
        spawn_timer: false,
        score_timer: false,
        music_timer: false,
        restart_intents: 0,
        exit_intents: 0,
    }
}

fn world_in_game() -> World {
    let mut w = World::new(1_200_000, 800_000);
    w.tick(&TickInput { assets_loaded: true, ..idle_input() });
    w.tick(&idle_input());
    assert_eq!(w.state, AppState::Game);
    w
}

fn enemy_at(x: i64, y: i64, kind: EnemyKind) -> EnemyActor {
    EnemyActor {
        character: Character {
            flip: false,
            diff_x: 0,
            diff_y: 0,
            trans_x: x,
            trans_y: y,
            frame_count: 2,
            frame_index: 0,
        },
        enemy: Enemy { kind, collided: false },
    }
}

#[test]
fn loading_waits_for_assets() {
    let mut state = AppState::Load;
    check_assets(&mut state, false);
    assert_eq!(state, AppState::Load);
    check_assets(&mut state, true);
    assert_eq!(state, AppState::Setup);
    game_start(&mut state);
    assert_eq!(state, AppState::Game);
}

#[test]
fn game_over_despawns_enemies() {
    let mut state = AppState::Game;
    let mut enemies = vec![enemy_at(0, 0, EnemyKind::Fly), enemy_at(50_000, 0, EnemyKind::Walk)];
    game_over(&mut state, false, &mut enemies);
    assert_eq!(state, AppState::Game);
    assert_eq!(enemies.len(), 2);
    game_over(&mut state, true, &mut enemies);
    assert_eq!(state, AppState::Restart);
    assert!(enemies.is_empty());
}

#[test]
fn restart_transitions_exactly_once() {
    // several intents in one tick: one transition into play
    let mut state = AppState::Restart;
    check_restart(&mut state, 3);
    assert_eq!(state, AppState::Game);
    // a second helping of intents cannot transition again
    check_restart(&mut state, 5);
    assert_eq!(state, AppState::Game);
    // without an intent, the restart screen stays up
    let mut state = AppState::Restart;
    check_restart(&mut state, 0);
    assert_eq!(state, AppState::Restart);
}

#[test]
fn fresh_world_walks_into_the_game() {
    let mut w = World::new(1_200_000, 800_000);
    assert_eq!(w.state, AppState::Load);
    let out = w.tick(&idle_input());
    assert_eq!(w.state, AppState::Load, "assets still loading");
    assert!(!out.play_music);
    w.tick(&TickInput { assets_loaded: true, ..idle_input() });
    assert_eq!(w.state, AppState::Setup);
    let out = w.tick(&idle_input());
    assert_eq!(w.state, AppState::Game);
    assert!(out.play_music, "entering the game starts the music");
    assert_eq!(w.player.score, 0);
    assert!(w.enemies.is_empty());
}

#[test]
fn idle_game_tick_changes_nothing_visible() {
    let mut w = world_in_game();
    let out = w.tick(&idle_input());
    assert_eq!(w.state, AppState::Game);
    assert_eq!(out.collisions, 0);
    assert!(!out.game_over);
    assert_eq!(out.shake_step, None);
    assert!(!out.exit);
    assert_eq!(w.player.score, 0);
    assert!(w.enemies.is_empty());
}

#[test]
fn spawn_gate_adds_an_enemy() {
    let mut w = world_in_game();
    w.tick(&TickInput { spawn_timer: true, ..idle_input() });
    assert_eq!(w.enemies.len(), 1);
    assert!(!w.enemies[0].enemy.collided);
    w.tick(&TickInput { spawn_timer: true, ..idle_input() });
    assert_eq!(w.enemies.len(), 2);
}

#[test]
fn score_gate_accrues_a_point() {
    let mut w = world_in_game();
    w.tick(&TickInput { score_timer: true, ..idle_input() });
    assert_eq!(w.player.score, 1000);
    assert_eq!(w.player.max_score, 1000);
    w.tick(&idle_input());
    assert_eq!(w.player.score, 1000, "no gate, no accrual");
}

#[test]
fn collision_tick_shakes_and_halves() {
    let mut w = world_in_game();
    w.player.score = 2000;
    w.player.max_score = 2000;
    w.enemies.push(enemy_at(20_000, 20_000, EnemyKind::Fly));
    let out = w.tick(&idle_input());
    assert_eq!(out.collisions, 1);
    assert!(!out.game_over, "a score of exactly 1.0 is not game over");
    assert_eq!(w.player.score, 1000);
    assert_eq!(out.shake_step, Some(20));
    assert_eq!(w.camera.shaker, Some(19));
    assert_eq!(w.state, AppState::Game);
    assert!(w.enemies[0].enemy.collided, "the enemy cannot hit again until it respawns");
    let out = w.tick(&idle_input());
    assert_eq!(out.collisions, 0, "still overlapping, but already collided");
    assert_eq!(w.player.score, 1000);
    assert_eq!(out.shake_step, Some(19));
}

#[test]
fn game_over_tick_shows_the_restart_screen() {
    let mut w = world_in_game();
    w.player.score = 1000;
    w.player.max_score = 5000;
    w.enemies.push(enemy_at(0, 0, EnemyKind::Swim));
    let out = w.tick(&idle_input());
    assert_eq!(out.collisions, 1);
    assert!(out.game_over, "0.5 is below one point");
    assert_eq!(w.state, AppState::Restart);
    assert!(w.enemies.is_empty(), "enemies despawn on game over");
    assert_eq!(w.player.max_score, 5000);
}

#[test]
fn restart_screen_restarts_or_exits() {
    let mut w = world_in_game();
    w.player.score = 1000;
    w.player.max_score = 7000;
    w.enemies.push(enemy_at(0, 0, EnemyKind::Walk));
    w.tick(&idle_input());
    assert_eq!(w.state, AppState::Restart);

    // intents only matter on the restart screen; several count as one
    let out = w.tick(&TickInput { restart_intents: 4, ..idle_input() });
    assert_eq!(w.state, AppState::Game);
    assert!(out.play_music);
    assert_eq!(w.player.score, 0, "a new round starts from nothing");
    assert_eq!(w.player.max_score, 7000, "the high score survives the round");

    // an exit intent is reported, not acted on
    w.player.score = 1000;
    w.enemies.push(enemy_at(0, 0, EnemyKind::Walk));
    w.tick(&idle_input());
    assert_eq!(w.state, AppState::Restart);
    let out = w.tick(&TickInput { exit_intents: 1, ..idle_input() });
    assert!(out.exit);
    assert_eq!(w.state, AppState::Restart);
}

#[test]
fn cursor_steers_the_player_through_a_tick() {
    let mut w = world_in_game();
    w.tick(&TickInput { cursor: Some((100_000, 0)), ..idle_input() });
    assert_eq!(w.player_character.trans_x, 10_000);
    assert_eq!(w.player_character.trans_y, 0);
    w.tick(&idle_input());
    assert_eq!(w.player_character.trans_x, 20_000, "the intent persists without a cursor");
}

#[test]
fn max_score_is_monotone_over_a_run() {
    let mut w = world_in_game();
    w.player.score = 3000;
    w.player.max_score = 3000;
    w.enemies.push(enemy_at(20_000, 0, EnemyKind::Fly));
    let inputs = vec![
        TickInput { score_timer: true, ..idle_input() },
        idle_input(),
        TickInput { spawn_timer: true, score_timer: true, ..idle_input() },
        TickInput { cursor: Some((-50_000, -50_000)), ..idle_input() },
        idle_input(),
    ];
    let mut best = w.player.max_score;
    let outs = run_ticks(&mut w, &inputs);
    assert_eq!(outs.len(), inputs.len());
    assert!(w.player.max_score >= best);
    best = w.player.max_score;
    let _ = run_ticks(&mut w, &inputs);
    assert!(w.player.max_score >= best);
}

#[test]
fn outside_the_game_nothing_moves() {
    let mut w = World::new(1_200_000, 800_000);
    let before = w.camera.shaker;
    w.tick(&TickInput { spawn_timer: true, score_timer: true, ..idle_input() });
    assert_eq!(w.state, AppState::Load);
    assert!(w.enemies.is_empty(), "no spawning while loading");
    assert_eq!(w.player.score, 0, "no score while loading");
    assert_eq!(w.camera.shaker, before);
}

#[test]
fn camera_rest_is_none_while_playing() {
    let mut w = world_in_game();
    let out = w.tick(&idle_input());
    assert_eq!(out.shake_step, None);
    assert_eq!(w.camera.shaker, None);
}

#[test]
fn default_records_start_empty() {
    let p = Player::default();
    assert_eq!(p.score, 0);
    assert_eq!(p.max_score, 0);
    let c = MainCamera::default();
    assert_eq!(c.shaker, None);
    let (p, ch) = dodge::player::setup_player();
    assert_eq!(p.score, 0);
    assert_eq!((ch.trans_x, ch.trans_y), (0, 0));
    assert_eq!(ch.frame_count, 3);
}
