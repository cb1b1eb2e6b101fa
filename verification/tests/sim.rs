//! Unit tests for the fixed-point math and the per-entity behaviour.

use dodge::camera::{animate_camera, shake_camera, MainCamera};
use dodge::character::{animate_character, Character};
use dodge::collision::{check_collision, collide};
use dodge::enemy::{animate_enemy, setup_enemy, spawn_state, Enemy, EnemyActor, EnemyKind};
use dodge::fixed::{clamp_i64, grow, isqrt, scale_to_speed};
use dodge::player::{animate_player, steer_player, update_score, Player};
use dodge::score_label::score_text;

fn on_viewport_edge(px: i64, py: i64, dx: i64, dy: i64) -> bool {
    // for the 1200x800 viewport: an edge point 40 units in from the
    // half-extent, heading back across the screen, mainly inward
    (px == 560_000 && dx <= -1 && dy.abs() <= -dx)
        || (px == -560_000 && dx >= 1 && dy.abs() <= dx)
        || (py == 360_000 && dy <= -1 && dx.abs() <= -dy)
        || (py == -360_000 && dy >= 1 && dx.abs() <= dy)
}

fn still_character(x: i64, y: i64, frames: usize) -> Character {
    Character {
        flip: false,
        diff_x: 0,
        diff_y: 0,
        trans_x: x,
        trans_y: y,
        frame_count: frames,
        frame_index: 0,
    }
}

#[test]
fn isqrt_exact_values() {
    assert_eq!(isqrt(0), 0);
    assert_eq!(isqrt(1), 1);
    assert_eq!(isqrt(2), 1);
    assert_eq!(isqrt(999_999), 999);
    assert_eq!(isqrt(1_000_000), 1000);
    assert_eq!(isqrt(1_250_000), 1118);
    assert_eq!(isqrt(10_000_000_000), 100_000);
}

#[test]
fn clamp_works() {
    assert_eq!(clamp_i64(5, -10, 10), 5);
    assert_eq!(clamp_i64(-20, -10, 10), -10);
    assert_eq!(clamp_i64(20, -10, 10), 10);
}

#[test]
fn grow_scales_by_one_percent() {
    assert_eq!(grow(9000), 9090);
    assert_eq!(grow(-9000), -9090);
    assert_eq!(grow(101), 102);
    assert_eq!(grow(-101), -102);
    assert_eq!(grow(0), 0);
    assert_eq!(grow(100), 101);
}

#[test]
fn scale_to_speed_exact_values() {
    assert_eq!(scale_to_speed(-1000, 0, 7500), (-7500, 0));
    assert_eq!(scale_to_speed(0, 1000, 9000), (0, 9000));
    // length floor of (1000, 500) is 1118; components round toward zero
    assert_eq!(scale_to_speed(1000, 500, 7500), (6708, 3354));
    assert_eq!(scale_to_speed(-1000, -500, 7500), (-6708, -3354));
}

#[test]
fn spawned_velocity_hits_target_speed() {
    for _ in 0..50 {
        let (px, py, dx, dy) = spawn_state(1_200_000, 800_000, 7500);
        assert!(px.abs() <= 600_000);
        assert!(py.abs() <= 400_000);
        assert!(on_viewport_edge(px, py, dx, dy));
        let v2 = dx * dx + dy * dy;
        assert!((7500 - 2) * (7500 - 2) <= v2);
        assert!(v2 <= (7500 + 10) * (7500 + 10));
    }
}

#[test]
fn setup_enemy_starts_clean() {
    for _ in 0..20 {
        let a = setup_enemy(1_200_000, 800_000);
        assert!(!a.enemy.collided);
        assert_eq!(a.character.frame_index, 0);
        assert!(on_viewport_edge(
            a.character.trans_x,
            a.character.trans_y,
            a.character.diff_x,
            a.character.diff_y
        ));
        let v2 = a.character.diff_x * a.character.diff_x
            + a.character.diff_y * a.character.diff_y;
        assert!((7498 * 7498..=7510 * 7510).contains(&v2));
    }
}

fn respawn_speed_for(kind: EnemyKind) -> i64 {
    // park the enemy beyond both half-extents so the next tick respawns it
    let mut a = EnemyActor {
        character: Character {
            flip: false,
            diff_x: 0,
            diff_y: 0,
            trans_x: 700_000,
            trans_y: 500_000,
            frame_count: 2,
            frame_index: 0,
        },
        enemy: Enemy { kind, collided: true },
    };
    animate_enemy(&mut a, 1_200_000, 800_000, false);
    assert!(!a.enemy.collided, "respawn must clear the collided flag");
    assert!(a.character.trans_x.abs() <= 600_000);
    assert!(a.character.trans_y.abs() <= 400_000);
    assert!(on_viewport_edge(
        a.character.trans_x,
        a.character.trans_y,
        a.character.diff_x,
        a.character.diff_y
    ));
    a.character.diff_x * a.character.diff_x + a.character.diff_y * a.character.diff_y
}

#[test]
fn respawn_speed_matches_kind() {
    for _ in 0..20 {
        let v2 = respawn_speed_for(EnemyKind::Fly);
        assert!((8998 * 8998..=9010 * 9010).contains(&v2));
        let v2 = respawn_speed_for(EnemyKind::Swim);
        assert!((6198 * 6198..=6210 * 6210).contains(&v2));
        let v2 = respawn_speed_for(EnemyKind::Walk);
        assert!((3998 * 3998..=4010 * 4010).contains(&v2));
    }
}

#[test]
fn tick_accelerates_by_one_percent() {
    let mut a = EnemyActor {
        character: Character {
            flip: false,
            diff_x: -7500,
            diff_y: 300,
            trans_x: 0,
            trans_y: 0,
            frame_count: 2,
            frame_index: 0,
        },
        enemy: Enemy { kind: EnemyKind::Fly, collided: false },
    };
    animate_enemy(&mut a, 1_200_000, 800_000, false);
    assert_eq!(a.character.trans_x, -7500);
    assert_eq!(a.character.trans_y, 300);
    assert_eq!(a.character.diff_x, -7575); // -7500 * 101 / 100
    assert_eq!(a.character.diff_y, 303); // 300 * 101 / 100
}

#[test]
fn horizontal_exit_never_respawns() {
    // enemy at (610, 0) in a 1200x800 viewport, heading straight left at
    // speed 7.5: the respawn test wants both half-extents exceeded at
    // once, so this enemy drifts off for good
    let (dx, dy) = scale_to_speed(-1000, 0, 7500);
    assert_eq!((dx, dy), (-7500, 0));
    let mut a = EnemyActor {
        character: Character {
            flip: false,
            diff_x: dx,
            diff_y: dy,
            trans_x: 610_000,
            trans_y: 0,
            frame_count: 2,
            frame_index: 0,
        },
        enemy: Enemy { kind: EnemyKind::Walk, collided: true },
    };
    let mut last_x = a.character.trans_x;
    for _ in 0..200 {
        animate_enemy(&mut a, 1_200_000, 800_000, false);
        assert_eq!(a.character.trans_y, 0, "pure horizontal motion stays on the axis");
        assert!(a.character.trans_x < last_x, "keeps drifting left, never repositioned");
        assert!(a.enemy.collided, "no respawn, so the flag is never cleared");
        last_x = a.character.trans_x;
    }
    assert!(a.character.trans_x < -600_000, "long gone, yet never respawned");
}

#[test]
fn overlapping_boxes_collide() {
    // 40x40 boxes: (0,0) against (20,20) overlaps, (100,100) does not
    assert!(collide(0, 0, 20_000, 20_000));
    assert!(!collide(0, 0, 100_000, 100_000));
    assert!(!collide(0, 0, 40_000, 0), "touching edges do not overlap");
    assert!(collide(0, 0, 39_999, 0));
}

#[test]
fn collision_halves_score_once_per_enemy() {
    let mut player = Player { score: 8000, max_score: 8000 };
    let mut enemies = vec![
        EnemyActor {
            character: still_character(20_000, 20_000, 2),
            enemy: Enemy { kind: EnemyKind::Fly, collided: false },
        },
        EnemyActor {
            character: still_character(100_000, 100_000, 2),
            enemy: Enemy { kind: EnemyKind::Swim, collided: false },
        },
    ];
    let (hits, over) = check_collision(&mut player, 0, 0, &mut enemies);
    assert_eq!(hits, 1);
    assert!(!over);
    assert_eq!(player.score, 4000);
    assert!(enemies[0].enemy.collided);
    assert!(!enemies[1].enemy.collided);

    // the already-collided enemy cannot deal damage again
    let (hits, over) = check_collision(&mut player, 0, 0, &mut enemies);
    assert_eq!(hits, 0);
    assert!(!over);
    assert_eq!(player.score, 4000);
}

#[test]
fn game_over_is_strictly_below_one_point() {
    // score 2.0, one collision: exactly 1.0 must NOT trigger game over
    let mut player = Player { score: 2000, max_score: 2000 };
    let mut enemies = vec![EnemyActor {
        character: still_character(0, 0, 2),
        enemy: Enemy { kind: EnemyKind::Fly, collided: false },
    }];
    let (hits, over) = check_collision(&mut player, 0, 0, &mut enemies);
    assert_eq!(hits, 1);
    assert_eq!(player.score, 1000);
    assert!(!over, "exactly 1.0 is not game over");

    // the next hit takes the score to 0.5 and ends the game
    enemies[0].enemy.collided = false;
    let (hits, over) = check_collision(&mut player, 0, 0, &mut enemies);
    assert_eq!(hits, 1);
    assert_eq!(player.score, 500);
    assert!(over);
}

#[test]
fn score_accrues_and_max_follows() {
    let mut p = Player::default();
    update_score(&mut p);
    assert_eq!(p.score, 1000);
    assert_eq!(p.max_score, 1000);
    update_score(&mut p);
    assert_eq!(p.score, 2000);
    assert_eq!(p.max_score, 2000);
    p.score = 500; // as after a collision
    update_score(&mut p);
    assert_eq!(p.score, 1500);
    assert_eq!(p.max_score, 2000, "the high-water mark never falls");
}

#[test]
fn steering_points_at_the_cursor() {
    let mut c = still_character(0, 0, 3);
    steer_player(&mut c, 100_000, 0);
    assert_eq!((c.diff_x, c.diff_y), (10_000, 0));
    assert!(!c.flip);
    steer_player(&mut c, -100_000, 0);
    assert_eq!((c.diff_x, c.diff_y), (-10_000, 0));
    assert!(c.flip, "moving left flips the sprite");
    // inside the ten-unit dead zone the player stands still
    steer_player(&mut c, 5000, 5000);
    assert_eq!((c.diff_x, c.diff_y), (0, 0));
    assert!(!c.flip);
}

#[test]
fn player_movement_clamps_to_the_viewport() {
    let mut c = still_character(539_000, 0, 3);
    c.diff_x = 10_000;
    animate_player(&mut c, 1_200_000, 800_000, false);
    assert_eq!(c.trans_x, 540_000, "clamped at 45% of the width");
    let mut c = still_character(0, -359_000, 3);
    c.diff_y = -10_000;
    animate_player(&mut c, 1_200_000, 800_000, false);
    assert_eq!(c.trans_y, -360_000, "clamped at 45% of the height");
}

#[test]
fn animation_cursor_cycles() {
    let mut c = still_character(0, 0, 3);
    animate_character(&mut c, true);
    assert_eq!(c.frame_index, 1);
    animate_character(&mut c, false);
    assert_eq!(c.frame_index, 1);
    animate_character(&mut c, true);
    assert_eq!(c.frame_index, 2);
    animate_character(&mut c, true);
    assert_eq!(c.frame_index, 0);
}

#[test]
fn character_moves_by_its_intent() {
    let mut c = Character::from(2).with_direction(300, -400);
    animate_character(&mut c, false);
    assert_eq!((c.trans_x, c.trans_y), (300, -400));
    animate_character(&mut c, false);
    assert_eq!((c.trans_x, c.trans_y), (600, -800));
}

#[test]
fn score_labels_are_zero_padded() {
    assert_eq!(score_text(0), b"0000".to_vec());
    assert_eq!(score_text(9), b"0009".to_vec());
    assert_eq!(score_text(42), b"0042".to_vec());
    assert_eq!(score_text(1000), b"1000".to_vec());
    assert_eq!(score_text(9999), b"9999".to_vec());
    assert_eq!(score_text(12345), b"12345".to_vec());
}

#[test]
fn camera_shake_runs_down() {
    let mut cam = MainCamera::default();
    assert_eq!(animate_camera(&mut cam), None);
    shake_camera(&mut cam, true);
    assert_eq!(cam.shaker, Some(20));
    // a second collision cannot restart a running shake
    shake_camera(&mut cam, true);
    assert_eq!(cam.shaker, Some(20));
    for expected in (0..=20).rev() {
        assert_eq!(animate_camera(&mut cam), Some(expected));
    }
    assert_eq!(animate_camera(&mut cam), None);
    assert_eq!(cam.shaker, None);
    shake_camera(&mut cam, false);
    assert_eq!(cam.shaker, None, "no collision, no shake");
}
