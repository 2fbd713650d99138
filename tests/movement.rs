use player_controller::movement::{
    player_controls, DesiredVelocity, HeldKeys, PlayerData, Velocity, DIAGONAL_SPEED, JUMP_FORCE,
    WALK_SPEED,
};
use player_controller::orbit::PlayerCamera;

fn keys(forward: bool, back: bool, left: bool, right: bool, jump: bool) -> HeldKeys {
    HeldKeys { forward, back, left, right, jump }
}

fn falling(y: i64) -> PlayerData {
    PlayerData { velocity: Velocity { x: 0, y, z: 0 } }
}

#[test]
fn opposing_keys_cancel() {
    let mut p = falling(-2_000_000);
    let v = p.resolve_intent(&keys(true, true, false, false, false));
    assert_eq!((v.x, v.z), (0, 0));
    let v = p.resolve_intent(&keys(false, false, true, true, false));
    assert_eq!((v.x, v.z), (0, 0));
    let v = p.resolve_intent(&keys(true, true, true, true, false));
    assert_eq!((v.x, v.z), (0, 0));
    let v = p.resolve_intent(&keys(true, true, false, true, false));
    assert_eq!((v.x, v.z), (WALK_SPEED, 0));
}

#[test]
fn forward_alone_walks_along_minus_z() {
    let mut p = falling(-1_500_000);
    let v = p.resolve_intent(&keys(true, false, false, false, false));
    assert_eq!(v, Velocity { x: 0, y: -1_500_000, z: -5_000_000 });
}

#[test]
fn single_keys_walk_at_walking_speed() {
    let mut p = PlayerData::new();
    assert_eq!(p.resolve_intent(&keys(false, true, false, false, false)), Velocity { x: 0, y: 0, z: WALK_SPEED });
    assert_eq!(p.resolve_intent(&keys(false, false, true, false, false)), Velocity { x: -WALK_SPEED, y: 0, z: 0 });
    assert_eq!(p.resolve_intent(&keys(false, false, false, true, false)), Velocity { x: WALK_SPEED, y: 0, z: 0 });
}

#[test]
fn diagonal_keeps_walking_speed() {
    let mut p = PlayerData::new();
    let v = p.resolve_intent(&keys(true, false, false, true, false));
    assert_eq!(v, Velocity { x: 3_535_533, y: 0, z: -3_535_533 });
    let speed = ((v.x as f64).powi(2) + (v.z as f64).powi(2)).sqrt();
    assert!(speed <= WALK_SPEED as f64 && WALK_SPEED as f64 - speed < 2.0);
    assert_eq!(DIAGONAL_SPEED, 3_535_533);
}

#[test]
fn no_keys_stop_level_motion() {
    let mut p = PlayerData { velocity: Velocity { x: 4, y: 7, z: 9 } };
    let v = p.resolve_intent(&keys(false, false, false, false, false));
    assert_eq!(v, Velocity { x: 0, y: 7, z: 0 });
    assert_eq!(p, PlayerData { velocity: Velocity { x: 4, y: 7, z: 9 } });
}

#[test]
fn jump_held_sets_jump_force_every_frame() {
    let mut p = falling(-3_000_000);
    let jump = keys(false, false, false, false, true);
    let first = p.resolve_intent(&jump);
    assert_eq!(first.y, -3_000_000);
    assert_eq!(p.velocity.y, JUMP_FORCE);
    for _ in 0..4 {
        p.velocity.y -= 1_000_000;
        p.resolve_intent(&jump);
        assert_eq!(p.velocity.y, 8_000_000);
    }
}

#[test]
fn controls_use_the_rig_heading() {
    let mut players = vec![falling(0)];
    let cameras = vec![PlayerCamera { pitch: 0, yaw: 42 }];
    let r = player_controls(&mut players, &cameras, &keys(true, false, false, false, true));
    assert_eq!(
        r,
        Some(DesiredVelocity { heading: 42, velocity: Velocity { x: 0, y: 0, z: -WALK_SPEED } })
    );
    assert_eq!(players[0].velocity.y, JUMP_FORCE);
}

#[test]
fn controls_without_a_player_do_nothing() {
    let mut players: Vec<PlayerData> = vec![];
    let cameras = vec![PlayerCamera::new()];
    assert_eq!(player_controls(&mut players, &cameras, &keys(true, false, false, false, true)), None);
    assert!(players.is_empty());
    let mut players = vec![falling(3)];
    assert_eq!(player_controls(&mut players, &vec![], &keys(true, false, false, false, true)), None);
    assert_eq!(players, vec![falling(3)]);
}
