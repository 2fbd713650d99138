//! The player entity: identity, spawn configuration and camera follow.
use vstd::prelude::*;
use crate::movement::{PlayerData, Velocity};
use crate::orbit::PlayerCamera;

verus! {

/// Which character the player is.
#[derive(Clone, Copy, Debug, PartialEq, Eq, Structural)]
pub enum CharacterName {
    One,
    Two,
    Three,
    Debug,
}

/// Marks the player entity and names its character.
#[derive(Clone, Copy, Debug, PartialEq, Eq, Structural)]
pub struct Player(pub CharacterName);

/// A point or a displacement in micrometres; y points up.
#[derive(Clone, Copy, Debug, PartialEq, Eq, Structural)]
pub struct Position {
    pub x: i64,
    pub y: i64,
    pub z: i64,
}

/// Step climbing: ledges up to `max_height` high and at least `min_width` wide
/// are climbed without a jump (both in micrometres).
#[derive(Clone, Copy, Debug, PartialEq, Eq, Structural)]
pub struct CharacterAutostep {
    pub max_height: i64,
    pub min_width: i64,
    pub include_dynamic_bodies: bool,
}

/// How the physics engine moves the player: a capsule from `feet` along
/// `height` with `radius`, kept `offset` off surfaces (lengths in micrometres);
/// slopes up to `max_slope_climb_angle` are walked up, and beyond
/// `min_slope_slide_angle` the player slides (angles in units of 1e-10 radian).
#[derive(Clone, Copy, Debug, PartialEq, Eq, Structural)]
pub struct KinematicActorConfig {
    pub feet: Position,
    pub height: Position,
    pub radius: i64,
    pub offset: i64,
    pub max_slope_climb_angle: i64,
    pub min_slope_slide_angle: i64,
    pub autostep: CharacterAutostep,
}

/// A quarter turn, pi/2 radian, in units of 1e-10 radian.
pub const QUARTER_TURN: i64 = 15707963268;

/// 45 degrees in units of 1e-10 radian.
pub const MAX_SLOPE_CLIMB: i64 = 7853981634;

/// 30 degrees in units of 1e-10 radian.
pub const MIN_SLOPE_SLIDE: i64 = 5235987756;

/// Player capsule height, 1.8 metres.
pub const PLAYER_HEIGHT: i64 = 1_800_000;

/// Player capsule radius, 0.5 metre.
pub const PLAYER_RADIUS: i64 = 500_000;

/// Skin offset, 1 centimetre.
pub const SKIN_OFFSET: i64 = 10_000;

/// Highest ledge climbed without a jump, 0.5 metre.
pub const STEP_CLIMB_HEIGHT: i64 = 500_000;

/// Narrowest ledge climbed without a jump, 0.2 metre.
pub const STEP_CLIMB_WIDTH: i64 = 200_000;

/// Height of the camera above its rig, 2 metres.
pub const CAMERA_OFFSET_Y: i64 = 2_000_000;

/// Distance of the camera behind its rig, 10 metres.
pub const CAMERA_OFFSET_Z: i64 = 10_000_000;

impl KinematicActorConfig {
    /// A capsule that stands upright with a positive size, a positive skin
    /// offset, slope limits within a quarter turn where the slide angle lies
    /// below the climb angle, and a ledge of positive size.
    pub open spec fn well_formed(&self) -> bool {
        &&& self.height.x == 0 && self.height.z == 0 && self.height.y > 0
        &&& self.radius > 0
        &&& self.offset > 0
        &&& 0 < self.min_slope_slide_angle < self.max_slope_climb_angle < QUARTER_TURN
        &&& self.autostep.max_height > 0
        &&& self.autostep.min_width > 0
    }
}

/// Everything the player and its camera rig start with.
#[derive(Clone, Copy, Debug, PartialEq, Eq, Structural)]
pub struct PlayerSpawn {
    pub player: Player,
    pub physics: PlayerData,
    pub position: Position,
    pub actor: KinematicActorConfig,
    pub camera: PlayerCamera,
    pub camera_position: Position,
    pub camera_offset: Position,
}

/// The player and camera rig at spawn: the debug character at rest at the
/// origin, moved by a capsule 1.8 m tall and 0.5 m in radius, with a 1 cm skin,
/// a 45 degree climb limit, a 30 degree slide limit and steps of up to 0.5 m
/// high and at least 0.2 m wide, dynamic bodies included; the rig at the
/// origin looking along -Z, the camera 2 m above and 10 m behind it.
pub fn spawn_player() -> (r: PlayerSpawn)
    ensures
        r.player == Player(CharacterName::Debug),
        r.physics.velocity == (Velocity { x: 0, y: 0, z: 0 }),
        r.position == (Position { x: 0, y: 0, z: 0 }),
        r.actor == (KinematicActorConfig {
            feet: Position { x: 0, y: 0, z: 0 },
            height: Position { x: 0, y: PLAYER_HEIGHT, z: 0 },
            radius: PLAYER_RADIUS,
            offset: SKIN_OFFSET,
            max_slope_climb_angle: MAX_SLOPE_CLIMB,
            min_slope_slide_angle: MIN_SLOPE_SLIDE,
            autostep: CharacterAutostep {
                max_height: STEP_CLIMB_HEIGHT,
                min_width: STEP_CLIMB_WIDTH,
                include_dynamic_bodies: true,
            },
        }),
        r.actor.well_formed(),
        r.camera == (PlayerCamera { pitch: 0, yaw: 0 }),
        r.camera.well_formed(),
        r.camera_position == (Position { x: 0, y: 0, z: 0 }),
        r.camera_offset == (Position { x: 0, y: CAMERA_OFFSET_Y, z: CAMERA_OFFSET_Z }),
{
    let origin = Position { x: 0, y: 0, z: 0 };
    PlayerSpawn {
        player: Player(CharacterName::Debug),
        physics: PlayerData::new(),
        position: origin,
        actor: KinematicActorConfig {
            feet: origin,
            height: Position { x: 0, y: PLAYER_HEIGHT, z: 0 },
            radius: PLAYER_RADIUS,
            offset: SKIN_OFFSET,
            max_slope_climb_angle: MAX_SLOPE_CLIMB,
            min_slope_slide_angle: MIN_SLOPE_SLIDE,
            autostep: CharacterAutostep {
                max_height: STEP_CLIMB_HEIGHT,
                min_width: STEP_CLIMB_WIDTH,
                include_dynamic_bodies: true,
            },
        },
        camera: PlayerCamera::new(),
        camera_position: origin,
        camera_offset: Position { x: 0, y: CAMERA_OFFSET_Y, z: CAMERA_OFFSET_Z },
    }
}

/// Moves the camera rig onto the player for one frame. With exactly one player
/// and exactly one rig, the rig's position becomes the player's, exactly;
/// with none or several of either, nothing changes. Returns whether it moved.
pub fn camera_follow(players: &Vec<Position>, cameras: &mut Vec<Position>) -> (r: bool)
    ensures
        r == (players.len() == 1 && old(cameras).len() == 1),
        r ==> final(cameras)@ == seq![players[0]],
        !r ==> final(cameras)@ == old(cameras)@,
{
    if players.len() != 1 || cameras.len() != 1 {
        return false;
    }
    cameras.set(0, players[0]);
    proof {
        assert(cameras@ =~= seq![players[0]]);
    }
    true
}

} // verus!
