//! Movement intent: held keys turned into a desired velocity, and the jump.
use vstd::prelude::*;
use crate::orbit::PlayerCamera;

verus! {

/// Walking speed, 5 metres per second, in micrometres per second.
pub const WALK_SPEED: i64 = 5_000_000;

/// Each component of a diagonal walk: the walking speed divided by the square
/// root of two, rounded down.
pub const DIAGONAL_SPEED: i64 = 3_535_533;

/// Vertical velocity set by the jump key, 8 metres per second.
pub const JUMP_FORCE: i64 = 8_000_000;

/// The keys held during a frame.
#[derive(Clone, Copy, Debug, PartialEq, Eq, Structural)]
pub struct HeldKeys {
    pub forward: bool,
    pub back: bool,
    pub left: bool,
    pub right: bool,
    pub jump: bool,
}

/// A velocity in micrometres per second; y points up.
#[derive(Clone, Copy, Debug, PartialEq, Eq, Structural)]
pub struct Velocity {
    pub x: i64,
    pub y: i64,
    pub z: i64,
}

/// The player's simulation state.
#[derive(Clone, Copy, Debug, PartialEq, Eq, Structural)]
pub struct PlayerData {
    pub velocity: Velocity,
}

/// The velocity the player asks of the physics engine in a frame. Its x axis
/// points to the camera's right and its z axis backwards from the camera, both
/// level: it is turned by `heading` (the camera's yaw, in units of 1e-10
/// radian) about the up axis to give the world velocity.
#[derive(Clone, Copy, Debug, PartialEq, Eq, Structural)]
pub struct DesiredVelocity {
    pub heading: i64,
    pub velocity: Velocity,
}

/// +1 when only the positive key of a pair is held, -1 when only the negative
/// one is, 0 otherwise.
pub open spec fn axis(positive: bool, negative: bool) -> int {
    (if positive { 1int } else { 0int }) - (if negative { 1int } else { 0int })
}

/// The level velocity the keys ask for, as (right, backward) components: the
/// walking speed along the one axis asked for, or the diagonal speed on both.
pub open spec fn planar_intent(keys: HeldKeys) -> (int, int) {
    let r = axis(keys.right, keys.left);
    let f = axis(keys.forward, keys.back);
    if r == 0 && f == 0 {
        (0, 0)
    } else if r == 0 {
        (0, -f * WALK_SPEED)
    } else if f == 0 {
        (r * WALK_SPEED, 0)
    } else {
        (r * DIAGONAL_SPEED, -f * DIAGONAL_SPEED)
    }
}

/// The desired velocity of a frame: the keys' level velocity, and the vertical
/// velocity carried over from the state.
pub open spec fn desired(p: PlayerData, keys: HeldKeys) -> Velocity {
    Velocity {
        x: planar_intent(keys).0 as i64,
        y: p.velocity.y,
        z: planar_intent(keys).1 as i64,
    }
}

/// The state after a frame: the jump key sets the vertical velocity to the
/// jump force; nothing else changes.
pub open spec fn controls_step(p: PlayerData, keys: HeldKeys) -> PlayerData {
    PlayerData {
        velocity: Velocity {
            x: p.velocity.x,
            y: if keys.jump { JUMP_FORCE } else { p.velocity.y },
            z: p.velocity.z,
        },
    }
}

/// The state after the frames `ks`, one after the other.
pub open spec fn run_controls(p: PlayerData, ks: Seq<HeldKeys>) -> PlayerData
    decreases ks.len(),
{
    if ks.len() == 0 {
        p
    } else {
        controls_step(run_controls(p, ks.drop_last()), ks.last())
    }
}

fn key_axis(positive: bool, negative: bool) -> (r: i64)
    ensures
        r == axis(positive, negative),
{
    let mut a: i64 = 0;
    if positive {
        a = a + 1;
    }
    if negative {
        a = a - 1;
    }
    a
}

impl PlayerData {
    /// The state at spawn: at rest.
    pub fn new() -> (r: PlayerData)
        ensures
            r.velocity == (Velocity { x: 0, y: 0, z: 0 }),
    {
        PlayerData { velocity: Velocity { x: 0, y: 0, z: 0 } }
    }

    /// Resolves one frame of held keys: returns the desired velocity in the
    /// camera's level frame and applies the jump.
    pub fn resolve_intent(&mut self, keys: &HeldKeys) -> (r: Velocity)
        ensures
            r == desired(*old(self), *keys),
            *final(self) == controls_step(*old(self), *keys),
    {
        let r = key_axis(keys.right, keys.left);
        let f = key_axis(keys.forward, keys.back);
        let (x, z): (i64, i64) = if r == 0 && f == 0 {
            (0, 0)
        } else if r == 0 {
            (0, -f * WALK_SPEED)
        } else if f == 0 {
            (r * WALK_SPEED, 0)
        } else {
            (r * DIAGONAL_SPEED, -f * DIAGONAL_SPEED)
        };
        let desired = Velocity { x, y: self.velocity.y, z };
        if keys.jump {
            self.velocity.y = JUMP_FORCE;
        }
        desired
    }
}

/// Runs movement for one frame. With exactly one player and exactly one
/// camera rig, resolves the player's keys against the rig's heading; with none
/// or several of either, does nothing and returns `None`.
pub fn player_controls(
    players: &mut Vec<PlayerData>,
    cameras: &Vec<PlayerCamera>,
    keys: &HeldKeys,
) -> (r: Option<DesiredVelocity>)
    ensures
        r is Some <==> (old(players).len() == 1 && cameras.len() == 1),
        r is Some ==> r->0 == (DesiredVelocity {
            heading: cameras[0].yaw,
            velocity: desired(old(players)[0], *keys),
        }),
        r is Some ==> final(players)@ == seq![controls_step(old(players)[0], *keys)],
        r is None ==> final(players)@ == old(players)@,
{
    if cameras.len() != 1 || players.len() != 1 {
        return None;
    }
    let heading = cameras[0].yaw;
    let mut p = players[0];
    let velocity = p.resolve_intent(keys);
    players.set(0, p);
    proof {
        assert(players@ =~= seq![controls_step(old(players)[0], *keys)]);
    }
    Some(DesiredVelocity { heading, velocity })
}

/// Opposing keys held together cancel: forward with back leaves no forward
/// or backward motion, left with right no sideways motion, and both pairs
/// together no level motion at all.
pub proof fn lemma_opposing_keys_cancel(keys: HeldKeys)
    ensures
        keys.forward && keys.back ==> planar_intent(keys).1 == 0,
        keys.left && keys.right ==> planar_intent(keys).0 == 0,
        keys.forward && keys.back && keys.left && keys.right ==> planar_intent(keys) == (0int, 0int),
{
}

/// The level velocity asked for is zero when no direction remains after
/// cancelling, and has exactly the walking speed along a single axis. On a
/// diagonal its two components have equal size, each the largest integer
/// whose doubled square does not exceed the walking speed squared, so the
/// combined speed lies just under the walking speed.
pub proof fn lemma_intent_speed(keys: HeldKeys)
    ensures
        ({
            let (x, z) = planar_intent(keys);
            let r = axis(keys.right, keys.left);
            let f = axis(keys.forward, keys.back);
            &&& (r == 0 && f == 0) ==> x == 0 && z == 0
            &&& (r == 0) != (f == 0) ==> x * x + z * z == WALK_SPEED * WALK_SPEED
            &&& (r != 0 && f != 0) ==> {
                &&& x * x == DIAGONAL_SPEED * DIAGONAL_SPEED
                &&& z * z == DIAGONAL_SPEED * DIAGONAL_SPEED
                &&& x * x + z * z <= WALK_SPEED * WALK_SPEED
                    < (DIAGONAL_SPEED + 1) * (DIAGONAL_SPEED + 1) * 2
            }
        }),
{
    assert(2 * 3_535_533int * 3_535_533 <= 5_000_000int * 5_000_000 < 2 * 3_535_534int
        * 3_535_534) by (nonlinear_arith);
    let r = axis(keys.right, keys.left);
    let f = axis(keys.forward, keys.back);
    lemma_unit_square(r, WALK_SPEED as int);
    lemma_unit_square(-f, WALK_SPEED as int);
    lemma_unit_square(r, DIAGONAL_SPEED as int);
    lemma_unit_square(-f, DIAGONAL_SPEED as int);
}

proof fn lemma_unit_square(u: int, c: int)
    requires
        u == -1 || u == 0 || u == 1,
    ensures
        u != 0 ==> (u * c) * (u * c) == c * c,
        u == 0 ==> u * c == 0,
{
    assert(u != 0 ==> (u * c) * (u * c) == c * c) by (nonlinear_arith)
        requires u == -1 || u == 0 || u == 1;
}

/// Holding the jump key frame after frame sets the vertical velocity to the
/// jump force at the end of every one of those frames, never decayed.
pub proof fn lemma_jump_held(p: PlayerData, ks: Seq<HeldKeys>)
    requires
        forall|i: int| 0 <= i < ks.len() ==> ks[i].jump,
    ensures
        forall|n: int| 1 <= n <= ks.len() ==> run_controls(p, ks.take(n)).velocity.y == JUMP_FORCE,
{
    assert forall|n: int| 1 <= n <= ks.len() implies run_controls(p, ks.take(n)).velocity.y
        == JUMP_FORCE by {
        assert(ks.take(n).last() == ks[n - 1]);
    }
}

} // verus!
