//! Orbit camera: mouse motion accumulated into yaw and pitch.
use vstd::prelude::*;

verus! {

/// Largest pitch magnitude, pi/2 - 0.1 radian, in units of 1e-10 radian.
pub const MAX_PITCH: i64 = 14707963268;

/// Turn rate: 0.3 radian per pixel of mouse motion per second, which is 3 angle
/// units per thousandth of a pixel per microsecond.
pub const ROTATION_SPEED: i64 = 3;

/// One mouse-motion sample, in thousandths of a pixel.
#[derive(Clone, Copy, Debug, PartialEq, Eq, Structural)]
pub struct MouseDelta {
    pub x: i32,
    pub y: i32,
}

/// Orbit state of the camera rig, angles in units of 1e-10 radian.
#[derive(Clone, Copy, Debug, PartialEq, Eq, Structural)]
pub struct PlayerCamera {
    pub pitch: i64,
    pub yaw: i64,
}

pub open spec fn clamp(v: int, lo: int, hi: int) -> int {
    if v < lo {
        lo
    } else if v > hi {
        hi
    } else {
        v
    }
}

/// Sum of the horizontal components of the samples.
pub open spec fn sum_x(s: Seq<MouseDelta>) -> int
    decreases s.len(),
{
    if s.len() == 0 {
        0
    } else {
        sum_x(s.drop_last()) + s.last().x
    }
}

/// Sum of the vertical components of the samples.
pub open spec fn sum_y(s: Seq<MouseDelta>) -> int
    decreases s.len(),
{
    if s.len() == 0 {
        0
    } else {
        sum_y(s.drop_last()) + s.last().y
    }
}

/// The angle that a mouse motion of `amount` turns the camera in a frame of
/// `dt_us` microseconds.
pub open spec fn turn(amount: int, dt_us: u32) -> int {
    ROTATION_SPEED * (dt_us * amount)
}

pub open spec fn fits_i64(v: int) -> bool {
    i64::MIN <= v <= i64::MAX
}

/// The orbit state after one frame of mouse samples: yaw decreases by the
/// horizontal turn, pitch by the vertical turn, held within the pitch limit.
pub open spec fn orbit_step(c: PlayerCamera, s: Seq<MouseDelta>, dt_us: u32) -> PlayerCamera {
    PlayerCamera {
        yaw: (c.yaw - turn(sum_x(s), dt_us)) as i64,
        pitch: clamp(c.pitch - turn(sum_y(s), dt_us), -MAX_PITCH, MAX_PITCH as int) as i64,
    }
}

/// Whether the yaw after this frame still fits the state's integer type.
pub open spec fn yaw_step_fits(c: PlayerCamera, s: Seq<MouseDelta>, dt_us: u32) -> bool {
    fits_i64(c.yaw - turn(sum_x(s), dt_us))
}

/// What a frame does to the state: the pitch always follows `orbit_step`; the
/// yaw follows it where the new yaw fits a 64-bit angle, and stays otherwise.
pub open spec fn orbit_frame(c: PlayerCamera, s: Seq<MouseDelta>, dt_us: u32) -> PlayerCamera {
    PlayerCamera {
        yaw: if yaw_step_fits(c, s, dt_us) {
            orbit_step(c, s, dt_us).yaw
        } else {
            c.yaw
        },
        pitch: orbit_step(c, s, dt_us).pitch,
    }
}


/// A bound on one summed component beyond which a nonzero frame time turns
/// further than any two 64-bit angles apart.
const SUM_LIMIT: i128 = 0x4_0000_0000_0000_0000;

/// The exact sums of both components of the samples.
fn sum_deltas(s: &Vec<MouseDelta>) -> (r: (i128, i128))
    ensures
        r.0 == sum_x(s@),
        r.1 == sum_y(s@),
{
    let mut sx: i128 = 0;
    let mut sy: i128 = 0;
    let mut i: usize = 0;
    while i < s.len()
        invariant
            i <= s.len(),
            sx == sum_x(s@.take(i as int)),
            sy == sum_y(s@.take(i as int)),
            -(i as int) * 0x8000_0000 <= sx <= (i as int) * 0x8000_0000,
            -(i as int) * 0x8000_0000 <= sy <= (i as int) * 0x8000_0000,
        decreases s.len() - i,
    {
        let d = s[i];
        proof {
            assert(s@.take(i + 1).drop_last() =~= s@.take(i as int));
        }
        sx = sx + d.x as i128;
        sy = sy + d.y as i128;
        i = i + 1;
    }
    proof {
        assert(s@.take(i as int) =~= s@);
    }
    (sx, sy)
}

proof fn lemma_turn_grows(amount: int, dt_us: u32)
    requires
        dt_us >= 1,
    ensures
        amount >= 0 ==> turn(amount, dt_us) >= ROTATION_SPEED * amount,
        amount <= 0 ==> turn(amount, dt_us) <= ROTATION_SPEED * amount,
{
    assert(amount >= 0 ==> dt_us * amount >= amount) by (nonlinear_arith)
        requires dt_us >= 1;
    assert(amount <= 0 ==> dt_us * amount <= amount) by (nonlinear_arith)
        requires dt_us >= 1;
}

proof fn lemma_turn_small(amount: int, dt_us: u32)
    requires
        -SUM_LIMIT < amount < SUM_LIMIT,
    ensures
        -ROTATION_SPEED * 0x1_0000_0000 * SUM_LIMIT <= turn(amount, dt_us)
            <= ROTATION_SPEED * 0x1_0000_0000 * SUM_LIMIT,
{
    let d: int = dt_us as int;
    assert(0 <= d < 0x1_0000_0000);
    assert(-0x1_0000_0000 * SUM_LIMIT <= d * amount <= 0x1_0000_0000 * SUM_LIMIT)
        by (nonlinear_arith)
        requires
            0 <= d < 0x1_0000_0000,
            -SUM_LIMIT < amount < SUM_LIMIT,
    ;
}

proof fn lemma_no_time_no_turn(amount: int, dt_us: u32)
    requires
        dt_us == 0,
    ensures
        turn(amount, dt_us) == 0,
{
    assert(dt_us * amount == 0) by (nonlinear_arith)
        requires dt_us == 0;
}

/// The turn of a frame, exactly, where it stays within a bound.
fn frame_turn(amount: i128, dt_us: u32) -> (r: i128)
    requires
        -SUM_LIMIT < amount < SUM_LIMIT,
    ensures
        r == turn(amount as int, dt_us),
        -0x10_0000_0000_0000_0000_0000_0000 <= r <= 0x10_0000_0000_0000_0000_0000_0000,
{
    let d: i128 = dt_us as i128;
    proof {
        lemma_turn_small(amount as int, dt_us);
        assert(-0x1_0000_0000 * SUM_LIMIT <= d * amount <= 0x1_0000_0000 * SUM_LIMIT)
            by (nonlinear_arith)
            requires
                0 <= d < 0x1_0000_0000,
                -SUM_LIMIT < amount < SUM_LIMIT,
        ;
    }
    let m: i128 = d * amount;
    ROTATION_SPEED as i128 * m
}

impl PlayerCamera {
    pub open spec fn well_formed(&self) -> bool {
        -MAX_PITCH <= self.pitch <= MAX_PITCH
    }

    /// The camera at spawn: looking straight ahead along -Z.
    pub fn new() -> (r: PlayerCamera)
        ensures
            r.pitch == 0,
            r.yaw == 0,
            r.well_formed(),
    {
        PlayerCamera { pitch: 0, yaw: 0 }
    }

    pub fn pitch(&self) -> (r: i64)
        ensures
            r == self.pitch,
    {
        self.pitch
    }

    pub fn yaw(&self) -> (r: i64)
        ensures
            r == self.yaw,
    {
        self.yaw
    }

    /// Applies one frame of mouse samples. The pitch is always updated and
    /// held within the limit; the yaw is updated unless the new yaw would not
    /// fit a 64-bit angle, in which case it stays and false is returned.
    pub fn apply_mouse(&mut self, samples: &Vec<MouseDelta>, dt_us: u32) -> (r: bool)
        ensures
            r == yaw_step_fits(*old(self), samples@, dt_us),
            *final(self) == orbit_frame(*old(self), samples@, dt_us),
            final(self).pitch == orbit_step(*old(self), samples@, dt_us).pitch,
            r ==> *final(self) == orbit_step(*old(self), samples@, dt_us),
            !r ==> final(self).yaw == old(self).yaw,
            final(self).well_formed(),
    {
        let (sx, sy) = sum_deltas(samples);
        if dt_us == 0 {
            proof {
                lemma_no_time_no_turn(sx as int, dt_us);
                lemma_no_time_no_turn(sy as int, dt_us);
            }
        }
        let new_pitch: i64;
        if dt_us != 0 && sy >= SUM_LIMIT {
            proof {
                lemma_turn_grows(sy as int, dt_us);
            }
            new_pitch = -MAX_PITCH;
        } else if dt_us != 0 && sy <= -SUM_LIMIT {
            proof {
                lemma_turn_grows(sy as int, dt_us);
            }
            new_pitch = MAX_PITCH;
        } else {
            let pitch_turn: i128 = if dt_us == 0 {
                0
            } else {
                frame_turn(sy, dt_us)
            };
            let p: i128 = self.pitch as i128 - pitch_turn;
            if p < -MAX_PITCH as i128 {
                new_pitch = -MAX_PITCH;
            } else if p > MAX_PITCH as i128 {
                new_pitch = MAX_PITCH;
            } else {
                new_pitch = p as i64;
            }
        }
        self.pitch = new_pitch;
        if dt_us != 0 && (sx >= SUM_LIMIT || sx <= -SUM_LIMIT) {
            proof {
                lemma_turn_grows(sx as int, dt_us);
            }
            return false;
        }
        let yaw_turn: i128 = if dt_us == 0 {
            0
        } else {
            frame_turn(sx, dt_us)
        };
        let new_yaw: i128 = self.yaw as i128 - yaw_turn;
        if new_yaw < i64::MIN as i128 || new_yaw > i64::MAX as i128 {
            return false;
        }
        self.yaw = new_yaw as i64;
        true
    }
}

/// Runs the orbit camera for one frame. With exactly one camera rig the
/// frame's samples are applied to it: its pitch always, its yaw where the new
/// yaw fits a 64-bit angle. With none or several rigs nothing changes.
/// Returns whether the rig's yaw was updated.
pub fn camera_update(
    cameras: &mut Vec<PlayerCamera>,
    samples: &Vec<MouseDelta>,
    dt_us: u32,
) -> (r: bool)
    ensures
        r == (old(cameras).len() == 1 && yaw_step_fits(old(cameras)[0], samples@, dt_us)),
        old(cameras).len() == 1 ==> final(cameras)@ == seq![
            orbit_frame(old(cameras)[0], samples@, dt_us),
        ],
        old(cameras).len() == 1 ==> final(cameras)[0].pitch == orbit_step(
            old(cameras)[0],
            samples@,
            dt_us,
        ).pitch,
        r ==> final(cameras)@ == seq![orbit_step(old(cameras)[0], samples@, dt_us)],
        old(cameras).len() != 1 ==> final(cameras)@ == old(cameras)@,
{
    if cameras.len() != 1 {
        return false;
    }
    let mut c = cameras[0];
    let ok = c.apply_mouse(samples, dt_us);
    cameras.set(0, c);
    proof {
        assert(cameras@ =~= seq![orbit_frame(old(cameras)[0], samples@, dt_us)]);
    }
    ok
}

proof fn lemma_still_sums(s: Seq<MouseDelta>)
    requires
        forall|i: int| 0 <= i < s.len() ==> s[i].x == 0 && s[i].y == 0,
    ensures
        sum_x(s) == 0,
        sum_y(s) == 0,
    decreases s.len(),
{
    if s.len() > 0 {
        lemma_still_sums(s.drop_last());
    }
}

/// A frame without mouse motion leaves a well-formed orbit state unchanged,
/// whatever the frame time.
pub proof fn lemma_still_mouse_keeps_orbit(c: PlayerCamera, samples: Seq<MouseDelta>, dt_us: u32)
    requires
        c.well_formed(),
        forall|i: int| 0 <= i < samples.len() ==> samples[i].x == 0 && samples[i].y == 0,
    ensures
        yaw_step_fits(c, samples, dt_us),
        orbit_step(c, samples, dt_us) == c,
{
    lemma_still_sums(samples);
    assert(dt_us * 0 == 0);
}

/// Whatever the mouse motion and the starting state, the pitch after a frame
/// lies within the pitch limit.
pub proof fn lemma_pitch_stays_limited(c: PlayerCamera, samples: Seq<MouseDelta>, dt_us: u32)
    ensures
        orbit_step(c, samples, dt_us).well_formed(),
{
}

} // verus!
