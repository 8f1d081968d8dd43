//! The movement statistic: speed classes and running mean speed, height
//! classes, and the distance travelled.
use crate::boost::count;
use crate::constants::{BOOST_SPEED, CAR_HEIGHT_ON_GROUND, GOAL_HEIGHT, SUPERSONIC_SPEED};
use crate::payload::{lookup, PlayerFrame, PlayerFrameData};
use crate::player::PlayerId;
use crate::rigid_body::Vector3;
use vstd::prelude::*;

verus! {

/// The largest natural number whose square is at most `n`.
pub open spec fn floor_sqrt(n: nat) -> nat
    decreases n,
{
    if n == 0 {
        0
    } else {
        let r = floor_sqrt((n - 1) as nat);
        if (r + 1) * (r + 1) <= n {
            r + 1
        } else {
            r
        }
    }
}

/// `r` squared is at most `n`, and `r + 1` squared exceeds it.
pub open spec fn is_floor_sqrt(n: int, r: int) -> bool {
    r * r <= n && n < (r + 1) * (r + 1)
}

pub proof fn lemma_floor_sqrt_bounds(n: nat)
    ensures
        is_floor_sqrt(n as int, floor_sqrt(n) as int),
    decreases n,
{
    if n > 0 {
        lemma_floor_sqrt_bounds((n - 1) as nat);
        let r = floor_sqrt((n - 1) as nat) as int;
        let s = floor_sqrt(n) as int;
        let m = n as int;
        if (r + 1) * (r + 1) <= m {
            assert(s == r + 1);
            assert(s * s <= m && m < (s + 1) * (s + 1)) by (nonlinear_arith)
                requires
                    m - 1 < (r + 1) * (r + 1),
                    (r + 1) * (r + 1) <= m,
                    s == r + 1,
                    0 <= r,
            ;
        } else {
            assert(s == r);
        }
    }
}

/// Only the floor square root lies between the two squares.
pub proof fn lemma_floor_sqrt_unique(n: nat, r: nat)
    requires
        is_floor_sqrt(n as int, r as int),
    ensures
        r == floor_sqrt(n),
{
    lemma_floor_sqrt_bounds(n);
    let s = floor_sqrt(n) as int;
    let q = r as int;
    let m = n as int;
    if q < s {
        assert((q + 1) * (q + 1) <= s * s) by (nonlinear_arith)
            requires
                q + 1 <= s,
                0 <= q,
        ;
    } else if s < q {
        assert((s + 1) * (s + 1) <= q * q) by (nonlinear_arith)
            requires
                s + 1 <= q,
                0 <= s,
        ;
    }
}

/// Squared Euclidean norm of a velocity.
pub open spec fn speed_squared(v: Vector3) -> nat {
    (v.x * v.x + v.y * v.y + v.z * v.z) as nat
}

/// Speed of a velocity, rounded down to a whole hundredth of a unit per second.
pub open spec fn speed_of(v: Vector3) -> nat {
    floor_sqrt(speed_squared(v))
}

/// Floor of the square root of `n`.
fn isqrt(n: u64) -> (r: u64)
    ensures
        r == floor_sqrt(n as nat),
        r < 0x1_0000_0000,
{
    let mut lo: u64 = 0;
    let mut hi: u64 = 0x1_0000_0000;
    assert(n < hi * hi) by (nonlinear_arith)
        requires
            hi == 0x1_0000_0000,
            n < 0x1_0000_0000_0000_0000,
    ;
    while hi - lo > 1
        invariant
            lo < hi <= 0x1_0000_0000,
            lo * lo <= n < hi * hi,
        decreases hi - lo,
    {
        let mid = lo + (hi - lo) / 2;
        assert(mid * mid <= 0x1_0000_0000_0000_0000) by (nonlinear_arith)
            requires
                mid <= 0x1_0000_0000,
        ;
        if (mid as u128) * (mid as u128) <= n as u128 {
            lo = mid;
        } else {
            hi = mid;
        }
    }
    proof {
        lemma_floor_sqrt_unique(n as nat, lo as nat);
    }
    lo
}

/// Squared Euclidean norm of a velocity, exactly.
fn norm_squared(v: &Vector3) -> (r: u64)
    ensures
        r == speed_squared(*v),
{
    let ax = if v.x < 0 { -(v.x as i64) } else { v.x as i64 } as u64;
    let ay = if v.y < 0 { -(v.y as i64) } else { v.y as i64 } as u64;
    let az = if v.z < 0 { -(v.z as i64) } else { v.z as i64 } as u64;
    assert(ax * ax <= 0x4000_0000_0000_0000) by (nonlinear_arith)
        requires
            ax <= 0x8000_0000,
    ;
    assert(ay * ay <= 0x4000_0000_0000_0000) by (nonlinear_arith)
        requires
            ay <= 0x8000_0000,
    ;
    assert(az * az <= 0x4000_0000_0000_0000) by (nonlinear_arith)
        requires
            az <= 0x8000_0000,
    ;
    assert(ax * ax == v.x * v.x && ay * ay == v.y * v.y && az * az == v.z * v.z) by (nonlinear_arith)
        requires
            ax == v.x || ax == -v.x,
            ay == v.y || ay == -v.y,
            az == v.z || az == -v.z,
    ;
    ax * ax + ay * ay + az * az
}

/// Absolute difference of two coordinates.
pub open spec fn abs_diff(a: i32, b: i32) -> int {
    if a >= b {
        a - b
    } else {
        b - a
    }
}

/// Manhattan distance between two points.
pub open spec fn manhattan(a: Vector3, b: Vector3) -> int {
    abs_diff(a.x, b.x) + abs_diff(a.y, b.y) + abs_diff(a.z, b.z)
}

/// Movement statistics of one player. Speeds are hundredths of a unit per
/// second, distances hundredths of a unit.
#[derive(Clone, Copy, Debug, PartialEq, Eq, Structural)]
pub struct Movement {
    /// Mean of the speed samples so far, rounded down.
    pub average_speed: u64,
    pub distance_traveled: u128,
    pub frames_super_sonic: u32,
    pub frames_boost_speed: u32,
    pub frames_slow_speed: u32,
    pub frames_on_ground: u32,
    pub frames_low_air: u32,
    pub frames_high_air: u32,
    pub frames_boost_while_super_sonic: u32,
    /// Number of speed samples.
    pub frames_count: u32,
    /// Sum of the speed samples.
    pub speed_total: u64,
    /// Location of the last frame that counted.
    pub previous_location: Option<Vector3>,
}

/// Largest Manhattan step between two locations.
pub open spec fn max_step() -> int {
    3 * 0x1_0000_0000int
}

impl Movement {
    pub open spec fn initial() -> Movement {
        Movement {
            average_speed: 0,
            distance_traveled: 0,
            frames_super_sonic: 0,
            frames_boost_speed: 0,
            frames_slow_speed: 0,
            frames_on_ground: 0,
            frames_low_air: 0,
            frames_high_air: 0,
            frames_boost_while_super_sonic: 0,
            frames_count: 0,
            speed_total: 0,
            previous_location: None,
        }
    }

    /// The sums stay within what the counted frames can add up to.
    pub open spec fn wf(self) -> bool {
        &&& self.speed_total <= self.frames_count * 0xffff_ffff
        &&& self.distance_traveled <= (self.frames_on_ground + self.frames_low_air
            + self.frames_high_air) * max_step()
    }

    /// Every frame counter is at most `n`.
    pub open spec fn bounded_by(self, n: int) -> bool {
        &&& self.frames_super_sonic <= n
        &&& self.frames_boost_speed <= n
        &&& self.frames_slow_speed <= n
        &&& self.frames_on_ground <= n
        &&& self.frames_low_air <= n
        &&& self.frames_high_air <= n
        &&& self.frames_boost_while_super_sonic <= n
        &&& self.frames_count <= n
    }

    /// One speed sample of velocity `v`, with the boost flag of its frame.
    pub open spec fn with_speed(self, v: Vector3, boost_active: bool) -> Movement {
        let sq = speed_squared(v);
        let supersonic = sq >= SUPERSONIC_SPEED * SUPERSONIC_SPEED;
        let boosted = BOOST_SPEED * BOOST_SPEED <= sq && !supersonic;
        let total = self.speed_total + speed_of(v);
        let n = self.frames_count + 1;
        Movement {
            frames_super_sonic: (self.frames_super_sonic + count(supersonic)) as u32,
            frames_boost_while_super_sonic: (self.frames_boost_while_super_sonic + count(
                supersonic && boost_active,
            )) as u32,
            frames_boost_speed: (self.frames_boost_speed + count(boosted)) as u32,
            frames_slow_speed: (self.frames_slow_speed + count(sq < BOOST_SPEED * BOOST_SPEED)) as u32,
            speed_total: total as u64,
            frames_count: n as u32,
            average_speed: (total / n) as u64,
            ..self
        }
    }

    /// One height sample.
    pub open spec fn with_height(self, z: i32) -> Movement {
        Movement {
            frames_on_ground: (self.frames_on_ground + count(z <= CAR_HEIGHT_ON_GROUND)) as u32,
            frames_low_air: (self.frames_low_air + count(CAR_HEIGHT_ON_GROUND < z <= GOAL_HEIGHT)) as u32,
            frames_high_air: (self.frames_high_air + count(z > GOAL_HEIGHT)) as u32,
            ..self
        }
    }

    /// One location sample: the step from the previous counted location, if any.
    pub open spec fn with_location(self, p: Vector3) -> Movement {
        Movement {
            distance_traveled: (self.distance_traveled + match self.previous_location {
                Some(q) => manhattan(p, q),
                None => 0,
            }) as u128,
            previous_location: Some(p),
            ..self
        }
    }

    /// The statistics after one frame with snapshot `f`. A frame without a
    /// rigid body, or with a sleeping one, changes nothing; a frame without a
    /// velocity counts height and distance but gives no speed sample.
    pub open spec fn step(self, f: PlayerFrame) -> Movement {
        match f.rigid_body {
            None => self,
            Some(rb) => if rb.sleeping {
                self
            } else {
                let m = match rb.linear_velocity {
                    Some(v) => self.with_speed(v, f.boost_active),
                    None => self,
                };
                m.with_height(rb.location.z).with_location(rb.location)
            },
        }
    }

    pub fn new() -> (r: Movement)
        ensures
            r == Movement::initial(),
    {
        Movement {
            average_speed: 0,
            distance_traveled: 0,
            frames_super_sonic: 0,
            frames_boost_speed: 0,
            frames_slow_speed: 0,
            frames_on_ground: 0,
            frames_low_air: 0,
            frames_high_air: 0,
            frames_boost_while_super_sonic: 0,
            frames_count: 0,
            speed_total: 0,
            previous_location: None,
        }
    }

    /// Speed of a velocity, rounded down.
    pub fn calculate_speed(&self, lin_vel: &Vector3) -> (r: u64)
        ensures
            r == speed_of(*lin_vel),
            r < 0x1_0000_0000,
    {
        isqrt(norm_squared(lin_vel))
    }

    fn update_speed_stats(&mut self, lin_vel: &Vector3, boost_active: bool)
        requires
            old(self).wf(),
            old(self).bounded_by(u32::MAX - 1),
        ensures
            *final(self) == old(self).with_speed(*lin_vel, boost_active),
            final(self).wf(),
    {
        let sq = norm_squared(lin_vel);
        let speed = isqrt(sq);
        if sq >= SUPERSONIC_SPEED * SUPERSONIC_SPEED {
            self.frames_super_sonic = self.frames_super_sonic + 1;
            if boost_active {
                self.frames_boost_while_super_sonic = self.frames_boost_while_super_sonic + 1;
            }
        } else if sq >= BOOST_SPEED * BOOST_SPEED {
            self.frames_boost_speed = self.frames_boost_speed + 1;
        } else {
            self.frames_slow_speed = self.frames_slow_speed + 1;
        }
        assert(self.speed_total + speed <= (self.frames_count + 1) * 0xffff_ffff) by (nonlinear_arith)
            requires
                self.speed_total <= self.frames_count * 0xffff_ffff,
                speed <= 0xffff_ffff,
        ;
        assert((self.frames_count + 1) * 0xffff_ffff <= 0xffff_ffff * 0xffff_ffff) by (nonlinear_arith)
            requires
                self.frames_count + 1 <= 0xffff_ffff,
        ;
        self.speed_total = self.speed_total + speed;
        self.frames_count = self.frames_count + 1;
        self.average_speed = self.speed_total / self.frames_count as u64;
    }

    fn update_height_stats(&mut self, location_z: i32)
        requires
            old(self).frames_on_ground < u32::MAX,
            old(self).frames_low_air < u32::MAX,
            old(self).frames_high_air < u32::MAX,
        ensures
            *final(self) == old(self).with_height(location_z),
            final(self).frames_on_ground + final(self).frames_low_air + final(self).frames_high_air
                == old(self).frames_on_ground + old(self).frames_low_air + old(self).frames_high_air + 1,
    {
        if location_z as i64 <= CAR_HEIGHT_ON_GROUND {
            self.frames_on_ground = self.frames_on_ground + 1;
        } else if location_z as i64 <= GOAL_HEIGHT {
            self.frames_low_air = self.frames_low_air + 1;
        } else {
            self.frames_high_air = self.frames_high_air + 1;
        }
    }

    fn update_distance_stats(&mut self, location: &Vector3)
        requires
            old(self).distance_traveled + max_step() <= u128::MAX,
        ensures
            *final(self) == old(self).with_location(*location),
    {
        match self.previous_location {
            Some(previous) => {
                let step = abs_delta(location.x, previous.x) + abs_delta(location.y, previous.y)
                    + abs_delta(location.z, previous.z);
                self.distance_traveled = self.distance_traveled + step as u128;
            },
            None => {},
        }
        self.previous_location = Some(*location);
    }

    /// Counts the frame of `player_id` in `frames`; nothing changes when the
    /// frame holds no snapshot of the player.
    pub fn update(&mut self, frames: &PlayerFrameData, player_id: &PlayerId)
        requires
            old(self).wf(),
            old(self).bounded_by(u32::MAX - 1),
        ensures
            *final(self) == match lookup(frames@, *player_id) {
                Some(f) => old(self).step(f),
                None => *old(self),
            },
            final(self).wf(),
    {
        match frames.get(player_id) {
            Some(player_frame) => self.update_frame(&player_frame),
            None => {},
        }
    }

    /// Counts one snapshot of the player.
    pub fn update_frame(&mut self, player_frame: &PlayerFrame)
        requires
            old(self).wf(),
            old(self).bounded_by(u32::MAX - 1),
        ensures
            *final(self) == old(self).step(*player_frame),
            final(self).wf(),
    {
        match player_frame.rigid_body {
            Some(rb) => {
                if !rb.sleeping {
                    match rb.linear_velocity {
                        Some(v) => self.update_speed_stats(&v, player_frame.boost_active),
                        None => {},
                    }
                    self.update_height_stats(rb.location.z);
                    let ghost n = self.frames_on_ground + self.frames_low_air + self.frames_high_air;
                    assert(self.distance_traveled + max_step() <= n * max_step()) by (nonlinear_arith)
                        requires
                            self.distance_traveled <= (n - 1) * max_step(),
                            n >= 1,
                    ;
                    assert(n * max_step() <= 3 * 0xffff_ffff * max_step()) by (nonlinear_arith)
                        requires
                            n <= 3 * 0xffff_ffff,
                    ;
                    self.update_distance_stats(&rb.location);
                }
            },
            None => {},
        }
    }
}

/// Absolute difference of two coordinates.
fn abs_delta(a: i32, b: i32) -> (r: u64)
    ensures
        r == abs_diff(a, b),
        r < 0x1_0000_0000,
{
    if a >= b {
        (a as i64 - b as i64) as u64
    } else {
        (b as i64 - a as i64) as u64
    }
}

/// A speed sample never reaches 2^32.
pub proof fn lemma_speed_of_bound(v: Vector3)
    ensures
        speed_of(v) < 0x1_0000_0000,
{
    let x = v.x as int;
    let y = v.y as int;
    let z = v.z as int;
    assert(0 <= x * x <= 0x4000_0000_0000_0000 && 0 <= y * y <= 0x4000_0000_0000_0000 && 0 <= z
        * z <= 0x4000_0000_0000_0000) by (nonlinear_arith)
        requires
            -0x8000_0000 <= x <= 0x8000_0000,
            -0x8000_0000 <= y <= 0x8000_0000,
            -0x8000_0000 <= z <= 0x8000_0000,
    ;
    let n = speed_squared(v);
    lemma_floor_sqrt_bounds(n);
    let r = floor_sqrt(n) as int;
    assert(n == x * x + y * y + z * z);
    assert(r * r <= n);
    if r >= 0x1_0000_0000 {
        assert(r * r >= 0x1_0000_0000 * 0x1_0000_0000) by (nonlinear_arith)
            requires
                r >= 0x1_0000_0000,
        ;
    }
}

/// The frame gives a speed sample: its rigid body is present, awake, and has a velocity.
pub open spec fn gives_speed_sample(f: PlayerFrame) -> bool {
    f.rigid_body matches Some(rb) && !rb.sleeping && rb.linear_velocity is Some
}

/// The frame's speed sample, zero if it gives none.
pub open spec fn speed_sample(f: PlayerFrame) -> int {
    if gives_speed_sample(f) {
        speed_of(f.rigid_body.unwrap().linear_velocity.unwrap()) as int
    } else {
        0
    }
}

/// Number of frames of `frames` that give a speed sample.
pub open spec fn sample_count(frames: Seq<PlayerFrame>) -> int
    decreases frames.len(),
{
    if frames.len() == 0 {
        0
    } else {
        sample_count(frames.drop_last()) + count(gives_speed_sample(frames.last()))
    }
}

/// Sum of the speed samples of `frames`.
pub open spec fn sample_sum(frames: Seq<PlayerFrame>) -> int
    decreases frames.len(),
{
    if frames.len() == 0 {
        0
    } else {
        sample_sum(frames.drop_last()) + speed_sample(frames.last())
    }
}

/// The statistics after the snapshots of `frames`, counted from the initial state.
pub open spec fn movement_over(frames: Seq<PlayerFrame>) -> Movement
    decreases frames.len(),
{
    if frames.len() == 0 {
        Movement::initial()
    } else {
        movement_over(frames.drop_last()).step(frames.last())
    }
}

/// After any frames, the running average speed is the mean of the speed
/// samples of the frames that gave one (rounded down): frames without a rigid
/// body, with a sleeping one or without a velocity are not counted.
pub proof fn lemma_average_speed_is_mean(frames: Seq<PlayerFrame>)
    requires
        frames.len() <= u32::MAX,
    ensures
        ({
            let m = movement_over(frames);
            &&& m.frames_count == sample_count(frames)
            &&& m.speed_total == sample_sum(frames)
            &&& sample_count(frames) > 0 ==> m.average_speed == sample_sum(frames) / sample_count(
                frames,
            )
        }),
    decreases frames.len(),
{
    lemma_samples_bounded(frames);
    if frames.len() > 0 {
        let rest = frames.drop_last();
        lemma_average_speed_is_mean(rest);
        lemma_samples_bounded(rest);
        let f = frames.last();
        if gives_speed_sample(f) {
            lemma_speed_of_bound(f.rigid_body.unwrap().linear_velocity.unwrap());
        }
    }
}

proof fn lemma_samples_bounded(frames: Seq<PlayerFrame>)
    requires
        frames.len() <= u32::MAX,
    ensures
        0 <= sample_count(frames) <= frames.len(),
        0 <= sample_sum(frames) <= sample_count(frames) * 0xffff_ffff,
    decreases frames.len(),
{
    if frames.len() > 0 {
        let rest = frames.drop_last();
        lemma_samples_bounded(rest);
        let f = frames.last();
        if gives_speed_sample(f) {
            lemma_speed_of_bound(f.rigid_body.unwrap().linear_velocity.unwrap());
            assert(sample_sum(rest) + speed_sample(f) <= (sample_count(rest) + 1) * 0xffff_ffff)
                by (nonlinear_arith)
                requires
                    sample_sum(rest) <= sample_count(rest) * 0xffff_ffff,
                    speed_sample(f) <= 0xffff_ffff,
            ;
        }
    }
}

} // verus!
