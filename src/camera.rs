use vstd::prelude::*;
use vstd::arithmetic::div_mod::{lemma_fundamental_div_mod, lemma_mod_multiples_vanish, lemma_small_mod, lemma_mod_add_multiples_vanish, lemma_mod_sub_multiples_vanish};
use crate::controls::{Action, ActionSet, KeyInput, Key, actions_after, boost_after};

verus! {

/// Angles are held in microdegrees: one full turn.
pub const FULL_TURN: i64 = 360_000_000;

/// The largest tilt up or down, in microdegrees.
pub const PITCH_LIMIT: i64 = 90_000_000;

/// Turning rate in microdegrees per microsecond (60 degrees per second).
pub const LOOK_RATE: i64 = 60;

/// Travel speed in micro-units per microsecond (5 units per second).
pub const SPEED: u128 = 5;

/// How many times faster the camera travels while boosted.
pub const BOOST_FACTOR: u128 = 4;

/// Where the camera starts, in micro-units: one unit above the origin.
pub const START_HEIGHT: i64 = 1_000_000;

/// +1 where only `pos` is held, -1 where only `neg` is, 0 otherwise.
pub open spec fn axis_of(held: Set<Action>, pos: Action, neg: Action) -> int {
    (if held.contains(pos) { 1int } else { 0int }) - (if held.contains(neg) { 1int } else { 0int })
}

/// The yaw after turning by `sign` for `dt` microseconds, wrapped into one turn.
pub open spec fn turned_yaw(yaw: int, sign: int, dt: int) -> int {
    (yaw + LOOK_RATE * dt * sign) % (FULL_TURN as int)
}

/// The pitch after tilting by `sign` for `dt` microseconds, clamped to the limits.
pub open spec fn tilted_pitch(pitch: int, sign: int, dt: int) -> int {
    let p = pitch + LOOK_RATE * dt * sign;
    if p < -PITCH_LIMIT {
        -PITCH_LIMIT as int
    } else if p > PITCH_LIMIT {
        PITCH_LIMIT as int
    } else {
        p
    }
}

/// Travel speed in micro-units per microsecond.
pub open spec fn speed_of(boost: bool) -> int {
    if boost {
        (SPEED * BOOST_FACTOR) as int
    } else {
        SPEED as int
    }
}

/// One movement of the camera, in its own frame: `x` right, `y` up, `z`
/// forward, each -1, 0 or 1 and not all 0. The position moves by `distance`
/// micro-units along that direction, turned by the yaw and normalised.
#[derive(Clone, Copy, Debug, PartialEq, Eq, Structural)]
pub struct Step {
    pub x: i8,
    pub y: i8,
    pub z: i8,
    pub distance: u128,
}

/// The movement that `held` and `boost` ask for over `dt` microseconds.
pub open spec fn step_of(held: Set<Action>, boost: bool, dt: int) -> Option<Step> {
    let x = axis_of(held, Action::Right, Action::Left);
    let y = axis_of(held, Action::Up, Action::Down);
    let z = axis_of(held, Action::Forward, Action::Backward);
    if x == 0 && y == 0 && z == 0 {
        None
    } else {
        Some(Step { x: x as i8, y: y as i8, z: z as i8, distance: (speed_of(boost) * dt) as u128 })
    }
}

/// What the camera holds, as mathematical values.
pub struct CameraView {
    pub yaw: int,
    pub pitch: int,
    pub actions: Set<Action>,
    pub boost: bool,
}

/// The orientation and input state of a free-look camera. Its position lives
/// with the caller, which moves it by the steps that `update` returns.
#[derive(Clone, Copy, Debug)]
pub struct Camera {
    yaw: i64,
    pitch: i64,
    actions: ActionSet,
    boost: bool,
}

fn axis(held: &ActionSet, pos: Action, neg: Action) -> (r: i8)
    ensures
        r as int == axis_of(held@, pos, neg),
{
    let p: i8 = if held.contains(pos) { 1 } else { 0 };
    let n: i8 = if held.contains(neg) { 1 } else { 0 };
    p - n
}

impl Camera {
    pub closed spec fn view(&self) -> CameraView {
        CameraView { yaw: self.yaw as int, pitch: self.pitch as int, actions: self.actions@, boost: self.boost }
    }

    /// Yaw lies in one turn and pitch within the limits.
    pub open spec fn wf(&self) -> bool {
        &&& 0 <= self@.yaw < FULL_TURN
        &&& -PITCH_LIMIT <= self@.pitch <= PITCH_LIMIT
    }

    /// A camera looking straight ahead, nothing held, not boosted.
    pub fn new() -> (r: Camera)
        ensures
            r.wf(),
            r@.yaw == 0,
            r@.pitch == 0,
            r@.actions == Set::<Action>::empty(),
            !r@.boost,
    {
        Camera { yaw: 0, pitch: 0, actions: ActionSet::empty(), boost: false }
    }

    pub fn yaw(&self) -> (r: i64)
        ensures
            r as int == self@.yaw,
    {
        self.yaw
    }

    pub fn pitch(&self) -> (r: i64)
        ensures
            r as int == self@.pitch,
    {
        self.pitch
    }

    pub fn boost(&self) -> (r: bool)
        ensures
            r == self@.boost,
    {
        self.boost
    }

    pub fn is_held(&self, a: Action) -> (r: bool)
        ensures
            r == self@.actions.contains(a),
    {
        self.actions.contains(a)
    }

    /// Takes a key going down or up: movement and look keys are held while
    /// down, the shift key boosts while down, other keys are ignored.
    pub fn handle_input(&mut self, input: &KeyInput)
        ensures
            final(self)@.actions == actions_after(old(self)@.actions, *input),
            final(self)@.boost == boost_after(old(self)@.boost, *input),
            final(self)@.yaw == old(self)@.yaw,
            final(self)@.pitch == old(self)@.pitch,
    {
        self.actions.apply(*input);
        if let Some(k) = input.key {
            if let Key::LShift = k {
                self.boost = input.pressed;
            }
        }
    }

    /// Advances the camera by `dt` microseconds: turns and tilts by the held
    /// look keys, and returns the movement that the held movement keys ask for.
    /// Nothing changes, and nothing moves, where nothing is held or `dt` is 0.
    pub fn update(&mut self, dt: u64) -> (r: Option<Step>)
        requires
            old(self).wf(),
        ensures
            final(self).wf(),
            final(self)@.actions == old(self)@.actions,
            final(self)@.boost == old(self)@.boost,
            dt == 0 || old(self)@.actions.is_empty() ==> {
                &&& final(self)@.yaw == old(self)@.yaw
                &&& final(self)@.pitch == old(self)@.pitch
                &&& r is None
            },
            !(dt == 0 || old(self)@.actions.is_empty()) ==> {
                let held = old(self)@.actions;
                &&& final(self)@.yaw == turned_yaw(
                    old(self)@.yaw,
                    axis_of(held, Action::LookRight, Action::LookLeft),
                    dt as int,
                )
                &&& final(self)@.pitch == tilted_pitch(
                    old(self)@.pitch,
                    axis_of(held, Action::LookUp, Action::LookDown),
                    dt as int,
                )
                &&& r == step_of(held, old(self)@.boost, dt as int)
            },
    {
        if dt == 0 || self.actions.is_empty() {
            return None;
        }
        let h = axis(&self.actions, Action::LookRight, Action::LookLeft);
        let v = axis(&self.actions, Action::LookUp, Action::LookDown);
        self.yaw = turn(self.yaw, h, dt);
        self.pitch = tilt(self.pitch, v, dt);

        let x = axis(&self.actions, Action::Right, Action::Left);
        let y = axis(&self.actions, Action::Up, Action::Down);
        let z = axis(&self.actions, Action::Forward, Action::Backward);
        if x == 0 && y == 0 && z == 0 {
            None
        } else {
            let speed: u128 = if self.boost { SPEED * BOOST_FACTOR } else { SPEED };
            assert(speed * (dt as u128) <= 20 * 0xffff_ffff_ffff_ffffu128) by (nonlinear_arith)
                requires speed <= 20, dt <= 0xffff_ffff_ffff_ffffu64;
            Some(Step { x, y, z, distance: speed * (dt as u128) })
        }
    }
}

/// Whatever the angles, the look keys and the time, the yaw after turning
/// lies within one turn and the pitch after tilting lies within the limits.
pub proof fn lemma_angles_stay_in_range(yaw: int, pitch: int, h: int, v: int, dt: nat)
    ensures
        0 <= turned_yaw(yaw, h, dt as int) < FULL_TURN,
        -PITCH_LIMIT <= tilted_pitch(pitch, v, dt as int) <= PITCH_LIMIT,
{
}

/// Yaw after turning by `sign` for `dt` microseconds, wrapped into one turn.
fn turn(yaw: i64, sign: i8, dt: u64) -> (r: i64)
    requires
        0 <= yaw < FULL_TURN,
        -1 <= sign <= 1,
    ensures
        0 <= r < FULL_TURN,
        r as int == turned_yaw(yaw as int, sign as int, dt as int),
{
    let part: u64 = dt % 6_000_000;
    assert(part < 6_000_000);
    let angle: i64 = (part as i64) * LOOK_RATE;
    let raw: i64 = if sign > 0 {
        yaw + angle
    } else if sign < 0 {
        yaw - angle
    } else {
        yaw
    };
    assert(raw == yaw + sign * angle) by {
        if sign > 0 {
            assert(sign == 1);
        } else if sign < 0 {
            assert(sign == -1);
        }
    }
    proof {
        let m = FULL_TURN as int;
        let q = dt as int / 6_000_000;
        lemma_fundamental_div_mod(dt as int, 6_000_000);
        assert(LOOK_RATE * (dt as int) * (sign as int) == m * (q * sign as int) + angle * sign as int)
            by (nonlinear_arith)
            requires
                dt as int == 6_000_000 * q + part as int,
                angle == part as int * 60,
                m == 360_000_000,
                LOOK_RATE == 60,
        ;
        lemma_mod_multiples_vanish(q * sign as int, raw as int, m);
        assert(turned_yaw(yaw as int, sign as int, dt as int) == (raw as int) % m);
    }
    if raw < 0 {
        proof {
            lemma_mod_add_multiples_vanish(raw as int, FULL_TURN as int);
            lemma_small_mod((raw + FULL_TURN) as nat, FULL_TURN as nat);
        }
        raw + FULL_TURN
    } else if raw >= FULL_TURN {
        proof {
            lemma_mod_sub_multiples_vanish(raw as int, FULL_TURN as int);
            lemma_small_mod((raw - FULL_TURN) as nat, FULL_TURN as nat);
        }
        raw - FULL_TURN
    } else {
        proof {
            lemma_small_mod(raw as nat, FULL_TURN as nat);
        }
        raw
    }
}

/// Pitch after tilting by `sign` for `dt` microseconds, clamped to the limits.
fn tilt(pitch: i64, sign: i8, dt: u64) -> (r: i64)
    requires
        -PITCH_LIMIT <= pitch <= PITCH_LIMIT,
        -1 <= sign <= 1,
    ensures
        -PITCH_LIMIT <= r <= PITCH_LIMIT,
        r as int == tilted_pitch(pitch as int, sign as int, dt as int),
{
    // three seconds sweep the whole range, so a longer time clamps the same way
    let span: u64 = if dt > 3_000_000 { 3_000_000 } else { dt };
    let sweep: i64 = (span as i64) * LOOK_RATE;
    let raw: i64 = if sign > 0 {
        pitch + sweep
    } else if sign < 0 {
        pitch - sweep
    } else {
        pitch
    };
    assert(raw == pitch + sign * sweep) by {
        if sign > 0 {
            assert(sign == 1);
        } else if sign < 0 {
            assert(sign == -1);
        }
    }
    proof {
        if dt > 3_000_000 {
            assert(sign == 1 ==> LOOK_RATE * (dt as int) * (sign as int) > 180_000_000)
                by (nonlinear_arith) requires dt > 3_000_000, LOOK_RATE == 60;
            assert(sign == -1 ==> LOOK_RATE * (dt as int) * (sign as int) < -180_000_000)
                by (nonlinear_arith) requires dt > 3_000_000, LOOK_RATE == 60;
            assert(sign == 0 ==> LOOK_RATE * (dt as int) * (sign as int) == 0)
                by (nonlinear_arith);
        } else {
            assert(LOOK_RATE * (dt as int) * (sign as int) == (sign as int) * sweep)
                by (nonlinear_arith) requires span == dt, sweep == span * LOOK_RATE;
        }
    }
    if raw < -PITCH_LIMIT {
        -PITCH_LIMIT
    } else if raw > PITCH_LIMIT {
        PITCH_LIMIT
    } else {
        raw
    }
}

} // verus!
