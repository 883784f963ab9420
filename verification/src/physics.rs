//! The body and its integrator: charge, release, gravity, motion and the
//! floor clamp, in that order, once per frame.

use vstd::prelude::*;
use crate::vector::{Point, Vec2};
use crate::world::{
    BODY_SPAWN_X, BODY_SPAWN_Y, CHARGE_RATE, FLOOR_Y, GRAVITY, GROUND_Y, MAX_ENERGY,
    MAX_JUMP_SPEED,
};

verus! {

/// The model of a [`Body`]: its three vectors over the integers.
pub struct BodyModel {
    pub position: Point,
    pub velocity: Point,
    pub charge: Point,
}

/// The smaller of two integers.
pub open spec fn least(a: int, b: int) -> int {
    if a <= b {
        a
    } else {
        b
    }
}

impl BodyModel {
    /// A freshly created body: at the spawn point, at rest, uncharged.
    pub open spec fn spawn() -> BodyModel {
        BodyModel {
            position: Point { x: BODY_SPAWN_X as int, y: BODY_SPAWN_Y as int },
            velocity: Point { x: 0, y: 0 },
            charge: Point { x: 0, y: 0 },
        }
    }

    /// The body's centre is exactly at resting height.
    pub open spec fn grounded(self) -> bool {
        self.position.y == FLOOR_Y
    }

    /// Twice the body's mechanical energy per unit of mass, measured from
    /// resting height. A step of free flight never raises it.
    pub open spec fn energy(self) -> int {
        self.velocity.y * self.velocity.y + 2 * GRAVITY * (self.position.y - FLOOR_Y)
    }

    /// What holds of every body between frames: nothing moves it sideways,
    /// its charge is within `[0, MAX_JUMP_SPEED]`, it is not under the ground,
    /// and it has no more energy than the strongest jump gives.
    pub open spec fn wf(self) -> bool {
        &&& self.velocity.x == 0
        &&& self.charge.x == 0
        &&& 0 <= self.charge.y <= MAX_JUMP_SPEED
        &&& GROUND_Y <= self.position.y
        &&& self.energy() <= MAX_ENERGY
    }

    /// Holding the jump input on the ground adds to the charge, which
    /// saturates at the full jump speed. The sideways component is capped at
    /// zero.
    pub open spec fn charge_step(self, held: bool, dt: int) -> BodyModel {
        if self.grounded() && held {
            BodyModel {
                charge: Point {
                    x: least(self.charge.x, 0),
                    y: least(self.charge.y + CHARGE_RATE * dt, MAX_JUMP_SPEED as int),
                },
                ..self
            }
        } else {
            self
        }
    }

    /// Releasing the jump input on the ground turns the charge into velocity.
    /// In the air it does nothing.
    pub open spec fn release_step(self, released: bool) -> BodyModel {
        if self.grounded() && released {
            BodyModel { velocity: self.charge, charge: Point { x: 0, y: 0 }, ..self }
        } else {
            self
        }
    }

    /// Gravity pulls the velocity down.
    pub open spec fn gravity_step(self, dt: int) -> BodyModel {
        BodyModel {
            velocity: Point { x: self.velocity.x, y: self.velocity.y - GRAVITY * dt },
            ..self
        }
    }

    /// The body moves by its velocity.
    pub open spec fn move_step(self, dt: int) -> BodyModel {
        BodyModel {
            position: Point {
                x: self.position.x + self.velocity.x * dt,
                y: self.position.y + self.velocity.y * dt,
            },
            ..self
        }
    }

    /// A body below resting height is put back on the ground and stopped.
    pub open spec fn floor_clamp(self) -> BodyModel {
        if self.position.y < FLOOR_Y {
            BodyModel {
                position: Point { x: self.position.x, y: FLOOR_Y as int },
                velocity: Point { x: 0, y: 0 },
                ..self
            }
        } else {
            self
        }
    }

    /// One frame of the integrator.
    pub open spec fn integrate(self, held: bool, released: bool, dt: int) -> BodyModel {
        self.charge_step(held, dt).release_step(released).gravity_step(dt).move_step(
            dt,
        ).floor_clamp()
    }
}

/// The player-controlled entity.
#[derive(Clone, Copy, Debug, PartialEq, Eq, Structural)]
pub struct Body {
    /// Centre of the body, in position units, y up.
    pub position: Vec2,
    /// In velocity units.
    pub velocity: Vec2,
    /// Pending jump impulse, in velocity units.
    pub charge: Vec2,
}

impl View for Body {
    type V = BodyModel;

    open spec fn view(&self) -> BodyModel {
        BodyModel { position: self.position@, velocity: self.velocity@, charge: self.charge@ }
    }
}

/// `MAX_ENERGY` is the square of the full jump speed.
pub proof fn lemma_max_energy()
    ensures
        MAX_ENERGY == MAX_JUMP_SPEED * MAX_JUMP_SPEED,
{
    assert(800_000_000int * 800_000_000int == 640_000_000_000_000_000int);
}

/// A step of free flight under gravity `g` loses exactly `(g * dt)^2` of
/// energy, measured from height `f`.
proof fn lemma_flight_energy(v: int, y: int, f: int, g: int, dt: int)
    by (nonlinear_arith)
    ensures
        (v - g * dt) * (v - g * dt) + 2 * g * ((y + (v - g * dt) * dt) - f) <= v * v + 2 * g * (y
            - f),
{
    assert((v - g * dt) * (v - g * dt) + 2 * g * ((y + (v - g * dt) * dt) - f) == v * v + 2 * g
        * (y - f) - (g * dt) * (g * dt));
    assert((g * dt) * (g * dt) >= 0);
}

/// A number whose square is at most `k` lies strictly between `-b` and `b`
/// when `b * b` exceeds `k`.
proof fn lemma_root_bound(v: int, k: int, b: int)
    by (nonlinear_arith)
    requires
        v * v <= k,
        b > 0,
        b * b > k,
    ensures
        -b < v < b,
{
}

/// A number strictly between `-b` and `b` has a square below `b * b`.
proof fn lemma_square_below(v: int, b: int)
    by (nonlinear_arith)
    requires
        -b < v < b,
    ensures
        0 <= v * v < b * b,
{
}

/// A charge within its range has a square within the energy range.
proof fn lemma_charge_energy(c: int)
    by (nonlinear_arith)
    requires
        0 <= c <= 800_000_000,
    ensures
        0 <= c * c <= 640_000_000_000_000_000,
{
}

/// The product of a bounded number and a bounded non-negative one is bounded.
proof fn lemma_product_bound(a: int, b: int, la: int, lb: int)
    by (nonlinear_arith)
    requires
        -la <= a <= la,
        0 <= b <= lb,
    ensures
        -(la * lb) <= a * b <= la * lb,
{
}

/// A valid body is slower than 820 world units per second and no higher than
/// 400 world units above resting height.
pub proof fn lemma_wf_bounds(b: BodyModel)
    requires
        b.wf(),
    ensures
        -820_000_000 < b.velocity.y < 820_000_000,
        GROUND_Y <= b.position.y <= 220_000_000_000_000,
{
    let v = b.velocity.y;
    assert(v * v >= 0) by (nonlinear_arith);
    assert(820_000_000int * 820_000_000int == 672_400_000_000_000_000int);
    lemma_root_bound(v, 672_000_000_000_000_000, 820_000_000);
}

/// Banking the charge keeps a valid body valid.
pub proof fn lemma_release_wf(b: BodyModel, released: bool)
    requires
        b.wf(),
    ensures
        b.release_step(released).wf(),
{
    if b.grounded() && released {
        let out = b.release_step(released);
        lemma_charge_energy(b.charge.y);
        assert(out.velocity.y == b.charge.y);
        assert(out.position.y - FLOOR_Y == 0);
        assert(out.energy() == b.charge.y * b.charge.y);
    }
}

/// Gravity, motion and the floor clamp keep a valid body valid.
pub proof fn lemma_fall_wf(b: BodyModel, dt: int)
    requires
        b.wf(),
        0 <= dt,
    ensures
        b.gravity_step(dt).move_step(dt).floor_clamp().wf(),
{
    let moved = b.gravity_step(dt).move_step(dt);
    let out = moved.floor_clamp();
    if moved.position.y < FLOOR_Y {
        assert(out.velocity.y == 0 && out.position.y - FLOOR_Y == 0);
        assert(out.energy() == 0);
    } else {
        lemma_flight_energy(b.velocity.y, b.position.y, FLOOR_Y as int, GRAVITY as int, dt);
        assert(moved.velocity.y == b.velocity.y - GRAVITY * dt);
        assert(moved.position.y == b.position.y + (b.velocity.y - GRAVITY * dt) * dt);
        assert(moved.energy() <= b.energy());
    }
}

/// The integrator keeps a valid body valid, whatever the input and however
/// long the frame.
pub proof fn lemma_integrate_wf(b: BodyModel, held: bool, released: bool, dt: int)
    requires
        b.wf(),
        0 <= dt,
    ensures
        b.integrate(held, released, dt).wf(),
{
    let charged = b.charge_step(held, dt);
    assert(charged.wf());
    lemma_release_wf(charged, released);
    lemma_fall_wf(charged.release_step(released), dt);
}

impl Body {
    /// Validity of a body: see [`BodyModel::wf`].
    pub open spec fn wf(&self) -> bool {
        self@.wf()
    }

    /// A freshly created body: at the spawn point, at rest, uncharged.
    pub fn spawn() -> (body: Body)
        ensures
            body@ == BodyModel::spawn(),
            body.wf(),
    {
        Body {
            position: Vec2 { x: BODY_SPAWN_X, y: BODY_SPAWN_Y },
            velocity: Vec2 { x: 0, y: 0 },
            charge: Vec2 { x: 0, y: 0 },
        }
    }

    /// Whether the body's centre is exactly at resting height.
    pub fn is_grounded(&self) -> (grounded: bool)
        ensures
            grounded == self@.grounded(),
    {
        self.position.y == FLOOR_Y
    }

    /// Whether the body is valid.
    pub fn is_valid(&self) -> (valid: bool)
        ensures
            valid == self.wf(),
    {
        if self.velocity.x != 0 || self.charge.x != 0 {
            return false;
        }
        if self.charge.y < 0 || self.charge.y > MAX_JUMP_SPEED {
            return false;
        }
        if self.position.y < GROUND_Y {
            return false;
        }
        if self.velocity.y <= -820_000_000 || self.velocity.y >= 820_000_000 {
            proof {
                if self.wf() {
                    lemma_wf_bounds(self@);
                }
            }
            return false;
        }
        if self.position.y > 220_000_000_000_000 {
            proof {
                if self.wf() {
                    lemma_wf_bounds(self@);
                }
            }
            return false;
        }
        let v: i64 = self.velocity.y;
        proof {
            lemma_square_below(v as int, 820_000_000);
            assert(820_000_000int * 820_000_000int == 672_400_000_000_000_000int);
        }
        let energy: i64 = v * v + 2 * GRAVITY * (self.position.y - FLOOR_Y);
        energy <= MAX_ENERGY
    }

    /// The body with the given state, if that state is valid.
    pub fn new(position: Vec2, velocity: Vec2, charge: Vec2) -> (made: Option<Body>)
        ensures
            made == (if (Body { position, velocity, charge }).wf() {
                Some(Body { position, velocity, charge })
            } else {
                None
            }),
    {
        let body = Body { position, velocity, charge };
        if body.is_valid() {
            Some(body)
        } else {
            None
        }
    }

    /// Adds to the charge while the jump input is held on the ground.
    pub fn charge(&self, held: bool, delta_time: i32) -> (out: Body)
        requires
            self.wf(),
            0 <= delta_time,
        ensures
            out@ == self@.charge_step(held, delta_time as int),
            out.wf(),
    {
        if self.position.y == FLOOR_Y && held {
            let gained: i64 = self.charge.y + CHARGE_RATE * (delta_time as i64);
            let y: i64 = if gained <= MAX_JUMP_SPEED {
                gained
            } else {
                MAX_JUMP_SPEED
            };
            let x: i64 = if self.charge.x <= 0 {
                self.charge.x
            } else {
                0
            };
            Body { position: self.position, velocity: self.velocity, charge: Vec2 { x, y } }
        } else {
            *self
        }
    }

    /// Turns the charge into velocity when the jump input is released on the
    /// ground.
    pub fn release(&self, released: bool) -> (out: Body)
        requires
            self.wf(),
        ensures
            out@ == self@.release_step(released),
            !self@.grounded() ==> out == *self,
            out.wf(),
    {
        proof {
            lemma_release_wf(self@, released);
        }
        if self.position.y == FLOOR_Y && released {
            Body { position: self.position, velocity: self.charge, charge: Vec2 { x: 0, y: 0 } }
        } else {
            *self
        }
    }

    /// Applies gravity, moves the body and clamps it to the floor.
    pub fn fall(&self, delta_time: i32) -> (out: Body)
        requires
            self.wf(),
            0 <= delta_time,
        ensures
            out@ == self@.gravity_step(delta_time as int).move_step(
                delta_time as int,
            ).floor_clamp(),
            out.wf(),
    {
        let dt: i64 = delta_time as i64;
        proof {
            lemma_wf_bounds(self@);
            lemma_fall_wf(self@, dt as int);
        }
        let speed: i64 = self.velocity.y - GRAVITY * dt;
        proof {
            lemma_product_bound(speed as int, dt as int, 2_000_000_000_000, 2_147_483_648);
            assert(2_000_000_000_000int * 2_147_483_648int == 4_294_967_296_000_000_000_000int);
            assert(self.velocity.x * dt == 0) by (nonlinear_arith)
                requires
                    self.velocity.x == 0,
            ;
        }
        let height: i128 = (self.position.y as i128) + (speed as i128) * (dt as i128);
        if height < FLOOR_Y as i128 {
            Body {
                position: Vec2 { x: self.position.x, y: FLOOR_Y },
                velocity: Vec2 { x: 0, y: 0 },
                charge: self.charge,
            }
        } else {
            proof {
                let moved = self@.gravity_step(dt as int).move_step(dt as int);
                assert(moved.position.y == height);
                assert(moved.floor_clamp() == moved);
                lemma_wf_bounds(moved);
            }
            Body {
                position: Vec2 { x: self.position.x, y: height as i64 },
                velocity: Vec2 { x: self.velocity.x, y: speed },
                charge: self.charge,
            }
        }
    }

    /// One frame of the integrator: charge, release, gravity, motion, floor
    /// clamp.
    pub fn integrate(&self, held: bool, released: bool, delta_time: i32) -> (out: Body)
        requires
            self.wf(),
            0 <= delta_time,
        ensures
            out@ == self@.integrate(held, released, delta_time as int),
            out.wf(),
    {
        self.charge(held, delta_time).release(released).fall(delta_time)
    }
}

} // verus!
