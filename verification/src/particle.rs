//! A charged body's kinematic state and its per-frame update: clamp or
//! advance the position along each axis, then accumulate the Coulomb
//! acceleration contributed by every other particle of a frame-start
//! snapshot.
//!
//! Quantities are fixed-point integers: positions and velocities in
//! thousandths of a pixel ("milli" units), charge in thousandths of the
//! unit charge, mass in whole mass units.

use vstd::prelude::*;
use crate::math::{isqrt, isqrt_u128, lemma_isqrt_bounds, SQRT_LIMIT};

verus! {

/// The charge magnitude 1, in milli-charge; charges lie in `[-CHARGE_UNIT, CHARGE_UNIT]`.
pub const CHARGE_UNIT: i64 = 1000;

/// Smallest admissible mass, in mass units.
pub const MASS_MIN: i64 = 500;

/// Largest admissible mass, in mass units.
pub const MASS_MAX: i64 = 50_000_000;

/// Coulomb's constant `1 / (4 * pi * eps_0)` with the vacuum permittivity
/// `eps_0 = 8.854e-12`, rounded to the nearest integer.
pub const COULOMB_K: i64 = 8_987_551_787;

/// Velocities saturate at this magnitude (milli-units per frame); the
/// accumulation never resets or reflects, it only stops growing here.
pub const VEL_LIMIT: i64 = 1_000_000_000_000_000;

/// Largest admissible canvas side, in milli-units.
pub const SIZE_LIMIT: i64 = 4_000_000_000_000_000;

/// Positions never leave this magnitude (half of `SIZE_LIMIT` plus
/// `VEL_LIMIT`): a particle inside the half-size bound advances by at
/// most one velocity step per frame.
pub const POS_LIMIT: i64 = 3_000_000_000_000_000;

/// Largest possible coordinate difference between two particles, twice
/// `POS_LIMIT`.
pub const SEP_LIMIT: i64 = 6_000_000_000_000_000;

/// One charged body: position, velocity, charge and mass.
#[derive(Clone, Copy)]
pub struct Particle {
    /// Horizontal position, milli-units, origin at the canvas center.
    pub x: i64,
    /// Vertical position, milli-units, origin at the canvas center.
    pub y: i64,
    /// Horizontal velocity, milli-units per frame.
    pub vx: i64,
    /// Vertical velocity, milli-units per frame.
    pub vy: i64,
    /// Signed charge in milli-charge, in `[-CHARGE_UNIT, CHARGE_UNIT]`.
    pub charge: i64,
    /// Mass in mass units, in `[MASS_MIN, MASS_MAX]`; always positive.
    pub mass: i64,
}

/// The absolute value of a mathematical integer.
pub open spec fn abs_val(a: int) -> int {
    if a >= 0 {
        a
    } else {
        -a
    }
}

/// The squared distance between two points.
pub open spec fn dist_sq(ax: int, ay: int, bx: int, by: int) -> int {
    (ax - bx) * (ax - bx) + (ay - by) * (ay - by)
}

/// Whether the product `q1 * q2 * r` is negative, decided factor by
/// factor: true exactly when an odd number of the three is negative.
/// This is the sign of the force component along `r`: like charges push
/// the particle away from the peer, unlike charges pull it toward it.
pub open spec fn negative_product(q1: int, q2: int, r: int) -> bool {
    ((q1 < 0) != (q2 < 0)) != (r < 0)
}

/// Magnitude of one axis component of the Coulomb force of a peer with
/// charge `q1` on a particle with charge `q2`, scaled into milli-units:
/// `1000 * K * |q1| * |q2| * |r| / (d2 * sqrt(d2))`, evaluated with
/// truncating division at each step. `r` is the coordinate difference
/// along the axis and `d2` the squared distance, both in milli-units.
pub open spec fn force_mag(q1: int, q2: int, r: int, d2: int) -> int
    recommends
        d2 > 0,
{
    1000 * (COULOMB_K as int) * abs_val(q1) * abs_val(q2) * abs_val(r) / d2 / (isqrt(d2 as nat) as int)
}

/// Signed axis component of the Coulomb force of a peer with charge `q1`
/// on a particle with charge `q2`.
pub open spec fn force_comp(q1: int, q2: int, r: int, d2: int) -> int
    recommends
        d2 > 0,
{
    if negative_product(q1, q2, r) {
        -force_mag(q1, q2, r, d2)
    } else {
        force_mag(q1, q2, r, d2)
    }
}

/// Signed axis component of the acceleration a peer with charge `q1`
/// imparts on a particle with charge `q2` and mass `m`: the force
/// magnitude divided by the mass, then signed.
pub open spec fn accel_comp(q1: int, q2: int, r: int, d2: int, m: int) -> int
    recommends
        d2 > 0,
        m > 0,
{
    if negative_product(q1, q2, r) {
        -(force_mag(q1, q2, r, d2) / m)
    } else {
        force_mag(q1, q2, r, d2) / m
    }
}

/// Velocity saturation: values beyond `VEL_LIMIT` in magnitude are pinned.
pub open spec fn clamp_vel(v: int) -> int {
    if v > VEL_LIMIT as int {
        VEL_LIMIT as int
    } else if v < -(VEL_LIMIT as int) {
        -(VEL_LIMIT as int)
    } else {
        v
    }
}

/// One axis of the position step: a coordinate at or beyond the half-size
/// boundary is pinned to it exactly; otherwise the velocity is added.
/// The velocity itself is never touched by this step.
pub open spec fn axis_step(pos: int, vel: int, size: int) -> int
    recommends
        size > 0,
{
    let half: int = size / 2;
    if pos >= half {
        half
    } else if pos <= -half {
        -half
    } else {
        pos + vel
    }
}

/// The velocity change one peer causes on a particle with charge `q` and
/// mass `m` standing at `(px, py)` with velocity `(vx, vy)`: zero for an
/// uncharged peer and for a coincident one, otherwise the saturated sum
/// of the old component and the Coulomb acceleration component.
pub open spec fn kick(q: int, m: int, px: int, py: int, vx: int, vy: int, peer: Particle) -> (int, int) {
    if peer.charge == 0 {
        (vx, vy)
    } else {
        let rx: int = px - peer.x as int;
        let ry: int = py - peer.y as int;
        let d2: int = rx * rx + ry * ry;
        if d2 == 0 {
            (vx, vy)
        } else {
            (
                clamp_vel(vx + accel_comp(peer.charge as int, q, rx, d2, m)),
                clamp_vel(vy + accel_comp(peer.charge as int, q, ry, d2, m)),
            )
        }
    }
}

/// The velocity of a particle with charge `q` and mass `m` at `(px, py)`
/// after accumulating, in order, the contributions of the first `k`
/// snapshot entries, skipping the particle's own index `idx`.
pub open spec fn vel_after(
    q: int,
    m: int,
    px: int,
    py: int,
    vx0: int,
    vy0: int,
    idx: int,
    peers: Seq<Particle>,
    k: int,
) -> (int, int)
    decreases k,
{
    if k <= 0 {
        (vx0, vy0)
    } else {
        let prev = vel_after(q, m, px, py, vx0, vy0, idx, peers, k - 1);
        if k - 1 == idx {
            prev
        } else {
            kick(q, m, px, py, prev.0, prev.1, peers[k - 1])
        }
    }
}

/// The full effect of one update on a particle at index `idx` of the
/// snapshot `peers`: the position steps first, then the velocity
/// accumulates against the stepped position. Components are
/// `(x, y, vx, vy)`.
pub open spec fn update_spec(p: Particle, idx: int, peers: Seq<Particle>, size_x: int, size_y: int) -> (int, int, int, int) {
    let nx: int = axis_step(p.x as int, p.vx as int, size_x);
    let ny: int = axis_step(p.y as int, p.vy as int, size_y);
    let v = vel_after(
        p.charge as int,
        p.mass as int,
        nx,
        ny,
        p.vx as int,
        p.vy as int,
        idx,
        peers,
        peers.len() as int,
    );
    (nx, ny, v.0, v.1)
}

/// The particle value after one update: `update_spec` packed back into a
/// particle, charge and mass untouched.
pub open spec fn particle_after(p: Particle, idx: int, peers: Seq<Particle>, size_x: int, size_y: int) -> Particle {
    let u = update_spec(p, idx, peers, size_x, size_y);
    (Particle {
        x: u.0 as i64,
        y: u.1 as i64,
        vx: u.2 as i64,
        vy: u.3 as i64,
        charge: p.charge,
        mass: p.mass,
    })
}

/// Magnitude bound for any single acceleration contribution:
/// `1000 * COULOMB_K * CHARGE_UNIT * CHARGE_UNIT * SEP_LIMIT`.
const KICK_LIMIT: i128 = 53_925_310_722_000_000_000_000_000_000_000_000;

/// One peer's acceleration contribution along one axis, exact to the
/// fixed-point Coulomb formula `accel_comp`. `r` is the coordinate
/// difference along the axis, `d2` the squared distance and `root` its
/// integer square root.
fn accel_delta(q_peer: i64, q_self: i64, r: i64, d2: u128, root: u128, mass: i64) -> (dv: i128)
    requires
        -CHARGE_UNIT <= q_peer <= CHARGE_UNIT,
        -CHARGE_UNIT <= q_self <= CHARGE_UNIT,
        -SEP_LIMIT <= r <= SEP_LIMIT,
        0 < d2,
        root as nat == isqrt(d2 as nat),
        MASS_MIN <= mass <= MASS_MAX,
    ensures
        dv == accel_comp(q_peer as int, q_self as int, r as int, d2 as int, mass as int),
        -KICK_LIMIT <= dv <= KICK_LIMIT,
{
    let qp: u128 = if q_peer < 0 { (-q_peer) as u128 } else { q_peer as u128 };
    let qs: u128 = if q_self < 0 { (-q_self) as u128 } else { q_self as u128 };
    let rm: u128 = if r < 0 { (-r) as u128 } else { r as u128 };
    let a: u128 = 1000 * (COULOMB_K as u128);
    assert(a * qp <= 8_987_551_787_000_000) by (nonlinear_arith)
        requires a == 8_987_551_787_000 && qp <= 1000;
    let b: u128 = a * qp;
    assert(b * qs <= 8_987_551_787_000_000_000) by (nonlinear_arith)
        requires b <= 8_987_551_787_000_000 && qs <= 1000;
    let c: u128 = b * qs;
    assert(c * rm <= 53_925_310_722_000_000_000_000_000_000_000_000) by (nonlinear_arith)
        requires c <= 8_987_551_787_000_000_000 && rm <= 6_000_000_000_000_000;
    let num: u128 = c * rm;
    proof {
        lemma_isqrt_bounds(d2 as nat);
        vstd::arithmetic::div_mod::lemma_div_basics_4(num as int, d2 as int);
        vstd::arithmetic::div_mod::lemma_div_basics_5(num as int, d2 as int);
    }
    let t1: u128 = num / d2;
    proof {
        let s = isqrt(d2 as nat);
        assert(root >= 1) by (nonlinear_arith)
            requires (d2 as nat) < (s + 1) * (s + 1) && d2 >= 1 && root as nat == s;
        vstd::arithmetic::div_mod::lemma_div_basics_4(t1 as int, root as int);
        vstd::arithmetic::div_mod::lemma_div_basics_5(t1 as int, root as int);
    }
    let t2: u128 = t1 / root;
    proof {
        vstd::arithmetic::div_mod::lemma_div_basics_4(t2 as int, mass as int);
        vstd::arithmetic::div_mod::lemma_div_basics_5(t2 as int, mass as int);
    }
    let mag: u128 = t2 / (mass as u128);
    let neg: bool = ((q_peer < 0) != (q_self < 0)) != (r < 0);
    if neg {
        -(mag as i128)
    } else {
        mag as i128
    }
}

impl Particle {
    /// Well-formedness: charge and mass in their admissible ranges,
    /// velocity within the saturation bound, position within the largest
    /// magnitude one frame step can produce.
    pub open spec fn wf(self) -> bool {
        &&& -(CHARGE_UNIT as int) <= self.charge as int <= CHARGE_UNIT as int
        &&& MASS_MIN as int <= self.mass as int <= MASS_MAX as int
        &&& -(VEL_LIMIT as int) <= self.vx as int <= VEL_LIMIT as int
        &&& -(VEL_LIMIT as int) <= self.vy as int <= VEL_LIMIT as int
        &&& -(POS_LIMIT as int) <= self.x as int <= POS_LIMIT as int
        &&& -(POS_LIMIT as int) <= self.y as int <= POS_LIMIT as int
    }

    /// A particle starts at the given position with the given charge and
    /// mass, and with zero velocity.
    pub fn new(x: i64, y: i64, charge: i64, mass: i64) -> (p: Particle)
        requires
            -POS_LIMIT <= x <= POS_LIMIT,
            -POS_LIMIT <= y <= POS_LIMIT,
            -CHARGE_UNIT <= charge <= CHARGE_UNIT,
            MASS_MIN <= mass <= MASS_MAX,
        ensures
            p.x == x,
            p.y == y,
            p.vx == 0,
            p.vy == 0,
            p.charge == charge,
            p.mass == mass,
            p.wf(),
    {
        Particle { x, y, vx: 0, vy: 0, charge, mass }
    }

    /// Horizontal screen coordinate of this particle, in milli-pixels:
    /// the world origin sits at the canvas center, so the screen
    /// position is half the canvas size plus the world coordinate.
    pub fn screen_x(&self, size_x: i64) -> (r: i64)
        requires
            self.wf(),
            0 < size_x <= SIZE_LIMIT,
        ensures
            r as int == (size_x as int) / 2 + self.x as int,
    {
        ((size_x as u64) / 2) as i64 + self.x
    }

    /// Vertical screen coordinate of this particle, in milli-pixels.
    pub fn screen_y(&self, size_y: i64) -> (r: i64)
        requires
            self.wf(),
            0 < size_y <= SIZE_LIMIT,
        ensures
            r as int == (size_y as int) / 2 + self.y as int,
    {
        ((size_y as u64) / 2) as i64 + self.y
    }

    /// Rendered radius in micro-pixels: the mass range remapped linearly
    /// onto a visually reasonable radius, `(mass - MASS_MIN + 1)` scaled
    /// by `64 / (MASS_MAX - MASS_MIN + 1)` pixels.
    pub fn radius_micro_px(&self) -> (r: i64)
        requires
            self.wf(),
        ensures
            r as int == (self.mass as int - 499) * 64_000_000 / 49_999_500,
            0 <= r <= 64_000_001,
    {
        (((self.mass as u64 - 499) * 64_000_000) / 49_999_500) as i64
    }

    /// Blend factor between the two reference colors in milli-units:
    /// 0 at charge `-CHARGE_UNIT`, 1000 at charge `CHARGE_UNIT`.
    pub fn charge_blend_milli(&self) -> (r: i64)
        requires
            self.wf(),
        ensures
            r as int == (self.charge as int + 1000) / 2,
            0 <= r <= 1000,
    {
        (((self.charge + 1000) as u64) / 2) as i64
    }

    /// Accumulates one peer's Coulomb contribution into the velocity,
    /// leaving position, charge and mass untouched. An uncharged peer and
    /// a coincident peer contribute nothing; the continuous law is
    /// singular at zero distance, and this update leaves such a pair
    /// unmoved rather than produce an unbounded value.
    fn apply_peer(&mut self, peer: &Particle)
        requires
            old(self).wf(),
            peer.wf(),
        ensures
            final(self).x == old(self).x,
            final(self).y == old(self).y,
            final(self).charge == old(self).charge,
            final(self).mass == old(self).mass,
            (final(self).vx as int, final(self).vy as int) == kick(
                old(self).charge as int,
                old(self).mass as int,
                old(self).x as int,
                old(self).y as int,
                old(self).vx as int,
                old(self).vy as int,
                *peer,
            ),
            final(self).wf(),
    {
        if peer.charge == 0 {
            return;
        }
        let rx: i64 = self.x - peer.x;
        let ry: i64 = self.y - peer.y;
        let rxa: u128 = if rx < 0 { (-rx) as u128 } else { rx as u128 };
        let rya: u128 = if ry < 0 { (-ry) as u128 } else { ry as u128 };
        assert(rxa * rxa <= 36_000_000_000_000_000_000_000_000_000_000) by (nonlinear_arith)
            requires rxa <= 6_000_000_000_000_000;
        assert(rya * rya <= 36_000_000_000_000_000_000_000_000_000_000) by (nonlinear_arith)
            requires rya <= 6_000_000_000_000_000;
        let d2: u128 = rxa * rxa + rya * rya;
        proof {
            assert(rxa as int * rxa as int == rx as int * rx as int) by (nonlinear_arith)
                requires rxa as int == rx as int || rxa as int == -(rx as int);
            assert(rya as int * rya as int == ry as int * ry as int) by (nonlinear_arith)
                requires rya as int == ry as int || rya as int == -(ry as int);
        }
        if d2 == 0 {
            return;
        }
        assert(SQRT_LIMIT * SQRT_LIMIT > 72_000_000_000_000_000_000_000_000_000_000) by (nonlinear_arith);
        let root: u128 = isqrt_u128(d2);
        let dvx: i128 = accel_delta(peer.charge, self.charge, rx, d2, root, self.mass);
        let sx: i128 = self.vx as i128 + dvx;
        self.vx = if sx > VEL_LIMIT as i128 {
            VEL_LIMIT
        } else if sx < -VEL_LIMIT as i128 {
            -VEL_LIMIT
        } else {
            sx as i64
        };
        let dvy: i128 = accel_delta(peer.charge, self.charge, ry, d2, root, self.mass);
        let sy: i128 = self.vy as i128 + dvy;
        self.vy = if sy > VEL_LIMIT as i128 {
            VEL_LIMIT
        } else if sy < -VEL_LIMIT as i128 {
            -VEL_LIMIT
        } else {
            sy as i64
        };
    }

    /// Moves this particle one frame. Each position axis is pinned to the
    /// half-size boundary if at or beyond it, and advanced by the
    /// velocity otherwise; then every other particle of the snapshot adds
    /// its Coulomb acceleration to the velocity, computed against this
    /// particle's stepped position and the snapshot positions. The result
    /// is a function of the arguments alone.
    pub fn move_particle(&mut self, index: usize, particles: &Vec<Particle>, size_x: i64, size_y: i64)
        requires
            old(self).wf(),
            0 < size_x <= SIZE_LIMIT,
            0 < size_y <= SIZE_LIMIT,
            forall|j: int| 0 <= j < particles@.len() ==> particles@[j].wf(),
        ensures
            *final(self) == particle_after(*old(self), index as int, particles@, size_x as int, size_y as int),
            final(self).wf(),
            final(self).charge == old(self).charge,
            final(self).mass == old(self).mass,
            old(self).x as int >= (size_x as int) / 2 ==> final(self).x as int == (size_x as int) / 2,
            old(self).x as int <= -((size_x as int) / 2) && (old(self).x as int) < (size_x as int) / 2
                ==> final(self).x as int == -((size_x as int) / 2),
            old(self).y as int >= (size_y as int) / 2 ==> final(self).y as int == (size_y as int) / 2,
            old(self).y as int <= -((size_y as int) / 2) && (old(self).y as int) < (size_y as int) / 2
                ==> final(self).y as int == -((size_y as int) / 2),
    {
        let ghost orig: Particle = *self;
        let half_x: i64 = ((size_x as u64) / 2) as i64;
        let half_y: i64 = ((size_y as u64) / 2) as i64;
        if self.x >= half_x {
            self.x = half_x;
        } else if self.x <= -half_x {
            self.x = -half_x;
        } else {
            self.x = self.x + self.vx;
        }
        if self.y >= half_y {
            self.y = half_y;
        } else if self.y <= -half_y {
            self.y = -half_y;
        } else {
            self.y = self.y + self.vy;
        }
        assert(self.x as int == axis_step(orig.x as int, orig.vx as int, size_x as int));
        assert(self.y as int == axis_step(orig.y as int, orig.vy as int, size_y as int));
        let n: usize = particles.len();
        let mut j: usize = 0;
        while j < n
            invariant
                n == particles@.len(),
                j <= n,
                forall|k: int| 0 <= k < n ==> particles@[k].wf(),
                orig.wf(),
                self.wf(),
                self.x as int == axis_step(orig.x as int, orig.vx as int, size_x as int),
                self.y as int == axis_step(orig.y as int, orig.vy as int, size_y as int),
                self.charge == orig.charge,
                self.mass == orig.mass,
                (self.vx as int, self.vy as int) == vel_after(
                    orig.charge as int,
                    orig.mass as int,
                    self.x as int,
                    self.y as int,
                    orig.vx as int,
                    orig.vy as int,
                    index as int,
                    particles@,
                    j as int,
                ),
            decreases n - j,
        {
            if j != index {
                let peer: Particle = particles[j];
                self.apply_peer(&peer);
            }
            j += 1;
        }
        proof {
            let u = update_spec(orig, index as int, particles@, size_x as int, size_y as int);
            assert(self.x as int == u.0);
            assert(self.y as int == u.1);
            assert((self.vx as int, self.vy as int) == (u.2, u.3));
        }
    }
}

} // verus!
