//! Global properties of the frame update, stated and proved over the
//! same spec functions that the executable contracts use.

use vstd::prelude::*;
use crate::math::{isqrt, lemma_isqrt_bounds};
use crate::particle::{
    abs_val, accel_comp, axis_step, clamp_vel, dist_sq, force_comp, force_mag, kick,
    particle_after, update_spec, vel_after, Particle, COULOMB_K, SIZE_LIMIT, VEL_LIMIT,
};

verus! {

/// The x-component of the Coulomb force that particle `b` exerts on
/// particle `a`, over the squared distance between the two.
pub open spec fn force_on_x(a: Particle, b: Particle) -> int {
    force_comp(
        b.charge as int,
        a.charge as int,
        a.x as int - b.x as int,
        dist_sq(a.x as int, a.y as int, b.x as int, b.y as int),
    )
}

/// The y-component of the Coulomb force that particle `b` exerts on
/// particle `a`.
pub open spec fn force_on_y(a: Particle, b: Particle) -> int {
    force_comp(
        b.charge as int,
        a.charge as int,
        a.y as int - b.y as int,
        dist_sq(a.x as int, a.y as int, b.x as int, b.y as int),
    )
}

/// A positive squared distance has a positive integer square root.
proof fn lemma_isqrt_pos(d2: int)
    requires
        d2 > 0,
    ensures
        isqrt(d2 as nat) as int >= 1,
{
    lemma_isqrt_bounds(d2 as nat);
    let s = isqrt(d2 as nat);
    assert(s as int >= 1) by (nonlinear_arith)
        requires (d2 as nat) < (s + 1) * (s + 1) && d2 >= 1;
}

/// A zero factor annuls the force: an uncharged source, an uncharged
/// target, or a zero coordinate difference gives a zero component.
proof fn lemma_force_mag_zero(q1: int, q2: int, r: int, d2: int)
    requires
        d2 > 0,
        q1 == 0 || q2 == 0 || r == 0,
    ensures
        force_mag(q1, q2, r, d2) == 0,
{
    lemma_isqrt_pos(d2);
    assert(1000 * (COULOMB_K as int) * abs_val(q1) * abs_val(q2) * abs_val(r) == 0) by (nonlinear_arith)
        requires abs_val(q1) == 0 || abs_val(q2) == 0 || abs_val(r) == 0;
    vstd::arithmetic::div_mod::lemma_div_basics(d2);
    vstd::arithmetic::div_mod::lemma_div_basics(isqrt(d2 as nat) as int);
}

/// As `lemma_force_mag_zero`, carried through the division by the mass.
proof fn lemma_accel_zero(q1: int, q2: int, r: int, d2: int, m: int)
    requires
        d2 > 0,
        m > 0,
        q1 == 0 || q2 == 0 || r == 0,
    ensures
        accel_comp(q1, q2, r, d2, m) == 0,
{
    lemma_force_mag_zero(q1, q2, r, d2);
    vstd::arithmetic::div_mod::lemma_div_basics(m);
}

/// Accumulation over any snapshot leaves the velocity of an uncharged
/// particle untouched, one peer at a time.
proof fn lemma_inert_fold(
    m: int,
    px: int,
    py: int,
    vx: int,
    vy: int,
    idx: int,
    peers: Seq<Particle>,
    k: int,
)
    requires
        m > 0,
        -(VEL_LIMIT as int) <= vx <= VEL_LIMIT as int,
        -(VEL_LIMIT as int) <= vy <= VEL_LIMIT as int,
    ensures
        vel_after(0, m, px, py, vx, vy, idx, peers, k) == (vx, vy),
    decreases k,
{
    if k > 0 {
        lemma_inert_fold(m, px, py, vx, vy, idx, peers, k - 1);
        if k - 1 != idx {
            let peer = peers[k - 1];
            if peer.charge != 0 {
                let rx: int = px - peer.x as int;
                let ry: int = py - peer.y as int;
                let d2: int = rx * rx + ry * ry;
                if d2 != 0 {
                    assert(d2 > 0) by (nonlinear_arith)
                        requires d2 == rx * rx + ry * ry && d2 != 0;
                    lemma_accel_zero(peer.charge as int, 0, rx, d2, m);
                    lemma_accel_zero(peer.charge as int, 0, ry, d2, m);
                }
            }
        }
    }
}

/// An uncharged particle never accumulates velocity: whatever the
/// snapshot, its index and the bounds, one update leaves both velocity
/// components exactly as they were.
pub proof fn lemma_inert_velocity_unchanged(
    p: Particle,
    idx: int,
    peers: Seq<Particle>,
    size_x: int,
    size_y: int,
)
    requires
        p.wf(),
        p.charge == 0,
    ensures
        update_spec(p, idx, peers, size_x, size_y).2 == p.vx as int,
        update_spec(p, idx, peers, size_x, size_y).3 == p.vy as int,
{
    let nx: int = axis_step(p.x as int, p.vx as int, size_x);
    let ny: int = axis_step(p.y as int, p.vy as int, size_y);
    lemma_inert_fold(
        p.mass as int,
        nx,
        ny,
        p.vx as int,
        p.vy as int,
        idx,
        peers,
        peers.len() as int,
    );
}

/// An uncharged particle is no source of force either: its contribution
/// to any other particle's velocity is nothing, whatever the receiving
/// particle's state.
pub proof fn lemma_uncharged_source_no_kick(
    q: int,
    m: int,
    px: int,
    py: int,
    vx: int,
    vy: int,
    peer: Particle,
)
    requires
        peer.charge == 0,
    ensures
        crate::particle::kick(q, m, px, py, vx, vy, peer) == (vx, vy),
{
}

/// Newton's third law for the fixed-point force: for any non-coincident
/// pair, the force either particle exerts on the other is the exact
/// negation of its counterpart, component by component; with equal
/// masses the same holds for the acceleration contributions.
pub proof fn lemma_third_law(a: Particle, b: Particle)
    requires
        a.wf(),
        b.wf(),
        dist_sq(a.x as int, a.y as int, b.x as int, b.y as int) > 0,
    ensures
        force_on_x(a, b) == -force_on_x(b, a),
        force_on_y(a, b) == -force_on_y(b, a),
        a.mass == b.mass ==> accel_comp(
            b.charge as int,
            a.charge as int,
            a.x as int - b.x as int,
            dist_sq(a.x as int, a.y as int, b.x as int, b.y as int),
            a.mass as int,
        ) == -accel_comp(
            a.charge as int,
            b.charge as int,
            b.x as int - a.x as int,
            dist_sq(b.x as int, b.y as int, a.x as int, a.y as int),
            b.mass as int,
        ),
{
    let d2: int = dist_sq(a.x as int, a.y as int, b.x as int, b.y as int);
    let d2r: int = dist_sq(b.x as int, b.y as int, a.x as int, a.y as int);
    let ax: int = a.x as int;
    let ay: int = a.y as int;
    let bx: int = b.x as int;
    let by: int = b.y as int;
    assert((ax - bx) * (ax - bx) == (bx - ax) * (bx - ax)) by (nonlinear_arith);
    assert((ay - by) * (ay - by) == (by - ay) * (by - ay)) by (nonlinear_arith);
    assert(d2 == d2r);
    let qa: int = a.charge as int;
    let qb: int = b.charge as int;
    lemma_force_swap(qb, qa, a.x as int - b.x as int, d2, a.mass as int);
    lemma_force_swap(qb, qa, a.y as int - b.y as int, d2, a.mass as int);
}

/// Swapping the two charges and negating the separation negates the
/// signed force component, and divides through to the acceleration.
proof fn lemma_force_swap(q1: int, q2: int, r: int, d2: int, m: int)
    requires
        d2 > 0,
        m > 0,
    ensures
        force_comp(q1, q2, r, d2) == -force_comp(q2, q1, -r, d2),
        accel_comp(q1, q2, r, d2, m) == -accel_comp(q2, q1, -r, d2, m),
{
    assert(1000 * (COULOMB_K as int) * abs_val(q1) * abs_val(q2) * abs_val(r)
        == 1000 * (COULOMB_K as int) * abs_val(q2) * abs_val(q1) * abs_val(-r)) by (nonlinear_arith)
        requires abs_val(r) == abs_val(-r);
    assert(force_mag(q1, q2, r, d2) == force_mag(q2, q1, -r, d2));
    if r == 0 {
        lemma_force_mag_zero(q1, q2, r, d2);
        lemma_force_mag_zero(q2, q1, -r, d2);
        vstd::arithmetic::div_mod::lemma_div_basics(m);
    }
}

/// Saturation is odd: clamping a value and clamping its negation give
/// exact negations.
proof fn lemma_clamp_vel_odd(v: int)
    ensures
        clamp_vel(-v) == -clamp_vel(v),
{
}

/// Newton's third law carried into the frame update: two resting
/// particles of equal mass standing apart within the bounds take exactly
/// opposite velocity kicks from one frame, component by component.
pub proof fn lemma_two_body_opposite_kicks(a: Particle, b: Particle, size_x: int, size_y: int)
    requires
        a.wf(),
        b.wf(),
        a.mass == b.mass,
        a.vx == 0 && a.vy == 0 && b.vx == 0 && b.vy == 0,
        0 < size_x <= SIZE_LIMIT as int,
        0 < size_y <= SIZE_LIMIT as int,
        -(size_x / 2) <= a.x as int <= size_x / 2,
        -(size_y / 2) <= a.y as int <= size_y / 2,
        -(size_x / 2) <= b.x as int <= size_x / 2,
        -(size_y / 2) <= b.y as int <= size_y / 2,
        dist_sq(a.x as int, a.y as int, b.x as int, b.y as int) > 0,
    ensures
        update_spec(a, 0, seq![a, b], size_x, size_y).2
            == -update_spec(b, 1, seq![a, b], size_x, size_y).2,
        update_spec(a, 0, seq![a, b], size_x, size_y).3
            == -update_spec(b, 1, seq![a, b], size_x, size_y).3,
{
    let peers = seq![a, b];
    let m: int = a.mass as int;
    let qa: int = a.charge as int;
    let qb: int = b.charge as int;
    let ax: int = a.x as int;
    let ay: int = a.y as int;
    let bx: int = b.x as int;
    let by: int = b.y as int;
    // A resting particle within the bounds does not move in the position step.
    assert(axis_step(ax, 0, size_x) == ax);
    assert(axis_step(ay, 0, size_y) == ay);
    assert(axis_step(bx, 0, size_x) == bx);
    assert(axis_step(by, 0, size_y) == by);
    // Each particle takes exactly one kick, from the other one.
    assert(vel_after(qa, m, ax, ay, 0, 0, 0, peers, 0) == (0int, 0int));
    assert(vel_after(qa, m, ax, ay, 0, 0, 0, peers, 1) == (0int, 0int));
    assert(vel_after(qa, m, ax, ay, 0, 0, 0, peers, 2) == kick(qa, m, ax, ay, 0, 0, b));
    assert(vel_after(qb, m, bx, by, 0, 0, 1, peers, 0) == (0int, 0int));
    assert(vel_after(qb, m, bx, by, 0, 0, 1, peers, 1) == kick(qb, m, bx, by, 0, 0, a));
    assert(vel_after(qb, m, bx, by, 0, 0, 1, peers, 2) == kick(qb, m, bx, by, 0, 0, a));
    let d2: int = (ax - bx) * (ax - bx) + (ay - by) * (ay - by);
    let d2r: int = (bx - ax) * (bx - ax) + (by - ay) * (by - ay);
    assert((ax - bx) * (ax - bx) == (bx - ax) * (bx - ax)) by (nonlinear_arith);
    assert((ay - by) * (ay - by) == (by - ay) * (by - ay)) by (nonlinear_arith);
    assert(d2 == d2r);
    assert(d2 > 0);
    if qa == 0 && qb == 0 {
        assert(kick(qa, m, ax, ay, 0, 0, b) == (0int, 0int));
        assert(kick(qb, m, bx, by, 0, 0, a) == (0int, 0int));
    } else if qb == 0 {
        assert(kick(qa, m, ax, ay, 0, 0, b) == (0int, 0int));
        lemma_accel_zero(qa, qb, bx - ax, d2, m);
        lemma_accel_zero(qa, qb, by - ay, d2, m);
        assert(kick(qb, m, bx, by, 0, 0, a) == (0int, 0int));
    } else if qa == 0 {
        lemma_accel_zero(qb, qa, ax - bx, d2, m);
        lemma_accel_zero(qb, qa, ay - by, d2, m);
        assert(kick(qa, m, ax, ay, 0, 0, b) == (0int, 0int));
        assert(kick(qb, m, bx, by, 0, 0, a) == (0int, 0int));
    } else {
        lemma_force_swap(qb, qa, ax - bx, d2, m);
        lemma_force_swap(qb, qa, ay - by, d2, m);
        lemma_clamp_vel_odd(accel_comp(qb, qa, ax - bx, d2, m));
        lemma_clamp_vel_odd(accel_comp(qb, qa, ay - by, d2, m));
        assert(kick(qa, m, ax, ay, 0, 0, b).0 == -kick(qb, m, bx, by, 0, 0, a).0);
        assert(kick(qa, m, ax, ay, 0, 0, b).1 == -kick(qb, m, bx, by, 0, 0, a).1);
    }
}

/// A lone particle with zero velocity standing inside the bounds is a
/// fixed point of the frame update: with no peer to pull on it, every
/// frame maps its state to itself, so it stays at its initial position
/// for any number of frames.
pub proof fn lemma_lone_particle_fixed(p: Particle, size_x: int, size_y: int)
    requires
        p.wf(),
        p.charge == 0,
        p.vx == 0,
        p.vy == 0,
        0 < size_x <= SIZE_LIMIT as int,
        0 < size_y <= SIZE_LIMIT as int,
        -(size_x / 2) <= p.x as int <= size_x / 2,
        -(size_y / 2) <= p.y as int <= size_y / 2,
    ensures
        particle_after(p, 0, seq![p], size_x, size_y) == p,
{
    let peers = seq![p];
    assert(vel_after(0, p.mass as int, p.x as int, p.y as int, 0, 0, 0, peers, 1)
        == vel_after(0, p.mass as int, p.x as int, p.y as int, 0, 0, 0, peers, 0));
}

} // verus!
