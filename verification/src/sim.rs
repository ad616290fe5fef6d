//! The simulation: a fixed canvas and an ordered population of
//! particles, created once by uniform random sampling and advanced one
//! full frame at a time against a frame-start snapshot.

use vstd::prelude::*;
use rand::Rng;
use crate::particle::{
    particle_after, Particle, CHARGE_UNIT, MASS_MAX, MASS_MIN, SIZE_LIMIT,
};

verus! {

/// Relies on `rand::thread_rng` and `rand::Rng::gen_range` over the
/// inclusive range `lo..=hi`: the draw lies within the range. Nothing
/// more is assumed of a random value.
#[verifier::external_body]
fn sample_in_range(lo: i64, hi: i64) -> (r: i64)
    requires
        lo <= hi,
    ensures
        lo <= r <= hi,
{
    rand::thread_rng().gen_range(lo..=hi)
}

/// What construction promises of every freshly sampled particle: zero
/// velocity, charge and mass within their sampling ranges, position
/// within the half-size bounds.
pub open spec fn freshly_sampled(p: Particle, size_x: int, size_y: int) -> bool {
    &&& p.vx == 0
    &&& p.vy == 0
    &&& -(CHARGE_UNIT as int) <= p.charge as int <= CHARGE_UNIT as int
    &&& MASS_MIN as int <= p.mass as int <= MASS_MAX as int
    &&& -(size_x / 2) <= p.x as int <= size_x / 2
    &&& -(size_y / 2) <= p.y as int <= size_y / 2
}

/// The particle population and the canvas dimensions, fixed for the
/// simulation's lifetime. The sequence order is each particle's index
/// identity and is never reshuffled.
pub struct Simulation {
    /// Canvas width in milli-units, fixed at construction.
    pub size_x: i64,
    /// Canvas height in milli-units, fixed at construction.
    pub size_y: i64,
    /// The owned particle population, in creation order.
    pub particles: Vec<Particle>,
}

impl Simulation {
    /// Well-formedness: positive canvas within the admissible size, and
    /// every particle well-formed.
    pub open spec fn wf(self) -> bool {
        &&& 0 < self.size_x as int <= SIZE_LIMIT as int
        &&& 0 < self.size_y as int <= SIZE_LIMIT as int
        &&& forall|i: int| 0 <= i < self.particles@.len() ==> self.particles@[i].wf()
    }

    /// Builds a simulation of `num_particles` particles, each sampled
    /// uniformly: position within the canvas, charge in
    /// `[-CHARGE_UNIT, CHARGE_UNIT]`, mass in `[MASS_MIN, MASS_MAX]`,
    /// velocity zero.
    pub fn new(size_x: i64, size_y: i64, num_particles: u32) -> (sim: Simulation)
        requires
            0 < size_x <= SIZE_LIMIT,
            0 < size_y <= SIZE_LIMIT,
        ensures
            sim.size_x == size_x,
            sim.size_y == size_y,
            sim.particles@.len() == num_particles,
            forall|i: int| 0 <= i < num_particles
                ==> freshly_sampled(sim.particles@[i], size_x as int, size_y as int),
            sim.wf(),
    {
        let half_x: i64 = ((size_x as u64) / 2) as i64;
        let half_y: i64 = ((size_y as u64) / 2) as i64;
        let mut particles: Vec<Particle> = Vec::new();
        let mut i: u32 = 0;
        while i < num_particles
            invariant
                0 < size_x <= SIZE_LIMIT,
                0 < size_y <= SIZE_LIMIT,
                half_x as int == (size_x as int) / 2,
                half_y as int == (size_y as int) / 2,
                i <= num_particles,
                particles@.len() == i,
                forall|k: int| 0 <= k < i
                    ==> freshly_sampled(particles@[k], size_x as int, size_y as int),
                forall|k: int| 0 <= k < i ==> particles@[k].wf(),
            decreases num_particles - i,
        {
            let x: i64 = sample_in_range(-half_x, half_x);
            let y: i64 = sample_in_range(-half_y, half_y);
            let charge: i64 = sample_in_range(-CHARGE_UNIT, CHARGE_UNIT);
            let mass: i64 = sample_in_range(MASS_MIN, MASS_MAX);
            particles.push(Particle::new(x, y, charge, mass));
            i = i + 1;
        }
        Simulation { size_x, size_y, particles }
    }

    /// Advances every particle by one frame. A snapshot of the whole
    /// population is taken first, and each particle is updated, in index
    /// order, against that snapshot alone: no particle ever sees a
    /// peer's already-advanced state, so the frame is order-independent
    /// and reads as if all particles moved simultaneously.
    pub fn run(&mut self)
        requires
            old(self).wf(),
        ensures
            final(self).size_x == old(self).size_x,
            final(self).size_y == old(self).size_y,
            final(self).particles@.len() == old(self).particles@.len(),
            forall|i: int| 0 <= i < old(self).particles@.len()
                ==> final(self).particles@[i] == particle_after(
                    old(self).particles@[i],
                    i,
                    old(self).particles@,
                    old(self).size_x as int,
                    old(self).size_y as int,
                ),
            final(self).wf(),
    {
        let n: usize = self.particles.len();
        let mut snapshot: Vec<Particle> = Vec::new();
        let mut i: usize = 0;
        while i < n
            invariant
                n == self.particles@.len(),
                i <= n,
                snapshot@ == self.particles@.take(i as int),
            decreases n - i,
        {
            snapshot.push(self.particles[i]);
            proof {
                assert(snapshot@ =~= self.particles@.take(i as int + 1));
            }
            i = i + 1;
        }
        proof {
            assert(snapshot@ =~= self.particles@);
        }
        let mut i: usize = 0;
        while i < n
            invariant
                n == old(self).particles@.len(),
                self.particles@.len() == n,
                i <= n,
                snapshot@ == old(self).particles@,
                forall|k: int| 0 <= k < n ==> snapshot@[k].wf(),
                self.size_x == old(self).size_x,
                self.size_y == old(self).size_y,
                0 < self.size_x <= SIZE_LIMIT,
                0 < self.size_y <= SIZE_LIMIT,
                forall|k: int| i <= k < n ==> self.particles@[k] == old(self).particles@[k],
                forall|k: int| 0 <= k < n ==> self.particles@[k].wf(),
                forall|k: int| 0 <= k < i
                    ==> self.particles@[k] == particle_after(
                        old(self).particles@[k],
                        k,
                        old(self).particles@,
                        old(self).size_x as int,
                        old(self).size_y as int,
                    ),
            decreases n - i,
        {
            let mut p: Particle = self.particles[i];
            p.move_particle(i, &snapshot, self.size_x, self.size_y);
            self.particles.set(i, p);
            i = i + 1;
        }
    }
}

} // verus!
