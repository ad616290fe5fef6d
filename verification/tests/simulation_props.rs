use charge_field::particle::Particle;
use charge_field::sim::Simulation;

fn particle(x: i64, y: i64, charge: i64, mass: i64) -> Particle {
    Particle { x, y, vx: 0, vy: 0, charge, mass }
}

#[test]
fn construction_yields_count_and_ranges() {
    let sim = Simulation::new(800_000, 600_000, 25);
    assert_eq!(sim.size_x, 800_000);
    assert_eq!(sim.size_y, 600_000);
    assert_eq!(sim.particles.len(), 25);
    for p in sim.particles.iter() {
        assert!(-400_000 <= p.x && p.x <= 400_000);
        assert!(-300_000 <= p.y && p.y <= 300_000);
        assert!(-1000 <= p.charge && p.charge <= 1000);
        assert!(500 <= p.mass && p.mass <= 50_000_000);
        assert_eq!(p.vx, 0);
        assert_eq!(p.vy, 0);
    }
}

#[test]
fn construction_of_empty_population() {
    let sim = Simulation::new(100_000, 100_000, 0);
    assert_eq!(sim.particles.len(), 0);
}

#[test]
fn two_like_charges_repel_along_their_axis() {
    // Two unit charges of equal mass, 20 pixels apart on the x-axis.
    // The first frame turns the velocities outward and exactly opposite;
    // positions move only from the second frame on, since each frame
    // steps the position before it accumulates force.
    let a = particle(-10_000, 0, 1000, 1000);
    let b = particle(10_000, 0, 1000, 1000);
    let mut sim = Simulation { size_x: 1_000_000_000, size_y: 1_000_000_000, particles: vec![a, b] };

    sim.run();
    let a1 = sim.particles[0];
    let b1 = sim.particles[1];
    assert_eq!(a1.x, -10_000);
    assert_eq!(b1.x, 10_000);
    assert_eq!(a1.vx, -22_468_879);
    assert_eq!(b1.vx, 22_468_879);
    assert_eq!(a1.vy, 0);
    assert_eq!(b1.vy, 0);

    sim.run();
    let a2 = sim.particles[0];
    let b2 = sim.particles[1];
    assert_eq!(a2.x, -22_478_879);
    assert_eq!(b2.x, 22_478_879);
    assert!(a2.x < a1.x);
    assert!(b2.x > b1.x);
    assert_eq!(a2.vy, 0);
    assert_eq!(b2.vy, 0);
}

#[test]
fn opposite_charges_attract_with_symmetric_velocities() {
    // Equal and opposite charges, equal mass: the frame's velocity
    // changes are equal in magnitude and opposite in direction.
    let a = particle(-10_000, 0, 1000, 1000);
    let b = particle(10_000, 0, -1000, 1000);
    let mut sim = Simulation { size_x: 1_000_000_000, size_y: 1_000_000_000, particles: vec![a, b] };
    sim.run();
    let a1 = sim.particles[0];
    let b1 = sim.particles[1];
    assert_eq!(a1.vx, -b1.vx);
    assert_eq!(a1.vy, -b1.vy);
    assert!(a1.vx > 0, "unlike charges must attract");
    assert_eq!(a1.vy, 0);
}

#[test]
fn lone_inert_particle_never_moves() {
    let p = particle(12_345, -9_876, 0, 1000);
    let mut sim = Simulation { size_x: 800_000, size_y: 600_000, particles: vec![p] };
    for _ in 0..5 {
        sim.run();
        assert_eq!(sim.particles[0].x, 12_345);
        assert_eq!(sim.particles[0].y, -9_876);
        assert_eq!(sim.particles[0].vx, 0);
        assert_eq!(sim.particles[0].vy, 0);
    }
}

#[test]
fn frame_uses_one_snapshot_for_all() {
    // The update of the second particle must see the first particle's
    // frame-start state, not its already-advanced state: the frame is
    // symmetric, so the velocities come out exactly opposite.
    let a = particle(-7_000, 0, 800, 2000);
    let b = particle(7_000, 0, 800, 2000);
    let mut sim = Simulation { size_x: 1_000_000_000, size_y: 1_000_000_000, particles: vec![a, b] };
    sim.run();
    sim.run();
    let a2 = sim.particles[0];
    let b2 = sim.particles[1];
    assert_eq!(a2.vx, -b2.vx);
    assert_eq!(a2.x, -b2.x);
}

#[test]
fn pinned_particle_keeps_accumulating_velocity() {
    // A particle stuck at the boundary keeps its outward velocity: the
    // clamp pins the position only, and force keeps adding to the
    // velocity, so it can only come back once the net force turns it.
    let mut stuck = particle(400_000, 0, 1000, 1000);
    stuck.vx = 5_000;
    let peer = particle(0, 0, 1000, 1000);
    let mut sim = Simulation { size_x: 800_000, size_y: 800_000, particles: vec![stuck, peer] };
    sim.run();
    let s1 = sim.particles[0];
    assert_eq!(s1.x, 400_000);
    assert!(s1.vx > 5_000, "repulsion from the center keeps pushing outward");
    sim.run();
    assert_eq!(sim.particles[0].x, 400_000);
}
