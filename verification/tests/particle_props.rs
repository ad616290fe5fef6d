use charge_field::math::isqrt_u128;
use charge_field::particle::Particle;

fn particle(x: i64, y: i64, vx: i64, vy: i64, charge: i64, mass: i64) -> Particle {
    Particle { x, y, vx, vy, charge, mass }
}

#[test]
fn isqrt_exact_values() {
    assert_eq!(isqrt_u128(0), 0);
    assert_eq!(isqrt_u128(1), 1);
    assert_eq!(isqrt_u128(3), 1);
    assert_eq!(isqrt_u128(4), 2);
    assert_eq!(isqrt_u128(15), 3);
    assert_eq!(isqrt_u128(16), 4);
    assert_eq!(isqrt_u128(1_000_001), 1000);
    assert_eq!(isqrt_u128(400_000_000), 20_000);
}

#[test]
fn new_particle_starts_at_rest() {
    let p = Particle::new(1234, -5678, 1000, 750);
    assert_eq!(p.x, 1234);
    assert_eq!(p.y, -5678);
    assert_eq!(p.vx, 0);
    assert_eq!(p.vy, 0);
    assert_eq!(p.charge, 1000);
    assert_eq!(p.mass, 750);
}

#[test]
fn inert_particle_velocity_unchanged() {
    // A particle with zero charge takes no force from any peer.
    let mut p = particle(0, 0, 7, -3, 0, 1000);
    let peers = vec![
        p,
        particle(5_000, 0, 0, 0, 1000, 1000),
        particle(0, -5_000, 0, 0, -1000, 2000),
    ];
    p.move_particle(0, &peers, 1_000_000, 1_000_000);
    assert_eq!(p.vx, 7);
    assert_eq!(p.vy, -3);
    assert_eq!(p.x, 7);
    assert_eq!(p.y, -3);
}

#[test]
fn uncharged_peer_is_no_source() {
    // A zero-charge peer exerts no force on a charged particle.
    let mut p = particle(0, 0, 0, 0, 1000, 1000);
    let peers = vec![p, particle(5_000, 1_000, 0, 0, 0, 1000)];
    p.move_particle(0, &peers, 1_000_000, 1_000_000);
    assert_eq!(p.vx, 0);
    assert_eq!(p.vy, 0);
}

#[test]
fn coincident_pair_is_left_unmoved() {
    // Two charged particles at the same point: the singular pair
    // contributes nothing instead of an unbounded value.
    let mut p = particle(100, 200, 0, 0, 1000, 1000);
    let peers = vec![p, particle(100, 200, 0, 0, -1000, 1000)];
    p.move_particle(0, &peers, 1_000_000, 1_000_000);
    assert_eq!(p.vx, 0);
    assert_eq!(p.vy, 0);
    assert_eq!(p.x, 100);
    assert_eq!(p.y, 200);
}

#[test]
fn boundary_pins_position_exactly() {
    // Beyond the right boundary: pinned to exactly half the width, and
    // the clamp leaves the velocity alone.
    let mut p = particle(400_000 + 5_000, 0, 123, 0, 0, 1000);
    let peers = vec![p];
    p.move_particle(0, &peers, 800_000, 600_000);
    assert_eq!(p.x, 400_000);
    assert_eq!(p.vx, 123);

    // Beyond the left boundary.
    let mut q = particle(-400_001, 10, -55, 0, 0, 1000);
    let peers = vec![q];
    q.move_particle(0, &peers, 800_000, 600_000);
    assert_eq!(q.x, -400_000);
    assert_eq!(q.vx, -55);

    // Same rule on the vertical axis.
    let mut r = particle(0, 300_000, 0, 99, 0, 1000);
    let peers = vec![r];
    r.move_particle(0, &peers, 800_000, 600_000);
    assert_eq!(r.y, 300_000);
    assert_eq!(r.vy, 99);
}

#[test]
fn update_is_deterministic() {
    // Identical inputs give bit-identical outputs, however often run.
    let peers = vec![
        particle(-10_000, 3_000, 5, -5, 1000, 1000),
        particle(10_000, -2_000, 0, 0, -750, 2500),
        particle(0, 8_000, 0, 0, 333, 600),
    ];
    let mut a = peers[0];
    let mut b = peers[0];
    a.move_particle(0, &peers, 1_000_000, 1_000_000);
    b.move_particle(0, &peers, 1_000_000, 1_000_000);
    assert_eq!(a.x, b.x);
    assert_eq!(a.y, b.y);
    assert_eq!(a.vx, b.vx);
    assert_eq!(a.vy, b.vy);
    assert_eq!(a.charge, b.charge);
    assert_eq!(a.mass, b.mass);
}

#[test]
fn screen_position_recenters_origin() {
    let p = particle(-10_000, 2_500, 0, 0, 0, 1000);
    assert_eq!(p.screen_x(800_000), 390_000);
    assert_eq!(p.screen_y(600_000), 302_500);
}

#[test]
fn radius_remaps_mass_range() {
    // Lightest mass: just over a thousandth of a pixel.
    let light = particle(0, 0, 0, 0, 0, 500);
    assert_eq!(light.radius_micro_px(), 1);
    // Heaviest mass: just over 64 pixels.
    let heavy = particle(0, 0, 0, 0, 0, 50_000_000);
    assert_eq!(heavy.radius_micro_px(), 64_000_001);
}

#[test]
fn charge_blend_spans_color_range() {
    assert_eq!(particle(0, 0, 0, 0, -1000, 1000).charge_blend_milli(), 0);
    assert_eq!(particle(0, 0, 0, 0, 0, 1000).charge_blend_milli(), 500);
    assert_eq!(particle(0, 0, 0, 0, 999, 1000).charge_blend_milli(), 999);
    assert_eq!(particle(0, 0, 0, 0, 1000, 1000).charge_blend_milli(), 1000);
}
