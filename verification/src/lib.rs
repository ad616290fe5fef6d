//! A 2D charged-particle field under pairwise Coulomb attraction and
//! repulsion, advanced frame by frame.
//!
//! All physical quantities are held in fixed-point integer units so that
//! every step of the per-frame computation carries an exact contract:
//! positions and velocities in thousandths of a pixel, charge in
//! thousandths of the unit charge, mass in whole mass units. The host
//! that draws the particles converts these plain values at its edge.

pub mod math;
pub mod particle;
pub mod laws;
pub mod sim;
