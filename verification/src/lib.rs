//! Kinematics of a field of particles that follow a noise pattern.
//!
//! Every coordinate, speed, colour part and factor is a fixed-point number: an `i64`
//! that counts steps of 2^-32 (see `fixed`). The noise itself and the sines and
//! cosines of its angles are computed by the caller, who hands in headings and
//! directions and draws what comes out.
//!
//! - `window`: the rectangle in which the particles live.
//! - `particle`: one particle, how it is placed and how it steps.
//! - `store`: the population, oldest first, and the steps of all particles.
//! - `field`: a grid of forces looked up by nearest cell.
//! - `noise`: seed and scale of the pattern, and where a position reads it.
//! - `color`: the colours and the luminosity.
//! - `control`: what the keys do.
mod chance;
pub mod color;
pub mod control;
pub mod field;
pub mod fixed;
pub mod noise;
pub mod particle;
pub mod store;
pub mod window;
