//! The discrete core of a pond of flexible, flocking fish.
//!
//! A fish is a chain of points that is bent, waved and straightened once per
//! tick, and a school of fish steers by looking at its neighbours. The numbers
//! involved are reals, and they live with the caller. What lives here is the
//! part of the simulation that is about order and membership rather than about
//! magnitude: which point of a spine is touched when, which points feed each
//! outline vertex, which neighbour counts towards which force, which wall
//! pushes along an axis, and when a tick reads the school and when it writes. Every function names points and agents by index and
//! carries a contract that fixes its result.

pub mod contour;
pub mod flock;
pub mod spine;
pub mod tick;
pub mod walls;
