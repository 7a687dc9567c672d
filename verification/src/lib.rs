//! A verified engine for a grid-based snake game.
//!
//! The engine is pure simulation logic: wrap-around movement on a toroidal
//! grid, a snake that grows by eating fruit, destructible wall clusters, and
//! the per-tick orchestration that ties them together.  Rendering and input
//! decoding are left to the caller; the only nondeterminism is the random
//! placement of walls and fruit, which is drawn behind a small trusted
//! boundary.

pub mod constants;
pub mod elements;
pub mod game;
