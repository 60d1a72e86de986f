//! Procedural growth of "pipes" through a bounded three-dimensional grid.
//!
//! Each pipe occupies a chain of adjacent cells, turns at random, avoids
//! cells that are already occupied, and eventually freezes or dies. The
//! crate provides the coordinate and direction algebra, the occupancy
//! grid, the per-pipe growth state machine, and the manager that spawns,
//! steps, and retires pipes. Rendering and argument parsing are left to
//! the embedding program, which consumes the stream of `Delta` events.

pub mod error;
pub mod node_struct;
pub mod pipe;
pub mod randsrc;
pub mod util;
pub mod world;
