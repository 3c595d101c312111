//! Procedural generation of a two-dimensional dungeon floor plan: rooms joined
//! by straight corridors, spawn points placed inside them, and the tile grid
//! that a renderer and a movement system read.
//!
//! - [`vector`]: cells of the grid and wide coordinates.
//! - [`room`]: rooms, corridors, the box that stands for each, and the
//!   overlap test.
//! - [`random`]: the random source that the steps draw from.
//! - [`dungeon_state`]: the state of a generation run and its builder.
//! - [`dungeon_generator`]: the steps that place rooms and corridors, and the
//!   generator that runs a plan of steps.
//! - [`spawn_generation`], [`key`], [`door`]: the steps that place spawn points.
//! - [`plan`]: what holds of every state that a run of a plan reaches.
//! - [`map`]: the tile grid of a finished floor plan.
//! - [`movement`]: what stands in the way of a step on the tile grid.
//! - [`inventory`]: what the player carries.
//! - [`error`]: why a step or a run failed.
//!
//! Every function of the library is verified against its contract, but for
//! the few in [`random`], [`map`] and [`inventory`] that call `rand` and
//! `bevy` and whose contracts are taken on trust; each of those says so.

pub mod door;
pub mod dungeon_generator;
pub mod dungeon_state;
pub mod error;
pub mod inventory;
pub mod key;
pub mod map;
pub mod movement;
pub mod plan;
pub mod random;
pub mod room;
pub mod spawn_generation;
pub mod vector;
