//! Core simulation engine for a first-person 3D arena game.
//!
//! The engine coordinates an entity-component world through a per-frame
//! pipeline: gameplay systems accumulate forces, a sub-stepped physics pass
//! advances the world and routes contact and proximity events back onto
//! components, and a level lifecycle controller decides when the world is
//! torn down and rebuilt.
//!
//! Rendering, audio, windowing and the rigid-body constraint solver are
//! outside collaborators. Their numeric state (positions, velocities,
//! forces) is modelled here as fixed-point integer vectors, and their
//! per-step results enter the engine as plain values, so that every rule
//! the engine enforces over them is stated and proved.

use vstd::prelude::*;

pub mod audio;
pub mod component;
pub mod config;
pub mod entity;
pub mod event;
pub mod events;
pub mod frame;
pub mod graphics;
pub mod level;
pub mod physics;
pub mod resource;
pub mod scheduler;
pub mod system;
pub mod util;
pub mod vec3;
pub mod world;

verus! {

} // verus!
