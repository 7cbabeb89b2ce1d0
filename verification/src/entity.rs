//! Entity construction: the archetypes a level may spawn and the helpers
//! that assemble their components.

use vstd::prelude::*;

pub mod player;
pub mod static_draw;
pub mod teleport;

verus! {

/// The archetype of one spawnable enemy or obstacle in a generated level.
#[derive(Clone, Copy, PartialEq, Eq, Structural, Debug)]
pub enum EntityConf {
    MotionLess { eraser: bool },
    Attracted { eraser: bool },
    Bouncer { eraser: bool },
    Avoider { eraser: bool },
    Turret,
}

impl EntityConf {
    /// Turret-like archetypes are placed on wall cells; everything else roams
    /// the floor cells.
    pub fn is_turret_like(&self) -> (r: bool)
        ensures
            r == (*self is Turret),
    {
        match self {
            EntityConf::Turret => true,
            _ => false,
        }
    }
}

} // verus!
