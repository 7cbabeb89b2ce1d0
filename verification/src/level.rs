//! Level construction plans: what the engine asks the level-construction
//! collaborators to build when the lifecycle controller rebuilds the world.

use vstd::prelude::*;

pub mod kill_all_kruskal;

verus! {

/// What the maze-generation collaborator is asked to produce for a custom
/// level: the grid size, the wall-removal percentage, the generator's offset
/// quirk, and how many entities of each placement kind to seed.
#[derive(Clone, Copy, Debug)]
pub struct MazeRequest {
    pub size: (i64, i64),
    pub percent: u32,
    pub bug: (i64, i64),
    pub turrets: usize,
    pub others: usize,
}

} // verus!
