//! The shapes of the two render passes: the scene pass draws into color,
//! depth and an erasure mask, the compositing pass draws onto the swapchain
//! image. The attachment formats and GPU objects live with the rendering
//! collaborator; the engine states only the pass structure.

use vstd::prelude::*;

verus! {

/// The primary scene pass: four attachments, three subpasses, two
/// dependencies between them.
pub struct CustomRenderPassDesc;

impl CustomRenderPassDesc {
    pub fn num_attachments(&self) -> (r: usize)
        ensures
            r == 4,
    {
        4
    }

    pub fn num_subpasses(&self) -> (r: usize)
        ensures
            r == 3,
    {
        3
    }

    pub fn num_dependencies(&self) -> (r: usize)
        ensures
            r == 2,
    {
        2
    }
}

/// The compositing pass: one attachment, one subpass, no dependencies.
pub struct SecondCustomRenderPassDesc;

impl SecondCustomRenderPassDesc {
    pub fn new() -> SecondCustomRenderPassDesc {
        SecondCustomRenderPassDesc
    }

    pub fn num_attachments(&self) -> (r: usize)
        ensures
            r == 1,
    {
        1
    }

    pub fn num_subpasses(&self) -> (r: usize)
        ensures
            r == 1,
    {
        1
    }

    pub fn num_dependencies(&self) -> (r: usize)
        ensures
            r == 0,
    {
        0
    }
}

} // verus!
