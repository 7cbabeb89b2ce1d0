//! Sound cues the engine asks the audio collaborator to play.

use vstd::prelude::*;

verus! {

/// A cue; the audio collaborator owns the samples and the mixing.
#[derive(Clone, Copy, PartialEq, Eq, Structural, Debug)]
pub enum Sound {
    Portal,
    Shoot,
    Death,
}

} // verus!
