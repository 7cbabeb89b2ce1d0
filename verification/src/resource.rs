//! Resources: process-wide singletons consumed by systems, each owned by the
//! world and mutated only under declared write access.

use vstd::prelude::*;

verus! {

use crate::audio::Sound;
use crate::event::Event;
use crate::util::Direction;

/// The input events the paused menu consumes this frame.
pub struct MenuEvents(pub Vec<Event>);

/// The input events the running game consumes this frame.
pub struct GameEvents(pub Vec<Event>);

/// The raw events polled this frame.
pub struct Events(pub Vec<Event>);

/// Per-frame hand-off to the rendering collaborator: the acquired image and
/// the two prepared command buffers, as opaque identifiers the collaborator
/// issued.
pub struct Rendering {
    pub image_num: Option<usize>,
    pub command_buffer: Option<u64>,
    pub second_command_buffer: Option<u64>,
    pub size_points: Option<(u32, u32)>,
    pub size_pixels: Option<(u32, u32)>,
}

impl Rendering {
    pub fn new() -> (r: Rendering)
        ensures
            r.image_num is None,
            r.command_buffer is None,
            r.second_command_buffer is None,
            r.size_points is None,
            r.size_pixels is None,
    {
        Rendering {
            image_num: None,
            command_buffer: None,
            second_command_buffer: None,
            size_points: None,
            size_pixels: None,
        }
    }
}

/// Whether diagnostic output is on.
pub struct DebugMode(pub bool);

/// The depth attenuation the renderer applies, in [`crate::physics::DIR_SCALE`]
/// units; one whole unit when a level starts.
pub struct DepthCoef(pub i64);

/// The player's pending movement keys and accumulated look angles, in
/// [`crate::physics::DIR_SCALE`] angle units.
pub struct PlayerControl {
    pub directions: Vec<Direction>,
    pub pointer: [i64; 2],
}

impl PlayerControl {
    pub fn new() -> (r: PlayerControl)
        ensures
            r.directions@.len() == 0,
            r.pointer@[0] == 0 && r.pointer@[1] == 0,
    {
        PlayerControl { directions: Vec::new(), pointer: [0, 0] }
    }
}

/// Whether the current level attempt has ended.
pub struct EndLevel(pub bool);

/// Elapsed wall-clock nanoseconds since the previous frame; zero while
/// paused.
pub struct UpdateTime(pub u64);

/// Cumulative elapsed nanoseconds of the current level attempt.
pub struct GameDuration(pub u64);

/// Whether the current level's goal has been activated.
pub struct Activated(pub bool);

/// A pending level-transition request.
#[derive(Clone, Copy, PartialEq, Eq, Structural, Debug)]
pub enum LevelAction {
    Level(usize),
    Next,
    Reset,
    Custom,
    ReturnHall,
}

/// The level-transition requests queued this frame, drained once per frame.
pub struct LevelActions(pub Vec<LevelAction>);

/// How much of the scene the eraser pass has covered, in
/// [`crate::physics::DIR_SCALE`] units of the whole.
pub struct ErasedStatus {
    pub amount: i64,
}

impl ErasedStatus {
    pub fn new() -> (r: ErasedStatus)
        ensures
            r.amount == 0,
    {
        ErasedStatus { amount: 0 }
    }

    pub fn clear(&mut self)
        ensures
            final(self).amount == 0,
    {
        self.amount = 0;
    }
}

/// The menu's state: whether the game is paused and which menu buttons were
/// pressed this frame.
pub struct MenuState {
    pub pause: bool,
    pub quit_button: bool,
    pub restart_now_button: bool,
}

impl MenuState {
    pub fn paused(&self) -> (r: bool)
        ensures
            r == self.pause,
    {
        self.pause
    }
}

/// The sound cues queued for the audio collaborator this frame.
pub struct Audio {
    pub queue: Vec<Sound>,
}

impl Audio {
    pub fn new() -> (r: Audio)
        ensures
            r.queue@.len() == 0,
    {
        Audio { queue: Vec::new() }
    }

    /// Queues a cue with no spatial position.
    pub fn play_unspatial(&mut self, s: Sound)
        ensures
            final(self).queue@ == old(self).queue@.push(s),
    {
        self.queue.push(s);
    }
}

/// Parameters of a procedurally generated custom level, kept in the save
/// file.
#[derive(Clone, Copy, PartialEq, Eq, Structural, Debug)]
pub struct CustomLevelConf {
    pub maze_size: u32,
    pub percent: u32,
    pub motion_less: u32,
    pub motion_less_eraser: u32,
    pub attracted: u32,
    pub attracted_eraser: u32,
    pub bouncer: u32,
    pub bouncer_eraser: u32,
    pub avoider: u32,
    pub avoider_eraser: u32,
    pub turret: u32,
    pub x_shift: bool,
    pub y_shift: bool,
}

/// Persisted state, read and written through a narrow interface; the file
/// itself is the save collaborator's concern.
pub struct Save {
    pub scores: Vec<(usize, u64)>,
    pub custom_conf: CustomLevelConf,
    pub fullscreen: bool,
}

impl Save {
    /// Records a finished attempt's duration, in nanoseconds, for a level.
    pub fn insert_score(&mut self, level: usize, duration_ns: u64)
        ensures
            final(self).scores@ == old(self).scores@.push((level, duration_ns)),
            final(self).custom_conf == old(self).custom_conf,
            final(self).fullscreen == old(self).fullscreen,
    {
        self.scores.push((level, duration_ns));
    }

    /// The custom level's saved parameters.
    pub fn custom_level_conf(&self) -> (r: CustomLevelConf)
        ensures
            r == self.custom_conf,
    {
        self.custom_conf
    }

    pub fn fullscreen(&self) -> (r: bool)
        ensures
            r == self.fullscreen,
    {
        self.fullscreen
    }
}

} // verus!
