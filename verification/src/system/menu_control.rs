//! Menu control: pausing and unpausing from the keyboard, and the mouse
//! state the menu UI collaborator consumes.

use vstd::prelude::*;

verus! {

use crate::event::ElementState;
use crate::event::Event;
use crate::event::MouseButtonDef;
use crate::event::VirtualKeyCodeDef;
use crate::event::WindowEvent;
use crate::world::World;

/// The escape key went down in this event.
pub open spec fn escape_pressed(ev: Event) -> bool {
    ev matches Event::WindowEvent { event: WindowEvent::KeyboardInput { input }, .. }
        && input.virtual_keycode == Some(VirtualKeyCodeDef::Escape) && input.state
        == ElementState::Pressed
}

/// While the game runs, the escape key pauses it.
pub struct MenuGameControlSystem;

impl MenuGameControlSystem {
    /// Pauses exactly when some polled event is an escape key press.
    pub fn run(&mut self, world: &mut World)
        ensures
            final(world).menu_state.pause == (old(world).menu_state.pause || exists|i: int|
                0 <= i < old(world).events.0@.len() && escape_pressed(
                    #[trigger] old(world).events.0@[i],
                )),
            final(world).menu_state.quit_button == old(world).menu_state.quit_button,
            final(world).menu_state.restart_now_button == old(world).menu_state.restart_now_button,
            // Nothing but the menu state is read into or written: the whole
            // world is the old one, up to that field.
            *final(world) == (World { menu_state: final(world).menu_state, ..*old(world) }),
    {
        let n = world.events.0.len();
        let mut i: usize = 0;
        while i < n
            invariant
                n == world.events.0@.len(),
                i <= n,
                *world == (World { menu_state: world.menu_state, ..*old(world) }),
                world.menu_state.quit_button == old(world).menu_state.quit_button,
                world.menu_state.restart_now_button == old(world).menu_state.restart_now_button,
                world.menu_state.pause == (old(world).menu_state.pause || exists|j: int|
                    0 <= j < i && escape_pressed(#[trigger] old(world).events.0@[j])),
            decreases n - i,
        {
            let ev = world.events.0[i];
            match ev {
                Event::WindowEvent { event: WindowEvent::KeyboardInput { input }, .. } => {
                    let is_escape = match input.virtual_keycode {
                        Some(VirtualKeyCodeDef::Escape) => true,
                        _ => false,
                    };
                    let is_pressed = match input.state {
                        ElementState::Pressed => true,
                        ElementState::Released => false,
                    };
                    if is_escape && is_pressed {
                        world.menu_state.pause = true;
                    }
                },
                _ => {},
            }
            i = i + 1;
        }
    }
}

/// While the menu is up, the escape key resumes the game, and the mouse
/// buttons are tracked for the UI collaborator.
pub struct MenuPauseControlSystem {
    pub mouse_down: [bool; 5],
}

impl MenuPauseControlSystem {
    pub fn new() -> (r: MenuPauseControlSystem)
        ensures
            forall|i: int| 0 <= i < 5 ==> !(#[trigger] r.mouse_down@[i]),
    {
        MenuPauseControlSystem { mouse_down: [false, false, false, false, false] }
    }
}

/// The UI slot a mouse button maps to, if it is tracked.
pub open spec fn button_slot(b: MouseButtonDef) -> Option<int> {
    match b {
        MouseButtonDef::Left => Some(0int),
        MouseButtonDef::Right => Some(1int),
        MouseButtonDef::Middle => Some(2int),
        MouseButtonDef::Other(x) => if x == 0 {
            Some(3int)
        } else if x == 1 {
            Some(4int)
        } else {
            None
        },
    }
}

/// The tracked mouse state after one batch of events.
pub open spec fn mouse_down_after(md: Seq<bool>, events: Seq<Event>) -> Seq<bool>
    decreases events.len(),
{
    if events.len() == 0 {
        md
    } else {
        let prev = mouse_down_after(md, events.drop_last());
        match events.last() {
            Event::WindowEvent { event: WindowEvent::MouseInput { state, button }, .. } => {
                match button_slot(button) {
                    Some(slot) => prev.update(slot, state is Pressed),
                    None => prev,
                }
            },
            _ => prev,
        }
    }
}

impl MenuPauseControlSystem {
    /// Resumes exactly when some polled event is an escape key press, and
    /// folds the batch's mouse transitions into the tracked button state.
    pub fn run(&mut self, world: &mut World)
        ensures
            final(world).menu_state.pause == (old(world).menu_state.pause && !exists|i: int|
                0 <= i < old(world).events.0@.len() && escape_pressed(
                    #[trigger] old(world).events.0@[i],
                )),
            final(self).mouse_down@ == mouse_down_after(
                old(self).mouse_down@,
                old(world).events.0@,
            ),
            final(world).menu_state.quit_button == old(world).menu_state.quit_button,
            final(world).menu_state.restart_now_button == old(world).menu_state.restart_now_button,
            // Nothing but the menu state is written: the whole world is the
            // old one, up to that field.
            *final(world) == (World { menu_state: final(world).menu_state, ..*old(world) }),
    {
        let n = world.events.0.len();
        let mut i: usize = 0;
        while i < n
            invariant
                n == world.events.0@.len(),
                i <= n,
                *world == (World { menu_state: world.menu_state, ..*old(world) }),
                world.menu_state.quit_button == old(world).menu_state.quit_button,
                world.menu_state.restart_now_button == old(world).menu_state.restart_now_button,
                world.menu_state.pause == (old(world).menu_state.pause && !exists|j: int|
                    0 <= j < i && escape_pressed(#[trigger] old(world).events.0@[j])),
                self.mouse_down@ == mouse_down_after(
                    old(self).mouse_down@,
                    old(world).events.0@.subrange(0, i as int),
                ),
                self.mouse_down@.len() == 5,
            decreases n - i,
        {
            let ev = world.events.0[i];
            proof {
                assert(old(world).events.0@.subrange(0, i as int + 1).drop_last() =~= old(
                    world,
                ).events.0@.subrange(0, i as int));
                assert(old(world).events.0@.subrange(0, i as int + 1).last() == old(
                    world,
                ).events.0@[i as int]);
            }
            match ev {
                Event::WindowEvent { event: WindowEvent::KeyboardInput { input }, .. } => {
                    let is_escape = match input.virtual_keycode {
                        Some(VirtualKeyCodeDef::Escape) => true,
                        _ => false,
                    };
                    let is_pressed = match input.state {
                        ElementState::Pressed => true,
                        ElementState::Released => false,
                    };
                    if is_escape && is_pressed {
                        world.menu_state.pause = false;
                    }
                },
                Event::WindowEvent { event: WindowEvent::MouseInput { state, button }, .. } => {
                    let pressed = match state {
                        ElementState::Pressed => true,
                        ElementState::Released => false,
                    };
                    match button {
                        MouseButtonDef::Left => self.mouse_down.set(0, pressed),
                        MouseButtonDef::Right => self.mouse_down.set(1, pressed),
                        MouseButtonDef::Middle => self.mouse_down.set(2, pressed),
                        MouseButtonDef::Other(0) => self.mouse_down.set(3, pressed),
                        MouseButtonDef::Other(1) => self.mouse_down.set(4, pressed),
                        MouseButtonDef::Other(_) => {},
                    }
                },
                _ => {},
            }
            i = i + 1;
        }
        proof {
            assert(old(world).events.0@.subrange(0, n as int) =~= old(world).events.0@);
        }
    }
}

} // verus!
