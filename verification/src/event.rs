//! The engine-side model of window and device input events.
//!
//! The windowing collaborator delivers its own event values; the engine works
//! on this plain-data mirror, with cursor positions and wheel deltas as
//! integer counts, so that the per-frame filtering and control decisions are
//! provable.

use vstd::prelude::*;

verus! {

/// A key identifier, mirroring the windowing collaborator's key codes.
#[derive(Clone, Copy, PartialEq, Eq, Structural, Debug)]
pub enum VirtualKeyCodeDef {
    Key1,
    Key2,
    Key3,
    Key4,
    Key5,
    Key6,
    Key7,
    Key8,
    Key9,
    Key0,
    A,
    B,
    C,
    D,
    E,
    F,
    G,
    H,
    I,
    J,
    K,
    L,
    M,
    N,
    O,
    P,
    Q,
    R,
    S,
    T,
    U,
    V,
    W,
    X,
    Y,
    Z,
    Escape,
    F1,
    F2,
    F3,
    F4,
    F5,
    F6,
    F7,
    F8,
    F9,
    F10,
    F11,
    F12,
    F13,
    F14,
    F15,
    Snapshot,
    Scroll,
    Pause,
    Insert,
    Home,
    Delete,
    End,
    PageDown,
    PageUp,
    Left,
    Up,
    Right,
    Down,
    Back,
    Return,
    Space,
    Compose,
    Caret,
    Numlock,
    Numpad0,
    Numpad1,
    Numpad2,
    Numpad3,
    Numpad4,
    Numpad5,
    Numpad6,
    Numpad7,
    Numpad8,
    Numpad9,
    AbntC1,
    AbntC2,
    Add,
    Apostrophe,
    Apps,
    At,
    Ax,
    Backslash,
    Calculator,
    Capital,
    Colon,
    Comma,
    Convert,
    Decimal,
    Divide,
    Equals,
    Grave,
    Kana,
    Kanji,
    LAlt,
    LBracket,
    LControl,
    LMenu,
    LShift,
    LWin,
    Mail,
    MediaSelect,
    MediaStop,
    Minus,
    Multiply,
    Mute,
    MyComputer,
    NavigateForward,
    NavigateBackward,
    NextTrack,
    NoConvert,
    NumpadComma,
    NumpadEnter,
    NumpadEquals,
    OEM102,
    Period,
    PlayPause,
    Power,
    PrevTrack,
    RAlt,
    RBracket,
    RControl,
    RMenu,
    RShift,
    RWin,
    Semicolon,
    Slash,
    Sleep,
    Stop,
    Subtract,
    Sysrq,
    Tab,
    Underline,
    Unlabeled,
    VolumeDown,
    VolumeUp,
    Wake,
    WebBack,
    WebFavorites,
    WebForward,
    WebHome,
    WebRefresh,
    WebSearch,
    WebStop,
    Yen,
    Copy,
    Paste,
    Cut,
}

/// A mouse button identifier.
#[derive(Clone, Copy, PartialEq, Eq, Structural, Debug)]
pub enum MouseButtonDef {
    Left,
    Right,
    Middle,
    Other(u8),
}

/// Whether a key or button went down or up.
#[derive(Clone, Copy, PartialEq, Eq, Structural, Debug)]
pub enum ElementState {
    Pressed,
    Released,
}

/// A keyboard transition: the hardware scancode, the transition, and the
/// resolved key if the collaborator knew one.
#[derive(Clone, Copy, PartialEq, Eq, Structural, Debug)]
pub struct KeyboardInput {
    pub scancode: u32,
    pub state: ElementState,
    pub virtual_keycode: Option<VirtualKeyCodeDef>,
}

/// The phase of a touch-driven scroll.
#[derive(Clone, Copy, PartialEq, Eq, Structural, Debug)]
pub enum TouchPhase {
    Started,
    Moved,
    Ended,
    Cancelled,
}

/// A scroll amount, in lines or in pixels.
#[derive(Clone, Copy, PartialEq, Eq, Structural, Debug)]
pub enum MouseScrollDelta {
    LineDelta(i64, i64),
    PixelDelta(i64, i64),
}

/// An event attached to the window.
#[derive(Clone, Copy, PartialEq, Eq, Structural, Debug)]
pub enum WindowEvent {
    Focused(bool),
    CloseRequested,
    MouseInput { state: ElementState, button: MouseButtonDef },
    ReceivedCharacter(char),
    MouseWheel { delta: MouseScrollDelta, phase: TouchPhase },
    KeyboardInput { input: KeyboardInput },
    CursorMoved { x: i64, y: i64 },
    Other,
}

/// An event from an input device, not tied to the window.
#[derive(Clone, Copy, PartialEq, Eq, Structural, Debug)]
pub enum DeviceEvent {
    MouseMotion { dx: i64, dy: i64 },
    Other,
}

/// One polled event.
#[allow(inconsistent_fields)]
#[derive(Clone, Copy, PartialEq, Eq, Structural, Debug)]
pub enum Event {
    WindowEvent { window_id: u64, event: WindowEvent },
    DeviceEvent { event: DeviceEvent },
}

/// A window event belongs to this frame only when it comes from the engine's
/// own window.
pub open spec fn from_this_window(ev: Event, current_window_id: u64) -> bool {
    match ev {
        Event::WindowEvent { window_id, .. } => window_id == current_window_id,
        Event::DeviceEvent { .. } => true,
    }
}

/// The events the simulation consumes: mouse input, characters, wheel,
/// keyboard, raw mouse motion and cursor position, all from this window.
pub open spec fn retained(ev: Event, current_window_id: u64) -> bool {
    from_this_window(ev, current_window_id) && match ev {
        Event::WindowEvent { event, .. } => match event {
            WindowEvent::MouseInput { .. } => true,
            WindowEvent::ReceivedCharacter(..) => true,
            WindowEvent::MouseWheel { .. } => true,
            WindowEvent::KeyboardInput { .. } => true,
            WindowEvent::CursorMoved { .. } => true,
            _ => false,
        },
        Event::DeviceEvent { event } => event is MouseMotion,
    }
}

/// The window was asked to close.
pub open spec fn close_requested(ev: Event, current_window_id: u64) -> bool {
    from_this_window(ev, current_window_id) && (ev matches Event::WindowEvent { event, .. }
        && event is CloseRequested)
}

/// The window regained focus, so the cursor grab must be re-established.
pub open spec fn focus_gained(ev: Event, current_window_id: u64) -> bool {
    from_this_window(ev, current_window_id) && (ev matches Event::WindowEvent { event, .. }
        && event == WindowEvent::Focused(true))
}

/// The retained prefix of a polled batch.
pub open spec fn retained_events(polled: Seq<Event>, current_window_id: u64) -> Seq<Event>
    decreases polled.len(),
{
    if polled.len() == 0 {
        Seq::empty()
    } else {
        let prev = retained_events(polled.drop_last(), current_window_id);
        if retained(polled.last(), current_window_id) {
            prev.push(polled.last())
        } else {
            prev
        }
    }
}

/// Sifts one frame's polled events: keeps exactly the input events the
/// simulation consumes, and reports whether the window was asked to close and
/// whether it regained focus (so the caller re-grabs the cursor).
pub fn filter_polled_events(polled: &Vec<Event>, current_window_id: u64) -> (r: (
    Vec<Event>,
    bool,
    bool,
))
    ensures
        r.0@ == retained_events(polled@, current_window_id),
        r.1 == exists|i: int|
            0 <= i < polled@.len() && close_requested(#[trigger] polled@[i], current_window_id),
        r.2 == exists|i: int|
            0 <= i < polled@.len() && focus_gained(#[trigger] polled@[i], current_window_id),
{
    let mut kept: Vec<Event> = Vec::new();
    let mut quit = false;
    let mut refocus = false;
    let n = polled.len();
    let mut i: usize = 0;
    while i < n
        invariant
            n == polled@.len(),
            i <= n,
            kept@ == retained_events(polled@.subrange(0, i as int), current_window_id),
            quit == exists|j: int|
                0 <= j < i && close_requested(#[trigger] polled@[j], current_window_id),
            refocus == exists|j: int|
                0 <= j < i && focus_gained(#[trigger] polled@[j], current_window_id),
        decreases n - i,
    {
        let ev = polled[i];
        proof {
            assert(polled@.subrange(0, i as int + 1).drop_last() =~= polled@.subrange(0, i as int));
            assert(polled@.subrange(0, i as int + 1).last() == polled@[i as int]);
        }
        let this_window = match ev {
            Event::WindowEvent { window_id, .. } => window_id == current_window_id,
            Event::DeviceEvent { .. } => true,
        };
        if this_window {
            match ev {
                Event::WindowEvent { event: WindowEvent::Focused(true), .. } => {
                    refocus = true;
                },
                Event::WindowEvent { event: WindowEvent::CloseRequested, .. } => {
                    quit = true;
                },
                Event::WindowEvent { event: WindowEvent::MouseInput { .. }, .. }
                | Event::WindowEvent { event: WindowEvent::ReceivedCharacter(..), .. }
                | Event::WindowEvent { event: WindowEvent::MouseWheel { .. }, .. }
                | Event::WindowEvent { event: WindowEvent::KeyboardInput { .. }, .. }
                | Event::WindowEvent { event: WindowEvent::CursorMoved { .. }, .. }
                | Event::DeviceEvent { event: DeviceEvent::MouseMotion { .. } } => {
                    kept.push(ev);
                },
                _ => {},
            }
        }
        i = i + 1;
    }
    proof {
        assert(polled@.subrange(0, n as int) =~= polled@);
    }
    (kept, quit, refocus)
}

} // verus!
