//! Input state between frames: which keys went down or up since the last
//! frame, the mouse buttons, and the size the window was last told to have.

use vstd::prelude::*;
use vstd::std_specs::iter::IteratorSpec;
use std::collections::HashMap;
use std::collections::HashSet;
use crate::swapchain::Extent;

verus! {

broadcast use vstd::std_specs::hash::group_hash_axioms;

/// The code of the escape key, which asks the window to close.
pub const KEY_ESCAPE: u64 = 256;

/// The code of the F11 key, which switches between windowed and full screen.
pub const KEY_F11: u64 = 300;

/// Where the window's corner is put, along both axes, when it leaves full screen.
pub const WINDOWED_ORIGIN: i32 = 200;

/// The window's width and height when it leaves full screen.
pub const WINDOWED_SIZE: u32 = 800;

/// How the window occupies the screen.
#[derive(Clone, Copy, Debug, PartialEq, Eq, Structural)]
pub enum WindowMode {
    /// The whole primary monitor, at its current video mode.
    FullScreen,
    /// A window at `(x, y)` of the given size.
    Windowed { x: i32, y: i32, width: u32, height: u32 },
}

/// What happened to a key or a button.
#[derive(Clone, Copy, Debug, PartialEq, Eq, Structural)]
pub enum Action {
    Release,
    Press,
    Repeat,
}

/// A mouse button.
#[derive(Clone, Copy, Debug, PartialEq, Eq, Structural)]
pub enum MouseButton {
    Left,
    Right,
    Other,
}

/// An event of the window, as far as the handler reads it.
#[derive(Clone, Copy, Debug, PartialEq, Eq, Structural)]
pub enum WindowEvent {
    Key { key: u64, action: Action },
    MouseButton { button: MouseButton, action: Action },
    FramebufferSize { width: i32, height: i32 },
    Other,
}

/// What the frame loop has to do about an event.
#[derive(Clone, Copy, Debug, PartialEq, Eq, Structural)]
pub enum Reaction {
    /// Nothing beyond what the handler noted.
    Nothing,
    /// Close the window.
    Close,
    /// Tell the presenter that the window has a new size.
    Resized,
}

/// The handler as a value.
pub struct EventState {
    /// The keys that are down, each with the number of keys that were down
    /// when it went down.
    pub keys_pressed: Map<u64, usize>,
    /// The keys that were down when the last frame began.
    pub keys_pressed_last_frame: Set<u64>,
    /// The keys that went up and have not gone down since.
    pub keys_released: Map<u64, usize>,
    /// The keys that were up in this sense when the last frame began.
    pub keys_released_last_frame: Set<u64>,
    pub width: i32,
    pub height: i32,
    pub lmb: bool,
    pub rmb: bool,
}

impl EventState {
    /// No key has been touched and the window is one pixel wide and high.
    pub open spec fn initial() -> EventState {
        EventState {
            keys_pressed: Map::empty(),
            keys_pressed_last_frame: Set::empty(),
            keys_released: Map::empty(),
            keys_released_last_frame: Set::empty(),
            width: 1,
            height: 1,
            lmb: false,
            rmb: false,
        }
    }

    /// The key `key` has gone down.
    pub open spec fn key_pressed(self, key: u64) -> EventState {
        EventState {
            keys_released: self.keys_released.remove(key),
            keys_pressed: self.keys_pressed.insert(key, self.keys_pressed.len() as usize),
            ..self
        }
    }

    /// The key `key` has gone up.
    pub open spec fn key_released(self, key: u64) -> EventState {
        EventState {
            keys_pressed: self.keys_pressed.remove(key),
            keys_released: self.keys_released.insert(key, self.keys_released.len() as usize),
            ..self
        }
    }

    /// A frame has begun: what is down or up now is what the next frame
    /// compares with.
    pub open spec fn frame_begun(self) -> EventState {
        EventState {
            keys_pressed_last_frame: self.keys_pressed.dom(),
            keys_released_last_frame: self.keys_released.dom(),
            ..self
        }
    }

    /// `key` is down and was not when the frame began.
    pub open spec fn just_pressed(self, key: u64) -> bool {
        self.keys_pressed.contains_key(key) && !self.keys_pressed_last_frame.contains(key)
    }

    /// `key` is up and was not when the frame began.
    pub open spec fn just_released(self, key: u64) -> bool {
        self.keys_released.contains_key(key) && !self.keys_released_last_frame.contains(key)
    }

    /// The mode to put the window in, if it is to change: F11, when it went
    /// down since the frame began, leaves full screen or enters it.
    pub open spec fn fullscreen_switch(self, fullscreen: bool) -> Option<WindowMode> {
        if self.just_pressed(KEY_F11) {
            if fullscreen {
                Some(
                    WindowMode::Windowed {
                        x: WINDOWED_ORIGIN,
                        y: WINDOWED_ORIGIN,
                        width: WINDOWED_SIZE,
                        height: WINDOWED_SIZE,
                    },
                )
            } else {
                Some(WindowMode::FullScreen)
            }
        } else {
            None
        }
    }

    /// The size of the window in pixels; a negative dimension counts as zero.
    pub open spec fn extent(self) -> Extent {
        Extent {
            width: if self.width < 0 {
                0
            } else {
                self.width as u32
            },
            height: if self.height < 0 {
                0
            } else {
                self.height as u32
            },
        }
    }

    /// The state after `event` and what the frame loop has to do about it.
    /// Pressing escape closes the window and is not noted as a key.
    pub open spec fn dispatched(self, event: WindowEvent) -> (EventState, Reaction) {
        match event {
            WindowEvent::Key { key, action: Action::Press } => if key == KEY_ESCAPE {
                (self, Reaction::Close)
            } else {
                (self.key_pressed(key), Reaction::Nothing)
            },
            WindowEvent::Key { key, action: Action::Release } => (
                self.key_released(key),
                Reaction::Nothing,
            ),
            WindowEvent::MouseButton { button: MouseButton::Left, action: Action::Press } => (
                EventState { lmb: true, ..self },
                Reaction::Nothing,
            ),
            WindowEvent::MouseButton { button: MouseButton::Left, action: Action::Release } => (
                EventState { lmb: false, ..self },
                Reaction::Nothing,
            ),
            WindowEvent::MouseButton { button: MouseButton::Right, action: Action::Press } => (
                EventState { rmb: true, ..self },
                Reaction::Nothing,
            ),
            WindowEvent::MouseButton { button: MouseButton::Right, action: Action::Release } => (
                EventState { rmb: false, ..self },
                Reaction::Nothing,
            ),
            WindowEvent::FramebufferSize { width, height } => (
                EventState { width, height, ..self },
                Reaction::Resized,
            ),
            _ => (self, Reaction::Nothing),
        }
    }
}

/// Tracks keys, mouse buttons and the window size.
pub struct EventHandler {
    keys_pressed: HashMap<u64, usize>,
    keys_pressed_last_frame: HashSet<u64>,
    keys_released: HashMap<u64, usize>,
    keys_released_last_frame: HashSet<u64>,
    width: i32,
    height: i32,
    lmb: bool,
    rmb: bool,
}

impl View for EventHandler {
    type V = EventState;

    closed spec fn view(&self) -> EventState {
        EventState {
            keys_pressed: self.keys_pressed@,
            keys_pressed_last_frame: self.keys_pressed_last_frame@,
            keys_released: self.keys_released@,
            keys_released_last_frame: self.keys_released_last_frame@,
            width: self.width,
            height: self.height,
            lmb: self.lmb,
            rmb: self.rmb,
        }
    }
}

impl EventHandler {
    /// A handler that has seen nothing yet.
    pub fn new() -> (handler: EventHandler)
        ensures
            handler@ == EventState::initial(),
    {
        EventHandler {
            keys_pressed: HashMap::new(),
            keys_pressed_last_frame: HashSet::new(),
            keys_released: HashMap::new(),
            keys_released_last_frame: HashSet::new(),
            width: 1,
            height: 1,
            lmb: false,
            rmb: false,
        }
    }

    /// Notes that `key` went down.
    pub fn on_key_press(&mut self, key: u64)
        ensures
            final(self)@ == old(self)@.key_pressed(key),
    {
        self.keys_released.remove(&key);
        let key_handle = self.keys_pressed.len();
        self.keys_pressed.insert(key, key_handle);
    }

    /// Notes that `key` went up.
    pub fn on_key_release(&mut self, key: u64)
        ensures
            final(self)@ == old(self)@.key_released(key),
    {
        self.keys_pressed.remove(&key);
        let key_handle = self.keys_released.len();
        self.keys_released.insert(key, key_handle);
    }

    /// Notes that the left mouse button went down.
    pub fn on_lmb_press(&mut self)
        ensures
            final(self)@ == (EventState { lmb: true, ..old(self)@ }),
    {
        self.lmb = true;
    }

    /// Notes that the left mouse button went up.
    pub fn on_lmb_release(&mut self)
        ensures
            final(self)@ == (EventState { lmb: false, ..old(self)@ }),
    {
        self.lmb = false;
    }

    /// Notes that the right mouse button went down.
    pub fn on_rmb_press(&mut self)
        ensures
            final(self)@ == (EventState { rmb: true, ..old(self)@ }),
    {
        self.rmb = true;
    }

    /// Notes that the right mouse button went up.
    pub fn on_rmb_release(&mut self)
        ensures
            final(self)@ == (EventState { rmb: false, ..old(self)@ }),
    {
        self.rmb = false;
    }

    /// Notes the new size of the window.
    pub fn on_window_resize(&mut self, w: i32, h: i32)
        ensures
            final(self)@ == (EventState { width: w, height: h, ..old(self)@ }),
    {
        self.width = w;
        self.height = h;
    }

    /// Begins a frame: the keys that are down or up now become those that
    /// the frame compares with.
    pub fn update(&mut self)
        ensures
            final(self)@ == old(self)@.frame_begun(),
    {
        self.keys_pressed_last_frame = EventHandler::key_set(&self.keys_pressed);
        self.keys_released_last_frame = EventHandler::key_set(&self.keys_released);
    }

    /// The set of keys of `map`.
    fn key_set(map: &HashMap<u64, usize>) -> (keys: HashSet<u64>)
        ensures
            keys@ == map@.dom(),
    {
        let mut keys: HashSet<u64> = HashSet::new();
        let ghost listed = vstd::std_specs::hash::spec_keys_iter(map).remaining();
        let ghost mut seen: int = 0;
        for key in it: map.keys()
            invariant
                it.seq() == listed,
                seen == it.index(),
                forall|k: u64|
                    keys@.contains(k) <==> exists|j: int|
                        0 <= j < seen && *(#[trigger] listed[j]) == k,
        {
            keys.insert(*key);
            proof {
                seen = seen + 1;
            }
        }
        proof {
            let plain = listed.unref();
            assert forall|k: u64| keys@.contains(k) <==> map@.dom().contains(k) by {
                if keys@.contains(k) {
                    let j = choose|j: int| 0 <= j < seen && *(#[trigger] listed[j]) == k;
                    assert(plain[j] == k);
                    assert(plain.to_set().contains(k));
                }
                if map@.dom().contains(k) {
                    assert(plain.to_set().contains(k));
                    let j = choose|j: int| 0 <= j < plain.len() && plain[j] == k;
                    assert(*listed[j] == k);
                }
            }
            assert(keys@ =~= map@.dom());
        }
        keys
    }

    /// Whether `key` went down since the frame began.
    pub fn key_just_pressed(&self, key: u64) -> (b: bool)
        ensures
            b == self@.just_pressed(key),
    {
        self.keys_pressed.contains_key(&key) && !self.keys_pressed_last_frame.contains(&key)
    }

    /// Whether `key` went up since the frame began.
    pub fn key_just_released(&self, key: u64) -> (b: bool)
        ensures
            b == self@.just_released(key),
    {
        self.keys_released.contains_key(&key) && !self.keys_released_last_frame.contains(&key)
    }

    /// Whether the left mouse button is down.
    pub fn lmb(&self) -> (b: bool)
        ensures
            b == self@.lmb,
    {
        self.lmb
    }

    /// Whether the right mouse button is down.
    pub fn rmb(&self) -> (b: bool)
        ensures
            b == self@.rmb,
    {
        self.rmb
    }

    /// The size of the window in pixels; a negative dimension counts as zero.
    pub fn extent(&self) -> (extent: Extent)
        ensures
            extent == self@.extent(),
    {
        let width: u32 = if self.width < 0 {
            0
        } else {
            self.width as u32
        };
        let height: u32 = if self.height < 0 {
            0
        } else {
            self.height as u32
        };
        Extent { width, height }
    }

    /// Decides whether the window changes its mode, and to which: F11, when
    /// it went down since the frame began, flips `fullscreen`.
    pub fn set_fullscreen(&self, fullscreen: &mut bool) -> (mode: Option<WindowMode>)
        ensures
            mode == self@.fullscreen_switch(*old(fullscreen)),
            *final(fullscreen) == (if mode is Some {
                !*old(fullscreen)
            } else {
                *old(fullscreen)
            }),
    {
        if self.key_just_pressed(KEY_F11) {
            if !*fullscreen {
                *fullscreen = true;
                Some(WindowMode::FullScreen)
            } else {
                *fullscreen = false;
                Some(
                    WindowMode::Windowed {
                        x: WINDOWED_ORIGIN,
                        y: WINDOWED_ORIGIN,
                        width: WINDOWED_SIZE,
                        height: WINDOWED_SIZE,
                    },
                )
            }
        } else {
            None
        }
    }

    /// Notes `event` and tells what the frame loop has to do about it.
    pub fn dispatch(&mut self, event: WindowEvent) -> (reaction: Reaction)
        ensures
            final(self)@ == old(self)@.dispatched(event).0,
            reaction == old(self)@.dispatched(event).1,
    {
        match event {
            WindowEvent::Key { key, action } => match action {
                Action::Press => {
                    if key == KEY_ESCAPE {
                        Reaction::Close
                    } else {
                        self.on_key_press(key);
                        Reaction::Nothing
                    }
                },
                Action::Release => {
                    self.on_key_release(key);
                    Reaction::Nothing
                },
                Action::Repeat => Reaction::Nothing,
            },
            WindowEvent::MouseButton { button, action } => {
                match (button, action) {
                    (MouseButton::Left, Action::Press) => self.on_lmb_press(),
                    (MouseButton::Left, Action::Release) => self.on_lmb_release(),
                    (MouseButton::Right, Action::Press) => self.on_rmb_press(),
                    (MouseButton::Right, Action::Release) => self.on_rmb_release(),
                    _ => {},
                }
                Reaction::Nothing
            },
            WindowEvent::FramebufferSize { width, height } => {
                self.on_window_resize(width, height);
                Reaction::Resized
            },
            WindowEvent::Other => Reaction::Nothing,
        }
    }
}

/// A key counts as just pressed from the press to the beginning of the next
/// frame, and a key is never down and up at once: where the keys that are
/// down and the keys that are up have nothing in common, a press or a
/// release keeps it so.
pub proof fn lemma_key_tracking(s: EventState, key: u64)
    requires
        s.keys_pressed.dom().finite(),
        s.keys_released.dom().finite(),
    ensures
        s.key_pressed(key).just_pressed(key) == !s.keys_pressed_last_frame.contains(key),
        !s.key_pressed(key).keys_released.contains_key(key),
        s.key_released(key).just_released(key) == !s.keys_released_last_frame.contains(key),
        !s.key_released(key).keys_pressed.contains_key(key),
        forall|k: u64| !(#[trigger] s.frame_begun().just_pressed(k)),
        forall|k: u64| !(#[trigger] s.frame_begun().just_released(k)),
        s.keys_pressed.dom().disjoint(s.keys_released.dom()) ==> s.key_pressed(
            key,
        ).keys_pressed.dom().disjoint(s.key_pressed(key).keys_released.dom()) && s.key_released(
            key,
        ).keys_pressed.dom().disjoint(s.key_released(key).keys_released.dom()),
{
}

} // verus!
