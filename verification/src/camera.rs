//! The camera's discrete state: which projection it uses, which movement
//! keys are held, and whether the mouse has been seen yet. Positions and
//! matrices are the caller's.

use vstd::prelude::*;

verus! {

/// The projections a camera can be switched between.
#[derive(Clone, Copy, Debug, PartialEq, Eq, Structural)]
pub enum ProjectionType {
    Perspective,
    Orthographic,
    Isometric,
    Oblique,
}

impl Default for ProjectionType {
    /// A new camera looks through a perspective projection.
    fn default() -> (projection: ProjectionType)
        ensures
            projection == ProjectionType::Perspective,
    {
        ProjectionType::Perspective
    }
}

/// The keys that move the camera.
#[derive(Clone, Copy, Debug, PartialEq, Eq, Structural)]
pub enum CameraKey {
    W,
    A,
    S,
    D,
    Space,
    LControl,
    LShift,
}

impl CameraKey {
    /// The position of the key in the camera's key map.
    pub open spec fn slot(self) -> int {
        match self {
            CameraKey::W => 0,
            CameraKey::A => 1,
            CameraKey::S => 2,
            CameraKey::D => 3,
            CameraKey::Space => 4,
            CameraKey::LControl => 5,
            CameraKey::LShift => 6,
        }
    }

    /// The position of the key in the camera's key map.
    pub fn index(&self) -> (i: usize)
        ensures
            i == self.slot(),
            i < 7,
    {
        match self {
            CameraKey::W => 0,
            CameraKey::A => 1,
            CameraKey::S => 2,
            CameraKey::D => 3,
            CameraKey::Space => 4,
            CameraKey::LControl => 5,
            CameraKey::LShift => 6,
        }
    }
}

/// The discrete state of a camera.
#[derive(Clone, Copy, Debug)]
pub struct Camera {
    pub projection_type: ProjectionType,
    /// Which movement keys are held, by [`CameraKey::slot`].
    pub keymap: [bool; 7],
    /// No mouse position has been seen yet.
    pub first_mouse: bool,
}

impl Camera {
    /// A camera with a perspective projection, no key held and no mouse
    /// position seen.
    pub fn new() -> (camera: Camera)
        ensures
            camera.projection_type == ProjectionType::Perspective,
            camera.first_mouse,
            forall|i: int| 0 <= i < 7 ==> !camera.keymap@[i],
    {
        Camera {
            projection_type: ProjectionType::Perspective,
            keymap: [false, false, false, false, false, false, false],
            first_mouse: true,
        }
    }

    /// Notes that `key` went down or up.
    pub fn input(&mut self, key: CameraKey, pressed: bool)
        ensures
            final(self).keymap@ == old(self).keymap@.update(key.slot(), pressed),
            final(self).projection_type == old(self).projection_type,
            final(self).first_mouse == old(self).first_mouse,
    {
        let i = key.index();
        self.keymap[i] = pressed;
    }

    /// Whether `key` is held.
    pub fn key_held(&self, key: CameraKey) -> (held: bool)
        ensures
            held == self.keymap@[key.slot()],
    {
        self.keymap[key.index()]
    }

    /// Switches the projection.
    pub fn set_projection(&mut self, projection_type: ProjectionType)
        ensures
            final(self).projection_type == projection_type,
            final(self).keymap == old(self).keymap,
            final(self).first_mouse == old(self).first_mouse,
    {
        self.projection_type = projection_type;
    }

    /// Notes a mouse position and tells whether it is the first one, from
    /// which no turn of the camera can be measured.
    pub fn mouse_callback(&mut self) -> (first: bool)
        ensures
            first == old(self).first_mouse,
            !final(self).first_mouse,
            final(self).projection_type == old(self).projection_type,
            final(self).keymap == old(self).keymap,
    {
        let first = self.first_mouse;
        self.first_mouse = false;
        first
    }
}

} // verus!
