//! Orbit camera: how pointer events change the state of a camera that
//! circles a fixed target.
//!
//! The camera is generic in the vector type `V` of its target, the scalar
//! type `S` of its radius, angles and speeds, and the type `P` of pointer
//! coordinates. It stores and moves such values and decides when a pointer
//! event takes effect; the caller does the arithmetic on them.
use vstd::prelude::*;

verus! {

/// A button of the pointing device. `Left` is the primary button.
#[derive(Clone, Copy, Debug, PartialEq, Eq, Structural)]
pub enum MouseButton {
    Left,
    Right,
    Middle,
    Button4,
    Button5,
    Button6,
    Button7,
    Button8,
}

/// What happened to a button.
#[derive(Clone, Copy, Debug, PartialEq, Eq, Structural)]
pub enum Action {
    Release,
    Press,
    Repeat,
}

/// An orbit camera in spherical coordinates around `target`.
///
/// The camera is idle while `dragging` is false and dragging while it is
/// true. `last_x` and `last_y` are the pointer coordinates seen last, from
/// which the caller measures the next pointer movement.
pub struct Camera<V, S, P> {
    pub target: V,
    pub radius: S,
    pub azimuth: S,
    pub elevation: S,
    pub orbit_speed: S,
    pub zoom_speed: S,
    pub dragging: bool,
    pub last_x: P,
    pub last_y: P,
}

impl<V, S, P> Camera<V, S, P> {
    /// The camera after a button event at pointer position `(x, y)`.
    ///
    /// Pressing the left button starts a drag and records the position;
    /// releasing it ends the drag; every other event changes nothing.
    pub open spec fn after_button(self, button: MouseButton, action: Action, x: P, y: P) -> Self {
        if button == MouseButton::Left && action == Action::Press {
            Camera { dragging: true, last_x: x, last_y: y, ..self }
        } else if button == MouseButton::Left && action == Action::Release {
            Camera { dragging: false, ..self }
        } else {
            self
        }
    }

    /// The camera after the pointer moved to `(x, y)`, where `azimuth` and
    /// `elevation` are the angles that this movement turns the camera to.
    ///
    /// The angles are taken over only during a drag; the position is
    /// recorded in either state.
    pub open spec fn after_move(self, x: P, y: P, azimuth: S, elevation: S) -> Self {
        Camera {
            azimuth: if self.dragging { azimuth } else { self.azimuth },
            elevation: if self.dragging { elevation } else { self.elevation },
            last_x: x,
            last_y: y,
            ..self
        }
    }

    /// An idle camera with the given placement, speeds and pointer position.
    pub fn new(
        target: V,
        radius: S,
        azimuth: S,
        elevation: S,
        orbit_speed: S,
        zoom_speed: S,
        last_x: P,
        last_y: P,
    ) -> (camera: Self)
        ensures
            camera == (Camera {
                target,
                radius,
                azimuth,
                elevation,
                orbit_speed,
                zoom_speed,
                dragging: false,
                last_x,
                last_y,
            }),
    {
        Camera {
            target,
            radius,
            azimuth,
            elevation,
            orbit_speed,
            zoom_speed,
            dragging: false,
            last_x,
            last_y,
        }
    }

    /// Handles a button event at pointer position `(x, y)`.
    pub fn process_mouse_button(&mut self, button: MouseButton, action: Action, x: P, y: P)
        ensures
            *final(self) == old(self).after_button(button, action, x, y),
    {
        match button {
            MouseButton::Left => match action {
                Action::Press => {
                    self.dragging = true;
                    self.last_x = x;
                    self.last_y = y;
                },
                Action::Release => {
                    self.dragging = false;
                },
                Action::Repeat => {},
            },
            _ => {},
        }
    }

    /// Handles a pointer movement to `(x, y)`.
    ///
    /// `azimuth` and `elevation` are the angles that the movement from
    /// `(last_x, last_y)` to `(x, y)` turns the camera to. They take effect
    /// only during a drag. Returns whether they did.
    pub fn process_mouse_move(&mut self, x: P, y: P, azimuth: S, elevation: S) -> (turned: bool)
        ensures
            *final(self) == old(self).after_move(x, y, azimuth, elevation),
            turned == old(self).dragging,
            !old(self).dragging ==> final(self).azimuth == old(self).azimuth,
            !old(self).dragging ==> final(self).elevation == old(self).elevation,
            final(self).last_x == x,
            final(self).last_y == y,
    {
        let turned = self.dragging;
        if turned {
            self.azimuth = azimuth;
            self.elevation = elevation;
        }
        self.last_x = x;
        self.last_y = y;
        turned
    }

    /// A pointer movement outside a drag leaves both angles as they were
    /// and still records the new pointer position.
    pub proof fn lemma_idle_move_keeps_orientation(self, x: P, y: P, azimuth: S, elevation: S)
        requires
            !self.dragging,
        ensures
            self.after_move(x, y, azimuth, elevation) == (Camera { last_x: x, last_y: y, ..self }),
            self.after_move(x, y, azimuth, elevation).azimuth == self.azimuth,
            self.after_move(x, y, azimuth, elevation).elevation == self.elevation,
            self.after_move(x, y, azimuth, elevation).last_x == x,
            self.after_move(x, y, azimuth, elevation).last_y == y,
    {
    }

    /// Neither kind of pointer event touches the target, the radius or the
    /// two speeds, and a pointer movement never starts or ends a drag.
    pub proof fn lemma_events_keep_placement(
        self,
        button: MouseButton,
        action: Action,
        x: P,
        y: P,
        azimuth: S,
        elevation: S,
    )
        ensures
            self.after_button(button, action, x, y).target == self.target,
            self.after_button(button, action, x, y).radius == self.radius,
            self.after_button(button, action, x, y).azimuth == self.azimuth,
            self.after_button(button, action, x, y).elevation == self.elevation,
            self.after_button(button, action, x, y).orbit_speed == self.orbit_speed,
            self.after_button(button, action, x, y).zoom_speed == self.zoom_speed,
            self.after_move(x, y, azimuth, elevation).target == self.target,
            self.after_move(x, y, azimuth, elevation).radius == self.radius,
            self.after_move(x, y, azimuth, elevation).orbit_speed == self.orbit_speed,
            self.after_move(x, y, azimuth, elevation).zoom_speed == self.zoom_speed,
            self.after_move(x, y, azimuth, elevation).dragging == self.dragging,
    {
    }

    /// Only the left button is handled, and of its events only press and
    /// release: every other button event leaves the camera as it was.
    pub proof fn lemma_other_events_ignored(self, button: MouseButton, action: Action, x: P, y: P)
        requires
            button != MouseButton::Left || action == Action::Repeat,
        ensures
            self.after_button(button, action, x, y) == self,
    {
    }

    /// The camera drags exactly from a press of the left button to its
    /// release, whatever state it was in before.
    pub proof fn lemma_left_button_sets_drag(self, x: P, y: P)
        ensures
            self.after_button(MouseButton::Left, Action::Press, x, y).dragging,
            !self.after_button(MouseButton::Left, Action::Release, x, y).dragging,
            self.after_button(MouseButton::Left, Action::Release, x, y).last_x == self.last_x,
            self.after_button(MouseButton::Left, Action::Release, x, y).last_y == self.last_y,
    {
    }

    /// A drag starts without a jump: after a press at `(px, py)` the
    /// recorded position is `(px, py)`, whatever was recorded before, so the
    /// first movement of the drag is measured from the press. That movement
    /// then takes effect and is recorded in turn.
    pub proof fn lemma_drag_starts_at_press(self, px: P, py: P, x: P, y: P, azimuth: S, elevation: S)
        ensures
            self.after_button(MouseButton::Left, Action::Press, px, py).last_x == px,
            self.after_button(MouseButton::Left, Action::Press, px, py).last_y == py,
            self.after_button(MouseButton::Left, Action::Press, px, py).after_move(
                x,
                y,
                azimuth,
                elevation,
            ) == (Camera { azimuth, elevation, dragging: true, last_x: x, last_y: y, ..self }),
    {
    }
}

} // verus!
