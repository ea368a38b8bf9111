use vstd::prelude::*;

use crate::text::string_of;

verus! {

/// Whether the camera follows the fighters by itself or is steered by the user.
#[derive(Clone, Copy, Debug, PartialEq, Eq, Structural)]
pub enum CameraControlState {
    Manual,
    Auto,
}

impl Default for CameraControlState {
    fn default() -> (r: CameraControlState)
        ensures
            r == CameraControlState::Auto,
    {
        CameraControlState::Auto
    }
}

/// The developer's flat view, or the players' view in perspective.
#[derive(Clone, Copy, Debug, PartialEq, Eq, Structural)]
pub enum TransformMode {
    Dev,
    Play,
}

impl Default for TransformMode {
    fn default() -> (r: TransformMode)
        ensures
            r == TransformMode::Dev,
    {
        TransformMode::Dev
    }
}

/// What the user did this frame that steers the camera's modes.
#[derive(Clone, Copy, Debug, PartialEq, Eq, Structural)]
pub struct CameraKeys {
    /// The middle mouse button was pressed.
    pub middle_mouse_pressed: bool,
    /// The mouse wheel turned.
    pub scrolled: bool,
    /// W, A, S or D was pressed.
    pub wasd_pressed: bool,
    pub backspace_pressed: bool,
    pub escape_pressed: bool,
}

/// The camera's two modes.
#[derive(Clone, Copy, Debug, PartialEq, Eq, Structural)]
pub struct CameraModes {
    pub control_state: CameraControlState,
    pub transform_mode: TransformMode,
}

impl CameraModes {
    /// The modes of a new camera: following the fighters, in the players' view.
    pub fn new() -> (r: CameraModes)
        ensures
            r.control_state == CameraControlState::Auto,
            r.transform_mode == TransformMode::Play,
    {
        CameraModes { control_state: CameraControlState::Auto, transform_mode: TransformMode::Play }
    }

    /// The camera is in the developer's view.
    pub fn dev_mode(&self) -> (r: bool)
        ensures
            r == (self.transform_mode == TransformMode::Dev),
    {
        match self.transform_mode {
            TransformMode::Dev => true,
            TransformMode::Play => false,
        }
    }

    /// Takes the user's input: using the middle mouse button or the wheel, or W, A, S or D
    /// outside the developer's view, steers the camera by hand; else backspace gives control
    /// back to the camera; else escape switches between the two views.
    pub fn update_os_input(&mut self, keys: CameraKeys)
        ensures
            ({
                let manual = keys.middle_mouse_pressed || keys.scrolled || (old(self).transform_mode
                    == TransformMode::Play && keys.wasd_pressed);
                &&& manual ==> *final(self) == CameraModes {
                    control_state: CameraControlState::Manual,
                    ..*old(self)
                }
                &&& !manual && keys.backspace_pressed ==> *final(self) == CameraModes {
                    control_state: CameraControlState::Auto,
                    ..*old(self)
                }
                &&& !manual && !keys.backspace_pressed && keys.escape_pressed ==> *final(self)
                    == CameraModes {
                    transform_mode: if old(self).transform_mode == TransformMode::Dev {
                        TransformMode::Play
                    } else {
                        TransformMode::Dev
                    },
                    ..*old(self)
                }
                &&& !manual && !keys.backspace_pressed && !keys.escape_pressed ==> *final(self)
                    == *old(self)
            }),
    {
        if keys.middle_mouse_pressed || keys.scrolled || (!self.dev_mode() && keys.wasd_pressed) {
            self.control_state = CameraControlState::Manual;
        } else if keys.backspace_pressed {
            self.control_state = CameraControlState::Auto;
        } else if keys.escape_pressed {
            self.transform_mode = match self.transform_mode {
                TransformMode::Dev => TransformMode::Play,
                TransformMode::Play => TransformMode::Dev,
            };
        }
    }

    /// The hint shown on how to leave the current modes.
    pub fn debug_print(&self) -> (r: Vec<String>)
        ensures
            match (self.transform_mode, self.control_state) {
                (TransformMode::Dev, CameraControlState::Manual) => r@.len() == 1 && r@[0]@
                    == "Press Backspace to leave manual camera mode. Press Esc to leave developer mode"@,
                (TransformMode::Play, CameraControlState::Manual) => r@.len() == 1 && r@[0]@
                    == "Press Backspace to leave manual camera mode."@,
                (TransformMode::Dev, CameraControlState::Auto) => r@.len() == 1 && r@[0]@
                    == "Press Esc to leave developer mode."@,
                (TransformMode::Play, CameraControlState::Auto) => r@.len() == 0,
            },
    {
        let mut lines: Vec<String> = Vec::new();
        match (self.transform_mode, self.control_state) {
            (TransformMode::Dev, CameraControlState::Manual) => {
                lines.push(
                    string_of(
                        "Press Backspace to leave manual camera mode. Press Esc to leave developer mode",
                    ),
                );
            },
            (TransformMode::Play, CameraControlState::Manual) => {
                lines.push(string_of("Press Backspace to leave manual camera mode."));
            },
            (TransformMode::Dev, CameraControlState::Auto) => {
                lines.push(string_of("Press Esc to leave developer mode."));
            },
            (TransformMode::Play, CameraControlState::Auto) => {},
        }
        lines
    }
}

} // verus!
