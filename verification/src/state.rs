//! What the user has set and what the pointer is doing.
//!
//! The numbers that need fractions (the camera, the density threshold, the
//! step size) live with the application. Here are the switches, the look-ahead
//! steps, the rules that tie them together, and the bookkeeping that turns
//! pointer events into camera movements.

use vstd::prelude::*;

verus! {

/// The fewest steps that the importance check may look ahead.
pub const MIN_AHEAD_STEPS: u32 = 2;

/// The most steps that the importance check may look ahead.
pub const MAX_AHEAD_STEPS: u32 = 25;

/// The switches a run starts with.
#[derive(Debug, Clone, Copy, PartialEq, Eq)]
pub struct StateParameters {
    pub use_cone_importance_check: bool,
    pub use_importance_coloring: bool,
    pub use_opacity: bool,
    pub use_importance_rendering: bool,
    pub use_gaussian_smoothing: bool,
    pub importance_check_ahead_steps: u32,
}

impl Default for StateParameters {
    /// Opacity, importance rendering and smoothing on, the rest off, looking
    /// 15 steps ahead.
    fn default() -> (parameters: Self)
        ensures
            parameters == (StateParameters {
                use_cone_importance_check: false,
                use_importance_coloring: false,
                use_opacity: true,
                use_importance_rendering: true,
                use_gaussian_smoothing: true,
                importance_check_ahead_steps: 15,
            }),
    {
        StateParameters {
            use_cone_importance_check: false,
            use_importance_coloring: false,
            use_opacity: true,
            use_importance_rendering: true,
            use_gaussian_smoothing: true,
            importance_check_ahead_steps: 15,
        }
    }
}

/// The switches as the shader reads them: one word each, 1 for on and 0 for
/// off, and the look-ahead steps as they are.
#[derive(Debug, Clone, Copy, PartialEq, Eq)]
pub struct ParameterWords {
    pub use_cone_importance_check: u32,
    pub use_importance_coloring: u32,
    pub use_opacity: u32,
    pub use_importance_rendering: u32,
    pub use_gaussian_smoothing: u32,
    pub importance_check_ahead_steps: u32,
}

/// The word for a switch: 1 for on, 0 for off.
pub open spec fn switch_word(on: bool) -> u32 {
    if on {
        1
    } else {
        0
    }
}

/// An event of the pointer or the keyboard, as far as the renderer cares.
#[derive(Debug, Clone, Copy, PartialEq, Eq)]
pub enum InputEvent {
    /// The key that asks for a screenshot went down.
    ScreenshotKey,
    /// The pointer moved.
    CursorMoved,
    /// The wheel turned.
    MouseWheel,
    /// The left button went down (`pressed`) or up.
    LeftButton { pressed: bool },
    /// Anything else.
    Other,
}

/// What is to be done about an input event.
#[derive(Debug, Clone, Copy, PartialEq, Eq)]
pub enum InputAction {
    /// Save a picture of the surface.
    Screenshot,
    /// Turn the camera by the way the pointer went since the position that
    /// was remembered, then remember the new position.
    Drag,
    /// Remember the pointer's position.
    Track,
    /// Move the camera nearer or further by what the wheel turned.
    Scroll,
    /// Nothing; the event is used up all the same.
    Nothing,
    /// Nothing; the event is not the renderer's and goes on to the window.
    Unhandled,
}

impl InputAction {
    /// Whether the event was the renderer's to handle.
    pub open spec fn spec_handled(self) -> bool {
        self != InputAction::Unhandled
    }

    /// Whether the event was the renderer's to handle.
    pub fn handled(self) -> (handled: bool)
        ensures
            handled == self.spec_handled(),
    {
        match self {
            InputAction::Unhandled => false,
            _ => true,
        }
    }
}

/// The renderer's state, as far as it is made of switches and counts.
#[derive(Debug, Clone, Copy, PartialEq, Eq)]
pub struct State {
    /// Whether the left button is down.
    pub mouse_pressed: bool,
    /// Whether a position of the pointer is remembered.
    pub has_last_mouse_position: bool,
    pub use_importance_coloring: bool,
    pub use_cone_importance_check: bool,
    pub use_opacity: bool,
    pub use_importance_rendering: bool,
    pub use_gaussian_smoothing: bool,
    pub importance_check_ahead_steps: u32,
}

impl State {
    /// Importance rendering needs opacity: where the first is on, so is the
    /// second.
    pub open spec fn consistent(&self) -> bool {
        self.use_importance_rendering ==> self.use_opacity
    }

    /// The state a run starts in: no button down, no position remembered, the
    /// switches as `parameters` give them.
    pub fn with_parameters(parameters: StateParameters) -> (state: Self)
        ensures
            state == (State {
                mouse_pressed: false,
                has_last_mouse_position: false,
                use_importance_coloring: parameters.use_importance_coloring,
                use_cone_importance_check: parameters.use_cone_importance_check,
                use_opacity: parameters.use_opacity,
                use_importance_rendering: parameters.use_importance_rendering,
                use_gaussian_smoothing: parameters.use_gaussian_smoothing,
                importance_check_ahead_steps: parameters.importance_check_ahead_steps,
            }),
    {
        State {
            mouse_pressed: false,
            has_last_mouse_position: false,
            use_importance_coloring: parameters.use_importance_coloring,
            use_cone_importance_check: parameters.use_cone_importance_check,
            use_opacity: parameters.use_opacity,
            use_importance_rendering: parameters.use_importance_rendering,
            use_gaussian_smoothing: parameters.use_gaussian_smoothing,
            importance_check_ahead_steps: parameters.importance_check_ahead_steps,
        }
    }

    /// What is to be done about `event`, given the state before it.
    pub open spec fn input_action(self, event: InputEvent) -> InputAction {
        match event {
            InputEvent::ScreenshotKey => InputAction::Screenshot,
            InputEvent::CursorMoved => if !self.mouse_pressed {
                InputAction::Nothing
            } else if self.has_last_mouse_position {
                InputAction::Drag
            } else {
                InputAction::Track
            },
            InputEvent::MouseWheel => InputAction::Scroll,
            InputEvent::LeftButton { .. } => InputAction::Nothing,
            InputEvent::Other => InputAction::Unhandled,
        }
    }

    /// The state after `event`.
    pub open spec fn after_input(self, event: InputEvent) -> State {
        match event {
            InputEvent::CursorMoved => State {
                has_last_mouse_position: self.has_last_mouse_position || self.mouse_pressed,
                ..self
            },
            InputEvent::LeftButton { pressed } => State { mouse_pressed: pressed, ..self },
            _ => self,
        }
    }

    /// Takes an input event and says what is to be done about it.
    ///
    /// The screenshot key asks for a screenshot and the wheel for a zoom. The
    /// left button is followed up and down. While it is down, every move of
    /// the pointer is remembered, and every move but the first drags the
    /// camera; the position stays remembered when the button goes up. Any
    /// other event is left to the window.
    pub fn process_input(&mut self, event: InputEvent) -> (action: InputAction)
        ensures
            action == old(self).input_action(event),
            *final(self) == old(self).after_input(event),
    {
        match event {
            InputEvent::ScreenshotKey => InputAction::Screenshot,
            InputEvent::CursorMoved => {
                if self.mouse_pressed {
                    if self.has_last_mouse_position {
                        InputAction::Drag
                    } else {
                        self.has_last_mouse_position = true;
                        InputAction::Track
                    }
                } else {
                    InputAction::Nothing
                }
            },
            InputEvent::MouseWheel => InputAction::Scroll,
            InputEvent::LeftButton { pressed } => {
                self.mouse_pressed = pressed;
                InputAction::Nothing
            },
            InputEvent::Other => InputAction::Unhandled,
        }
    }

    /// Switches importance rendering. Switching it on switches opacity on
    /// with it.
    pub fn set_importance_rendering(&mut self, on: bool)
        ensures
            *final(self) == (State {
                use_importance_rendering: on,
                use_opacity: on || old(self).use_opacity,
                ..*old(self)
            }),
            final(self).consistent(),
    {
        self.use_importance_rendering = on;
        if on {
            self.use_opacity = true;
        }
    }

    /// Whether opacity can be switched: not while importance rendering is on.
    pub fn opacity_enabled(&self) -> (enabled: bool)
        ensures
            enabled == !self.use_importance_rendering,
    {
        !self.use_importance_rendering
    }

    /// Switches opacity, where it can be switched. Returns whether it could.
    pub fn set_opacity(&mut self, on: bool) -> (changed: bool)
        ensures
            changed == !old(self).use_importance_rendering,
            changed ==> *final(self) == (State { use_opacity: on, ..*old(self) }),
            !changed ==> *final(self) == *old(self),
            old(self).consistent() ==> final(self).consistent(),
    {
        if self.use_importance_rendering {
            false
        } else {
            self.use_opacity = on;
            true
        }
    }

    /// Whether the cone check and the look-ahead steps can be set: only while
    /// importance rendering is on.
    pub fn importance_controls_enabled(&self) -> (enabled: bool)
        ensures
            enabled == self.use_importance_rendering,
    {
        self.use_importance_rendering
    }

    /// Switches the cone importance check, where it can be switched. Returns
    /// whether it could.
    pub fn set_cone_importance_check(&mut self, on: bool) -> (changed: bool)
        ensures
            changed == old(self).use_importance_rendering,
            changed ==> *final(self) == (State { use_cone_importance_check: on, ..*old(self) }),
            !changed ==> *final(self) == *old(self),
    {
        if self.use_importance_rendering {
            self.use_cone_importance_check = on;
            true
        } else {
            false
        }
    }

    /// `steps`, brought into the range that the look-ahead allows.
    pub open spec fn clamped_steps(steps: u32) -> u32 {
        if steps < MIN_AHEAD_STEPS {
            MIN_AHEAD_STEPS
        } else if steps > MAX_AHEAD_STEPS {
            MAX_AHEAD_STEPS
        } else {
            steps
        }
    }

    /// Sets the look-ahead steps, where they can be set, to `steps` brought
    /// into the allowed range. Returns whether they could be set.
    pub fn set_importance_check_ahead_steps(&mut self, steps: u32) -> (changed: bool)
        ensures
            changed == old(self).use_importance_rendering,
            changed ==> *final(self) == (State {
                importance_check_ahead_steps: Self::clamped_steps(steps),
                ..*old(self)
            }),
            changed ==> MIN_AHEAD_STEPS <= final(self).importance_check_ahead_steps
                <= MAX_AHEAD_STEPS,
            !changed ==> *final(self) == *old(self),
    {
        if self.use_importance_rendering {
            self.importance_check_ahead_steps = if steps < MIN_AHEAD_STEPS {
                MIN_AHEAD_STEPS
            } else if steps > MAX_AHEAD_STEPS {
                MAX_AHEAD_STEPS
            } else {
                steps
            };
            true
        } else {
            false
        }
    }

    /// The switches as the shader reads them.
    pub fn parameter_words(&self) -> (words: ParameterWords)
        ensures
            words == (ParameterWords {
                use_cone_importance_check: switch_word(self.use_cone_importance_check),
                use_importance_coloring: switch_word(self.use_importance_coloring),
                use_opacity: switch_word(self.use_opacity),
                use_importance_rendering: switch_word(self.use_importance_rendering),
                use_gaussian_smoothing: switch_word(self.use_gaussian_smoothing),
                importance_check_ahead_steps: self.importance_check_ahead_steps,
            }),
    {
        ParameterWords {
            use_cone_importance_check: if self.use_cone_importance_check {
                1
            } else {
                0
            },
            use_importance_coloring: if self.use_importance_coloring {
                1
            } else {
                0
            },
            use_opacity: if self.use_opacity {
                1
            } else {
                0
            },
            use_importance_rendering: if self.use_importance_rendering {
                1
            } else {
                0
            },
            use_gaussian_smoothing: if self.use_gaussian_smoothing {
                1
            } else {
                0
            },
            importance_check_ahead_steps: self.importance_check_ahead_steps,
        }
    }
}

} // verus!
