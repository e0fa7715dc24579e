use volym::state::InputAction;
use volym::state::InputEvent;
use volym::state::ParameterWords;
use volym::state::State;
use volym::state::StateParameters;
use volym::state::MAX_AHEAD_STEPS;
use volym::state::MIN_AHEAD_STEPS;

fn fresh() -> State {
    State::with_parameters(StateParameters::default())
}

#[test]
fn default_parameters() {
    let parameters = StateParameters::default();
    assert!(!parameters.use_cone_importance_check);
    assert!(!parameters.use_importance_coloring);
    assert!(parameters.use_opacity);
    assert!(parameters.use_importance_rendering);
    assert!(parameters.use_gaussian_smoothing);
    assert_eq!(parameters.importance_check_ahead_steps, 15);
    let state = fresh();
    assert!(!state.mouse_pressed);
    assert!(!state.has_last_mouse_position);
    assert!(state.use_opacity);
    assert!(state.use_importance_rendering);
    assert_eq!(state.importance_check_ahead_steps, 15);
}

#[test]
fn pointer_moves_without_the_button_do_nothing() {
    let mut state = fresh();
    let action = state.process_input(InputEvent::CursorMoved);
    assert_eq!(action, InputAction::Nothing);
    assert!(action.handled());
    assert_eq!(state, fresh());
}

#[test]
fn dragging_starts_with_the_second_move() {
    let mut state = fresh();
    assert_eq!(state.process_input(InputEvent::LeftButton { pressed: true }), InputAction::Nothing);
    assert!(state.mouse_pressed);
    assert_eq!(state.process_input(InputEvent::CursorMoved), InputAction::Track);
    assert!(state.has_last_mouse_position);
    assert_eq!(state.process_input(InputEvent::CursorMoved), InputAction::Drag);
    assert_eq!(state.process_input(InputEvent::CursorMoved), InputAction::Drag);
    assert_eq!(state.process_input(InputEvent::LeftButton { pressed: false }), InputAction::Nothing);
    assert!(!state.mouse_pressed);
    assert_eq!(state.process_input(InputEvent::CursorMoved), InputAction::Nothing);
    // the position stays remembered: the next press drags from it at once
    assert!(state.has_last_mouse_position);
    state.process_input(InputEvent::LeftButton { pressed: true });
    assert_eq!(state.process_input(InputEvent::CursorMoved), InputAction::Drag);
}

#[test]
fn wheel_and_screenshot_key() {
    let mut state = fresh();
    assert_eq!(state.process_input(InputEvent::MouseWheel), InputAction::Scroll);
    assert_eq!(state.process_input(InputEvent::ScreenshotKey), InputAction::Screenshot);
    assert!(InputAction::Scroll.handled());
    assert!(InputAction::Screenshot.handled());
    assert!(InputAction::Drag.handled());
    assert!(InputAction::Track.handled());
    assert_eq!(state, fresh());
}

#[test]
fn other_events_are_left_to_the_window() {
    let mut state = fresh();
    let action = state.process_input(InputEvent::Other);
    assert_eq!(action, InputAction::Unhandled);
    assert!(!action.handled());
    assert_eq!(state, fresh());
}

#[test]
fn importance_rendering_switches_opacity_on() {
    let mut state = fresh();
    state.set_importance_rendering(false);
    assert!(!state.use_importance_rendering);
    assert!(state.use_opacity);
    assert!(state.set_opacity(false));
    assert!(!state.use_opacity);
    state.set_importance_rendering(true);
    assert!(state.use_importance_rendering);
    assert!(state.use_opacity);
    state.set_importance_rendering(false);
    assert!(state.use_opacity);
}

#[test]
fn opacity_is_locked_while_importance_rendering_is_on() {
    let mut state = fresh();
    assert!(!state.opacity_enabled());
    assert!(!state.set_opacity(false));
    assert!(state.use_opacity);
    assert_eq!(state, fresh());
    state.set_importance_rendering(false);
    assert!(state.opacity_enabled());
    assert!(state.set_opacity(false));
    assert!(!state.use_opacity);
    assert!(state.set_opacity(true));
    assert!(state.use_opacity);
}

#[test]
fn importance_controls_need_importance_rendering() {
    let mut state = fresh();
    assert!(state.importance_controls_enabled());
    assert!(state.set_cone_importance_check(true));
    assert!(state.use_cone_importance_check);
    assert!(state.set_importance_check_ahead_steps(20));
    assert_eq!(state.importance_check_ahead_steps, 20);
    state.set_importance_rendering(false);
    assert!(!state.importance_controls_enabled());
    let before = state;
    assert!(!state.set_cone_importance_check(false));
    assert!(!state.set_importance_check_ahead_steps(3));
    assert_eq!(state, before);
}

#[test]
fn look_ahead_steps_are_clamped() {
    assert_eq!(MIN_AHEAD_STEPS, 2);
    assert_eq!(MAX_AHEAD_STEPS, 25);
    let mut state = fresh();
    for (asked, set) in [(0, 2), (1, 2), (2, 2), (3, 3), (24, 24), (25, 25), (26, 25), (u32::MAX, 25)]
    {
        assert!(state.set_importance_check_ahead_steps(asked));
        assert_eq!(state.importance_check_ahead_steps, set);
    }
}

#[test]
fn switches_become_words() {
    let state = fresh();
    assert_eq!(
        state.parameter_words(),
        ParameterWords {
            use_cone_importance_check: 0,
            use_importance_coloring: 0,
            use_opacity: 1,
            use_importance_rendering: 1,
            use_gaussian_smoothing: 1,
            importance_check_ahead_steps: 15,
        }
    );
    let all = State::with_parameters(StateParameters {
        use_cone_importance_check: true,
        use_importance_coloring: true,
        use_opacity: false,
        use_importance_rendering: false,
        use_gaussian_smoothing: false,
        importance_check_ahead_steps: 7,
    });
    assert_eq!(
        all.parameter_words(),
        ParameterWords {
            use_cone_importance_check: 1,
            use_importance_coloring: 1,
            use_opacity: 0,
            use_importance_rendering: 0,
            use_gaussian_smoothing: 0,
            importance_check_ahead_steps: 7,
        }
    );
}
