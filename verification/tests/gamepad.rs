use gamepad::backends::dummy::DummyBackend;
use gamepad::backends::GamepadEngineBackend;
use gamepad::backends::snapshot::{build_frame, build_gamepad_state, PadSnapshot};
use gamepad::backends::wasm::WasmBackend;
use gamepad::backends::xinput::{
    classify_poll, merge_was_pressed, xinput_frame, XInputState, ERROR_DEVICE_NOT_CONNECTED,
    ERROR_SUCCESS, TRIGGER_THRESHOLD, XINPUT_GAMEPAD_A, XINPUT_GAMEPAD_B, XINPUT_GAMEPAD_DPAD_UP,
    XINPUT_GAMEPAD_START, XINPUT_GAMEPAD_Y,
};
use gamepad::{
    clamp_deadzone, isqrt, normalize_fixed, stick_length, stick_length_squared, Button,
    ButtonState, ErrorType, GamepadEngine, GamepadError, GamepadState, Joystick, JoystickState,
    NORM_ONE,
};

fn packet(buttons: u16) -> XInputState {
    XInputState {
        packet_number: 0,
        buttons,
        left_trigger: 0,
        right_trigger: 0,
        thumb_lx: 0,
        thumb_ly: 0,
        thumb_rx: 0,
        thumb_ry: 0,
    }
}

fn snap(entries: &[(Button, bool)]) -> PadSnapshot {
    PadSnapshot {
        buttons: entries.to_vec(),
        left_stick: None,
        right_stick: None,
    }
}

#[test]
fn button_state_edges() {
    assert!(ButtonState::new(true, false).is_just_pressed());
    assert!(!ButtonState::new(true, false).is_just_released());
    assert!(ButtonState::new(false, true).is_just_released());
    assert!(!ButtonState::new(false, true).is_just_pressed());
    assert!(ButtonState::new(true, true).is_pressed());
    assert!(!ButtonState::new(true, true).is_just_pressed());
    assert!(!ButtonState::new(false, false).is_just_released());
}

#[test]
fn absent_button_is_all_false() {
    let state = GamepadState::new();
    assert!(!state.is_pressed(Button::South));
    assert!(!state.is_just_pressed(Button::South));
    assert!(!state.is_just_released(Button::South));

    let mut with_others = GamepadState::new();
    with_others
        .buttons_mut()
        .push((Button::North, ButtonState::new(true, false)));
    assert!(!with_others.is_pressed(Button::South));
    assert!(!with_others.is_just_pressed(Button::South));
    assert!(!with_others.is_just_released(Button::South));
    assert!(with_others.is_pressed(Button::North));
}

#[test]
fn joystick_defaults_to_centered() {
    let mut state = GamepadState::new();
    assert_eq!(state.joystick(Joystick::Left), (0, 0));
    state
        .joysticks_mut()
        .push((Joystick::Left, JoystickState::new((5, -7))));
    assert_eq!(state.joystick(Joystick::Left), (5, -7));
    assert_eq!(state.joystick(Joystick::Right), (0, 0));
}

#[test]
fn south_press_release_scenario() {
    let released = snap(&[(Button::South, false)]);
    let pressed = snap(&[(Button::South, true)]);

    let frame1 = build_gamepad_state(None, &released);
    assert!(!frame1.is_pressed(Button::South));

    let frame2 = build_gamepad_state(Some(&frame1), &pressed);
    assert!(frame2.is_just_pressed(Button::South));
    assert!(frame2.is_pressed(Button::South));

    let frame3 = build_gamepad_state(Some(&frame2), &pressed);
    assert!(!frame3.is_just_pressed(Button::South));
    assert!(frame3.is_pressed(Button::South));

    let frame4 = build_gamepad_state(Some(&frame3), &released);
    assert!(frame4.is_just_released(Button::South));
    assert!(!frame4.is_pressed(Button::South));
}

#[test]
fn unchanged_raw_shows_no_edge() {
    let pressed = snap(&[(Button::West, true)]);
    let frame1 = build_gamepad_state(None, &pressed);
    let frame2 = build_gamepad_state(Some(&frame1), &pressed);
    assert!(!frame2.is_just_pressed(Button::West));
    assert!(!frame2.is_just_released(Button::West));
    assert!(frame2.is_pressed(Button::West));
}

#[test]
fn press_transition_shows_just_pressed() {
    let released = snap(&[(Button::Start, false)]);
    let pressed = snap(&[(Button::Start, true)]);
    let frame1 = build_gamepad_state(None, &released);
    let frame2 = build_gamepad_state(Some(&frame1), &pressed);
    assert!(frame2.is_just_pressed(Button::Start));
    assert!(!frame2.is_just_released(Button::Start));
}

#[test]
fn first_frame_press_is_an_edge() {
    // A slot that did not exist a frame ago defaults to released.
    let pressed = snap(&[(Button::East, true)]);
    let frame = build_gamepad_state(None, &pressed);
    assert!(frame.is_just_pressed(Button::East));
}

#[test]
fn build_frame_is_slot_aligned() {
    let slot0 = snap(&[(Button::South, true)]);
    let slot1 = snap(&[(Button::South, false)]);
    let prev: Vec<GamepadState> = Vec::new();
    let frame1 = build_frame(&prev, &vec![slot0, slot1]);
    assert_eq!(frame1.len(), 2);
    assert!(frame1[0].is_pressed(Button::South));
    assert!(!frame1[1].is_pressed(Button::South));

    // Releasing in slot 0 while pressing in slot 1 must correlate per slot.
    let slot0b = snap(&[(Button::South, false)]);
    let slot1b = snap(&[(Button::South, true)]);
    let frame2 = build_frame(&frame1, &vec![slot0b, slot1b]);
    assert!(frame2[0].is_just_released(Button::South));
    assert!(frame2[1].is_just_pressed(Button::South));
}

#[test]
fn snapshot_carries_sticks() {
    let s = PadSnapshot {
        buttons: vec![],
        left_stick: Some((120, -300)),
        right_stick: None,
    };
    let state = build_gamepad_state(None, &s);
    assert_eq!(state.joystick(Joystick::Left), (120, -300));
    assert_eq!(state.joystick(Joystick::Right), (0, 0));
}

#[test]
fn classify_poll_outcomes() {
    let p = packet(XINPUT_GAMEPAD_A);
    let ok = classify_poll(ERROR_SUCCESS, 0, p);
    assert!(ok.is_ok());

    let absent = classify_poll(ERROR_DEVICE_NOT_CONNECTED, 3, p);
    match absent {
        Err(e) => assert_eq!(e.error_type, ErrorType::GamepadNotConnected { slot: 3 }),
        Ok(_) => panic!("an empty slot must report an error"),
    }

    let unknown = classify_poll(42, 0, p);
    match unknown {
        Err(e) => assert_eq!(e.error_type, ErrorType::Unknown),
        Ok(_) => panic!("an unrecognized code must report an error"),
    }
}

#[test]
fn to_gamepad_maps_bits() {
    let g = packet(XINPUT_GAMEPAD_A | XINPUT_GAMEPAD_DPAD_UP).to_gamepad();
    assert!(g.is_pressed(Button::South));
    assert!(g.is_pressed(Button::DPadNorth));
    assert!(!g.is_pressed(Button::North));
    assert!(!g.is_pressed(Button::Start));
    // A fresh conversion has no previous frame: every press is an edge.
    assert!(g.is_just_pressed(Button::South));
}

#[test]
fn menu_button_has_no_native_source() {
    let g = packet(0xffff).to_gamepad();
    assert!(!g.is_pressed(Button::Menu));
}

#[test]
fn triggers_use_the_threshold() {
    let mut below = packet(0);
    below.left_trigger = TRIGGER_THRESHOLD - 1;
    assert!(!below.left_trigger_bool());
    assert!(!below.to_gamepad().is_pressed(Button::LeftTrigger));

    let mut at = packet(0);
    at.left_trigger = TRIGGER_THRESHOLD;
    at.right_trigger = 255;
    assert!(at.left_trigger_bool());
    assert!(at.right_trigger_bool());
    let g = at.to_gamepad();
    assert!(g.is_pressed(Button::LeftTrigger));
    assert!(g.is_pressed(Button::RightTrigger));
}

#[test]
fn packet_getters_match_bits() {
    let p = packet(XINPUT_GAMEPAD_Y | XINPUT_GAMEPAD_B | XINPUT_GAMEPAD_START);
    assert!(p.north_button());
    assert!(p.east_button());
    assert!(p.start_button());
    assert!(!p.south_button());
    assert!(!p.west_button());
    assert!(!p.select_button());
    assert!(!p.arrow_down());
}

#[test]
fn packet_equality_goes_by_packet_number() {
    let mut a = packet(XINPUT_GAMEPAD_A);
    let b = packet(0);
    assert_eq!(a, b);
    a.packet_number = 7;
    assert_ne!(a, b);
}

#[test]
fn stick_raw_getters() {
    let mut p = packet(0);
    p.thumb_lx = -32768;
    p.thumb_ly = 32767;
    p.thumb_rx = 11;
    p.thumb_ry = -12;
    assert_eq!(p.left_stick_raw(), (-32768, 32767));
    assert_eq!(p.right_stick_raw(), (11, -12));
}

#[test]
fn not_connected_slot_is_skipped_without_error() {
    let prev: Vec<GamepadState> = Vec::new();
    let polls = vec![
        classify_poll(ERROR_SUCCESS, 0, packet(XINPUT_GAMEPAD_A)),
        classify_poll(ERROR_DEVICE_NOT_CONNECTED, 1, packet(0)),
    ];
    let r = xinput_frame(&prev, &polls);
    match r {
        Ok(states) => {
            assert_eq!(states.len(), 1);
            assert!(states[0].is_pressed(Button::South));
        }
        Err(_) => panic!("a not-connected slot must not abort the update"),
    }
}

#[test]
fn unknown_error_aborts_the_frame() {
    let prev: Vec<GamepadState> = Vec::new();
    let polls = vec![
        classify_poll(ERROR_SUCCESS, 0, packet(0)),
        classify_poll(99, 1, packet(0)),
    ];
    let r = xinput_frame(&prev, &polls);
    match r {
        Err(e) => assert_eq!(e.error_type, ErrorType::Unknown),
        Ok(_) => panic!("an unknown native error must abort the update"),
    }
}

#[test]
fn xinput_two_frame_edge() {
    let prev: Vec<GamepadState> = Vec::new();
    let frame1 = xinput_frame(&prev, &vec![classify_poll(ERROR_SUCCESS, 0, packet(0))]).unwrap();
    assert!(!frame1[0].is_pressed(Button::South));

    let frame2 = xinput_frame(
        &frame1,
        &vec![classify_poll(ERROR_SUCCESS, 0, packet(XINPUT_GAMEPAD_A))],
    )
    .unwrap();
    assert!(frame2[0].is_just_pressed(Button::South));

    let frame3 = xinput_frame(
        &frame2,
        &vec![classify_poll(ERROR_SUCCESS, 0, packet(XINPUT_GAMEPAD_A))],
    )
    .unwrap();
    assert!(frame3[0].is_pressed(Button::South));
    assert!(!frame3[0].is_just_pressed(Button::South));

    let frame4 = xinput_frame(&frame3, &vec![classify_poll(ERROR_SUCCESS, 0, packet(0))]).unwrap();
    assert!(frame4[0].is_just_released(Button::South));
}

#[test]
fn merge_takes_previous_pressed() {
    let prev = packet(XINPUT_GAMEPAD_A).to_gamepad();
    let mut cur = packet(XINPUT_GAMEPAD_A).to_gamepad();
    merge_was_pressed(&prev, &mut cur);
    assert!(cur.is_pressed(Button::South));
    assert!(!cur.is_just_pressed(Button::South));
}

#[test]
fn isqrt_exact_values() {
    assert_eq!(isqrt(0), 0);
    assert_eq!(isqrt(1), 1);
    assert_eq!(isqrt(2), 1);
    assert_eq!(isqrt(3), 1);
    assert_eq!(isqrt(4), 2);
    assert_eq!(isqrt(999999), 999);
    assert_eq!(isqrt(1000000), 1000);
    assert_eq!(isqrt(2147483648), 46340);
    assert_eq!(isqrt(4294836225), 65535);
    assert_eq!(isqrt(u32::MAX), 65535);
}

#[test]
fn length_helpers() {
    assert_eq!(stick_length_squared((3, 4)), 25);
    assert_eq!(stick_length((3, 4)), 5);
    assert_eq!(stick_length_squared((-32768, -32768)), 2147483648);
    assert_eq!(stick_length((0, 0)), 0);
}

#[test]
fn deadzone_is_clamped() {
    assert_eq!(clamp_deadzone(-5), 0);
    assert_eq!(clamp_deadzone(0), 0);
    assert_eq!(clamp_deadzone(12000), 12000);
    assert_eq!(clamp_deadzone(32766), 32766);
    assert_eq!(clamp_deadzone(32767), 32766);
}

#[test]
fn centered_stick_normalizes_to_zero() {
    assert_eq!(normalize_fixed((0, 0), 0), (0, 0));
    assert_eq!(normalize_fixed((0, 0), 12000), (0, 0));
    assert_eq!(normalize_fixed((0, 0), -3), (0, 0));
    assert_eq!(normalize_fixed((0, 0), 32767), (0, 0));
}

#[test]
fn stick_inside_deadzone_normalizes_to_zero() {
    // Euclidean length exactly equal to the deadzone counts as inside.
    assert_eq!(normalize_fixed((3000, 4000), 5000), (0, 0));
    assert_eq!(normalize_fixed((-3000, 4000), 5000), (0, 0));
    assert_eq!(normalize_fixed((7849, 0), 7849), (0, 0));
    // Just outside the boundary the ramp starts at zero.
    let (nx, ny) = normalize_fixed((3000, 4000), 4999);
    assert!(nx >= 0 && ny >= 0);
    assert!(nx <= 2 && ny <= 2);
}

#[test]
fn full_scale_with_zero_deadzone_is_unit() {
    assert_eq!(normalize_fixed((32767, 0), 0), (NORM_ONE, 0));
    assert_eq!(normalize_fixed((0, 32767), 0), (0, NORM_ONE));
    assert_eq!(normalize_fixed((-32768, 0), 0), (-NORM_ONE, 0));
    let x = normalize_fixed((32767, 0), 0).0 as f32 / NORM_ONE as f32;
    assert!((x - 1.0).abs() < 1e-6);
}

#[test]
fn diagonal_input_is_radial() {
    // A full diagonal deflection must normalize to roughly (0.707, 0.707),
    // not be clipped per axis.
    let (nx, ny) = normalize_fixed((32767, 32767), 0);
    let fx = nx as f32 / NORM_ONE as f32;
    let fy = ny as f32 / NORM_ONE as f32;
    assert!((fx - 0.7071).abs() < 0.01);
    assert!((fy - 0.7071).abs() < 0.01);
}

#[test]
fn normalization_ramp_midpoint() {
    // Halfway between the deadzone boundary and full scale the magnitude is
    // about one half.
    let d: i16 = 8000;
    let halfway: i16 = ((8000 + 32767) / 2) as i16;
    let (nx, ny) = normalize_fixed((halfway, 0), d);
    assert_eq!(ny, 0);
    let fx = nx as f32 / NORM_ONE as f32;
    assert!((fx - 0.5).abs() < 0.01);
}

#[test]
fn gamepad_error_fields() {
    let e = GamepadError::new("boom", ErrorType::Unknown);
    assert_eq!(e.msg, "boom");
    assert_eq!(e.error_type, ErrorType::Unknown);
    let c = e.clone();
    assert_eq!(c.msg, "boom");
    assert_eq!(c.error_type, ErrorType::Unknown);
}

#[test]
fn engine_over_dummy_backend() {
    let mut engine = GamepadEngine::new();
    assert!(engine.gamepads().is_empty());
    assert!(engine.update().is_ok());
    assert!(engine.gamepads().is_empty());
}

#[test]
fn engine_exposes_backend_collection() {
    let mut engine = GamepadEngine::new_with_backend(WasmBackend::new());
    assert!(engine.gamepads().is_empty());
    engine.gamepads_mut().push(packet(XINPUT_GAMEPAD_A).to_gamepad());
    assert_eq!(engine.gamepads().len(), 1);
    assert!(engine.gamepads()[0].is_pressed(Button::South));
    assert!(engine.update().is_ok());
}

#[test]
fn dummy_backend_reports_nothing() {
    let backend = DummyBackend::new();
    let mut engine = GamepadEngine::new_with_backend(backend);
    assert!(engine.update().is_ok());
    assert!(engine.gamepads().is_empty());
}

#[test]
fn backends_without_event_detection_report_none() {
    // Adapters unable to detect connect / disconnect transitions return an
    // empty event sequence.
    let mut dummy = DummyBackend::new();
    assert!(dummy.poll_events().is_empty());
    let mut wasm = WasmBackend::new();
    assert!(wasm.poll_events().is_empty());
    let connected = gamepad::GamepadEvent::Connected {};
    let disconnected = gamepad::GamepadEvent::Disconnected {};
    assert_ne!(connected, disconnected);
    assert_eq!(connected.clone(), gamepad::GamepadEvent::Connected {});
}

#[test]
fn to_gamepad_carries_thumb_sticks() {
    let mut p = packet(0);
    p.thumb_lx = 1200;
    p.thumb_ly = -3400;
    p.thumb_rx = -32768;
    p.thumb_ry = 32767;
    let g = p.to_gamepad();
    assert_eq!(g.joystick(Joystick::Left), (1200, -3400));
    assert_eq!(g.joystick(Joystick::Right), (-32768, 32767));
}

#[test]
fn frame_states_carry_thumb_sticks() {
    let mut p = packet(0);
    p.thumb_lx = 77;
    p.thumb_ly = -88;
    let prev: Vec<GamepadState> = Vec::new();
    let frame = xinput_frame(&prev, &vec![classify_poll(ERROR_SUCCESS, 0, p)]).unwrap();
    assert_eq!(frame[0].joystick(Joystick::Left), (77, -88));
    assert_eq!(frame[0].joystick(Joystick::Right), (0, 0));

    // The sticks survive the edge correlation against a previous frame.
    let frame2 = xinput_frame(&frame, &vec![classify_poll(ERROR_SUCCESS, 0, p)]).unwrap();
    assert_eq!(frame2[0].joystick(Joystick::Left), (77, -88));
}

#[test]
fn decimal_rendering_is_exact() {
    assert_eq!(gamepad::u32_to_dec_string(0), "0");
    assert_eq!(gamepad::u32_to_dec_string(7), "7");
    assert_eq!(gamepad::u32_to_dec_string(10), "10");
    assert_eq!(gamepad::u32_to_dec_string(1167), "1167");
    assert_eq!(gamepad::u32_to_dec_string(4294967295), "4294967295");
}

#[test]
fn error_messages_record_the_native_values() {
    let p = packet(0);
    match classify_poll(ERROR_DEVICE_NOT_CONNECTED, 3, p) {
        Err(e) => assert_eq!(e.msg, "Device not connected for slot 3"),
        Ok(_) => panic!("an empty slot must report an error"),
    }
    match classify_poll(42, 0, p) {
        Err(e) => assert_eq!(e.msg, "Error code: 42"),
        Ok(_) => panic!("an unrecognized code must report an error"),
    }
}

#[test]
fn update_without_input_change_clears_edges() {
    // An adapter that observed no change must still correlate edges:
    // after its update, was_pressed equals is_pressed for every button.
    let mut engine = GamepadEngine::new_with_backend(DummyBackend::new());
    engine.gamepads_mut().push(packet(XINPUT_GAMEPAD_A).to_gamepad());
    assert!(engine.gamepads()[0].is_just_pressed(Button::South));
    assert!(engine.update().is_ok());
    assert!(engine.gamepads()[0].is_pressed(Button::South));
    assert!(!engine.gamepads()[0].is_just_pressed(Button::South));
    assert!(!engine.gamepads()[0].is_just_released(Button::South));
}

#[test]
fn refresh_records_current_as_previous() {
    let mut state = GamepadState::new();
    state
        .buttons_mut()
        .push((Button::West, ButtonState::new(false, true)));
    assert!(state.is_just_released(Button::West));
    state.refresh_was_pressed();
    assert!(!state.is_just_released(Button::West));
    assert!(!state.is_pressed(Button::West));
}

#[test]
fn default_states_are_centered_and_released() {
    let b: ButtonState = Default::default();
    assert!(!b.is_pressed());
    assert!(!b.is_just_pressed());
    assert!(!b.is_just_released());
    let j: JoystickState = Default::default();
    assert_eq!(j.raw_value, (0, 0));
}
