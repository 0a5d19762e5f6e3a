//! The state model of the XInput polling protocol: a packet of plain values
//! per slot, read once per frame, and the conversion of such a packet into
//! the unified [`GamepadState`].
//!
//! The platform adapter performs the native query itself and hands the
//! packet fields over as plain integers; everything from the packet onward
//! is computed here.

use vstd::prelude::*;
use vstd::string::StringExecFns;

use crate::backends::snapshot::{spec_prev_at, spec_prev_pressed};
use crate::types::{assoc_find, distinct_keys, lemma_assoc_find_absent,
    lemma_assoc_find_first_index, lemma_assoc_find_locate, spec_u32_dec, u32_to_dec_string,
    Button, ButtonState, ErrorType, GamepadError, GamepadState, Joystick, JoystickState};

verus! {

/// Button bit of the directional-pad up button.
pub const XINPUT_GAMEPAD_DPAD_UP: u16 = 0x0001;

/// Button bit of the directional-pad down button.
pub const XINPUT_GAMEPAD_DPAD_DOWN: u16 = 0x0002;

/// Button bit of the directional-pad left button.
pub const XINPUT_GAMEPAD_DPAD_LEFT: u16 = 0x0004;

/// Button bit of the directional-pad right button.
pub const XINPUT_GAMEPAD_DPAD_RIGHT: u16 = 0x0008;

/// Button bit of the start button.
pub const XINPUT_GAMEPAD_START: u16 = 0x0010;

/// Button bit of the back (select) button.
pub const XINPUT_GAMEPAD_BACK: u16 = 0x0020;

/// Button bit of the left stick pressed inward.
pub const XINPUT_GAMEPAD_LEFT_THUMB: u16 = 0x0040;

/// Button bit of the right stick pressed inward.
pub const XINPUT_GAMEPAD_RIGHT_THUMB: u16 = 0x0080;

/// Button bit of the upper left shoulder button.
pub const XINPUT_GAMEPAD_LEFT_SHOULDER: u16 = 0x0100;

/// Button bit of the upper right shoulder button.
pub const XINPUT_GAMEPAD_RIGHT_SHOULDER: u16 = 0x0200;

/// Button bit of the south face button.
pub const XINPUT_GAMEPAD_A: u16 = 0x1000;

/// Button bit of the east face button.
pub const XINPUT_GAMEPAD_B: u16 = 0x2000;

/// Button bit of the west face button.
pub const XINPUT_GAMEPAD_X: u16 = 0x4000;

/// Button bit of the north face button.
pub const XINPUT_GAMEPAD_Y: u16 = 0x8000;

/// The default threshold to count a trigger as being "pressed".
pub const TRIGGER_THRESHOLD: u8 = 30;

/// The suggested default deadzone for the left thumb stick.
pub const LEFT_STICK_DEADZONE: i16 = 7849;

/// The suggested default deadzone for the right thumb stick.
pub const RIGHT_STICK_DEADZONE: i16 = 8689;

/// The number of controller slots the native interface polls.
pub const XUSER_MAX_COUNT: u32 = 4;

/// Native result code of a successful per-slot query.
pub const ERROR_SUCCESS: u32 = 0;

/// Native result code of a query against an empty slot.
pub const ERROR_DEVICE_NOT_CONNECTED: u32 = 1167;

/// One slot's state packet, as plain values: the native button bitmask, the
/// trigger pressure bytes and the raw thumb-stick axes, together with the
/// packet number the native interface stamps on every change.
#[derive(Clone, Copy, Debug)]
pub struct XInputState {
    /// Increases whenever the controller state changes; two packets with
    /// the same number carry the same state.
    pub packet_number: u32,
    /// One bit per digital button.
    pub buttons: u16,
    /// Lower left shoulder trigger pressure.
    pub left_trigger: u8,
    /// Lower right shoulder trigger pressure.
    pub right_trigger: u8,
    /// Left stick, X axis; positive is right.
    pub thumb_lx: i16,
    /// Left stick, Y axis; positive is up.
    pub thumb_ly: i16,
    /// Right stick, X axis; positive is right.
    pub thumb_rx: i16,
    /// Right stick, Y axis; positive is up.
    pub thumb_ry: i16,
}

impl PartialEq for XInputState {
    /// Equality goes by the packet number alone: the native interface
    /// leaves it unchanged exactly when the controller state is unchanged.
    fn eq(&self, other: &XInputState) -> (r: bool) {
        self.packet_number == other.packet_number
    }
}

impl vstd::std_specs::cmp::PartialEqSpecImpl for XInputState {
    open spec fn obeys_eq_spec() -> bool {
        true
    }

    open spec fn eq_spec(&self, other: &XInputState) -> bool {
        self.packet_number == other.packet_number
    }
}

impl Eq for XInputState {}

impl XInputState {
    /// Whether the packet reports `b` as pressed: a bitmask test for the
    /// digital buttons, the threshold comparison for the triggers.  The
    /// menu button has no native counterpart and is never pressed.
    pub open spec fn spec_pressed(self, b: Button) -> bool {
        match b {
            Button::DPadNorth => self.buttons & XINPUT_GAMEPAD_DPAD_UP != 0,
            Button::DPadSouth => self.buttons & XINPUT_GAMEPAD_DPAD_DOWN != 0,
            Button::DPadWest => self.buttons & XINPUT_GAMEPAD_DPAD_LEFT != 0,
            Button::DPadEast => self.buttons & XINPUT_GAMEPAD_DPAD_RIGHT != 0,
            Button::North => self.buttons & XINPUT_GAMEPAD_Y != 0,
            Button::South => self.buttons & XINPUT_GAMEPAD_A != 0,
            Button::West => self.buttons & XINPUT_GAMEPAD_X != 0,
            Button::East => self.buttons & XINPUT_GAMEPAD_B != 0,
            Button::LeftShoulder => self.buttons & XINPUT_GAMEPAD_LEFT_SHOULDER != 0,
            Button::RightShoulder => self.buttons & XINPUT_GAMEPAD_RIGHT_SHOULDER != 0,
            Button::LeftTrigger => self.left_trigger >= TRIGGER_THRESHOLD,
            Button::RightTrigger => self.right_trigger >= TRIGGER_THRESHOLD,
            Button::RightStick => self.buttons & XINPUT_GAMEPAD_RIGHT_THUMB != 0,
            Button::LeftStick => self.buttons & XINPUT_GAMEPAD_LEFT_THUMB != 0,
            Button::Menu => false,
            Button::Select => self.buttons & XINPUT_GAMEPAD_BACK != 0,
            Button::Start => self.buttons & XINPUT_GAMEPAD_START != 0,
        }
    }

    /// The north button of the action button group.
    pub fn north_button(&self) -> (r: bool)
        ensures
            r == self.spec_pressed(Button::North),
    {
        self.buttons & XINPUT_GAMEPAD_Y != 0
    }

    /// The south button of the action button group.
    pub fn south_button(&self) -> (r: bool)
        ensures
            r == self.spec_pressed(Button::South),
    {
        self.buttons & XINPUT_GAMEPAD_A != 0
    }

    /// The east button of the action button group.
    pub fn east_button(&self) -> (r: bool)
        ensures
            r == self.spec_pressed(Button::East),
    {
        self.buttons & XINPUT_GAMEPAD_B != 0
    }

    /// The west button of the action button group.
    pub fn west_button(&self) -> (r: bool)
        ensures
            r == self.spec_pressed(Button::West),
    {
        self.buttons & XINPUT_GAMEPAD_X != 0
    }

    /// The up button on the directional pad.
    pub fn arrow_up(&self) -> (r: bool)
        ensures
            r == self.spec_pressed(Button::DPadNorth),
    {
        self.buttons & XINPUT_GAMEPAD_DPAD_UP != 0
    }

    /// The down button on the directional pad.
    pub fn arrow_down(&self) -> (r: bool)
        ensures
            r == self.spec_pressed(Button::DPadSouth),
    {
        self.buttons & XINPUT_GAMEPAD_DPAD_DOWN != 0
    }

    /// The left button on the directional pad.
    pub fn arrow_left(&self) -> (r: bool)
        ensures
            r == self.spec_pressed(Button::DPadWest),
    {
        self.buttons & XINPUT_GAMEPAD_DPAD_LEFT != 0
    }

    /// The right button on the directional pad.
    pub fn arrow_right(&self) -> (r: bool)
        ensures
            r == self.spec_pressed(Button::DPadEast),
    {
        self.buttons & XINPUT_GAMEPAD_DPAD_RIGHT != 0
    }

    /// The "start" button.
    pub fn start_button(&self) -> (r: bool)
        ensures
            r == self.spec_pressed(Button::Start),
    {
        self.buttons & XINPUT_GAMEPAD_START != 0
    }

    /// The "back" button, reported as the select button.
    pub fn select_button(&self) -> (r: bool)
        ensures
            r == self.spec_pressed(Button::Select),
    {
        self.buttons & XINPUT_GAMEPAD_BACK != 0
    }

    /// The upper left shoulder button.
    pub fn left_shoulder(&self) -> (r: bool)
        ensures
            r == self.spec_pressed(Button::LeftShoulder),
    {
        self.buttons & XINPUT_GAMEPAD_LEFT_SHOULDER != 0
    }

    /// The upper right shoulder button.
    pub fn right_shoulder(&self) -> (r: bool)
        ensures
            r == self.spec_pressed(Button::RightShoulder),
    {
        self.buttons & XINPUT_GAMEPAD_RIGHT_SHOULDER != 0
    }

    /// The lower left shoulder trigger pressure.
    pub fn left_trigger(&self) -> (r: u8)
        ensures
            r == self.left_trigger,
    {
        self.left_trigger
    }

    /// The lower right shoulder trigger pressure.
    pub fn right_trigger(&self) -> (r: u8)
        ensures
            r == self.right_trigger,
    {
        self.right_trigger
    }

    /// The lower left trigger as a bool, using the default threshold.
    pub fn left_trigger_bool(&self) -> (r: bool)
        ensures
            r == self.spec_pressed(Button::LeftTrigger),
    {
        self.left_trigger() >= TRIGGER_THRESHOLD
    }

    /// The lower right trigger as a bool, using the default threshold.
    pub fn right_trigger_bool(&self) -> (r: bool)
        ensures
            r == self.spec_pressed(Button::RightTrigger),
    {
        self.right_trigger() >= TRIGGER_THRESHOLD
    }

    /// The left thumb stick being pressed inward.
    pub fn left_thumb_button(&self) -> (r: bool)
        ensures
            r == self.spec_pressed(Button::LeftStick),
    {
        self.buttons & XINPUT_GAMEPAD_LEFT_THUMB != 0
    }

    /// The right thumb stick being pressed inward.
    pub fn right_thumb_button(&self) -> (r: bool)
        ensures
            r == self.spec_pressed(Button::RightStick),
    {
        self.buttons & XINPUT_GAMEPAD_RIGHT_THUMB != 0
    }

    /// The left stick raw value; positive is right (X) or up (Y).
    pub fn left_stick_raw(&self) -> (r: (i16, i16))
        ensures
            r == (self.thumb_lx, self.thumb_ly),
    {
        (self.thumb_lx, self.thumb_ly)
    }

    /// The right stick raw value; positive is right (X) or up (Y).
    pub fn right_stick_raw(&self) -> (r: (i16, i16))
        ensures
            r == (self.thumb_rx, self.thumb_ry),
    {
        (self.thumb_rx, self.thumb_ry)
    }

    /// Converts the packet into the unified state: every named button is
    /// mapped, with the packet's value as `is_pressed` and `was_pressed`
    /// left released until edge correlation fills it in, and both sticks
    /// are mapped to their raw axis pairs.
    pub fn to_gamepad(self) -> (g: GamepadState)
        ensures
            g.buttons@ == spec_button_list(self),
            g.joysticks@ == spec_joystick_list(self),
            g.wf(),
            forall|b: Button| #[trigger] g.spec_button(b) == Some(
                ButtonState { is_pressed: self.spec_pressed(b), was_pressed: false },
            ),
            forall|j: Joystick| #[trigger] g.spec_joystick(j) == Some(spec_stick(self, j)),
    {
        let mut gamepad = GamepadState::new();
        gamepad.buttons.push((Button::DPadNorth, ButtonState::new(self.arrow_up(), false)));
        gamepad.buttons.push((Button::DPadSouth, ButtonState::new(self.arrow_down(), false)));
        gamepad.buttons.push((Button::DPadEast, ButtonState::new(self.arrow_right(), false)));
        gamepad.buttons.push((Button::DPadWest, ButtonState::new(self.arrow_left(), false)));
        gamepad.buttons.push((Button::North, ButtonState::new(self.north_button(), false)));
        gamepad.buttons.push((Button::South, ButtonState::new(self.south_button(), false)));
        gamepad.buttons.push((Button::East, ButtonState::new(self.east_button(), false)));
        gamepad.buttons.push((Button::West, ButtonState::new(self.west_button(), false)));
        gamepad.buttons.push(
            (Button::LeftShoulder, ButtonState::new(self.left_shoulder(), false)),
        );
        gamepad.buttons.push(
            (Button::LeftTrigger, ButtonState::new(self.left_trigger_bool(), false)),
        );
        gamepad.buttons.push(
            (Button::RightShoulder, ButtonState::new(self.right_shoulder(), false)),
        );
        gamepad.buttons.push(
            (Button::RightTrigger, ButtonState::new(self.right_trigger_bool(), false)),
        );
        gamepad.buttons.push(
            (Button::RightStick, ButtonState::new(self.right_thumb_button(), false)),
        );
        gamepad.buttons.push(
            (Button::LeftStick, ButtonState::new(self.left_thumb_button(), false)),
        );
        gamepad.buttons.push((Button::Select, ButtonState::new(self.select_button(), false)));
        gamepad.buttons.push((Button::Start, ButtonState::new(self.start_button(), false)));
        gamepad.buttons.push((Button::Menu, ButtonState::new(false, false)));
        gamepad.joysticks.push((Joystick::Left, JoystickState::new(self.left_stick_raw())));
        gamepad.joysticks.push((Joystick::Right, JoystickState::new(self.right_stick_raw())));
        proof {
            lemma_button_list(self);
            lemma_joystick_list(self);
        }
        gamepad
    }
}

/// The button map `to_gamepad` yields, in its insertion order: every named
/// button, carrying the packet's pressed value and a released previous
/// frame.
pub open spec fn spec_button_list(s: XInputState) -> Seq<(Button, ButtonState)> {
    Seq::<(Button, ButtonState)>::empty().push((Button::DPadNorth, spec_entry(s, Button::DPadNorth))).push(
        (Button::DPadSouth, spec_entry(s, Button::DPadSouth)),
    ).push((Button::DPadEast, spec_entry(s, Button::DPadEast))).push(
        (Button::DPadWest, spec_entry(s, Button::DPadWest)),
    ).push((Button::North, spec_entry(s, Button::North))).push(
        (Button::South, spec_entry(s, Button::South)),
    ).push((Button::East, spec_entry(s, Button::East))).push(
        (Button::West, spec_entry(s, Button::West)),
    ).push((Button::LeftShoulder, spec_entry(s, Button::LeftShoulder))).push(
        (Button::LeftTrigger, spec_entry(s, Button::LeftTrigger)),
    ).push((Button::RightShoulder, spec_entry(s, Button::RightShoulder))).push(
        (Button::RightTrigger, spec_entry(s, Button::RightTrigger)),
    ).push((Button::RightStick, spec_entry(s, Button::RightStick))).push(
        (Button::LeftStick, spec_entry(s, Button::LeftStick)),
    ).push((Button::Select, spec_entry(s, Button::Select))).push(
        (Button::Start, spec_entry(s, Button::Start)),
    ).push((Button::Menu, spec_entry(s, Button::Menu)))
}

/// The state `to_gamepad` records for one button.
pub open spec fn spec_entry(s: XInputState, b: Button) -> ButtonState {
    ButtonState { is_pressed: s.spec_pressed(b), was_pressed: false }
}

/// The joystick map `to_gamepad` yields: both sticks' raw axis pairs, left
/// before right.
pub open spec fn spec_joystick_list(s: XInputState) -> Seq<(Joystick, JoystickState)> {
    Seq::<(Joystick, JoystickState)>::empty().push(
        (Joystick::Left, JoystickState { raw_value: (s.thumb_lx, s.thumb_ly) }),
    ).push((Joystick::Right, JoystickState { raw_value: (s.thumb_rx, s.thumb_ry) }))
}

/// The raw stick pair the packet carries for `j`.
pub open spec fn spec_stick(s: XInputState, j: Joystick) -> JoystickState {
    match j {
        Joystick::Left => JoystickState { raw_value: (s.thumb_lx, s.thumb_ly) },
        Joystick::Right => JoystickState { raw_value: (s.thumb_rx, s.thumb_ry) },
    }
}

/// The joystick map of a freshly converted packet is duplicate-free and
/// maps each stick to its packet pair.
pub proof fn lemma_joystick_list(s: XInputState)
    ensures
        distinct_keys(spec_joystick_list(s)),
        forall|j: Joystick| #[trigger] assoc_find(spec_joystick_list(s), j) == Some(
            spec_stick(s, j),
        ),
{
    let q = spec_joystick_list(s);
    assert forall|j: Joystick| #[trigger] assoc_find(q, j) == Some(spec_stick(s, j)) by {
        reveal_with_fuel(assoc_find, 4);
        match j {
            Joystick::Left => {},
            Joystick::Right => {},
        }
    }
}

/// The button map of a freshly converted packet is duplicate-free and maps
/// every button to its packet value.
pub proof fn lemma_button_list(s: XInputState)
    ensures
        distinct_keys(spec_button_list(s)),
        forall|b: Button| #[trigger] assoc_find(spec_button_list(s), b) == Some(spec_entry(s, b)),
{
    let q = spec_button_list(s);
    assert forall|b: Button| #[trigger] assoc_find(q, b) == Some(spec_entry(s, b)) by {
        reveal_with_fuel(assoc_find, 19);
        match b {
            Button::DPadNorth => {},
            Button::DPadSouth => {},
            Button::DPadWest => {},
            Button::DPadEast => {},
            Button::North => {},
            Button::South => {},
            Button::West => {},
            Button::East => {},
            Button::LeftShoulder => {},
            Button::RightShoulder => {},
            Button::LeftTrigger => {},
            Button::RightTrigger => {},
            Button::RightStick => {},
            Button::LeftStick => {},
            Button::Menu => {},
            Button::Select => {},
            Button::Start => {},
        }
    }
}

/// Interprets one slot's native query result: success yields the packet, an
/// empty slot yields the recoverable per-slot error, and any other code the
/// fatal one, its message recording the native code in decimal.
pub fn classify_poll(code: u32, slot: u8, state: XInputState) -> (r: Result<
    XInputState,
    GamepadError,
>)
    ensures
        code == ERROR_SUCCESS ==> r == Ok::<XInputState, GamepadError>(state),
        code == ERROR_DEVICE_NOT_CONNECTED ==> r is Err && r->Err_0.error_type == (
        ErrorType::GamepadNotConnected { slot }) && r->Err_0.msg@ == "Device not connected for slot "@
            + spec_u32_dec(slot as nat),
        code != ERROR_SUCCESS && code != ERROR_DEVICE_NOT_CONNECTED ==> r is Err
            && r->Err_0.error_type == ErrorType::Unknown && r->Err_0.msg@ == "Error code: "@
            + spec_u32_dec(code as nat),
{
    if code == ERROR_SUCCESS {
        Ok(state)
    } else if code == ERROR_DEVICE_NOT_CONNECTED {
        let mut msg = "Device not connected for slot ".to_string();
        msg.append(u32_to_dec_string(slot as u32).as_str());
        Err(GamepadError { msg, error_type: ErrorType::GamepadNotConnected { slot } })
    } else {
        let mut msg = "Error code: ".to_string();
        msg.append(u32_to_dec_string(code).as_str());
        Err(GamepadError { msg, error_type: ErrorType::Unknown })
    }
}

/// Carries the previous frame's values into a freshly converted state:
/// every button `cur` maps gets the previous frame's `is_pressed` recorded
/// as its `was_pressed`, a button unseen a frame ago counting as released.
pub fn merge_was_pressed(prev: &GamepadState, cur: &mut GamepadState)
    requires
        old(cur).wf(),
    ensures
        final(cur).wf(),
        final(cur).joysticks@ == old(cur).joysticks@,
        forall|b: Button| #[trigger] final(cur).spec_button(b) == match old(cur).spec_button(b) {
            Some(c) => Some(
                ButtonState { is_pressed: c.is_pressed, was_pressed: prev.spec_is_pressed(b) },
            ),
            None => None::<ButtonState>,
        },
{
    let n = cur.buttons.len();
    let mut i: usize = 0;
    while i < n
        invariant
            n == cur.buttons@.len(),
            0 <= i <= n,
            cur.buttons@.len() == old(cur).buttons@.len(),
            cur.joysticks@ == old(cur).joysticks@,
            old(cur).wf(),
            forall|j: int| 0 <= j < n ==> cur.buttons@[j].0 == old(cur).buttons@[j].0,
            forall|j: int| i <= j < n ==> cur.buttons@[j] == old(cur).buttons@[j],
            forall|j: int|
                0 <= j < i ==> cur.buttons@[j].1 == (ButtonState {
                    is_pressed: old(cur).buttons@[j].1.is_pressed,
                    was_pressed: prev.spec_is_pressed(old(cur).buttons@[j].0),
                }),
        decreases n - i,
    {
        let key = cur.buttons[i].0;
        let current_pressed = cur.buttons[i].1.is_pressed;
        let was = prev.is_pressed(key);
        cur.buttons[i] = (key, ButtonState::new(current_pressed, was));
        i += 1;
    }
    proof {
        assert(distinct_keys(cur.buttons@));
        assert forall|b: Button| #[trigger] cur.spec_button(b) == match old(cur).spec_button(b) {
            Some(c) => Some(
                ButtonState { is_pressed: c.is_pressed, was_pressed: prev.spec_is_pressed(b) },
            ),
            None => None::<ButtonState>,
        } by {
            lemma_assoc_find_locate(old(cur).buttons@, b);
            match old(cur).spec_button(b) {
                Some(c) => {
                    let j = choose|j: int|
                        0 <= j < old(cur).buttons@.len() && old(cur).buttons@[j].0 == b && old(
                            cur,
                        ).buttons@[j].1 == c && (forall|l: int|
                            0 <= l < j ==> old(cur).buttons@[l].0 != b);
                    lemma_assoc_find_first_index(cur.buttons@, j, b);
                },
                None => {
                    lemma_assoc_find_absent(cur.buttons@, b);
                },
            }
        }
    }
}

/// A poll outcome that must abort the whole frame: any error other than the
/// per-slot "not connected" report.
pub open spec fn spec_fatal(p: Result<XInputState, GamepadError>) -> bool {
    p is Err && !(p->Err_0.error_type is GamepadNotConnected)
}

/// The packets of the connected slots, in slot order.
pub open spec fn spec_connected(polls: Seq<Result<XInputState, GamepadError>>) -> Seq<XInputState>
    decreases polls.len(),
{
    if polls.len() == 0 {
        Seq::empty()
    } else {
        let rest = spec_connected(polls.drop_last());
        if polls.last() is Ok {
            rest.push(polls.last()->Ok_0)
        } else {
            rest
        }
    }
}

/// The state the frame records for slot `i` of the connected slots: each
/// button carries the packet's pressed value, and the value the previous
/// frame's state at the same index recorded as `is_pressed`.
pub open spec fn spec_frame_button(
    prev: Seq<GamepadState>,
    pads: Seq<XInputState>,
    i: int,
    b: Button,
) -> ButtonState {
    ButtonState {
        is_pressed: pads[i].spec_pressed(b),
        was_pressed: spec_prev_pressed(spec_prev_at(prev, i), b),
    }
}

/// Polling twice with no real input change yields no spurious edge: a
/// button whose packet value matches what the previous frame's state at
/// the same slot recorded shows `is_pressed == was_pressed`.
pub proof fn lemma_frame_no_spurious_edges(
    prev: Seq<GamepadState>,
    pads: Seq<XInputState>,
    i: int,
    b: Button,
)
    requires
        pads[i].spec_pressed(b) == spec_prev_pressed(spec_prev_at(prev, i), b),
    ensures
        !spec_frame_button(prev, pads, i, b).spec_just_pressed(),
        !spec_frame_button(prev, pads, i, b).spec_just_released(),
{
}

/// Builds one frame's device collection from the per-slot poll outcomes.
///
/// A slot reporting not-connected is skipped: it does not appear in the
/// collection and does not abort the frame.  Any other error aborts the
/// frame and is handed back — the first such error, with the collection
/// untouched by the caller's convention.  On success the collection holds
/// exactly the connected slots' states, index-aligned, each correlated
/// against `prev` at the same index.
pub fn xinput_frame(
    prev: &Vec<GamepadState>,
    polls: &Vec<Result<XInputState, GamepadError>>,
) -> (r: Result<Vec<GamepadState>, GamepadError>)
    ensures
        (r is Err) <==> (exists|j: int| 0 <= j < polls@.len() && spec_fatal(#[trigger] polls@[j])),
        r is Err ==> exists|j: int|
            0 <= j < polls@.len() && spec_fatal(#[trigger] polls@[j]) && r->Err_0.error_type
                == polls@[j]->Err_0.error_type && r->Err_0.msg@ == polls@[j]->Err_0.msg@ && (
            forall|k: int| 0 <= k < j ==> !spec_fatal(#[trigger] polls@[k])),
        r is Ok ==> {
            let pads = spec_connected(polls@);
            &&& r->Ok_0@.len() == pads.len()
            &&& forall|i: int, b: Button|
                0 <= i < pads.len() ==> #[trigger] r->Ok_0@[i].spec_button(b) == Some(
                    spec_frame_button(prev@, pads, i, b),
                )
            &&& forall|i: int|
                0 <= i < pads.len() ==> (#[trigger] r->Ok_0@[i]).joysticks@
                    == spec_joystick_list(pads[i]) && r->Ok_0@[i].wf()
            &&& forall|i: int, j: Joystick|
                0 <= i < pads.len() ==> #[trigger] r->Ok_0@[i].spec_joystick(j) == Some(
                    spec_stick(pads[i], j),
                )
        },
{
    let n = polls.len();
    let mut gamepads: Vec<GamepadState> = Vec::new();
    let mut i: usize = 0;
    while i < n
        invariant
            n == polls@.len(),
            0 <= i <= n,
            forall|k: int| 0 <= k < i ==> !spec_fatal(#[trigger] polls@[k]),
            gamepads@.len() == spec_connected(polls@.take(i as int)).len(),
            forall|j: int, b: Button|
                0 <= j < gamepads@.len() ==> #[trigger] gamepads@[j].spec_button(b) == Some(
                    spec_entry(spec_connected(polls@.take(i as int))[j], b),
                ),
            forall|j: int|
                0 <= j < gamepads@.len() ==> (#[trigger] gamepads@[j]).joysticks@
                    == spec_joystick_list(spec_connected(polls@.take(i as int))[j])
                    && gamepads@[j].wf(),
        decreases n - i,
    {
        proof {
            assert(polls@.take(i + 1 as int).drop_last() =~= polls@.take(i as int));
            assert(polls@.take(i + 1 as int).last() == polls@[i as int]);
        }
        match &polls[i] {
            Ok(state) => {
                gamepads.push(state.to_gamepad());
            },
            Err(e) => {
                match e.error_type {
                    ErrorType::GamepadNotConnected { slot: _ } => {
                        // Expected per-slot noise: the slot is skipped for
                        // this frame.
                    },
                    ErrorType::Unknown => {
                        return Err(e.clone());
                    },
                }
            },
        }
        i += 1;
    }
    proof {
        assert(polls@.take(n as int) =~= polls@);
    }
    let m = gamepads.len();
    let mut k: usize = 0;
    while k < m
        invariant
            m == gamepads@.len(),
            0 <= k <= m,
            gamepads@.len() == spec_connected(polls@).len(),
            forall|j: int, b: Button|
                k <= j < m ==> #[trigger] gamepads@[j].spec_button(b) == Some(
                    spec_entry(spec_connected(polls@)[j], b),
                ),
            forall|j: int, b: Button|
                0 <= j < k ==> #[trigger] gamepads@[j].spec_button(b) == Some(
                    spec_frame_button(prev@, spec_connected(polls@), j, b),
                ),
            forall|j: int|
                0 <= j < m ==> (#[trigger] gamepads@[j]).joysticks@ == spec_joystick_list(
                    spec_connected(polls@)[j],
                ) && gamepads@[j].wf(),
        decreases m - k,
    {
        if k < prev.len() {
            merge_was_pressed(&prev[k], &mut gamepads[k]);
        }
        k += 1;
    }
    proof {
        assert forall|i: int, j: Joystick|
            0 <= i < spec_connected(polls@).len() implies #[trigger] gamepads@[i].spec_joystick(j)
            == Some(spec_stick(spec_connected(polls@)[i], j)) by {
            lemma_joystick_list(spec_connected(polls@)[i]);
        }
    }
    Ok(gamepads)
}

} // verus!
