//! The unified, backend-agnostic state model: buttons, button states,
//! joysticks, and the error taxonomy shared by every backend.

use vstd::prelude::*;
use vstd::string::StringExecFns;

verus! {

/// The decimal digit character for `d`.
pub open spec fn spec_digit(d: nat) -> char {
    if d == 0 {
        '0'
    } else if d == 1 {
        '1'
    } else if d == 2 {
        '2'
    } else if d == 3 {
        '3'
    } else if d == 4 {
        '4'
    } else if d == 5 {
        '5'
    } else if d == 6 {
        '6'
    } else if d == 7 {
        '7'
    } else if d == 8 {
        '8'
    } else {
        '9'
    }
}

/// The decimal rendering of `n`, most significant digit first, without
/// leading zeros (a single `'0'` for zero).
pub open spec fn spec_u32_dec(n: nat) -> Seq<char>
    decreases n,
{
    if n < 10 {
        seq![spec_digit(n)]
    } else {
        spec_u32_dec(n / 10) + seq![spec_digit(n % 10)]
    }
}

fn digit_str(d: u32) -> (s: &'static str)
    requires
        d < 10,
    ensures
        s@ == seq![spec_digit(d as nat)],
{
    if d == 0 {
        proof {
            reveal_strlit("0");
            assert("0"@ =~= seq![spec_digit(0)]);
        }
        "0"
    } else if d == 1 {
        proof {
            reveal_strlit("1");
            assert("1"@ =~= seq![spec_digit(1)]);
        }
        "1"
    } else if d == 2 {
        proof {
            reveal_strlit("2");
            assert("2"@ =~= seq![spec_digit(2)]);
        }
        "2"
    } else if d == 3 {
        proof {
            reveal_strlit("3");
            assert("3"@ =~= seq![spec_digit(3)]);
        }
        "3"
    } else if d == 4 {
        proof {
            reveal_strlit("4");
            assert("4"@ =~= seq![spec_digit(4)]);
        }
        "4"
    } else if d == 5 {
        proof {
            reveal_strlit("5");
            assert("5"@ =~= seq![spec_digit(5)]);
        }
        "5"
    } else if d == 6 {
        proof {
            reveal_strlit("6");
            assert("6"@ =~= seq![spec_digit(6)]);
        }
        "6"
    } else if d == 7 {
        proof {
            reveal_strlit("7");
            assert("7"@ =~= seq![spec_digit(7)]);
        }
        "7"
    } else if d == 8 {
        proof {
            reveal_strlit("8");
            assert("8"@ =~= seq![spec_digit(8)]);
        }
        "8"
    } else {
        proof {
            reveal_strlit("9");
            assert("9"@ =~= seq![spec_digit(9)]);
        }
        "9"
    }
}

/// Renders `n` in decimal, for diagnostic messages that record a native
/// code or a slot number.
pub fn u32_to_dec_string(n: u32) -> (s: String)
    ensures
        s@ == spec_u32_dec(n as nat),
    decreases n,
{
    if n < 10 {
        let mut s = String::new();
        s.append(digit_str(n));
        proof {
            assert(s@ =~= spec_u32_dec(n as nat));
        }
        s
    } else {
        let mut s = u32_to_dec_string(n / 10);
        s.append(digit_str(n % 10));
        s
    }
}

/// The kind of a backend failure.
///
/// `GamepadNotConnected` is expected per-slot noise: the slot is simply
/// skipped for the frame.  `Unknown` is a hard failure surfaced to the
/// caller.
#[derive(Debug, Clone, Copy, PartialEq, Eq, Structural)]
pub enum ErrorType {
    GamepadNotConnected { slot: u8 },
    Unknown,
}

/// An error reported by a backend while polling the native subsystem.
#[derive(Debug)]
pub struct GamepadError {
    pub msg: String,
    pub error_type: ErrorType,
}

impl Clone for GamepadError {
    fn clone(&self) -> (r: Self)
        ensures
            r.msg@ == self.msg@,
            r.error_type == self.error_type,
    {
        GamepadError { msg: self.msg.clone(), error_type: self.error_type }
    }
}

impl GamepadError {
    pub fn new(msg: &str, error_type: ErrorType) -> (r: Self)
        ensures
            r.msg@ == msg@,
            r.error_type == error_type,
    {
        GamepadError { msg: msg.to_string(), error_type }
    }
}

/// A connect / disconnect transition reported by a backend that can detect
/// them; backends that cannot report an empty sequence.
#[derive(Clone, Debug, PartialEq, Eq, Structural)]
pub enum GamepadEvent {
    Connected {},
    Disconnected {},
}

/// The closed set of named buttons a backend may report.
#[derive(Clone, Copy, Debug, Hash, PartialEq, Eq, Structural)]
pub enum Button {
    DPadNorth,
    DPadSouth,
    DPadWest,
    DPadEast,
    North,
    South,
    West,
    East,
    LeftShoulder,
    RightShoulder,
    LeftTrigger,
    RightTrigger,
    RightStick,
    LeftStick,
    Menu,
    Select,
    Start,
}

/// Identifies one of the two analog sticks.
#[derive(Clone, Copy, Debug, Hash, PartialEq, Eq, Structural)]
pub enum Joystick {
    Left,
    Right,
}

/// The value associated with the first entry of `s` whose key is `k`, if any.
///
/// Button and joystick maps are kept as association vectors; this is their
/// lookup model.  The first matching entry wins, so the model is well defined
/// even on a vector with duplicate keys.
pub open spec fn assoc_find<K, V>(s: Seq<(K, V)>, k: K) -> Option<V>
    decreases s.len(),
{
    if s.len() == 0 {
        None
    } else if s[0].0 == k {
        Some(s[0].1)
    } else {
        assoc_find(s.drop_first(), k)
    }
}

/// No two entries of `s` share a key.
pub open spec fn distinct_keys<K, V>(s: Seq<(K, V)>) -> bool {
    forall|i: int, j: int| 0 <= i < j < s.len() ==> s[i].0 != s[j].0
}

/// If entry `i` is the first whose key is `k`, the lookup returns its value.
pub proof fn lemma_assoc_find_first_index<K, V>(s: Seq<(K, V)>, i: int, k: K)
    requires
        0 <= i < s.len(),
        s[i].0 == k,
        forall|j: int| 0 <= j < i ==> s[j].0 != k,
    ensures
        assoc_find(s, k) == Some(s[i].1),
    decreases s.len(),
{
    if i > 0 {
        lemma_assoc_find_first_index(s.drop_first(), i - 1, k);
    }
}

/// A key no entry carries is not found.
pub proof fn lemma_assoc_find_absent<K, V>(s: Seq<(K, V)>, k: K)
    requires
        forall|j: int| 0 <= j < s.len() ==> s[j].0 != k,
    ensures
        assoc_find(s, k) is None,
    decreases s.len(),
{
    if s.len() > 0 {
        lemma_assoc_find_absent(s.drop_first(), k);
    }
}

/// A found key has a first entry that carries the found value; a missing
/// key has no entry at all.
pub proof fn lemma_assoc_find_locate<K, V>(s: Seq<(K, V)>, k: K)
    ensures
        match assoc_find(s, k) {
            Some(v) => exists|j: int|
                0 <= j < s.len() && s[j].0 == k && s[j].1 == v && (forall|l: int|
                    0 <= l < j ==> s[l].0 != k),
            None => forall|j: int| 0 <= j < s.len() ==> s[j].0 != k,
        },
    decreases s.len(),
{
    if s.len() > 0 {
        if s[0].0 == k {
            let j = 0int;
            assert(0 <= j < s.len() && s[j].0 == k && s[j].1 == assoc_find(s, k)->0 && (
            forall|l: int| 0 <= l < j ==> s[l].0 != k));
        } else {
            lemma_assoc_find_locate(s.drop_first(), k);
            let t = s.drop_first();
            match assoc_find(s, k) {
                Some(v) => {
                    let j0 = choose|j: int|
                        0 <= j < t.len() && t[j].0 == k && t[j].1 == v && (forall|l: int|
                            0 <= l < j ==> t[l].0 != k);
                    assert(s[j0 + 1].0 == k && s[j0 + 1].1 == v);
                    assert(forall|l: int| 0 <= l < j0 + 1 ==> s[l].0 != k) by {
                        assert(forall|l: int| 1 <= l < j0 + 1 ==> s[l] == t[l - 1]);
                    }
                },
                None => {
                    assert(forall|j: int| 1 <= j < s.len() ==> s[j] == t[j - 1]);
                },
            }
        }
    }
}

/// One button's value for the current frame together with the value recorded
/// in the immediately preceding frame, from which the one-frame edges are
/// derived.
#[derive(Clone, Copy, Debug, PartialEq, Eq, Structural)]
pub struct ButtonState {
    pub is_pressed: bool,
    pub was_pressed: bool,
}

impl ButtonState {
    /// The *just pressed* edge: pressed now, not pressed a frame ago.
    pub open spec fn spec_just_pressed(self) -> bool {
        self.is_pressed && !self.was_pressed
    }

    /// The *just released* edge: not pressed now, pressed a frame ago.
    pub open spec fn spec_just_released(self) -> bool {
        !self.is_pressed && self.was_pressed
    }

    pub fn new(is_pressed: bool, was_pressed: bool) -> (r: Self)
        ensures
            r == (ButtonState { is_pressed, was_pressed }),
    {
        ButtonState { is_pressed, was_pressed }
    }

    pub fn is_pressed(&self) -> (r: bool)
        ensures
            r == self.is_pressed,
    {
        self.is_pressed
    }

    pub fn is_just_pressed(&self) -> (r: bool)
        ensures
            r == self.spec_just_pressed(),
    {
        self.is_pressed && !self.was_pressed
    }

    pub fn is_just_released(&self) -> (r: bool)
        ensures
            r == self.spec_just_released(),
    {
        !self.is_pressed && self.was_pressed
    }
}

impl Default for ButtonState {
    /// A button never seen by the backend: not pressed in either frame.
    fn default() -> (r: ButtonState)
        ensures
            r == (ButtonState { is_pressed: false, was_pressed: false }),
    {
        ButtonState::new(false, false)
    }
}

/// A raw analog-stick position: signed 16-bit axis pair in the device's
/// native range.  X positive is right, Y positive is up.
#[derive(Clone, Copy, Debug, PartialEq, Eq)]
pub struct JoystickState {
    pub raw_value: (i16, i16),
}

impl JoystickState {
    pub fn new(raw_value: (i16, i16)) -> (r: Self)
        ensures
            r.raw_value == raw_value,
    {
        JoystickState { raw_value }
    }
}

impl Default for JoystickState {
    /// A centered stick.
    fn default() -> (r: JoystickState)
        ensures
            r.raw_value == (0i16, 0i16),
    {
        JoystickState { raw_value: (0, 0) }
    }
}

/// One controller's snapshot for the current frame: a button map holding
/// only the buttons the backend reports, and a joystick map.
///
/// A fresh snapshot is built every update cycle per connected slot; the
/// snapshot it replaces is consulted once for edge detection and then
/// discarded.
#[derive(Clone, Debug)]
pub struct GamepadState {
    pub buttons: Vec<(Button, ButtonState)>,
    pub joysticks: Vec<(Joystick, JoystickState)>,
}

impl GamepadState {
    /// The state recorded for `b`, or `None` if the backend never reported it.
    pub open spec fn spec_button(self, b: Button) -> Option<ButtonState> {
        assoc_find(self.buttons@, b)
    }

    /// The position recorded for `j`, or `None` if the backend never reported it.
    pub open spec fn spec_joystick(self, j: Joystick) -> Option<JoystickState> {
        assoc_find(self.joysticks@, j)
    }

    /// A button absent from the map counts as not pressed.
    pub open spec fn spec_is_pressed(self, b: Button) -> bool {
        match self.spec_button(b) {
            Some(s) => s.is_pressed,
            None => false,
        }
    }

    /// A button absent from the map shows no edge.
    pub open spec fn spec_just_pressed(self, b: Button) -> bool {
        match self.spec_button(b) {
            Some(s) => s.spec_just_pressed(),
            None => false,
        }
    }

    /// A button absent from the map shows no edge.
    pub open spec fn spec_just_released(self, b: Button) -> bool {
        match self.spec_button(b) {
            Some(s) => s.spec_just_released(),
            None => false,
        }
    }

    /// Both maps are free of duplicate keys.
    pub open spec fn wf(self) -> bool {
        distinct_keys(self.buttons@) && distinct_keys(self.joysticks@)
    }

    pub fn new() -> (r: Self)
        ensures
            r.buttons@ == Seq::<(Button, ButtonState)>::empty(),
            r.joysticks@ == Seq::<(Joystick, JoystickState)>::empty(),
            r.wf(),
    {
        GamepadState { buttons: Vec::new(), joysticks: Vec::new() }
    }

    pub fn buttons(&self) -> (r: &Vec<(Button, ButtonState)>)
        ensures
            r == &self.buttons,
    {
        &self.buttons
    }

    pub fn buttons_mut(&mut self) -> (r: &mut Vec<(Button, ButtonState)>)
        ensures
            *r == old(self).buttons,
            final(self).buttons == *final(r),
            final(self).joysticks == old(self).joysticks,
    {
        &mut self.buttons
    }

    pub fn joysticks(&self) -> (r: &Vec<(Joystick, JoystickState)>)
        ensures
            r == &self.joysticks,
    {
        &self.joysticks
    }

    pub fn joysticks_mut(&mut self) -> (r: &mut Vec<(Joystick, JoystickState)>)
        ensures
            *r == old(self).joysticks,
            final(self).joysticks == *final(r),
            final(self).buttons == old(self).buttons,
    {
        &mut self.joysticks
    }

    /// The state recorded for `button`, if any.
    pub fn button_state(&self, button: Button) -> (r: Option<ButtonState>)
        ensures
            r == self.spec_button(button),
    {
        let n = self.buttons.len();
        let mut i: usize = 0;
        while i < n
            invariant
                n == self.buttons@.len(),
                0 <= i <= n,
                forall|j: int| 0 <= j < i ==> self.buttons@[j].0 != button,
            decreases n - i,
        {
            if self.buttons[i].0 == button {
                proof {
                    lemma_assoc_find_first_index(self.buttons@, i as int, button);
                }
                return Some(self.buttons[i].1);
            }
            i += 1;
        }
        proof {
            lemma_assoc_find_absent(self.buttons@, button);
        }
        None
    }

    /// The raw axis pair of `joystick`, or `(0, 0)` if it was never reported.
    pub fn joystick(&self, joystick: Joystick) -> (r: (i16, i16))
        ensures
            r == match self.spec_joystick(joystick) {
                Some(s) => s.raw_value,
                None => (0i16, 0i16),
            },
    {
        let n = self.joysticks.len();
        let mut i: usize = 0;
        while i < n
            invariant
                n == self.joysticks@.len(),
                0 <= i <= n,
                forall|j: int| 0 <= j < i ==> self.joysticks@[j].0 != joystick,
            decreases n - i,
        {
            if self.joysticks[i].0 == joystick {
                proof {
                    lemma_assoc_find_first_index(self.joysticks@, i as int, joystick);
                }
                return self.joysticks[i].1.raw_value;
            }
            i += 1;
        }
        proof {
            lemma_assoc_find_absent(self.joysticks@, joystick);
        }
        (0, 0)
    }

    /// Whether `button` is pressed this frame; `false` if it is unmapped.
    pub fn is_pressed(&self, button: Button) -> (r: bool)
        ensures
            r == self.spec_is_pressed(button),
    {
        match self.button_state(button) {
            Some(button_state) => button_state.is_pressed,
            None => false,
        }
    }

    /// Whether `button` went from released to pressed since the previous
    /// frame; `false` if it is unmapped.
    pub fn is_just_pressed(&self, button: Button) -> (r: bool)
        ensures
            r == self.spec_just_pressed(button),
    {
        match self.button_state(button) {
            Some(button_state) => button_state.is_pressed && !button_state.was_pressed,
            None => false,
        }
    }

    /// Whether `button` went from pressed to released since the previous
    /// frame; `false` if it is unmapped.
    pub fn is_just_released(&self, button: Button) -> (r: bool)
        ensures
            r == self.spec_just_released(button),
    {
        match self.button_state(button) {
            Some(button_state) => !button_state.is_pressed && button_state.was_pressed,
            None => false,
        }
    }

    /// Records the current frame's values as the previous frame's: every
    /// mapped button gets its own `is_pressed` as its new `was_pressed`.
    ///
    /// This is the edge correlation for an update that observed no input
    /// change: afterwards no button shows a spurious edge.
    pub fn refresh_was_pressed(&mut self)
        ensures
            final(self).joysticks@ == old(self).joysticks@,
            final(self).buttons@.len() == old(self).buttons@.len(),
            forall|b: Button| #[trigger] final(self).spec_button(b) == match old(
                self,
            ).spec_button(b) {
                Some(c) => Some(
                    ButtonState { is_pressed: c.is_pressed, was_pressed: c.is_pressed },
                ),
                None => None::<ButtonState>,
            },
            old(self).wf() ==> final(self).wf(),
    {
        let n = self.buttons.len();
        let mut i: usize = 0;
        while i < n
            invariant
                n == self.buttons@.len(),
                0 <= i <= n,
                self.buttons@.len() == old(self).buttons@.len(),
                self.joysticks@ == old(self).joysticks@,
                forall|j: int| 0 <= j < n ==> self.buttons@[j].0 == old(self).buttons@[j].0,
                forall|j: int| i <= j < n ==> self.buttons@[j] == old(self).buttons@[j],
                forall|j: int|
                    0 <= j < i ==> self.buttons@[j].1 == (ButtonState {
                        is_pressed: old(self).buttons@[j].1.is_pressed,
                        was_pressed: old(self).buttons@[j].1.is_pressed,
                    }),
            decreases n - i,
        {
            let key = self.buttons[i].0;
            let pressed = self.buttons[i].1.is_pressed;
            self.buttons[i] = (key, ButtonState::new(pressed, pressed));
            i += 1;
        }
        proof {
            assert forall|b: Button| #[trigger] self.spec_button(b) == match old(
                self,
            ).spec_button(b) {
                Some(c) => Some(
                    ButtonState { is_pressed: c.is_pressed, was_pressed: c.is_pressed },
                ),
                None => None::<ButtonState>,
            } by {
                lemma_assoc_find_locate(old(self).buttons@, b);
                match old(self).spec_button(b) {
                    Some(c) => {
                        let j = choose|j: int|
                            0 <= j < old(self).buttons@.len() && old(self).buttons@[j].0 == b
                                && old(self).buttons@[j].1 == c && (forall|l: int|
                                0 <= l < j ==> old(self).buttons@[l].0 != b);
                        lemma_assoc_find_first_index(self.buttons@, j, b);
                    },
                    None => {
                        lemma_assoc_find_absent(self.buttons@, b);
                    },
                }
            }
        }
    }
}

} // verus!
