//! The input state machine.
//!
//! Raw platform events (a key or mouse button going down or up, the cursor
//! moving or crossing the window edge) arrive through the `update_*`
//! methods; per-frame user code reads the reconciled state back through
//! level queries (`is_*`), one-shot edge queries (`on_*`) that consume a
//! single-slot latch, and the two movement axes.

use crate::fixed::{clamp_i64, clamp_spec, SCALE};
use crate::types::vector2::Vector2;
use vstd::prelude::*;

verus! {

/// Sentinel scancode meaning "no edge latched"; no key or button uses it.
pub const NO_EDGE: u32 = 0;

/// Keyboard keys that can be queried.
#[derive(Clone, Copy, Debug, PartialEq, Eq, Structural)]
pub enum Key {
    Esc,
    Num1,
    Num2,
    Num3,
    Num4,
    Num5,
    Num6,
    Num7,
    Num8,
    Num9,
    Num0,
    Minus,
    Plus,
    Backspace,
    Tab,
    Q,
    W,
    E,
    R,
    T,
    Y,
    U,
    I,
    O,
    P,
    LeftBracket,
    RightBracket,
    Enter,
    LeftCtrl,
    A,
    S,
    D,
    F,
    G,
    H,
    J,
    K,
    L,
    Semicolon,
    Apostrophe,
    GraveAccent,
    LeftShift,
    BackSlash,
    Z,
    X,
    C,
    V,
    B,
    N,
    M,
    Comma,
    Period,
    ForwardSlash,
    RightShift,
    LeftAlt,
    Space,
    CapsLock,
    F1,
    F2,
    F3,
    F4,
    F5,
    F6,
    F7,
    F8,
    F9,
    F10,
    F11,
    F12,
    RightCtrl,
    RightAlt,
    Up,
    Left,
    Right,
    Down,
    Insert,
    Delete,
    Meta,
}

/// Platform scancode of a key; never `NO_EDGE`.
pub open spec fn key_code(key: Key) -> u32 {
    match key {
        Key::Esc => 1,
        Key::Num1 => 2,
        Key::Num2 => 3,
        Key::Num3 => 4,
        Key::Num4 => 5,
        Key::Num5 => 6,
        Key::Num6 => 7,
        Key::Num7 => 8,
        Key::Num8 => 9,
        Key::Num9 => 10,
        Key::Num0 => 11,
        Key::Minus => 12,
        Key::Plus => 13,
        Key::Backspace => 14,
        Key::Tab => 15,
        Key::Q => 16,
        Key::W => 17,
        Key::E => 18,
        Key::R => 19,
        Key::T => 20,
        Key::Y => 21,
        Key::U => 22,
        Key::I => 23,
        Key::O => 24,
        Key::P => 25,
        Key::LeftBracket => 26,
        Key::RightBracket => 27,
        Key::Enter => 28,
        Key::LeftCtrl => 29,
        Key::A => 30,
        Key::S => 31,
        Key::D => 32,
        Key::F => 33,
        Key::G => 34,
        Key::H => 35,
        Key::J => 36,
        Key::K => 37,
        Key::L => 38,
        Key::Semicolon => 39,
        Key::Apostrophe => 40,
        Key::GraveAccent => 41,
        Key::LeftShift => 42,
        Key::BackSlash => 43,
        Key::Z => 44,
        Key::X => 45,
        Key::C => 46,
        Key::V => 47,
        Key::B => 48,
        Key::N => 49,
        Key::M => 50,
        Key::Comma => 51,
        Key::Period => 52,
        Key::ForwardSlash => 53,
        Key::RightShift => 54,
        Key::LeftAlt => 56,
        Key::Space => 57,
        Key::CapsLock => 58,
        Key::F1 => 59,
        Key::F2 => 60,
        Key::F3 => 61,
        Key::F4 => 62,
        Key::F5 => 63,
        Key::F6 => 64,
        Key::F7 => 65,
        Key::F8 => 66,
        Key::F9 => 67,
        Key::F10 => 68,
        Key::F11 => 87,
        Key::F12 => 88,
        Key::RightCtrl => 57373,
        Key::RightAlt => 57400,
        Key::Up => 57416,
        Key::Left => 57419,
        Key::Right => 57421,
        Key::Down => 57424,
        Key::Insert => 57426,
        Key::Delete => 57427,
        Key::Meta => 57435,
    }
}

impl Key {
    /// Platform scancode of this key.
    pub fn code(self) -> (c: u32)
        ensures
            c == key_code(self),
    {
        match self {
            Key::Esc => 1,
            Key::Num1 => 2,
            Key::Num2 => 3,
            Key::Num3 => 4,
            Key::Num4 => 5,
            Key::Num5 => 6,
            Key::Num6 => 7,
            Key::Num7 => 8,
            Key::Num8 => 9,
            Key::Num9 => 10,
            Key::Num0 => 11,
            Key::Minus => 12,
            Key::Plus => 13,
            Key::Backspace => 14,
            Key::Tab => 15,
            Key::Q => 16,
            Key::W => 17,
            Key::E => 18,
            Key::R => 19,
            Key::T => 20,
            Key::Y => 21,
            Key::U => 22,
            Key::I => 23,
            Key::O => 24,
            Key::P => 25,
            Key::LeftBracket => 26,
            Key::RightBracket => 27,
            Key::Enter => 28,
            Key::LeftCtrl => 29,
            Key::A => 30,
            Key::S => 31,
            Key::D => 32,
            Key::F => 33,
            Key::G => 34,
            Key::H => 35,
            Key::J => 36,
            Key::K => 37,
            Key::L => 38,
            Key::Semicolon => 39,
            Key::Apostrophe => 40,
            Key::GraveAccent => 41,
            Key::LeftShift => 42,
            Key::BackSlash => 43,
            Key::Z => 44,
            Key::X => 45,
            Key::C => 46,
            Key::V => 47,
            Key::B => 48,
            Key::N => 49,
            Key::M => 50,
            Key::Comma => 51,
            Key::Period => 52,
            Key::ForwardSlash => 53,
            Key::RightShift => 54,
            Key::LeftAlt => 56,
            Key::Space => 57,
            Key::CapsLock => 58,
            Key::F1 => 59,
            Key::F2 => 60,
            Key::F3 => 61,
            Key::F4 => 62,
            Key::F5 => 63,
            Key::F6 => 64,
            Key::F7 => 65,
            Key::F8 => 66,
            Key::F9 => 67,
            Key::F10 => 68,
            Key::F11 => 87,
            Key::F12 => 88,
            Key::RightCtrl => 57373,
            Key::RightAlt => 57400,
            Key::Up => 57416,
            Key::Left => 57419,
            Key::Right => 57421,
            Key::Down => 57424,
            Key::Insert => 57426,
            Key::Delete => 57427,
            Key::Meta => 57435,
        }
    }
}

/// Mouse buttons that can be queried.
#[derive(Clone, Copy, Debug, PartialEq, Eq, Structural)]
pub enum MouseButton {
    Left,
    Right,
    Middle,
}

/// Numeric code of a mouse button; never `NO_EDGE`.
pub open spec fn mouse_button_code(button: MouseButton) -> u32 {
    match button {
        MouseButton::Left => 1,
        MouseButton::Right => 2,
        MouseButton::Middle => 3,
    }
}

impl MouseButton {
    /// Numeric code of this mouse button.
    pub fn code(self) -> (c: u32)
        ensures
            c == mouse_button_code(self),
    {
        match self {
            MouseButton::Left => 1,
            MouseButton::Right => 2,
            MouseButton::Middle => 3,
        }
    }
}

/// Abstract state of one device class: the set of codes currently held,
/// and one latched "just pressed" and "just released" code each.
#[verifier::ext_equal]
pub ghost struct DeviceModel {
    pub held: Set<u32>,
    pub down_buffer: u32,
    pub up_buffer: u32,
}

/// Abstract state of the whole input manager.
#[verifier::ext_equal]
pub ghost struct InputModel {
    pub keyboard: DeviceModel,
    pub mouse: DeviceModel,
    pub mouse_position: Vector2,
    pub is_mouse_entered: bool,
}

/// A device class before any event: nothing held, no edge latched.
pub open spec fn device_init() -> DeviceModel {
    DeviceModel { held: Set::empty(), down_buffer: NO_EDGE, up_buffer: NO_EDGE }
}

/// The input manager before any event.
pub open spec fn input_init() -> InputModel {
    InputModel {
        keyboard: device_init(),
        mouse: device_init(),
        mouse_position: Vector2 { x: 0, y: 0 },
        is_mouse_entered: false,
    }
}

/// How a press or release event changes one device class: a press of a code
/// not yet held adds it to the held set and latches the down edge (a repeat
/// press changes nothing); a release removes the code and latches the up
/// edge. Each latch holds only the most recent code since it was consumed.
pub open spec fn device_event(d: DeviceModel, code: u32, pressed: bool) -> DeviceModel {
    if pressed {
        if d.held.contains(code) {
            d
        } else {
            DeviceModel { held: d.held.insert(code), down_buffer: code, ..d }
        }
    } else {
        DeviceModel { held: d.held.remove(code), up_buffer: code, ..d }
    }
}

/// Whether an edge query for `code` fires against a latch.
pub open spec fn edge_fires(buffer: u32, code: u32) -> bool {
    buffer == code
}

/// One device class after a down-edge query for `code`: a firing query
/// clears the latch, a missing one changes nothing.
pub open spec fn consume_down(d: DeviceModel, code: u32) -> DeviceModel {
    if d.down_buffer == code {
        DeviceModel { down_buffer: NO_EDGE, ..d }
    } else {
        d
    }
}

/// One device class after an up-edge query for `code`.
pub open spec fn consume_up(d: DeviceModel, code: u32) -> DeviceModel {
    if d.up_buffer == code {
        DeviceModel { up_buffer: NO_EDGE, ..d }
    } else {
        d
    }
}

/// Whether a key is held in a model.
pub open spec fn key_down(m: InputModel, key: Key) -> bool {
    m.keyboard.held.contains(key_code(key))
}

/// Whether a key is not held in a model.
pub open spec fn key_up(m: InputModel, key: Key) -> bool {
    !m.keyboard.held.contains(key_code(key))
}

/// 1 if the key is held, else 0.
pub open spec fn key_weight(m: InputModel, key: Key) -> int {
    if key_down(m, key) { 1 } else { 0 }
}

/// The horizontal movement axis: D and Right pull toward `SCALE`, A and
/// Left toward `-SCALE`; opposing keys cancel and the sum is clamped to
/// one unit.
pub open spec fn axis_horizontal(m: InputModel) -> int {
    clamp_spec(
        (key_weight(m, Key::D) - key_weight(m, Key::A) + key_weight(m, Key::Right) - key_weight(
            m,
            Key::Left,
        )) * (SCALE as int),
        -(SCALE as int),
        SCALE as int,
    )
}

/// The vertical movement axis: S and Down pull toward `SCALE`, W and Up
/// toward `-SCALE` (screen y grows downward).
pub open spec fn axis_vertical(m: InputModel) -> int {
    clamp_spec(
        (key_weight(m, Key::S) - key_weight(m, Key::W) + key_weight(m, Key::Down) - key_weight(
            m,
            Key::Up,
        )) * (SCALE as int),
        -(SCALE as int),
        SCALE as int,
    )
}

/// Input manager: reconciles raw platform input events into stable
/// per-frame queries.
pub struct Input {
    current_keys_down: Vec<u32>,
    key_down_buffer: u32,
    key_up_buffer: u32,
    current_mouse_buttons_down: Vec<u32>,
    mouse_button_down_buffer: u32,
    mouse_button_up_buffer: u32,
    mouse_position: Vector2,
    is_mouse_entered: bool,
}

impl View for Input {
    type V = InputModel;

    closed spec fn view(&self) -> InputModel {
        InputModel {
            keyboard: DeviceModel {
                held: self.current_keys_down@.to_set(),
                down_buffer: self.key_down_buffer,
                up_buffer: self.key_up_buffer,
            },
            mouse: DeviceModel {
                held: self.current_mouse_buttons_down@.to_set(),
                down_buffer: self.mouse_button_down_buffer,
                up_buffer: self.mouse_button_up_buffer,
            },
            mouse_position: self.mouse_position,
            is_mouse_entered: self.is_mouse_entered,
        }
    }
}

/// Whether `v` holds `code`.
fn held_contains(v: &Vec<u32>, code: u32) -> (r: bool)
    ensures
        r == v@.to_set().contains(code),
{
    let mut i: usize = 0;
    while i < v.len()
        invariant
            0 <= i <= v@.len(),
            forall|j: int| 0 <= j < i ==> v@[j] != code,
        decreases v@.len() - i,
    {
        if v[i] == code {
            return true;
        }
        i = i + 1;
    }
    proof {
        assert(!v@.contains(code));
    }
    false
}

/// Add `code` to a duplicate-free vector unless it is already there;
/// reports whether it was added.
fn held_insert(v: &mut Vec<u32>, code: u32) -> (added: bool)
    requires
        old(v)@.no_duplicates(),
    ensures
        final(v)@.no_duplicates(),
        final(v)@.to_set() == old(v)@.to_set().insert(code),
        added == !old(v)@.to_set().contains(code),
{
    if held_contains(v, code) {
        proof {
            assert(v@.to_set() =~= v@.to_set().insert(code));
        }
        return false;
    }
    let ghost s = v@;
    v.push(code);
    proof {
        s.lemma_push_to_set_commute(code);
        assert(v@.no_duplicates()) by {
            assert forall|i: int, j: int|
                (0 <= i < v@.len() && 0 <= j < v@.len() && i != j) implies v@[i] != v@[j] by {
                if i < s.len() && j < s.len() {
                    assert(s[i] != s[j]);
                } else if j == s.len() {
                    if v@[i] == code {
                        assert(s.contains(code));
                        assert(s.to_set().contains(code));
                    }
                } else {
                    if v@[j] == code {
                        assert(s.contains(code));
                        assert(s.to_set().contains(code));
                    }
                }
            }
        }
        assert(!s.to_set().contains(code));
    }
    true
}

/// Remove `code` from a duplicate-free vector if it is there.
fn held_remove(v: &mut Vec<u32>, code: u32)
    requires
        old(v)@.no_duplicates(),
    ensures
        final(v)@.no_duplicates(),
        final(v)@.to_set() == old(v)@.to_set().remove(code),
{
    let ghost s = v@;
    let mut i: usize = 0;
    while i < v.len()
        invariant
            v@ == s,
            old(v)@ == s,
            s.no_duplicates(),
            0 <= i <= s.len(),
            forall|j: int| 0 <= j < i ==> s[j] != code,
        decreases s.len() - i,
    {
        if v[i] == code {
            proof {
                assert(s[i as int] == code);
            }
            v.remove(i);
            proof {
                assert(v@ == s.remove(i as int));
                lemma_remove_at_to_set(s, i as int);
                assert(v@.to_set() == s.to_set().remove(code));
            }
            return;
        }
        i = i + 1;
    }
    proof {
        assert(!s.contains(code));
        assert(!s.to_set().contains(code));
        assert(s.to_set() =~= s.to_set().remove(code));
    }
}

/// Removing the only occurrence of a value from a duplicate-free sequence
/// removes exactly that value from its set of elements.
proof fn lemma_remove_at_to_set(s: Seq<u32>, j: int)
    requires
        s.no_duplicates(),
        0 <= j < s.len(),
    ensures
        s.remove(j).no_duplicates(),
        s.remove(j).to_set() == s.to_set().remove(s[j]),
{
    let t = s.remove(j);
    s.remove_ensures(j);
    assert forall|i1: int, i2: int|
        (0 <= i1 < t.len() && 0 <= i2 < t.len() && i1 != i2) implies t[i1] != t[i2] by {
        let o1: int = if i1 < j { i1 } else { i1 + 1 };
        let o2: int = if i2 < j { i2 } else { i2 + 1 };
        assert(t[i1] == s[o1]);
        assert(t[i2] == s[o2]);
    }
    assert forall|x: u32| t.to_set().contains(x) implies s.to_set().remove(s[j]).contains(x) by {
        let i = choose|i: int| 0 <= i < t.len() && t[i] == x;
        let o: int = if i < j { i } else { i + 1 };
        assert(s[o] == x);
        assert(s.contains(x));
        assert(x != s[j]);
    }
    assert forall|x: u32| s.to_set().remove(s[j]).contains(x) implies t.to_set().contains(x) by {
        let i = choose|i: int| 0 <= i < s.len() && s[i] == x;
        assert(i != j);
        if i < j {
            assert(t[i] == x);
        } else {
            assert(t[i - 1] == x);
        }
        assert(t.contains(x));
    }
    assert(t.to_set() =~= s.to_set().remove(s[j]));
}

impl Input {
    /// No duplicate codes in either held list.
    pub closed spec fn wf(self) -> bool {
        &&& self.current_keys_down@.no_duplicates()
        &&& self.current_mouse_buttons_down@.no_duplicates()
    }

    /// An input manager in its initial state: nothing held, no edges
    /// latched, cursor at the origin and outside the window.
    pub fn new() -> (r: Self)
        ensures
            r@ == input_init(),
            r.wf(),
    {
        let r = Self {
            current_keys_down: Vec::new(),
            key_down_buffer: NO_EDGE,
            key_up_buffer: NO_EDGE,
            current_mouse_buttons_down: Vec::new(),
            mouse_button_down_buffer: NO_EDGE,
            mouse_button_up_buffer: NO_EDGE,
            mouse_position: Vector2 { x: 0, y: 0 },
            is_mouse_entered: false,
        };
        proof {
            assert(r.current_keys_down@.to_set() =~= Set::empty());
            assert(r.current_mouse_buttons_down@.to_set() =~= Set::empty());
            assert(r@ =~= input_init());
        }
        r
    }

    /// Whether a key is being held down (level query, non-consuming).
    pub fn is_key_down(&mut self, key: Key) -> (r: bool)
        ensures
            *final(self) == *old(self),
            r == key_down(old(self)@, key),
    {
        held_contains(&self.current_keys_down, key.code())
    }

    /// Whether a key is NOT being held down; the exact negation of
    /// [`Self::is_key_down`] for every key.
    pub fn is_key_up(&mut self, key: Key) -> (r: bool)
        ensures
            *final(self) == *old(self),
            r == key_up(old(self)@, key),
    {
        !held_contains(&self.current_keys_down, key.code())
    }

    /// Whether this key was pressed since the query was last made (edge
    /// query): a firing query consumes the latch, so an immediate second
    /// call returns false.
    pub fn on_key_down(&mut self, key: Key) -> (r: bool)
        ensures
            r == edge_fires(old(self)@.keyboard.down_buffer, key_code(key)),
            final(self)@ == (InputModel {
                keyboard: consume_down(old(self)@.keyboard, key_code(key)),
                ..old(self)@
            }),
            final(self).wf() == old(self).wf(),
    {
        if self.key_down_buffer == key.code() {
            self.key_down_buffer = NO_EDGE;
            proof {
                assert(final(self)@ =~= (InputModel {
                    keyboard: consume_down(old(self)@.keyboard, key_code(key)),
                    ..old(self)@
                }));
            }
            return true;
        }
        proof {
            assert(final(self)@ =~= (InputModel {
                keyboard: consume_down(old(self)@.keyboard, key_code(key)),
                ..old(self)@
            }));
        }
        false
    }

    /// Whether this key was released since the query was last made (edge
    /// query, consuming like [`Self::on_key_down`]).
    pub fn on_key_up(&mut self, key: Key) -> (r: bool)
        ensures
            r == edge_fires(old(self)@.keyboard.up_buffer, key_code(key)),
            final(self)@ == (InputModel {
                keyboard: consume_up(old(self)@.keyboard, key_code(key)),
                ..old(self)@
            }),
            final(self).wf() == old(self).wf(),
    {
        if self.key_up_buffer == key.code() {
            self.key_up_buffer = NO_EDGE;
            proof {
                assert(final(self)@ =~= (InputModel {
                    keyboard: consume_up(old(self)@.keyboard, key_code(key)),
                    ..old(self)@
                }));
            }
            return true;
        }
        proof {
            assert(final(self)@ =~= (InputModel {
                keyboard: consume_up(old(self)@.keyboard, key_code(key)),
                ..old(self)@
            }));
        }
        false
    }

    /// Value of the horizontal input axis in fixed-point units: `SCALE`
    /// for right, `-SCALE` for left, 0 when opposing keys cancel.
    pub fn get_axis_horizontal(&mut self) -> (r: i64)
        ensures
            *final(self) == *old(self),
            r == axis_horizontal(old(self)@),
    {
        let d: i64 = if self.is_key_down(Key::D) { 1 } else { 0 };
        let a: i64 = if self.is_key_down(Key::A) { 1 } else { 0 };
        let right: i64 = if self.is_key_down(Key::Right) { 1 } else { 0 };
        let left: i64 = if self.is_key_down(Key::Left) { 1 } else { 0 };
        clamp_i64((d - a + right - left) * SCALE, -SCALE, SCALE)
    }

    /// Value of the vertical input axis in fixed-point units: `SCALE`
    /// for down, `-SCALE` for up (screen y grows downward).
    pub fn get_axis_vertical(&mut self) -> (r: i64)
        ensures
            *final(self) == *old(self),
            r == axis_vertical(old(self)@),
    {
        let s: i64 = if self.is_key_down(Key::S) { 1 } else { 0 };
        let w: i64 = if self.is_key_down(Key::W) { 1 } else { 0 };
        let down: i64 = if self.is_key_down(Key::Down) { 1 } else { 0 };
        let up: i64 = if self.is_key_down(Key::Up) { 1 } else { 0 };
        clamp_i64((s - w + down - up) * SCALE, -SCALE, SCALE)
    }

    /// Whether a mouse button is being held down (level query).
    pub fn is_mouse_button_down(&mut self, mouse_button: MouseButton) -> (r: bool)
        ensures
            *final(self) == *old(self),
            r == old(self)@.mouse.held.contains(mouse_button_code(mouse_button)),
    {
        held_contains(&self.current_mouse_buttons_down, mouse_button.code())
    }

    /// Whether a mouse button is NOT being held down.
    pub fn is_mouse_button_up(&mut self, mouse_button: MouseButton) -> (r: bool)
        ensures
            *final(self) == *old(self),
            r == !old(self)@.mouse.held.contains(mouse_button_code(mouse_button)),
    {
        !held_contains(&self.current_mouse_buttons_down, mouse_button.code())
    }

    /// Whether this mouse button was pressed since the query was last
    /// made (consuming edge query).
    pub fn on_mouse_button_down(&mut self, mouse_button: MouseButton) -> (r: bool)
        ensures
            r == edge_fires(old(self)@.mouse.down_buffer, mouse_button_code(mouse_button)),
            final(self)@ == (InputModel {
                mouse: consume_down(old(self)@.mouse, mouse_button_code(mouse_button)),
                ..old(self)@
            }),
            final(self).wf() == old(self).wf(),
    {
        if self.mouse_button_down_buffer == mouse_button.code() {
            self.mouse_button_down_buffer = NO_EDGE;
            proof {
                assert(final(self)@ =~= (InputModel {
                    mouse: consume_down(old(self)@.mouse, mouse_button_code(mouse_button)),
                    ..old(self)@
                }));
            }
            return true;
        }
        proof {
            assert(final(self)@ =~= (InputModel {
                mouse: consume_down(old(self)@.mouse, mouse_button_code(mouse_button)),
                ..old(self)@
            }));
        }
        false
    }

    /// Whether this mouse button was released since the query was last
    /// made (consuming edge query).
    pub fn on_mouse_button_up(&mut self, mouse_button: MouseButton) -> (r: bool)
        ensures
            r == edge_fires(old(self)@.mouse.up_buffer, mouse_button_code(mouse_button)),
            final(self)@ == (InputModel {
                mouse: consume_up(old(self)@.mouse, mouse_button_code(mouse_button)),
                ..old(self)@
            }),
            final(self).wf() == old(self).wf(),
    {
        if self.mouse_button_up_buffer == mouse_button.code() {
            self.mouse_button_up_buffer = NO_EDGE;
            proof {
                assert(final(self)@ =~= (InputModel {
                    mouse: consume_up(old(self)@.mouse, mouse_button_code(mouse_button)),
                    ..old(self)@
                }));
            }
            return true;
        }
        proof {
            assert(final(self)@ =~= (InputModel {
                mouse: consume_up(old(self)@.mouse, mouse_button_code(mouse_button)),
                ..old(self)@
            }));
        }
        false
    }

    /// Last known cursor position in window-client coordinates.
    pub fn mouse_position(&mut self) -> (r: Vector2)
        ensures
            *final(self) == *old(self),
            r == old(self)@.mouse_position,
    {
        self.mouse_position
    }

    /// Whether the cursor is inside the game window.
    pub fn is_mouse_entered(&mut self) -> (r: bool)
        ensures
            *final(self) == *old(self),
            r == old(self)@.is_mouse_entered,
    {
        self.is_mouse_entered
    }

    /// Whether the cursor is outside the game window.
    pub fn is_mouse_exitted(&mut self) -> (r: bool)
        ensures
            *final(self) == *old(self),
            r == !old(self)@.is_mouse_entered,
    {
        !self.is_mouse_entered
    }

    /// Feed one raw keyboard event (scancode and whether it was a press).
    /// Only meant to be called by the platform bridge.
    pub fn update_keyboard_input(&mut self, scancode: u32, pressed: bool)
        requires
            old(self).wf(),
        ensures
            final(self).wf(),
            final(self)@ == (InputModel {
                keyboard: device_event(old(self)@.keyboard, scancode, pressed),
                ..old(self)@
            }),
    {
        if pressed {
            let added = held_insert(&mut self.current_keys_down, scancode);
            if added {
                self.key_down_buffer = scancode;
            } else {
                proof {
                    assert(old(self)@.keyboard.held.insert(scancode) =~= old(
                        self,
                    )@.keyboard.held);
                }
            }
        } else {
            held_remove(&mut self.current_keys_down, scancode);
            self.key_up_buffer = scancode;
        }
        proof {
            assert(final(self)@ =~= (InputModel {
                keyboard: device_event(old(self)@.keyboard, scancode, pressed),
                ..old(self)@
            }));
        }
    }

    /// Feed one raw mouse-button event. Only meant to be called by the
    /// platform bridge.
    pub fn update_mouse_button_input(&mut self, pressed: bool, button: MouseButton)
        requires
            old(self).wf(),
        ensures
            final(self).wf(),
            final(self)@ == (InputModel {
                mouse: device_event(old(self)@.mouse, mouse_button_code(button), pressed),
                ..old(self)@
            }),
    {
        let code = button.code();
        if pressed {
            let added = held_insert(&mut self.current_mouse_buttons_down, code);
            if added {
                self.mouse_button_down_buffer = code;
            } else {
                proof {
                    assert(old(self)@.mouse.held.insert(code) =~= old(self)@.mouse.held);
                }
            }
        } else {
            held_remove(&mut self.current_mouse_buttons_down, code);
            self.mouse_button_up_buffer = code;
        }
        proof {
            assert(final(self)@ =~= (InputModel {
                mouse: device_event(old(self)@.mouse, mouse_button_code(button), pressed),
                ..old(self)@
            }));
        }
    }

    /// Feed one cursor-moved event. Only meant to be called by the
    /// platform bridge.
    pub fn update_mouse_position_input(&mut self, position: Vector2)
        ensures
            final(self)@ == (InputModel { mouse_position: position, ..old(self)@ }),
            final(self).wf() == old(self).wf(),
    {
        self.mouse_position = position;
        proof {
            assert(final(self)@ =~= (InputModel { mouse_position: position, ..old(self)@ }));
        }
    }

    /// Feed one cursor-entered or cursor-left event. Only meant to be
    /// called by the platform bridge.
    pub fn update_mouse_entered_input(&mut self, is_mouse_entered: bool)
        ensures
            final(self)@ == (InputModel { is_mouse_entered, ..old(self)@ }),
            final(self).wf() == old(self).wf(),
    {
        self.is_mouse_entered = is_mouse_entered;
        proof {
            assert(final(self)@ =~= (InputModel { is_mouse_entered, ..old(self)@ }));
        }
    }
}

/// For any code whose down edge is not latched, the edge query does not
/// fire and consuming it changes nothing: a key not pressed since the
/// last consumption reports no down edge.
pub proof fn lemma_edge_requires_event(d: DeviceModel, code: u32)
    requires
        d.down_buffer != code,
    ensures
        !edge_fires(d.down_buffer, code),
        consume_down(d, code) == d,
{
}

/// Pressing a key that was up latches exactly one down edge: the first
/// query for it fires, and an immediate second query does not.
pub proof fn lemma_down_edge_consumed_once(d: DeviceModel, code: u32)
    requires
        !d.held.contains(code),
        code != NO_EDGE,
    ensures
        edge_fires(device_event(d, code, true).down_buffer, code),
        !edge_fires(consume_down(device_event(d, code, true), code).down_buffer, code),
{
}

/// For every key and every input state, "key down" and "key up" are exact
/// logical negations of each other.
pub proof fn lemma_key_down_up_negation(m: InputModel, key: Key)
    ensures
        key_down(m, key) == !key_up(m, key),
{
}

} // verus!
