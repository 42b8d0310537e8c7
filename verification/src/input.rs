//! A snapshot of the pressed keys and mouse buttons at one instant.
//!
//! The snapshot is immutable once taken and is recomputed on every poll tick
//! by the surrounding application, which translates the windowing system's
//! key codes into the plain [`Key`] values of this module.

use vstd::prelude::*;

verus! {

/// The keys the selection and recording engines care about. Every other key
/// is reported as `Other`.
#[derive(Clone, Copy, Debug, PartialEq, Eq, Structural)]
pub enum Key {
    Escape,
    Enter,
    LControl,
    LShift,
    LAlt,
    Up,
    Down,
    Left,
    Right,
    H,
    J,
    K,
    L,
    R,
    D,
    Num0,
    Num1,
    Num2,
    Num3,
    Num4,
    Num5,
    Num6,
    Num7,
    Num8,
    Num9,
    Other,
}

impl Key {
    /// The decimal value of a digit key.
    pub open spec fn spec_digit(self) -> Option<u32> {
        match self {
            Key::Num0 => Some(0u32),
            Key::Num1 => Some(1u32),
            Key::Num2 => Some(2u32),
            Key::Num3 => Some(3u32),
            Key::Num4 => Some(4u32),
            Key::Num5 => Some(5u32),
            Key::Num6 => Some(6u32),
            Key::Num7 => Some(7u32),
            Key::Num8 => Some(8u32),
            Key::Num9 => Some(9u32),
            _ => None,
        }
    }

    pub fn digit(self) -> (r: Option<u32>)
        ensures
            r == self.spec_digit(),
    {
        match self {
            Key::Num0 => Some(0),
            Key::Num1 => Some(1),
            Key::Num2 => Some(2),
            Key::Num3 => Some(3),
            Key::Num4 => Some(4),
            Key::Num5 => Some(5),
            Key::Num6 => Some(6),
            Key::Num7 => Some(7),
            Key::Num8 => Some(8),
            Key::Num9 => Some(9),
            _ => None,
        }
    }

    /// True of the modifier keys, which never act as a key value themselves.
    pub open spec fn spec_is_modifier(self) -> bool {
        self is LAlt || self is LControl || self is LShift
    }

    pub fn is_modifier(self) -> (r: bool)
        ensures
            r == self.spec_is_modifier(),
    {
        match self {
            Key::LAlt | Key::LControl | Key::LShift => true,
            _ => false,
        }
    }
}

/// The state of the mouse buttons in one snapshot.
#[derive(Clone, Copy, Debug, PartialEq, Eq, Structural)]
pub struct MouseButtons {
    pub left: bool,
    pub middle: bool,
    pub right: bool,
}

/// State of the mouse and keyboard inputs at one poll tick.
#[derive(Debug)]
pub struct InputState {
    pub keys: Vec<Key>,
    pub mouse: MouseButtons,
}

impl InputState {
    /// An empty snapshot: nothing pressed.
    pub fn new() -> (r: Self)
        ensures
            r.keys@ == Seq::<Key>::empty(),
            r.mouse == (MouseButtons { left: false, middle: false, right: false }),
    {
        Self {
            keys: Vec::new(),
            mouse: MouseButtons { left: false, middle: false, right: false },
        }
    }

    /// A snapshot with the given keys and buttons.
    pub fn with(keys: Vec<Key>, mouse: MouseButtons) -> (r: Self)
        ensures
            r.keys == keys,
            r.mouse == mouse,
    {
        Self { keys, mouse }
    }

    /// Whether `key` is pressed in this snapshot.
    pub fn contains(&self, key: Key) -> (r: bool)
        ensures
            r == self.keys@.contains(key),
    {
        let mut i: usize = 0;
        while i < self.keys.len()
            invariant
                i <= self.keys@.len(),
                forall|j: int| 0 <= j < i ==> self.keys@[j] != key,
            decreases self.keys@.len() - i,
        {
            if self.keys[i] == key {
                return true;
            }
            i += 1;
        }
        false
    }

    /// Whether a stop-triggering mouse button (left or right) is clicked.
    pub fn check_mouse(&self) -> (r: bool)
        ensures
            r == (self.mouse.left || self.mouse.right),
    {
        self.mouse.left || self.mouse.right
    }

    /// Whether the cancel keys are pressed: Escape, or Control together
    /// with D.
    pub fn check_keys(&self) -> (r: bool)
        ensures
            r == self.spec_cancel(),
    {
        self.contains(Key::Escape) || (self.contains(Key::LControl) && self.contains(Key::D))
    }

    pub open spec fn spec_cancel(self) -> bool {
        self.keys@.contains(Key::Escape) || (self.keys@.contains(Key::LControl)
            && self.keys@.contains(Key::D))
    }

    /// Whether the confirmation binding is pressed: Alt together with Enter.
    pub fn check_action_keys(&self) -> (r: bool)
        ensures
            r == self.spec_confirm(),
    {
        self.contains(Key::LAlt) && self.contains(Key::Enter)
    }

    pub open spec fn spec_confirm(self) -> bool {
        self.keys@.contains(Key::LAlt) && self.keys@.contains(Key::Enter)
    }
}

} // verus!
