use vstd::prelude::*;

verus! {

/// Number of keys.
pub const KEY_COUNT: usize = 39;

/// The state of one key in the current and the previous frame.
#[derive(Debug, Copy, Clone)]
pub struct KeyState {
    pub current: bool,
    pub previous: bool,
}

#[derive(Debug, Copy, Clone)]
pub enum Key {
    Escape,
    Return,
    LShift,
    RShift,
    LControl,
    RControl,
    Backspace,
    Space,
    ArrowUp,
    ArrowDown,
    ArrowLeft,
    ArrowRight,
    A,
    B,
    C,
    D,
    E,
    F,
    G,
    H,
    I,
    J,
    K,
    L,
    M,
    N,
    O,
    P,
    Q,
    R,
    S,
    T,
    U,
    V,
    W,
    X,
    Y,
    Z,
    Unknown,
}

impl Key {
    /// The position of the key in declaration order.
    pub open spec fn spec_index(self) -> int {
        match self {
            Key::Escape => 0,
            Key::Return => 1,
            Key::LShift => 2,
            Key::RShift => 3,
            Key::LControl => 4,
            Key::RControl => 5,
            Key::Backspace => 6,
            Key::Space => 7,
            Key::ArrowUp => 8,
            Key::ArrowDown => 9,
            Key::ArrowLeft => 10,
            Key::ArrowRight => 11,
            Key::A => 12,
            Key::B => 13,
            Key::C => 14,
            Key::D => 15,
            Key::E => 16,
            Key::F => 17,
            Key::G => 18,
            Key::H => 19,
            Key::I => 20,
            Key::J => 21,
            Key::K => 22,
            Key::L => 23,
            Key::M => 24,
            Key::N => 25,
            Key::O => 26,
            Key::P => 27,
            Key::Q => 28,
            Key::R => 29,
            Key::S => 30,
            Key::T => 31,
            Key::U => 32,
            Key::V => 33,
            Key::W => 34,
            Key::X => 35,
            Key::Y => 36,
            Key::Z => 37,
            Key::Unknown => 38,
        }
    }

    /// The position of the key in declaration order.
    pub fn index(self) -> (i: usize)
        ensures
            i == self.spec_index(),
            i < KEY_COUNT,
    {
        match self {
            Key::Escape => 0,
            Key::Return => 1,
            Key::LShift => 2,
            Key::RShift => 3,
            Key::LControl => 4,
            Key::RControl => 5,
            Key::Backspace => 6,
            Key::Space => 7,
            Key::ArrowUp => 8,
            Key::ArrowDown => 9,
            Key::ArrowLeft => 10,
            Key::ArrowRight => 11,
            Key::A => 12,
            Key::B => 13,
            Key::C => 14,
            Key::D => 15,
            Key::E => 16,
            Key::F => 17,
            Key::G => 18,
            Key::H => 19,
            Key::I => 20,
            Key::J => 21,
            Key::K => 22,
            Key::L => 23,
            Key::M => 24,
            Key::N => 25,
            Key::O => 26,
            Key::P => 27,
            Key::Q => 28,
            Key::R => 29,
            Key::S => 30,
            Key::T => 31,
            Key::U => 32,
            Key::V => 33,
            Key::W => 34,
            Key::X => 35,
            Key::Y => 36,
            Key::Z => 37,
            Key::Unknown => 38,
        }
    }
}

/// The key whose state sits at position `i`.
pub open spec fn key_at(i: int) -> Key {
    if i == 0 {
        Key::Escape
    } else if i == 1 {
        Key::Return
    } else if i == 2 {
        Key::LShift
    } else if i == 3 {
        Key::RShift
    } else if i == 4 {
        Key::LControl
    } else if i == 5 {
        Key::RControl
    } else if i == 6 {
        Key::Backspace
    } else if i == 7 {
        Key::Space
    } else if i == 8 {
        Key::ArrowUp
    } else if i == 9 {
        Key::ArrowDown
    } else if i == 10 {
        Key::ArrowLeft
    } else if i == 11 {
        Key::ArrowRight
    } else if i == 12 {
        Key::A
    } else if i == 13 {
        Key::B
    } else if i == 14 {
        Key::C
    } else if i == 15 {
        Key::D
    } else if i == 16 {
        Key::E
    } else if i == 17 {
        Key::F
    } else if i == 18 {
        Key::G
    } else if i == 19 {
        Key::H
    } else if i == 20 {
        Key::I
    } else if i == 21 {
        Key::J
    } else if i == 22 {
        Key::K
    } else if i == 23 {
        Key::L
    } else if i == 24 {
        Key::M
    } else if i == 25 {
        Key::N
    } else if i == 26 {
        Key::O
    } else if i == 27 {
        Key::P
    } else if i == 28 {
        Key::Q
    } else if i == 29 {
        Key::R
    } else if i == 30 {
        Key::S
    } else if i == 31 {
        Key::T
    } else if i == 32 {
        Key::U
    } else if i == 33 {
        Key::V
    } else if i == 34 {
        Key::W
    } else if i == 35 {
        Key::X
    } else if i == 36 {
        Key::Y
    } else if i == 37 {
        Key::Z
    } else {
        Key::Unknown
    }
}

/// Law: distinct keys have distinct state positions, each below `KEY_COUNT`: no two keys
/// share state.
pub proof fn lemma_key_index_injective(k: Key, o: Key)
    ensures
        0 <= k.spec_index() < KEY_COUNT,
        k != o ==> k.spec_index() != o.spec_index(),
{
    assert(key_at(k.spec_index()) == k) by {
        match k {
            Key::Escape => {},
            Key::Return => {},
            Key::LShift => {},
            Key::RShift => {},
            Key::LControl => {},
            Key::RControl => {},
            Key::Backspace => {},
            Key::Space => {},
            Key::ArrowUp => {},
            Key::ArrowDown => {},
            Key::ArrowLeft => {},
            Key::ArrowRight => {},
            Key::A => {},
            Key::B => {},
            Key::C => {},
            Key::D => {},
            Key::E => {},
            Key::F => {},
            Key::G => {},
            Key::H => {},
            Key::I => {},
            Key::J => {},
            Key::K => {},
            Key::L => {},
            Key::M => {},
            Key::N => {},
            Key::O => {},
            Key::P => {},
            Key::Q => {},
            Key::R => {},
            Key::S => {},
            Key::T => {},
            Key::U => {},
            Key::V => {},
            Key::W => {},
            Key::X => {},
            Key::Y => {},
            Key::Z => {},
            Key::Unknown => {},
        }
    }
    assert(key_at(o.spec_index()) == o) by {
        match o {
            Key::Escape => {},
            Key::Return => {},
            Key::LShift => {},
            Key::RShift => {},
            Key::LControl => {},
            Key::RControl => {},
            Key::Backspace => {},
            Key::Space => {},
            Key::ArrowUp => {},
            Key::ArrowDown => {},
            Key::ArrowLeft => {},
            Key::ArrowRight => {},
            Key::A => {},
            Key::B => {},
            Key::C => {},
            Key::D => {},
            Key::E => {},
            Key::F => {},
            Key::G => {},
            Key::H => {},
            Key::I => {},
            Key::J => {},
            Key::K => {},
            Key::L => {},
            Key::M => {},
            Key::N => {},
            Key::O => {},
            Key::P => {},
            Key::Q => {},
            Key::R => {},
            Key::S => {},
            Key::T => {},
            Key::U => {},
            Key::V => {},
            Key::W => {},
            Key::X => {},
            Key::Y => {},
            Key::Z => {},
            Key::Unknown => {},
        }
    }
}

pub enum Modifier {
    Shift,
    LControl,
    RControl,
}

/// Keyboard state: for each key, whether it is down now and whether it was down in the
/// previous frame.
pub struct State {
    pub key_state: [KeyState; KEY_COUNT],
}

impl State {
    /// Whether `key` is down.
    pub open spec fn spec_down(&self, key: Key) -> bool {
        self.key_state@[key.spec_index()].current
    }

    /// Whether `key` was down in the previous frame.
    pub open spec fn spec_was_down(&self, key: Key) -> bool {
        self.key_state@[key.spec_index()].previous
    }

    pub fn new() -> (s: Self)
        ensures
            forall|k: Key| !#[trigger] s.spec_down(k) && !s.spec_was_down(k),
    {
        Self { key_state: [KeyState { current: false, previous: false }; KEY_COUNT] }
    }

    /// Starts a new frame: every key's previous state becomes its current state.
    pub fn clear_last_frame_inputs(&mut self)
        ensures
            forall|k: Key| #[trigger] final(self).spec_down(k) == old(self).spec_down(k) && final(self).spec_was_down(k) == old(self).spec_down(k),
    {
        for i in 0..KEY_COUNT
            invariant
                forall|j: int| 0 <= j < KEY_COUNT ==> self.key_state@[j].current == old(self).key_state@[j].current,
                forall|j: int| 0 <= j < i ==> self.key_state@[j].previous == old(self).key_state@[j].current,
        {
            let current = self.key_state[i].current;
            self.key_state[i] = KeyState { current, previous: current };
        }
        proof {
            assert forall|k: Key| #[trigger] self.spec_down(k) == old(self).spec_down(k) && self.spec_was_down(k) == old(self).spec_down(k) by {
                assert(0 <= k.spec_index() < KEY_COUNT);
            }
        }
    }

    pub fn is_key_down(&self, key: Key) -> (r: bool)
        ensures
            r == self.spec_down(key),
    {
        self.key_state[key.index()].current
    }

    pub fn was_key_down(&self, key: Key) -> (r: bool)
        ensures
            r == self.spec_was_down(key),
    {
        self.key_state[key.index()].previous
    }

    pub fn is_key_up(&self, key: Key) -> (r: bool)
        ensures
            r == !self.spec_down(key),
    {
        !self.key_state[key.index()].current
    }

    /// Records that `key` was released.
    pub fn on_key_up(&mut self, key: Key)
        ensures
            !final(self).spec_down(key),
            forall|k: Key| #[trigger] final(self).spec_was_down(k) == old(self).spec_was_down(k),
            forall|k: Key| k.spec_index() != key.spec_index() ==> #[trigger] final(self).spec_down(k) == old(self).spec_down(k),
            forall|k: Key| k != key ==> #[trigger] final(self).spec_down(k) == old(self).spec_down(k),
    {
        let i = key.index();
        let previous = self.key_state[i].previous;
        self.key_state[i] = KeyState { current: false, previous };
        proof {
            assert forall|k: Key| k != key implies #[trigger] self.spec_down(k) == old(self).spec_down(k) by {
                lemma_key_index_injective(k, key);
            }
        }
    }

    /// Records that `key` was pressed.
    pub fn on_key_down(&mut self, key: Key)
        ensures
            final(self).spec_down(key),
            forall|k: Key| #[trigger] final(self).spec_was_down(k) == old(self).spec_was_down(k),
            forall|k: Key| k.spec_index() != key.spec_index() ==> #[trigger] final(self).spec_down(k) == old(self).spec_down(k),
            forall|k: Key| k != key ==> #[trigger] final(self).spec_down(k) == old(self).spec_down(k),
    {
        let i = key.index();
        let previous = self.key_state[i].previous;
        self.key_state[i] = KeyState { current: true, previous };
        proof {
            assert forall|k: Key| k != key implies #[trigger] self.spec_down(k) == old(self).spec_down(k) by {
                lemma_key_index_injective(k, key);
            }
        }
    }
}

impl Default for State {
    fn default() -> (s: Self)
        ensures
            forall|k: Key| !#[trigger] s.spec_down(k) && !s.spec_was_down(k),
    {
        Self::new()
    }
}

} // verus!
