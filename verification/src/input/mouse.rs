use vstd::prelude::*;

verus! {

/// Number of mouse buttons.
pub const BUTTON_COUNT: usize = 4;

/// The state of one button in the current and the previous frame.
#[derive(Default, Debug, Clone, Copy)]
pub struct ButtonState {
    pub current: bool,
    pub previous: bool,
}

#[derive(Clone, Copy, Debug, PartialEq, Eq)]
pub enum Button {
    Left,
    Middle,
    Right,
    Unknown,
}

impl Button {
    /// The position of the button in declaration order.
    pub open spec fn spec_index(self) -> int {
        match self {
            Button::Left => 0,
            Button::Middle => 1,
            Button::Right => 2,
            Button::Unknown => 3,
        }
    }

    /// The position of the button in declaration order.
    pub fn index(self) -> (i: usize)
        ensures
            i == self.spec_index(),
            i < BUTTON_COUNT,
    {
        match self {
            Button::Left => 0,
            Button::Middle => 1,
            Button::Right => 2,
            Button::Unknown => 3,
        }
    }
}

/// Law: distinct buttons have distinct state positions, each below `BUTTON_COUNT`: no two
/// buttons share state.
pub proof fn lemma_button_index_injective(b: Button, o: Button)
    ensures
        0 <= b.spec_index() < BUTTON_COUNT,
        b != o ==> b.spec_index() != o.spec_index(),
{
}

/// Mouse button state: for each button, whether it is down now and whether it was down in
/// the previous frame.
pub struct State {
    pub button_state: [ButtonState; BUTTON_COUNT],
}

impl State {
    pub open spec fn spec_down(&self, button: Button) -> bool {
        self.button_state@[button.spec_index()].current
    }

    pub open spec fn spec_was_down(&self, button: Button) -> bool {
        self.button_state@[button.spec_index()].previous
    }

    pub fn new() -> (s: Self)
        ensures
            forall|b: Button| !#[trigger] s.spec_down(b) && !s.spec_was_down(b),
    {
        Self { button_state: [ButtonState { current: false, previous: false }; BUTTON_COUNT] }
    }

    pub fn is_button_down(&self, button: Button) -> (r: bool)
        ensures
            r == self.spec_down(button),
    {
        self.button_state[button.index()].current
    }

    pub fn was_button_down(&self, button: Button) -> (r: bool)
        ensures
            r == self.spec_was_down(button),
    {
        self.button_state[button.index()].previous
    }

    pub fn is_button_up(&self, button: Button) -> (r: bool)
        ensures
            r == !self.spec_down(button),
    {
        !self.button_state[button.index()].current
    }

    /// Records that `button` was released.
    pub fn on_button_up(&mut self, button: Button)
        ensures
            !final(self).spec_down(button),
            forall|b: Button| #[trigger] final(self).spec_was_down(b) == old(self).spec_was_down(b),
            forall|b: Button| b.spec_index() != button.spec_index() ==> #[trigger] final(self).spec_down(b) == old(self).spec_down(b),
            forall|b: Button| b != button ==> #[trigger] final(self).spec_down(b) == old(self).spec_down(b),
    {
        let i = button.index();
        let previous = self.button_state[i].previous;
        self.button_state[i] = ButtonState { current: false, previous };
        proof {
            assert forall|b: Button| b != button implies #[trigger] self.spec_down(b) == old(self).spec_down(b) by {
                lemma_button_index_injective(b, button);
            }
        }
    }

    /// Records that `button` was pressed.
    pub fn on_button_down(&mut self, button: Button)
        ensures
            final(self).spec_down(button),
            forall|b: Button| #[trigger] final(self).spec_was_down(b) == old(self).spec_was_down(b),
            forall|b: Button| b.spec_index() != button.spec_index() ==> #[trigger] final(self).spec_down(b) == old(self).spec_down(b),
            forall|b: Button| b != button ==> #[trigger] final(self).spec_down(b) == old(self).spec_down(b),
    {
        let i = button.index();
        let previous = self.button_state[i].previous;
        self.button_state[i] = ButtonState { current: true, previous };
        proof {
            assert forall|b: Button| b != button implies #[trigger] self.spec_down(b) == old(self).spec_down(b) by {
                lemma_button_index_injective(b, button);
            }
        }
    }

    /// Starts a new frame: every button's previous state becomes its current state.
    pub fn clear_last_frame_inputs(&mut self)
        ensures
            forall|b: Button| #[trigger] final(self).spec_down(b) == old(self).spec_down(b) && final(self).spec_was_down(b) == old(self).spec_down(b),
    {
        for i in 0..BUTTON_COUNT
            invariant
                forall|j: int| 0 <= j < BUTTON_COUNT ==> self.button_state@[j].current == old(self).button_state@[j].current,
                forall|j: int| 0 <= j < i ==> self.button_state@[j].previous == old(self).button_state@[j].current,
        {
            let current = self.button_state[i].current;
            self.button_state[i] = ButtonState { current, previous: current };
        }
        proof {
            assert forall|b: Button| #[trigger] self.spec_down(b) == old(self).spec_down(b) && self.spec_was_down(b) == old(self).spec_down(b) by {
                assert(0 <= b.spec_index() < BUTTON_COUNT);
            }
        }
    }
}

impl Default for State {
    fn default() -> (s: Self)
        ensures
            forall|b: Button| !#[trigger] s.spec_down(b) && !s.spec_was_down(b),
    {
        Self::new()
    }
}

} // verus!
