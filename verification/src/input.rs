pub mod keyboard;
pub mod mouse;

use vstd::prelude::*;

verus! {

/// A keyboard or mouse button event.
#[derive(Debug, Clone, Copy)]
pub enum Input {
    MouseButtonDown(mouse::Button),
    MouseButtonUp(mouse::Button),
    KeyDown(keyboard::Key),
    KeyUp(keyboard::Key),
}

/// The state of the keyboard and the mouse buttons.
pub struct InputState {
    pub keyboard: keyboard::State,
    pub mouse: mouse::State,
}

impl InputState {
    pub fn new() -> (s: Self)
        ensures
            forall|k: keyboard::Key| !#[trigger] s.keyboard.spec_down(k) && !s.keyboard.spec_was_down(k),
            forall|b: mouse::Button| !#[trigger] s.mouse.spec_down(b) && !s.mouse.spec_was_down(b),
    {
        let keyboard = keyboard::State::new();
        let mouse = mouse::State::new();
        let s = Self { keyboard, mouse };
        assert forall|k: keyboard::Key| !#[trigger] s.keyboard.spec_down(k) && !s.keyboard.spec_was_down(k) by {
            assert(!keyboard.spec_down(k));
        }
        assert forall|b: mouse::Button| !#[trigger] s.mouse.spec_down(b) && !s.mouse.spec_was_down(b) by {
            assert(!mouse.spec_down(b) && !mouse.spec_was_down(b));
        }
        s
    }

    /// Starts a new frame for the keyboard and the mouse.
    pub fn clear_last_frame_inputs(&mut self)
        ensures
            forall|k: keyboard::Key| #[trigger] final(self).keyboard.spec_down(k) == old(self).keyboard.spec_down(k)
                && final(self).keyboard.spec_was_down(k) == old(self).keyboard.spec_down(k),
            forall|b: mouse::Button| #[trigger] final(self).mouse.spec_down(b) == old(self).mouse.spec_down(b)
                && final(self).mouse.spec_was_down(b) == old(self).mouse.spec_down(b),
    {
        let ghost before = *self;
        self.mouse.clear_last_frame_inputs();
        self.keyboard.clear_last_frame_inputs();
        assert forall|k: keyboard::Key| #[trigger] self.keyboard.spec_down(k) == before.keyboard.spec_down(k)
            && self.keyboard.spec_was_down(k) == before.keyboard.spec_down(k) by {
            assert(self.keyboard.spec_down(k) == before.keyboard.spec_down(k));
        }
        assert forall|b: mouse::Button| #[trigger] self.mouse.spec_down(b) == before.mouse.spec_down(b)
            && self.mouse.spec_was_down(b) == before.mouse.spec_down(b) by {
            assert(self.mouse.spec_down(b) == before.mouse.spec_down(b));
        }
    }

    /// Applies one event to the state it concerns.
    pub fn on_input(&mut self, input: &Input)
        ensures
            match *input {
                Input::MouseButtonDown(b) => final(self).mouse.spec_down(b) && final(self).keyboard == old(self).keyboard,
                Input::MouseButtonUp(b) => !final(self).mouse.spec_down(b) && final(self).keyboard == old(self).keyboard,
                Input::KeyDown(k) => final(self).keyboard.spec_down(k) && final(self).mouse == old(self).mouse,
                Input::KeyUp(k) => !final(self).keyboard.spec_down(k) && final(self).mouse == old(self).mouse,
            },
            match *input {
                Input::MouseButtonDown(b) | Input::MouseButtonUp(b) => forall|o: mouse::Button| o.spec_index() != b.spec_index()
                    ==> #[trigger] final(self).mouse.spec_down(o) == old(self).mouse.spec_down(o),
                Input::KeyDown(k) | Input::KeyUp(k) => forall|o: keyboard::Key| o.spec_index() != k.spec_index()
                    ==> #[trigger] final(self).keyboard.spec_down(o) == old(self).keyboard.spec_down(o),
            },
            match *input {
                Input::MouseButtonDown(b) | Input::MouseButtonUp(b) => forall|o: mouse::Button| o != b
                    ==> #[trigger] final(self).mouse.spec_down(o) == old(self).mouse.spec_down(o),
                Input::KeyDown(k) | Input::KeyUp(k) => forall|o: keyboard::Key| o != k
                    ==> #[trigger] final(self).keyboard.spec_down(o) == old(self).keyboard.spec_down(o),
            },
    {
        match input {
            Input::MouseButtonDown(button) => self.mouse.on_button_down(*button),
            Input::MouseButtonUp(button) => self.mouse.on_button_up(*button),
            Input::KeyDown(key) => self.keyboard.on_key_down(*key),
            Input::KeyUp(key) => self.keyboard.on_key_up(*key),
        }
    }
}

impl Default for InputState {
    fn default() -> (s: Self)
        ensures
            forall|k: keyboard::Key| !#[trigger] s.keyboard.spec_down(k) && !s.keyboard.spec_was_down(k),
            forall|b: mouse::Button| !#[trigger] s.mouse.spec_down(b) && !s.mouse.spec_was_down(b),
    {
        let s = Self::new();
        assert forall|k: keyboard::Key| !#[trigger] s.keyboard.spec_down(k) && !s.keyboard.spec_was_down(k) by {
            assert(!s.keyboard.spec_down(k));
        }
        assert forall|b: mouse::Button| !#[trigger] s.mouse.spec_down(b) && !s.mouse.spec_was_down(b) by {
            assert(!s.mouse.spec_down(b));
        }
        s
    }
}

} // verus!
