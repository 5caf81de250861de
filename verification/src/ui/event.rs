use vstd::prelude::*;

verus! {

/// The modifier bits of a key event with no modifier held.
pub const NONE: u8 = 0b0000_0000;

/// The modifier bits of a key event with the control key held, and no other.
pub const CONTROL: u8 = 0b0000_0010;

/// The keys that the list tells apart.
#[derive(Clone, Copy, Debug, PartialEq, Eq, Structural)]
pub enum KeyCode {
    /// The up arrow.
    Up,
    /// The down arrow.
    Down,
    /// A key that stands for a character.
    Char(char),
    /// Any other key.
    Other,
}

/// A key, and the modifiers that were held with it as a set of bits.
#[derive(Clone, Copy, Debug, PartialEq, Eq, Structural)]
pub struct KeyEvent {
    pub code: KeyCode,
    pub modifiers: u8,
}

/// What the terminal reports.
#[derive(Clone, Copy, Debug, PartialEq, Eq, Structural)]
pub enum Event {
    /// A key was pressed.
    Key(KeyEvent),
    /// Anything else: the mouse, a change of size or focus, pasted text.
    Other,
}

/// What an event asks the list to do.
#[derive(Clone, Copy, Debug, PartialEq, Eq, Structural)]
pub enum Input {
    /// Move the cursor one row up.
    Up,
    /// Move the cursor one row down.
    Down,
    /// Flip the mark of the item under the cursor.
    Toggle,
    /// Leave the list.
    Interrupt,
    /// Nothing.
    Other,
}

/// The states of the list while it is shown.
#[derive(Clone, Copy, Debug, PartialEq, Eq, Structural)]
pub enum State {
    /// The list is to be drawn; the first state.
    Rendering,
    /// The list is drawn and waits for an event.
    AwaitingInput,
    /// The list was left; nothing more is drawn or read.
    Terminated,
}

impl Event {
    /// What this event asks for: the arrows and the space bar count with no
    /// modifier held, and `c` with the control key and no other.
    pub open spec fn input(self) -> Input {
        match self {
            Event::Key(key) => {
                if key.code == KeyCode::Up && key.modifiers == NONE {
                    Input::Up
                } else if key.code == KeyCode::Down && key.modifiers == NONE {
                    Input::Down
                } else if key.code == KeyCode::Char(' ') && key.modifiers == NONE {
                    Input::Toggle
                } else if key.code == KeyCode::Char('c') && key.modifiers == CONTROL {
                    Input::Interrupt
                } else {
                    Input::Other
                }
            },
            Event::Other => Input::Other,
        }
    }

    /// What this event asks the list to do.
    pub fn to_input(&self) -> (input: Input)
        ensures
            input == self.input(),
    {
        match self {
            Event::Key(key) => {
                match key.code {
                    KeyCode::Up => if key.modifiers == NONE {
                        Input::Up
                    } else {
                        Input::Other
                    },
                    KeyCode::Down => if key.modifiers == NONE {
                        Input::Down
                    } else {
                        Input::Other
                    },
                    KeyCode::Char(c) => if c == ' ' && key.modifiers == NONE {
                        Input::Toggle
                    } else if c == 'c' && key.modifiers == CONTROL {
                        Input::Interrupt
                    } else {
                        Input::Other
                    },
                    KeyCode::Other => Input::Other,
                }
            },
            Event::Other => Input::Other,
        }
    }
}

} // verus!
