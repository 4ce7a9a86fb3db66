//! What the display shows and what the keyboard sends.

pub mod grid;
pub mod wave_widget;

use vstd::prelude::*;

verus! {

/// How long the keyboard reader rests when nothing was pressed, in
/// milliseconds.
pub const INPUT_IDLE_MILLIS: u64 = 100;

/// A key press, as far as the application tells keys apart.
#[derive(Clone, Copy, Debug, PartialEq, Eq)]
pub enum KeyEvent {
    /// A character key.
    Char(char),
    /// A character key pressed together with Control.
    Ctrl(char),
    /// Any other key.
    Other,
}

/// What the keyboard reader sends to the render loop.
#[derive(Clone, Copy, Debug, PartialEq, Eq)]
pub enum Event {
    KeyInput(KeyEvent),
}

/// What one read of the keyboard gave.
#[derive(Clone, Copy, Debug, PartialEq, Eq)]
pub enum InputRead {
    /// A key was pressed.
    Key(KeyEvent),
    /// Something happened that is no key press.
    Unrelated,
    /// Nothing happened.
    Nothing,
}

/// What the keyboard reader does after a read.
#[derive(Clone, Copy, Debug, PartialEq, Eq)]
pub enum InputStep {
    /// Send the event to the render loop and read on.
    Forward(Event),
    /// Read on.
    Skip,
    /// Rest for `INPUT_IDLE_MILLIS`, then read on.
    Rest,
    /// Stop reading for good, which disconnects the render loop.
    Quit,
}

/// What the keyboard reader does after `read`: Control-C ends it, any other
/// key is sent on, silence lets it rest, and anything else is passed over.
pub open spec fn input_step(read: InputRead) -> InputStep {
    match read {
        InputRead::Key(KeyEvent::Ctrl('c')) => InputStep::Quit,
        InputRead::Key(key) => InputStep::Forward(Event::KeyInput(key)),
        InputRead::Unrelated => InputStep::Skip,
        InputRead::Nothing => InputStep::Rest,
    }
}

/// Decides what the keyboard reader does after a read.
pub fn on_input(read: InputRead) -> (step: InputStep)
    ensures
        step == input_step(read),
{
    match read {
        InputRead::Key(key) => {
            match key {
                KeyEvent::Ctrl(c) => {
                    if c == 'c' {
                        InputStep::Quit
                    } else {
                        InputStep::Forward(Event::KeyInput(key))
                    }
                },
                _ => InputStep::Forward(Event::KeyInput(key)),
            }
        },
        InputRead::Unrelated => InputStep::Skip,
        InputRead::Nothing => InputStep::Rest,
    }
}

} // verus!
