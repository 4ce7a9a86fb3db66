//! The application's state and the decisions of its render loop.

use crate::data_buffer::silence;
use crate::data_buffer::DataBuffer;
use crate::ui::Event;
use crate::ui::KeyEvent;
use vstd::prelude::*;

verus! {

/// The number of samples that the shared buffer holds.
pub const MAX_BUFFER_SAMPLES: usize = 1000;

/// The time from one frame to the next, in milliseconds.
pub const TICK_MILLIS: u64 = 1000 / 60;

/// The key that resets the frame counter.
pub const RESET_KEY: char = 'r';

/// Whether the render loop still runs.
#[derive(Clone, Copy, Debug, PartialEq, Eq)]
pub enum LoopState {
    Running,
    Stopped,
}

/// What the render loop got when it asked for the next event without
/// waiting.
#[derive(Clone, Copy, Debug, PartialEq, Eq)]
pub enum Polled {
    /// An event was pending.
    Received(Event),
    /// No event is pending.
    Empty,
    /// The source of events is gone.
    Disconnected,
}

/// What the render loop does next.
#[derive(Clone, Copy, Debug, PartialEq, Eq)]
pub enum Step {
    /// Ask for the next event.
    Poll,
    /// Draw a frame, wait for `TICK_MILLIS`, then ask for the next event.
    Frame,
    /// Leave the loop.
    Exit,
}

/// An error of the operating system's input and output.
#[verifier::external_type_specification]
#[verifier::external_body]
pub struct ExIoError(std::io::Error);

/// Why the application could not start.
#[derive(Debug)]
pub enum InitError {
    /// The terminal could not be set up.
    InitUiError(std::io::Error),
}

impl From<std::io::Error> for InitError {
    fn from(err: std::io::Error) -> (made: InitError) {
        InitError::InitUiError(err)
    }
}

impl vstd::std_specs::convert::FromSpecImpl<std::io::Error> for InitError {
    open spec fn obeys_from_spec() -> bool {
        true
    }

    open spec fn from_spec(err: std::io::Error) -> InitError {
        InitError::InitUiError(err)
    }
}

/// Describes an input and output error in words, as its `Display` does. The
/// words depend on the error's source and on the operating system, so
/// nothing is said of them.
#[verifier::external_body]
fn io_error_text(err: &std::io::Error) -> (text: String) {
    format!("{}", err)
}

/// Joins two strings with `format!`: the first, then the second.
#[verifier::external_body]
fn joined(head: &str, tail: &str) -> (whole: String)
    ensures
        whole@ == head@ + tail@,
{
    format!("{}{}", head, tail)
}

/// The message for a terminal that could not be set up, where `text`
/// describes what went wrong.
pub fn init_ui_message(text: &str) -> (message: String)
    ensures
        message@ == "Error creating stream: "@ + text@,
{
    joined("Error creating stream: ", text)
}

impl InitError {
    /// The error in words: what failed, then the description that the error
    /// gives of itself.
    pub fn message(&self) -> (message: String)
        ensures
            "Error creating stream: "@.is_prefix_of(message@),
    {
        match self {
            InitError::InitUiError(err) => {
                let text = io_error_text(err);
                let message = init_ui_message(text.as_str());
                assert(message@.subrange(0, "Error creating stream: "@.len() as int)
                    =~= "Error creating stream: "@);
                message
            },
        }
    }
}

/// The application's state.
#[derive(Clone, Copy, Debug, PartialEq, Eq)]
pub struct App {
    /// The number of frames since the start or the last reset.
    pub x: i64,
    /// Whether the render loop still runs.
    pub state: LoopState,
}

/// The frame counter after the key: the reset key sets it to zero, no other
/// key changes it.
pub open spec fn counter_after_key(x: i64, key: KeyEvent) -> i64 {
    if key == KeyEvent::Char(RESET_KEY) {
        0
    } else {
        x
    }
}

/// The frame counter after one more frame. It stops at the largest value it
/// can hold.
pub open spec fn counter_after_frame(x: i64) -> i64 {
    if x < i64::MAX {
        (x + 1) as i64
    } else {
        x
    }
}

/// The application after the render loop got `polled`, and what the loop
/// does next. While running: a key is handled and the loop asks again; with
/// nothing pending a frame is due; when the source of events is gone the
/// loop stops. Once stopped it stays stopped and draws nothing more.
pub open spec fn after_polled(app: App, polled: Polled) -> (App, Step) {
    match app.state {
        LoopState::Stopped => (app, Step::Exit),
        LoopState::Running => match polled {
            Polled::Received(Event::KeyInput(key)) => (
                App { x: counter_after_key(app.x, key), state: LoopState::Running },
                Step::Poll,
            ),
            Polled::Empty => (
                App { x: counter_after_frame(app.x), state: LoopState::Running },
                Step::Frame,
            ),
            Polled::Disconnected => (App { x: app.x, state: LoopState::Stopped }, Step::Exit),
        },
    }
}

impl App {
    /// Makes the application's state, with the frame counter at zero, and the
    /// silent buffer that the capture side and the render loop share.
    pub fn init() -> (made: Result<(App, DataBuffer), InitError>)
        ensures
            made is Ok,
            made->Ok_0.0 == (App { x: 0, state: LoopState::Running }),
            made->Ok_0.1@ == silence(MAX_BUFFER_SAMPLES as nat),
    {
        Ok((App { x: 0, state: LoopState::Running }, DataBuffer::silent(MAX_BUFFER_SAMPLES)))
    }

    /// Handles a key: the reset key sets the frame counter to zero.
    pub fn on_key(&mut self, key: KeyEvent)
        ensures
            final(self).x == counter_after_key(old(self).x, key),
            final(self).state == old(self).state,
    {
        match key {
            KeyEvent::Char(c) => {
                if c == RESET_KEY {
                    self.x = 0;
                }
            },
            _ => {},
        }
    }

    /// Takes what the render loop got when it asked for the next event, and
    /// says what the loop does next.
    pub fn on_polled(&mut self, polled: Polled) -> (step: Step)
        ensures
            (*final(self), step) == after_polled(*old(self), polled),
    {
        match self.state {
            LoopState::Stopped => Step::Exit,
            LoopState::Running => match polled {
                Polled::Received(event) => {
                    match event {
                        Event::KeyInput(key) => self.on_key(key),
                    }
                    Step::Poll
                },
                Polled::Empty => {
                    if self.x < i64::MAX {
                        self.x = self.x + 1;
                    }
                    Step::Frame
                },
                Polled::Disconnected => {
                    self.state = LoopState::Stopped;
                    Step::Exit
                },
            },
        }
    }
}

/// A stopped loop stays stopped: whatever it is handed, it leaves, and the
/// application's state does not change.
pub proof fn lemma_stopped_is_final(app: App, polled: Polled)
    requires
        app.state == LoopState::Stopped,
    ensures
        after_polled(app, polled) == (app, Step::Exit),
{
}

/// Only the loss of the source of events stops a running loop.
pub proof fn lemma_stops_on_disconnection_only(app: App, polled: Polled)
    requires
        app.state == LoopState::Running,
    ensures
        after_polled(app, polled).0.state == LoopState::Stopped <==> polled == Polled::Disconnected,
        after_polled(app, polled).1 == Step::Exit <==> polled == Polled::Disconnected,
{
}

} // verus!
