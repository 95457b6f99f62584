//! The per-line button state machine. Each iteration first waits out a quiet
//! debounce window, then races the next level against a timeout that depends
//! on the state; the task that drives a button performs those waits and hands
//! each race's outcome to `Button::iterate`.
use vstd::prelude::*;
use crate::button_message::{ButtonMessage, ButtonState, message};

verus! {

/// The quiet window before a level is trusted, in milliseconds.
pub const DEBOUNCE_TIME_MS: u64 = 10;

/// How long after a release another press still counts into the burst.
pub const MULTI_CLICK_MAX_MS: u64 = 200;

/// How long a press lasts before it becomes a hold.
pub const HOLD_THRESHOLD_MS: u64 = 800;

/// The interval between hold repetitions.
pub const HOLD_REPEAT_MS: u64 = 1000;

/// How a wait ended: a level came out of the line's queue first, or the
/// timeout elapsed first.
#[derive(Debug, Clone, Copy, PartialEq, Eq, Structural)]
pub enum Outcome {
    Event(bool),
    Timeout,
}

/// The runtime state of one button.
#[derive(Debug, Clone, Copy, PartialEq, Eq, Structural)]
pub struct Button {
    /// Clicks counted in the current multi-click burst.
    pub clicks: u16,
    /// Hold repetitions sent since the hold began.
    pub hold_repeat: u16,
    /// Where the state machine stands: `Released`, `Pressed`, `Hold` or `Multi`.
    pub state: ButtonState,
    /// Whether this iteration's debounce window has passed quietly.
    pub debounced: bool,
}

/// One more, wrapping at the width of `u16`.
pub open spec fn next_count(n: u16) -> u16 {
    ((n + 1) % 0x10000) as u16
}

/// The button after one wait ended with `o`, and the message it sends.
pub open spec fn step(b: Button, index: usize, o: Outcome) -> (Button, Option<ButtonMessage>) {
    if !b.debounced {
        match o {
            Outcome::Event(_) => (b, None),
            Outcome::Timeout => (Button { debounced: true, ..b }, None),
        }
    } else {
        let b0 = Button { debounced: false, ..b };
        match (b.state, o) {
            (ButtonState::Released, Outcome::Event(true)) => (
                Button { state: ButtonState::Pressed, ..b0 },
                Some(message(index, ButtonState::Pressed, 0)),
            ),
            (ButtonState::Pressed, Outcome::Event(_)) => (
                Button { clicks: next_count(b.clicks), state: ButtonState::Multi, ..b0 },
                None,
            ),
            (ButtonState::Pressed, Outcome::Timeout) => (
                Button { state: ButtonState::Hold, ..b0 },
                Some(message(index, ButtonState::Hold, 0)),
            ),
            (ButtonState::Hold, Outcome::Event(_)) => (
                Button { state: ButtonState::Released, hold_repeat: 0, ..b0 },
                Some(message(index, ButtonState::Released, 0)),
            ),
            (ButtonState::Hold, Outcome::Timeout) => (
                Button { hold_repeat: next_count(b.hold_repeat), ..b0 },
                Some(message(index, ButtonState::Hold, next_count(b.hold_repeat))),
            ),
            (ButtonState::Multi, Outcome::Event(true)) => (
                Button { clicks: next_count(b.clicks), ..b0 },
                Some(message(index, ButtonState::Pressed, 0)),
            ),
            (ButtonState::Multi, Outcome::Event(false)) => (
                b0,
                Some(message(index, ButtonState::Released, 0)),
            ),
            (ButtonState::Multi, Outcome::Timeout) => (
                Button { state: ButtonState::Released, clicks: 0, ..b0 },
                Some(message(index, ButtonState::Multi, b.clicks)),
            ),
            _ => (b0, None),
        }
    }
}

/// How long the next wait may last before it ends in a timeout; `None`: wait
/// for a level however long it takes.
pub open spec fn wait_of(b: Button) -> Option<u64> {
    if !b.debounced {
        Some(DEBOUNCE_TIME_MS)
    } else {
        match b.state {
            ButtonState::Released => None,
            ButtonState::Pressed => Some(HOLD_THRESHOLD_MS),
            ButtonState::Hold => Some(HOLD_REPEAT_MS),
            ButtonState::Multi => Some(MULTI_CLICK_MAX_MS),
            _ => Some(0),
        }
    }
}

impl Button {
    /// A released button with no clicks and no hold repetitions, at the start
    /// of an iteration.
    pub fn new() -> (r: Button)
        ensures
            r == (Button { clicks: 0, hold_repeat: 0, state: ButtonState::Released, debounced: false }),
    {
        Button { clicks: 0, hold_repeat: 0, state: ButtonState::Released, debounced: false }
    }

    /// The timeout of the next wait, in milliseconds.
    pub fn wait_ms(&self) -> (r: Option<u64>)
        ensures
            r == wait_of(*self),
    {
        if !self.debounced {
            Some(DEBOUNCE_TIME_MS)
        } else {
            match self.state {
                ButtonState::Released => None,
                ButtonState::Pressed => Some(HOLD_THRESHOLD_MS),
                ButtonState::Hold => Some(HOLD_REPEAT_MS),
                ButtonState::Multi => Some(MULTI_CLICK_MAX_MS),
                _ => Some(0),
            }
        }
    }

    /// Takes the outcome of the current wait for the button on line `index`
    /// and returns the message to publish, if any. A level that arrives inside
    /// the debounce window is bounce and is dropped; once the window has
    /// passed, the outcome moves the state machine.
    pub fn iterate(&mut self, index: usize, outcome: Outcome) -> (r: Option<ButtonMessage>)
        ensures
            (*final(self), r) == step(*old(self), index, outcome),
    {
        if !self.debounced {
            if outcome == Outcome::Timeout {
                self.debounced = true;
            }
            return None;
        }
        self.debounced = false;
        match (self.state, outcome) {
            (ButtonState::Released, Outcome::Event(true)) => {
                self.state = ButtonState::Pressed;
                Some(ButtonMessage::new(index, ButtonState::Pressed, 0))
            },
            (ButtonState::Pressed, Outcome::Event(_)) => {
                self.clicks = self.clicks.wrapping_add(1);
                self.state = ButtonState::Multi;
                None
            },
            (ButtonState::Pressed, Outcome::Timeout) => {
                self.state = ButtonState::Hold;
                Some(ButtonMessage::new(index, ButtonState::Hold, 0))
            },
            (ButtonState::Hold, Outcome::Event(_)) => {
                self.state = ButtonState::Released;
                self.hold_repeat = 0;
                Some(ButtonMessage::new(index, ButtonState::Released, 0))
            },
            (ButtonState::Hold, Outcome::Timeout) => {
                self.hold_repeat = self.hold_repeat.wrapping_add(1);
                Some(ButtonMessage::new(index, ButtonState::Hold, self.hold_repeat))
            },
            (ButtonState::Multi, Outcome::Event(true)) => {
                self.clicks = self.clicks.wrapping_add(1);
                Some(ButtonMessage::new(index, ButtonState::Pressed, 0))
            },
            (ButtonState::Multi, Outcome::Event(false)) => {
                Some(ButtonMessage::new(index, ButtonState::Released, 0))
            },
            (ButtonState::Multi, Outcome::Timeout) => {
                self.state = ButtonState::Released;
                let bm = ButtonMessage::new(index, ButtonState::Multi, self.clicks);
                self.clicks = 0;
                Some(bm)
            },
            _ => None,
        }
    }
}

/// Debounce: a level that arrives inside the debounce window changes nothing
/// and sends nothing; and each level that is processed opens a new window, so
/// of two levels arriving less than the window apart the second is dropped as
/// bounce.
pub proof fn lemma_bounce_discarded(b: Button, index: usize, first: bool, second: bool)
    ensures
        !b.debounced ==> step(b, index, Outcome::Event(first)) == (b, None::<ButtonMessage>),
        !step(b, index, Outcome::Event(first)).0.debounced,
        step(step(b, index, Outcome::Event(first)).0, index, Outcome::Event(second)) == (
            step(b, index, Outcome::Event(first)).0,
            None::<ButtonMessage>,
        ),
{
}

} // verus!
