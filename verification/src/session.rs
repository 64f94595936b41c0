//! The driving loop's decision logic: one discrete input event at a time is
//! applied to the game, and the resulting session status says whether the
//! loop should keep waiting for input or stop.

use crate::engine::GameState;
use vstd::prelude::*;

verus! {

/// One discrete input event, as the terminal collaborator delivers it.
/// Mapping raw keystrokes to these events happens outside the engine.
#[derive(Debug, Eq, PartialEq, Clone, Copy, Structural)]
pub enum InputEvent {
    /// The player typed a character for the edit buffer.
    Character(char),
    /// The player erased the last character of the edit buffer.
    Backspace,
    /// The player submitted the edit buffer as a guess.
    Submit,
    /// The player abandoned the session.
    Cancel,
}

/// Where the session stands after an event was applied.
#[derive(Debug, Eq, PartialEq, Clone, Copy, Structural)]
pub enum SessionStatus {
    /// The game goes on; the loop waits for the next event.
    AwaitingInput,
    /// The most recent submission was accepted and equals the target.
    Won,
    /// The history reached the try limit without a winning guess.
    Lost,
    /// The player abandoned the session.
    Cancelled,
}

/// The status a submission leaves the session in: won when the submission was
/// accepted and equals the target, lost when the history has reached the try
/// limit without a win, otherwise still awaiting input.
pub open spec fn spec_submit_status(post: GameState) -> SessionStatus {
    if post.last_error is None && post.spec_won() {
        SessionStatus::Won
    } else if post.guesses@.len() >= post.max_tries as nat {
        SessionStatus::Lost
    } else {
        SessionStatus::AwaitingInput
    }
}

impl GameState {
    /// Apply one input event: a character is appended to the edit buffer, a
    /// backspace erases its last character, a submission is confirmed as in
    /// `confirm`, and a cancellation changes nothing. The returned status
    /// tells the driving loop whether to stop: after a submission the session
    /// is won, lost or still open as `spec_submit_status` says; a
    /// cancellation ends it; edits keep it open.
    pub fn handle_event(&mut self, event: InputEvent) -> (status: SessionStatus)
        requires
            old(self).wf(),
        ensures
            final(self).wf(),
            match event {
                InputEvent::Character(c) => GameState::add_char_rel(
                    *old(self),
                    *final(self),
                    c,
                ) && status == SessionStatus::AwaitingInput,
                InputEvent::Backspace => GameState::back_rel(*old(self), *final(self)) && status
                    == SessionStatus::AwaitingInput,
                InputEvent::Submit => GameState::submit_rel(*old(self), *final(self)) && status
                    == spec_submit_status(*final(self)),
                InputEvent::Cancel => *final(self) == *old(self) && status
                    == SessionStatus::Cancelled,
            },
    {
        match event {
            InputEvent::Character(c) => {
                self.add_char(c);
                SessionStatus::AwaitingInput
            },
            InputEvent::Backspace => {
                self.back();
                SessionStatus::AwaitingInput
            },
            InputEvent::Submit => {
                self.confirm();
                if self.last_error.is_none() && self.won() {
                    SessionStatus::Won
                } else if self.guesses.len() >= self.max_tries as usize {
                    SessionStatus::Lost
                } else {
                    SessionStatus::AwaitingInput
                }
            },
            InputEvent::Cancel => SessionStatus::Cancelled,
        }
    }
}

} // verus!
