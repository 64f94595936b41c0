//! The guess-evaluation state machine: the target word, the dictionary of
//! acceptable guesses, the in-progress edit buffer, the ordered history of
//! submitted guesses, and the per-letter feedback rules.

use crate::chars::{pop_char, push_char};
use vstd::prelude::*;
use vstd::string::StrSliceExecFns;

verus! {

/// The per-letter score of one position of a submitted guess.
///
/// `Unknown` never arises from scoring a submitted guess; it stands for the
/// positions of rows that have not been submitted yet, so that a render
/// snapshot can carry one mark per cell uniformly.
#[derive(Debug, Eq, PartialEq, Clone, Copy, Structural)]
pub enum HitInfo {
    /// The letter is correct in both identity and position.
    Hit,
    /// The letter occurs somewhere in the target, but not at this position.
    Contains,
    /// The letter occurs nowhere in the target.
    Miss,
    /// No guess has been submitted for this position yet.
    Unknown,
}

/// Why a submission was rejected. Both reasons are recoverable: the engine's
/// state other than the rejection reason is untouched by a rejected submission.
#[derive(Debug, Eq, PartialEq, Clone, Copy, Structural)]
pub enum GameError {
    /// The guess does not have the target's length.
    WrongLength,
    /// The guess has the right length but is not in the dictionary.
    InvalidWord,
}

impl GameError {
    /// A human-readable description of the rejection, for display beneath the
    /// board.
    pub fn message(&self) -> (r: String)
        ensures
            *self == GameError::WrongLength ==> r@ == "Word is not the correct length"@,
            *self == GameError::InvalidWord ==> r@ == "Word is not valid"@,
    {
        match self {
            GameError::WrongLength => "Word is not the correct length".to_owned(),
            GameError::InvalidWord => "Word is not valid".to_owned(),
        }
    }
}

/// How many guesses a game allows before it is lost. The engine itself does
/// not block further submissions; the driving loop stops once the history
/// holds this many entries.
pub const MAX_TRIES: u16 = 6;

/// Whether some word of `words` reads exactly as `g`.
pub open spec fn word_in_list(words: Seq<String>, g: Seq<char>) -> bool {
    exists|i: int| 0 <= i < words.len() && #[trigger] words[i]@ == g
}

/// Whether the character `c` occurs anywhere in `s`.
pub open spec fn seq_contains_char(s: Seq<char>, c: char) -> bool {
    exists|j: int| 0 <= j < s.len() && s[j] == c
}

/// The mark for position `i` of `guess` scored against `target`: `Hit` when
/// the letters agree at `i`, else `Contains` when `target` holds the letter
/// anywhere, else `Miss`.
pub open spec fn mark_at(guess: Seq<char>, target: Seq<char>, i: int) -> HitInfo {
    if guess[i] == target[i] {
        HitInfo::Hit
    } else if seq_contains_char(target, guess[i]) {
        HitInfo::Contains
    } else {
        HitInfo::Miss
    }
}

/// The full feedback row for `guess` scored against `target`: one mark per
/// position of `guess`, in guess order.
pub open spec fn feedback(guess: Seq<char>, target: Seq<char>) -> Seq<HitInfo> {
    Seq::new(guess.len(), |i: int| mark_at(guess, target, i))
}

/// Whether some entry of `words` reads exactly as `g`, by a linear scan with
/// exact string equality (no normalization).
fn contains_word(words: &Vec<String>, g: &String) -> (r: bool)
    ensures
        r == word_in_list(words@, g@),
{
    let mut i: usize = 0;
    while i < words.len()
        invariant
            0 <= i <= words@.len(),
            forall|j: int| 0 <= j < i ==> (#[trigger] words@[j])@ != g@,
        decreases words@.len() - i,
    {
        if words[i] == *g {
            return true;
        }
        i += 1;
    }
    false
}

/// Whether the character `c` occurs anywhere in `w`, by a linear scan.
fn contains_char(w: &String, c: char) -> (r: bool)
    ensures
        r == seq_contains_char(w@, c),
{
    let l = w.as_str().unicode_len();
    let mut i: usize = 0;
    while i < l
        invariant
            l == w@.len(),
            0 <= i <= l,
            forall|j: int| 0 <= j < i ==> w@[j] != c,
        decreases l - i,
    {
        if w.as_str().get_char(i) == c {
            return true;
        }
        i += 1;
    }
    false
}

/// One game's state. Constructed once per game with the hidden target and the
/// dictionary; the target's length fixes the width `L` of every guess for the
/// life of the instance.
pub struct GameState {
    /// The dictionary of acceptable guesses. Words of other lengths may occur
    /// in it; length is checked separately on submission.
    pub valid_words: Vec<String>,
    /// The submitted guesses, in submission order; append-only.
    pub guesses: Vec<String>,
    /// The guess currently being composed; always at most `L` characters.
    pub current_guess: String,
    /// The hidden target word.
    pub word: String,
    /// How many entries `guesses` may reach before the game is lost.
    pub max_tries: u16,
    /// The reason the most recent submission was rejected, if it was;
    /// cleared by the next accepted submission, untouched by edits.
    pub last_error: Option<GameError>,
}

impl GameState {
    /// The target's length `L`, in characters.
    pub open spec fn word_len(&self) -> nat {
        self.word@.len()
    }

    /// Well-formedness: the edit buffer never exceeds `L`, and every
    /// submitted guess has length exactly `L`.
    pub open spec fn wf(&self) -> bool {
        &&& self.current_guess@.len() <= self.word_len()
        &&& forall|i: int|
            0 <= i < self.guesses@.len() ==> (#[trigger] self.guesses@[i])@.len()
                == self.word_len()
    }

    /// A fresh game: empty history, empty edit buffer, no rejection recorded.
    pub fn new(word: String, valid_words: Vec<String>) -> (r: GameState)
        ensures
            r.wf(),
            r.word == word,
            r.valid_words == valid_words,
            r.guesses@ =~= Seq::<String>::empty(),
            r.current_guess@ =~= Seq::<char>::empty(),
            r.max_tries == MAX_TRIES,
            r.last_error is None,
    {
        GameState {
            valid_words,
            guesses: Vec::new(),
            current_guess: String::new(),
            word,
            max_tries: MAX_TRIES,
            last_error: None,
        }
    }

    /// Whether the game is won: the history is non-empty and its most recent
    /// entry equals the target exactly.
    pub open spec fn spec_won(&self) -> bool {
        self.guesses@.len() > 0 && self.guesses@.last()@ == self.word@
    }

    /// Submit `guess` for scoring. A guess of the wrong length is rejected
    /// with `WrongLength`; one of the right length that is not in the
    /// dictionary is rejected with `InvalidWord`; a rejection leaves the
    /// history untouched and records its reason in `last_error`. An accepted
    /// guess is appended to the history, clears `last_error`, and the
    /// returned boolean says whether it equals the target, i.e. whether the
    /// game is won. The edit buffer is not touched here; `confirm` manages it.
    pub fn guess(&mut self, guess: String) -> (r: Result<bool, GameError>)
        requires
            old(self).wf(),
        ensures
            final(self).wf(),
            final(self).word == old(self).word,
            final(self).valid_words == old(self).valid_words,
            final(self).current_guess == old(self).current_guess,
            final(self).max_tries == old(self).max_tries,
            guess@.len() != old(self).word_len() ==> r == Err::<bool, GameError>(
                GameError::WrongLength,
            ) && final(self).guesses == old(self).guesses && final(self).last_error == Some(
                GameError::WrongLength,
            ),
            guess@.len() == old(self).word_len() && !word_in_list(old(self).valid_words@, guess@)
                ==> r == Err::<bool, GameError>(GameError::InvalidWord) && final(self).guesses
                == old(self).guesses && final(self).last_error == Some(GameError::InvalidWord),
            guess@.len() == old(self).word_len() && word_in_list(old(self).valid_words@, guess@)
                ==> final(self).guesses@ == old(self).guesses@.push(guess) && r == Ok::<
                bool,
                GameError,
            >(guess@ == old(self).word@) && final(self).last_error is None,
    {
        if guess.as_str().unicode_len() != self.word.as_str().unicode_len() {
            self.set_last_error(GameError::WrongLength);
            return Err(GameError::WrongLength);
        }
        if !contains_word(&self.valid_words, &guess) {
            self.set_last_error(GameError::InvalidWord);
            return Err(GameError::InvalidWord);
        }
        self.guesses.push(guess);
        self.reset_error();
        Ok(self.won())
    }

    /// Whether the most recently submitted guess equals the target; `false`
    /// while no guess has been submitted. Recomputed from the history on each
    /// call.
    pub fn won(&self) -> (r: bool)
        ensures
            r == self.spec_won(),
    {
        if self.guesses.len() > 0 {
            self.guesses[self.guesses.len() - 1] == self.word
        } else {
            false
        }
    }

    /// Score the submitted guess at `guess_position` against the target:
    /// one mark per letter, in guess order. `Hit` where the letter matches the
    /// target at that position; else `Contains` where the target holds the
    /// letter anywhere (with no accounting of letter multiplicity); else
    /// `Miss`.
    pub fn get_guess_hits(&self, guess_position: usize) -> (hits: Vec<HitInfo>)
        requires
            self.wf(),
            guess_position < self.guesses@.len(),
        ensures
            hits@ == feedback(self.guesses@[guess_position as int]@, self.word@),
            hits@.len() == self.word_len(),
    {
        let guess = &self.guesses[guess_position];
        let l = guess.as_str().unicode_len();
        let mut hits: Vec<HitInfo> = Vec::new();
        let mut i: usize = 0;
        while i < l
            invariant
                self.wf(),
                guess_position < self.guesses@.len(),
                guess == self.guesses@[guess_position as int],
                l == guess@.len(),
                l == self.word_len(),
                0 <= i <= l,
                hits@.len() == i,
                forall|k: int| 0 <= k < i ==> hits@[k] == mark_at(guess@, self.word@, k),
            decreases l - i,
        {
            let c = guess.as_str().get_char(i);
            if c == self.word.as_str().get_char(i) {
                hits.push(HitInfo::Hit);
            } else if contains_char(&self.word, c) {
                hits.push(HitInfo::Contains);
            } else {
                hits.push(HitInfo::Miss);
            }
            i += 1;
        }
        proof {
            assert(hits@ =~= feedback(guess@, self.word@));
        }
        hits
    }

    /// Record `error` as the reason the most recent submission was rejected.
    pub fn set_last_error(&mut self, error: GameError)
        requires
            old(self).wf(),
        ensures
            final(self).wf(),
            final(self).word == old(self).word,
            final(self).valid_words == old(self).valid_words,
            final(self).guesses == old(self).guesses,
            final(self).current_guess == old(self).current_guess,
            final(self).max_tries == old(self).max_tries,
            final(self).last_error == Some(error),
    {
        self.last_error = Some(error);
    }

    /// Clear the recorded rejection reason.
    pub fn reset_error(&mut self)
        requires
            old(self).wf(),
        ensures
            final(self).wf(),
            final(self).word == old(self).word,
            final(self).valid_words == old(self).valid_words,
            final(self).guesses == old(self).guesses,
            final(self).current_guess == old(self).current_guess,
            final(self).max_tries == old(self).max_tries,
            final(self).last_error is None,
    {
        self.last_error = None;
    }

    /// How submitting the current edit buffer transforms the state: the
    /// buffer's text is validated as in `guess`, the outcome is recorded in
    /// `last_error` (the rejection reason on failure, cleared on success), and
    /// the buffer itself is emptied whatever the outcome. The target, the
    /// dictionary and the try limit never change.
    pub open spec fn submit_rel(pre: GameState, post: GameState) -> bool {
        &&& post.word == pre.word
        &&& post.valid_words == pre.valid_words
        &&& post.max_tries == pre.max_tries
        &&& post.current_guess@.len() == 0
        &&& if pre.current_guess@.len() != pre.word_len() {
            &&& post.guesses == pre.guesses
            &&& post.last_error == Some(GameError::WrongLength)
        } else if !word_in_list(pre.valid_words@, pre.current_guess@) {
            &&& post.guesses == pre.guesses
            &&& post.last_error == Some(GameError::InvalidWord)
        } else {
            &&& post.guesses@ == pre.guesses@.push(pre.current_guess)
            &&& post.last_error is None
        }
    }

    /// Submit the current edit buffer as a guess — `guess` records the
    /// outcome in `last_error` — and empty the buffer whether the guess was
    /// accepted or rejected.
    pub fn confirm(&mut self)
        requires
            old(self).wf(),
        ensures
            final(self).wf(),
            GameState::submit_rel(*old(self), *final(self)),
    {
        let _ = self.guess(self.current_guess.clone());
        self.current_guess = String::new();
    }

    /// The fields an edit of the buffer never touches: everything but the
    /// buffer itself. In particular a buffer edit never clears `last_error`.
    pub open spec fn edit_frame(pre: GameState, post: GameState) -> bool {
        &&& post.word == pre.word
        &&& post.valid_words == pre.valid_words
        &&& post.guesses == pre.guesses
        &&& post.max_tries == pre.max_tries
        &&& post.last_error == pre.last_error
    }

    /// How appending `c` transforms the state: the character lands at the end
    /// of the buffer while the buffer is shorter than `L`, and is ignored
    /// once the buffer is full; nothing else changes.
    pub open spec fn add_char_rel(pre: GameState, post: GameState, c: char) -> bool {
        &&& GameState::edit_frame(pre, post)
        &&& post.current_guess@ == if pre.current_guess@.len() < pre.word_len() {
            pre.current_guess@.push(c)
        } else {
            pre.current_guess@
        }
    }

    /// How a backspace transforms the state: the last character of the buffer
    /// goes, and an empty buffer stays empty; nothing else changes.
    pub open spec fn back_rel(pre: GameState, post: GameState) -> bool {
        &&& GameState::edit_frame(pre, post)
        &&& post.current_guess@ == if pre.current_guess@.len() > 0 {
            pre.current_guess@.drop_last()
        } else {
            pre.current_guess@
        }
    }

    /// Append `c` to the edit buffer if it is still shorter than `L`;
    /// a full buffer ignores the character silently.
    pub fn add_char(&mut self, c: char)
        requires
            old(self).wf(),
        ensures
            final(self).wf(),
            GameState::add_char_rel(*old(self), *final(self), c),
    {
        if self.current_guess.as_str().unicode_len() < self.word.as_str().unicode_len() {
            push_char(&mut self.current_guess, c);
        }
    }

    /// Remove the last character of the edit buffer; an empty buffer is left
    /// as it is.
    pub fn back(&mut self)
        requires
            old(self).wf(),
        ensures
            final(self).wf(),
            GameState::back_rel(*old(self), *final(self)),
    {
        if self.current_guess.as_str().unicode_len() > 0 {
            pop_char(&mut self.current_guess);
        }
    }
}

/// The edit buffer of a well-formed game never holds more than `L`
/// characters. Every operation of `GameState` both requires and preserves
/// `wf`, so no sequence of `add_char` calls can grow the buffer past `L`.
pub proof fn lemma_edit_buffer_bounded(s: GameState)
    requires
        s.wf(),
    ensures
        s.current_guess@.len() <= s.word_len(),
{
}

/// An accepted submission decides the win by itself: after the history grows
/// by the guess `g`, the game is won exactly when `g` equals the target —
/// the boolean that `guess` returns on success.
pub proof fn lemma_accepted_guess_decides_win(pre: GameState, post: GameState, g: String)
    requires
        post.guesses@ == pre.guesses@.push(g),
        post.word == pre.word,
    ensures
        post.spec_won() == (g@ == pre.word@),
{
}

} // verus!
