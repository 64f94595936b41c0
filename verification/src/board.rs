//! The render snapshot: for each row of the board, the text to display and
//! the marks to color it with. Rows below the history show the in-progress
//! buffer padded with a placeholder, or an all-placeholder row.

use crate::chars::push_char;
use crate::engine::{feedback, GameState, HitInfo};
use vstd::prelude::*;
use vstd::string::StrSliceExecFns;

verus! {

/// The placeholder character that fills the not-yet-typed cells of a row.
pub const FILLER: char = '_';

/// A row of `n` placeholder characters.
pub open spec fn filler_row(n: nat) -> Seq<char> {
    Seq::new(n, |i: int| FILLER)
}

/// The text of row `row` of the board: a submitted guess for rows of the
/// history, the edit buffer padded with placeholders to width `L` for the row
/// right after it, and all placeholders for the rows beyond.
pub open spec fn spec_row_text(s: GameState, row: int) -> Seq<char> {
    if 0 <= row < s.guesses@.len() {
        s.guesses@[row]@
    } else if row == s.guesses@.len() {
        s.current_guess@ + filler_row((s.word_len() - s.current_guess@.len()) as nat)
    } else {
        filler_row(s.word_len())
    }
}

/// The marks of row `row` of the board: the feedback of the submitted guess
/// for rows of the history, and `Unknown` everywhere else.
pub open spec fn spec_row_marks(s: GameState, row: int) -> Seq<HitInfo> {
    if 0 <= row < s.guesses@.len() {
        feedback(s.guesses@[row]@, s.word@)
    } else {
        Seq::new(s.word_len(), |i: int| HitInfo::Unknown)
    }
}

impl GameState {
    /// The text of row `row`, always exactly `L` characters wide.
    pub fn row_text(&self, row: usize) -> (r: String)
        requires
            self.wf(),
        ensures
            r@ == spec_row_text(*self, row as int),
            r@.len() == self.word_len(),
    {
        let l = self.word.as_str().unicode_len();
        if row < self.guesses.len() {
            self.guesses[row].clone()
        } else if row == self.guesses.len() {
            let ghost cg = self.current_guess@;
            let mut t = self.current_guess.clone();
            let mut n = t.as_str().unicode_len();
            while n < l
                invariant
                    l == self.word_len(),
                    cg == self.current_guess@,
                    cg.len() <= n <= l,
                    n == t@.len(),
                    t@ == cg + filler_row((n - cg.len()) as nat),
                decreases l - n,
            {
                push_char(&mut t, FILLER);
                n += 1;
                proof {
                    assert(t@ =~= cg + filler_row((n - cg.len()) as nat));
                }
            }
            t
        } else {
            let mut t = String::new();
            let mut n: usize = 0;
            while n < l
                invariant
                    l == self.word_len(),
                    0 <= n <= l,
                    n == t@.len(),
                    t@ == filler_row(n as nat),
                decreases l - n,
            {
                push_char(&mut t, FILLER);
                n += 1;
                proof {
                    assert(t@ =~= filler_row(n as nat));
                }
            }
            t
        }
    }

    /// The marks of row `row`, always exactly `L` marks.
    pub fn row_marks(&self, row: usize) -> (r: Vec<HitInfo>)
        requires
            self.wf(),
        ensures
            r@ == spec_row_marks(*self, row as int),
            r@.len() == self.word_len(),
    {
        if row < self.guesses.len() {
            self.get_guess_hits(row)
        } else {
            let l = self.word.as_str().unicode_len();
            let mut marks: Vec<HitInfo> = Vec::new();
            let mut n: usize = 0;
            while n < l
                invariant
                    l == self.word_len(),
                    0 <= n <= l,
                    marks@.len() == n,
                    forall|k: int| 0 <= k < n ==> marks@[k] == HitInfo::Unknown,
                decreases l - n,
            {
                marks.push(HitInfo::Unknown);
                n += 1;
            }
            proof {
                assert(marks@ =~= Seq::new(self.word_len(), |i: int| HitInfo::Unknown));
            }
            marks
        }
    }
}

} // verus!
