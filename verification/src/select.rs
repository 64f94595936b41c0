//! Target selection for a new game: a word drawn from the loaded list by the
//! process's random generator.

use vstd::prelude::*;

verus! {

/// Relies on `rand::random`: draws a value of the requested type from the
/// thread-local random generator. Nothing can be promised of the value.
#[verifier::external_body]
fn random_usize() -> usize {
    rand::random::<usize>()
}

/// Pick the target word for a new game: the entry of `words` at a randomly
/// drawn index. Every outcome is some entry of `words`; which one is drawn is
/// not specified.
pub fn choose_target(words: &Vec<String>) -> (target: String)
    requires
        words@.len() > 0,
    ensures
        exists|i: int| 0 <= i < words@.len() && target == #[trigger] words@[i],
{
    let r = random_usize();
    let i = r % words.len();
    words[i].clone()
}

} // verus!
