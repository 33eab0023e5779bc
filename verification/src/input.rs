//! Classifying one guessed character against the letters still available.

use vstd::prelude::*;
use crate::chars::{is_lowercase_letter, lowercase_letter, HINT_TRIGGER};
use crate::text::{chars_of, first_index_of, string_of};

verus! {

/// What a guessed character turned out to be.
#[derive(Clone, Copy, Debug, PartialEq, Eq, Structural)]
pub enum InputInfo {
    /// The hint trigger. It costs nothing and removes no letter.
    HintRequest,
    /// A lowercase letter that was still available; it is available no more.
    FreshLetter,
    /// A lowercase letter that was no longer available.
    RepeatedLetter,
    /// Neither a lowercase letter nor the hint trigger.
    NotALetter,
}

impl InputInfo {
    /// A hint request and a fresh letter are valid input; the other two
    /// outcomes are not.
    pub open spec fn valid(self) -> bool {
        self is HintRequest || self is FreshLetter
    }

    /// Whether this outcome is valid input.
    pub fn is_valid_input(&self) -> (r: bool)
        ensures
            r == self.valid(),
    {
        match self {
            InputInfo::HintRequest => true,
            InputInfo::FreshLetter => true,
            InputInfo::RepeatedLetter => false,
            InputInfo::NotALetter => false,
        }
    }
}

/// The outcome for `guess` when `letters` are the letters still available.
pub open spec fn classify(guess: char, letters: Seq<char>) -> InputInfo {
    if lowercase_letter(guess) {
        if letters.contains(guess) {
            InputInfo::FreshLetter
        } else {
            InputInfo::RepeatedLetter
        }
    } else if guess == HINT_TRIGGER {
        InputInfo::HintRequest
    } else {
        InputInfo::NotALetter
    }
}

/// The available letters after `guess` was classified: a fresh letter loses
/// its first occurrence, every other outcome leaves them alone.
pub open spec fn letters_after(guess: char, letters: Seq<char>) -> Seq<char> {
    if classify(guess, letters) is FreshLetter {
        letters.remove_value(guess)
    } else {
        letters
    }
}

/// Classifies `guess` and, if it is a fresh letter, takes it out of
/// `alphabets`.
pub fn is_valid(guess: char, alphabets: &mut String) -> (info: InputInfo)
    ensures
        info == classify(guess, old(alphabets)@),
        final(alphabets)@ == letters_after(guess, old(alphabets)@),
{
    if is_lowercase_letter(guess) {
        let mut letters = chars_of(alphabets.as_str());
        match first_index_of(&letters, guess) {
            Some(i) => {
                proof {
                    letters@.index_of_first_ensures(guess);
                }
                letters.remove(i);
                *alphabets = string_of(&letters);
                InputInfo::FreshLetter
            },
            None => InputInfo::RepeatedLetter,
        }
    } else if guess == HINT_TRIGGER {
        InputInfo::HintRequest
    } else {
        InputInfo::NotALetter
    }
}

} // verus!
