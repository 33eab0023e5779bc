//! Looking a guessed letter up in the secret word and revealing it in the
//! hidden display.

use vstd::prelude::*;
use crate::chars::BLANK;
use crate::text::{chars_of, string_of};

verus! {

/// A display of `n` positions, none of them revealed.
pub open spec fn blank(n: nat) -> Seq<char> {
    Seq::new(n, |i: int| BLANK)
}

/// The display `hidden` after `letter` was revealed: every position at which
/// `secret` holds `letter` shows it, every other position is untouched.
pub open spec fn revealed(secret: Seq<char>, hidden: Seq<char>, letter: char) -> Seq<char> {
    Seq::new(hidden.len(), |i: int| if secret[i] == letter { letter } else { hidden[i] })
}

/// The number of positions at which `secret` holds `letter` and `hidden`
/// does not show it yet.
pub open spec fn newly_revealed(secret: Seq<char>, hidden: Seq<char>, letter: char) -> nat
    decreases secret.len(),
{
    if secret.len() == 0 || hidden.len() == 0 {
        0
    } else {
        let before = newly_revealed(secret.drop_last(), hidden.drop_last(), letter);
        if secret.last() == letter && hidden.last() != letter {
            before + 1
        } else {
            before
        }
    }
}

/// Whether `guess` occurs anywhere in `secret_word`.
pub fn guess_in_word(guess: char, secret_word: &str) -> (found: bool)
    ensures
        found == secret_word@.contains(guess),
{
    let mut found = false;
    for c in it: secret_word.chars()
        invariant
            it.seq() == secret_word@,
            found == secret_word@.take(it.index()).contains(guess),
    {
        proof {
            let i = it.index();
            let before = secret_word@.take(i);
            let after = secret_word@.take(i + 1);
            assert(after == before.push(c));
            if before.contains(guess) {
                let k = choose|k: int| 0 <= k < before.len() && before[k] == guess;
                assert(after[k] == guess);
            }
            if c == guess {
                assert(after[i] == guess);
            }
        }
        if c == guess {
            found = true;
        }
    }
    assert(secret_word@.take(secret_word@.len() as int) == secret_word@);
    found
}

/// Shows `guess` in `hidden` at every position at which `secret_word` holds
/// it, and adds to `good_guesses` the number of positions that did not show
/// it before.
pub fn reveal_guess(guess: char, secret_word: &str, hidden: &mut String, good_guesses: &mut usize)
    requires
        old(hidden)@.len() == secret_word@.len(),
        *old(good_guesses) + newly_revealed(secret_word@, old(hidden)@, guess) <= usize::MAX,
    ensures
        final(hidden)@ == revealed(secret_word@, old(hidden)@, guess),
        *final(good_guesses) == *old(good_guesses) + newly_revealed(
            secret_word@,
            old(hidden)@,
            guess,
        ),
        forall|i: int|
            0 <= i < secret_word@.len() && secret_word@[i] == guess ==> final(hidden)@[i] == guess,
{
    let secret = chars_of(secret_word);
    let mut display = chars_of(hidden.as_str());
    let ghost before = display@;
    let mut count: usize = 0;
    let mut i: usize = 0;
    while i < secret.len()
        invariant
            i <= secret.len(),
            display@.len() == secret@.len(),
            before.len() == secret@.len(),
            forall|k: int| 0 <= k < i ==> display@[k] == revealed(secret@, before, guess)[k],
            forall|k: int| i <= k < secret@.len() ==> display@[k] == before[k],
            count == newly_revealed(secret@.take(i as int), before.take(i as int), guess),
            count <= i,
        decreases secret.len() - i,
    {
        proof {
            assert(secret@.take(i + 1).drop_last() == secret@.take(i as int));
            assert(before.take(i + 1).drop_last() == before.take(i as int));
        }
        if secret[i] == guess {
            if display[i] != guess {
                count += 1;
            }
            display.set(i, guess);
        }
        i += 1;
    }
    proof {
        assert(secret@.take(i as int) == secret@);
        assert(before.take(i as int) == before);
    }
    *hidden = string_of(&display);
    *good_guesses = *good_guesses + count;
}

} // verus!
