//! What holds of every game, proved from the rules.

use vstd::prelude::*;
use crate::chars::{lowercase_letter, vowel, BLANK};
use crate::input::{classify, letters_after};
use crate::state::{alphabet, display, GameState, STARTING_GUESSES, STARTING_WARNINGS};
use crate::wellformed::{
    lemma_alphabet, lemma_guess_wf, lemma_remove_value, lemma_shown_all, lemma_start_wf,
};

verus! {

/// The game after the characters of `guesses` were guessed one after the
/// other.
pub open spec fn play(s: GameState, guesses: Seq<char>) -> GameState
    decreases guesses.len(),
{
    if guesses.len() == 0 {
        s
    } else {
        play(s, guesses.drop_last()).guess(guesses.last())
    }
}

/// Once every character of the secret word is a letter that has been
/// guessed, the hidden display is the secret word.
pub proof fn lemma_all_guessed_shows_word(s: GameState)
    requires
        s.wf(),
        forall|i: int|
            0 <= i < s.secret.len() ==> lowercase_letter(s.secret[i]) && !s.letters.contains(
                s.secret[i],
            ),
    ensures
        s.hidden == s.secret,
{
    assert(s.hidden =~= s.secret);
}

/// Playing letters of the secret word only, and none of them twice, never
/// costs a guess or a warning; until the game is won, the letters left are
/// those of the alphabet that were not played.
proof fn lemma_play_letters_of_word(word: Seq<char>, guesses: Seq<char>)
    requires
        forall|i: int| 0 <= i < word.len() ==> lowercase_letter(word[i]),
        forall|j: int| 0 <= j < guesses.len() ==> word.contains(guesses[j]),
        guesses.no_duplicates(),
    ensures
        ({
            let t = play(GameState::start(word), guesses);
            &&& t.wf()
            &&& t.secret == word
            &&& t.guesses == STARTING_GUESSES
            &&& t.warnings == STARTING_WARNINGS
            &&& t.status() is Won || forall|x: char|
                t.letters.contains(x) <==> lowercase_letter(x) && !guesses.contains(x)
        }),
    decreases guesses.len(),
{
    let start = GameState::start(word);
    lemma_start_wf(word);
    lemma_alphabet();
    if guesses.len() == 0 {
        assert forall|x: char| start.letters.contains(x) implies lowercase_letter(x) by {
            let k = choose|k: int| 0 <= k < alphabet().len() && alphabet()[k] == x;
        }
    } else {
        let front = guesses.drop_last();
        let c = guesses.last();
        let before = play(start, front);
        lemma_play_letters_of_word(word, front);
        lemma_guess_wf(before, c);
        let t = before.guess(c);
        if before.status() is Playing {
            assert(word.contains(guesses[guesses.len() - 1]));
            let at = choose|i: int| 0 <= i < word.len() && word[i] == c;
            assert(lowercase_letter(c));
            assert(!front.contains(c)) by {
                if front.contains(c) {
                    let k = choose|k: int| 0 <= k < front.len() && front[k] == c;
                    assert(guesses[k] == guesses[guesses.len() - 1]);
                }
            }
            assert(before.letters.contains(c));
            assert(classify(c, before.letters) is FreshLetter);
            lemma_remove_value(before.letters, c);
            assert(t.letters == before.letters.remove_value(c));
            assert forall|x: char|
                t.letters.contains(x) <==> lowercase_letter(x) && !guesses.contains(x) by {
                if front.contains(x) {
                    let k = choose|k: int| 0 <= k < front.len() && front[k] == x;
                    assert(guesses[k] == x);
                }
                if guesses.contains(x) && x != c {
                    let k = choose|k: int| 0 <= k < guesses.len() && guesses[k] == x;
                    assert(front[k] == x);
                }
                if x == c {
                    assert(guesses[guesses.len() - 1] == c);
                }
            }
        }
    }
}

/// Starting from a new game on a word of lowercase letters, and playing
/// letters of that word only, none of them twice: once every letter of the
/// word has been played, the hidden display is the word.
pub proof fn lemma_display_converges(word: Seq<char>, guesses: Seq<char>)
    requires
        forall|i: int| 0 <= i < word.len() ==> lowercase_letter(word[i]),
        forall|j: int| 0 <= j < guesses.len() ==> word.contains(guesses[j]),
        guesses.no_duplicates(),
        forall|i: int| 0 <= i < word.len() ==> guesses.contains(word[i]),
    ensures
        play(GameState::start(word), guesses).hidden == word,
{
    let t = play(GameState::start(word), guesses);
    lemma_play_letters_of_word(word, guesses);
    if t.status() is Won {
        lemma_shown_all(t.hidden);
        assert forall|i: int| 0 <= i < word.len() implies t.hidden[i] == word[i] by {
            assert(t.hidden[i] == display(t.secret, t.letters)[i]);
            assert(t.hidden.contains(t.hidden[i]));
        }
        assert(t.hidden =~= word);
    } else {
        lemma_all_guessed_shows_word(t);
    }
}

/// A letter that was available is, once guessed, available no more: guessed
/// again, it is a repeated letter and never a fresh one.
pub proof fn lemma_second_guess_is_repeated(letter: char, letters: Seq<char>)
    requires
        lowercase_letter(letter),
        letters.contains(letter),
        letters.no_duplicates(),
    ensures
        classify(letter, letters) is FreshLetter,
        !letters_after(letter, letters).contains(letter),
        classify(letter, letters_after(letter, letters)) is RepeatedLetter,
{
    lemma_remove_value(letters, letter);
}

/// A fresh letter that the secret word does not hold costs two guesses if
/// it is a vowel and one if it is not. (A vowel met with a single guess
/// left takes that one guess.)
pub proof fn lemma_miss_cost(s: GameState, letter: char)
    requires
        s.status() is Playing,
        classify(letter, s.letters) is FreshLetter,
        !s.secret.contains(letter),
        vowel(letter) ==> s.guesses >= 2,
    ensures
        vowel(letter) ==> s.guess(letter).guesses == s.guesses - 2,
        !vowel(letter) ==> s.guess(letter).guesses == s.guesses - 1,
        s.guess(letter).warnings == s.warnings,
{
}

/// Warnings never grow, and only invalid input takes one away. With a
/// warning left, invalid input takes one warning and no guess; with none
/// left, it takes one guess and the warnings stay at zero.
pub proof fn lemma_warnings(s: GameState, guess: char)
    ensures
        s.guess(guess).warnings <= s.warnings,
        s.guess(guess).warnings < s.warnings ==> !classify(guess, s.letters).valid(),
        s.status() is Playing && !classify(guess, s.letters).valid() && s.warnings > 0 ==> {
            &&& s.guess(guess).warnings == s.warnings - 1
            &&& s.guess(guess).guesses == s.guesses
        },
        s.status() is Playing && !classify(guess, s.letters).valid() && s.warnings == 0 ==> {
            &&& s.guess(guess).warnings == 0
            &&& s.guess(guess).guesses == s.guesses - 1
        },
{
}

/// The count of revealed positions equals the length of the secret word
/// exactly when the hidden display holds no blank.
pub proof fn lemma_win_condition(s: GameState)
    requires
        s.wf(),
    ensures
        s.found == s.secret.len() <==> !s.hidden.contains(BLANK),
{
    lemma_shown_all(s.hidden);
}

/// A guess undoes nothing: what the display shows stays shown, no letter
/// becomes available again, no guess and no warning comes back, and the
/// secret word stays the same.
pub proof fn lemma_progress_is_kept(s: GameState, guess: char)
    requires
        s.wf(),
    ensures
        s.guess(guess).secret == s.secret,
        s.guess(guess).hidden.len() == s.hidden.len(),
        forall|i: int|
            0 <= i < s.hidden.len() && s.hidden[i] != BLANK ==> s.guess(guess).hidden[i]
                == s.hidden[i],
        forall|x: char| s.guess(guess).letters.contains(x) ==> s.letters.contains(x),
        s.guess(guess).guesses <= s.guesses,
        s.guess(guess).warnings <= s.warnings,
        s.guess(guess).found >= s.found,
{
    if s.status() is Playing && classify(guess, s.letters) is FreshLetter {
        lemma_remove_value(s.letters, guess);
        assert forall|i: int| 0 <= i < s.hidden.len() && s.hidden[i] != BLANK implies s.guess(
            guess,
        ).hidden[i] == s.hidden[i] by {
            assert(s.hidden[i] == display(s.secret, s.letters)[i]);
        }
    }
}

/// With no guess left the game is lost, whatever has been revealed; and a
/// game that is won or lost takes no further input.
pub proof fn lemma_game_over(s: GameState, guess: char, line: Seq<char>)
    ensures
        s.status() is Lost <==> s.guesses == 0,
        !(s.status() is Playing) ==> s.guess(guess) == s && s.turn(line) == s,
{
}

} // verus!
