//! The game itself: its state, and what a line of input does to it.

use vstd::prelude::*;
use crate::chars::{is_vowel, to_lower, BLANK};
use crate::hint::{fits, possible_matches};
use crate::input::{is_valid, InputInfo};
use crate::line::trimmed_len;
use crate::resolver::{blank, guess_in_word, reveal_guess};
use crate::score::{count_distinct, MOST_LETTERS};
use crate::state::{
    alphabet, display, GameState, Outcome, Status, STARTING_GUESSES, STARTING_WARNINGS,
};
use crate::text::{chars_of, string_of};
use crate::wellformed::{
    lemma_guess_wf, lemma_shown_after_reveal, lemma_shown_bound, lemma_start_wf,
};

verus! {

/// The letters available when a game starts, as a string.
fn full_alphabet() -> (letters: String)
    ensures
        letters@ == alphabet(),
{
    let letters = String::from_str("abcdefghijklmnopqrstuvwxyz");
    proof {
        reveal_strlit("abcdefghijklmnopqrstuvwxyz");
        assert(letters@ =~= alphabet());
    }
    letters
}

/// A display of `n` blanks.
fn blank_display(n: usize) -> (hidden: String)
    ensures
        hidden@ == blank(n as nat),
{
    let mut cells: Vec<char> = Vec::new();
    let mut i: usize = 0;
    while i < n
        invariant
            i <= n,
            cells@ == blank(i as nat),
        decreases n - i,
    {
        cells.push(BLANK);
        i += 1;
    }
    string_of(&cells)
}

/// Whether a count of `n` things is spoken of in the singular: exactly one
/// is.
pub fn singular(n: usize) -> (one: bool)
    ensures
        one == (n == 1),
{
    n == 1
}

/// One game of hangman.
pub struct Game {
    secret: String,
    hidden: String,
    letters: String,
    guesses: usize,
    warnings: u32,
    found: usize,
}

impl View for Game {
    type V = GameState;

    closed spec fn view(&self) -> GameState {
        GameState {
            secret: self.secret@,
            hidden: self.hidden@,
            letters: self.letters@,
            guesses: self.guesses as nat,
            warnings: self.warnings as nat,
            found: self.found as nat,
        }
    }
}

impl Game {
    /// The game is well formed, and its secret word fits in memory.
    pub open spec fn wf(&self) -> bool {
        self@.wf() && self@.secret.len() <= usize::MAX
    }

    /// A new game with `secret_word` to guess.
    pub fn new(secret_word: &str) -> (game: Game)
        ensures
            game@ == GameState::start(secret_word@),
            game.wf(),
    {
        let length = secret_word.unicode_len();
        proof {
            lemma_start_wf(secret_word@);
        }
        Game {
            secret: secret_word.to_owned(),
            hidden: blank_display(length),
            letters: full_alphabet(),
            guesses: STARTING_GUESSES,
            warnings: STARTING_WARNINGS,
            found: 0,
        }
    }

    /// Where the game stands.
    pub fn status(&self) -> (status: Status)
        ensures
            status == self@.status(),
    {
        if self.guesses == 0 {
            Status::Lost
        } else if self.found == self.secret.as_str().unicode_len() {
            Status::Won
        } else {
            Status::Playing
        }
    }

    /// Plays the character `guess`.
    pub fn guess(&mut self, guess: char) -> (outcome: Outcome)
        requires
            old(self).wf(),
        ensures
            final(self)@ == old(self)@.guess(guess),
            outcome == old(self)@.guess_outcome(guess),
            final(self).wf(),
    {
        proof {
            lemma_guess_wf(self@, guess);
        }
        match self.status() {
            Status::Playing => {},
            _ => {
                return Outcome::GameOver;
            },
        }
        match is_valid(guess, &mut self.letters) {
            InputInfo::HintRequest => Outcome::Hint,
            InputInfo::RepeatedLetter => self.warn(Outcome::AlreadyGuessed),
            InputInfo::NotALetter => self.warn(Outcome::NotALetter),
            InputInfo::FreshLetter => {
                if guess_in_word(guess, self.secret.as_str()) {
                    proof {
                        let s = old(self)@;
                        assert forall|i: int|
                            0 <= i < s.secret.len() && s.secret[i] == guess implies s.hidden[i]
                            == BLANK by {
                            assert(s.hidden[i] == display(s.secret, s.letters)[i]);
                        }
                        lemma_shown_after_reveal(s.secret, s.hidden, guess);
                        lemma_shown_bound(old(self)@.guess(guess).hidden);
                    }
                    reveal_guess(guess, self.secret.as_str(), &mut self.hidden, &mut self.found);
                    Outcome::GoodGuess
                } else if is_vowel(guess) {
                    self.guesses = if self.guesses >= 2 {
                        self.guesses - 2
                    } else {
                        0
                    };
                    Outcome::MissedVowel
                } else {
                    self.guesses = self.guesses - 1;
                    Outcome::MissedConsonant
                }
            },
        }
    }

    /// Charges invalid input: a warning, or a guess once no warning is left.
    fn warn(&mut self, notice: Outcome) -> (outcome: Outcome)
        requires
            old(self)@.guesses > 0,
        ensures
            final(self)@ == old(self)@.warned(),
            outcome == if old(self)@.warnings == 0 {
                Outcome::NoWarningsLeft
            } else {
                notice
            },
    {
        if self.warnings == 0 {
            self.guesses = self.guesses - 1;
            Outcome::NoWarningsLeft
        } else {
            self.warnings = self.warnings - 1;
            notice
        }
    }

    /// Plays the line `line`: with the game on, a line that is not empty and
    /// holds, without the whitespace around it, one character at most, has
    /// its first character lowered and played.
    pub fn turn(&mut self, line: &str) -> (outcome: Outcome)
        requires
            old(self).wf(),
        ensures
            final(self)@ == old(self)@.turn(line@),
            outcome == old(self)@.turn_outcome(line@),
            final(self).wf(),
    {
        match self.status() {
            Status::Playing => {},
            _ => {
                return Outcome::GameOver;
            },
        }
        let chars = chars_of(line);
        if chars.len() == 0 {
            return Outcome::NoInput;
        }
        if trimmed_len(&chars) > 1 {
            return Outcome::TooLong;
        }
        self.guess(to_lower(chars[0]))
    }

    /// The words of `wordlist` that the hidden display still allows, in the
    /// order of the list.
    pub fn hints(&self, wordlist: &Vec<String>) -> (matches: Vec<String>)
        ensures
            matches@ == wordlist@.filter(|word: String| fits(self@.hidden, word@)),
    {
        possible_matches(self.hidden.as_str(), wordlist)
    }

    /// The score: the guesses left times the number of different letters of
    /// the secret word.
    pub fn score(&self) -> (score: usize)
        requires
            self.wf(),
        ensures
            score == self@.score(),
    {
        let letters = count_distinct(self.secret.as_str());
        assert(self.guesses * letters <= STARTING_GUESSES * MOST_LETTERS) by (nonlinear_arith)
            requires
                self.guesses <= STARTING_GUESSES,
                letters <= MOST_LETTERS,
        ;
        self.guesses * letters
    }

    /// The word to guess.
    pub fn secret_word(&self) -> (word: &String)
        ensures
            word@ == self@.secret,
    {
        &self.secret
    }

    /// The secret word as the player sees it.
    pub fn hidden_word(&self) -> (word: &String)
        ensures
            word@ == self@.hidden,
    {
        &self.hidden
    }

    /// The letters not yet guessed.
    pub fn available_letters(&self) -> (letters: &String)
        ensures
            letters@ == self@.letters,
    {
        &self.letters
    }

    /// The wrong guesses still allowed.
    pub fn guesses_left(&self) -> (n: usize)
        ensures
            n == self@.guesses,
    {
        self.guesses
    }

    /// The warnings still allowed.
    pub fn warnings_left(&self) -> (n: u32)
        ensures
            n == self@.warnings,
    {
        self.warnings
    }

    /// The number of positions revealed so far.
    pub fn good_guesses(&self) -> (n: usize)
        ensures
            n == self@.found,
    {
        self.found
    }
}

} // verus!
