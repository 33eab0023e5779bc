//! The game as a mathematical state machine: what a game is, and what each
//! guess and each line of input makes of it.

use vstd::prelude::*;
use crate::chars::{lowercase_letter, lowered, vowel, BLANK};
use crate::input::{classify, letters_after, InputInfo};
use crate::line::trimmed;
use crate::resolver::{blank, newly_revealed, revealed};

verus! {

/// Wrong guesses a new game allows.
pub const STARTING_GUESSES: usize = 6;

/// Warnings a new game allows.
pub const STARTING_WARNINGS: u32 = 3;

/// Where a game stands.
#[derive(Clone, Copy, Debug, PartialEq, Eq, Structural)]
pub enum Status {
    /// Input is accepted.
    Playing,
    /// Every position of the secret word is revealed.
    Won,
    /// No guess is left.
    Lost,
}

/// What one line of input, or one guessed character, did to the game.
#[derive(Clone, Copy, Debug, PartialEq, Eq, Structural)]
pub enum Outcome {
    /// The game was already won or lost: nothing changed.
    GameOver,
    /// The line held no character at all: nothing changed.
    NoInput,
    /// The line held more than one character besides the whitespace around
    /// them: nothing changed.
    TooLong,
    /// Invalid input with no warning left: it cost a guess.
    NoWarningsLeft,
    /// A letter that had been guessed before: it cost a warning.
    AlreadyGuessed,
    /// Not a letter: it cost a warning.
    NotALetter,
    /// A request for a hint: nothing changed.
    Hint,
    /// A new vowel that the secret word does not hold: it cost two guesses.
    MissedVowel,
    /// A new consonant that the secret word does not hold: it cost a guess.
    MissedConsonant,
    /// A new letter that the secret word holds: it is revealed.
    GoodGuess,
}

/// The letters available when a game starts.
pub open spec fn alphabet() -> Seq<char> {
    Seq::new(26, |i: int| ('a' as int + i) as char)
}

/// The number of revealed positions of the display `hidden`.
pub open spec fn shown(hidden: Seq<char>) -> nat
    decreases hidden.len(),
{
    if hidden.len() == 0 {
        0
    } else if hidden.last() == BLANK {
        shown(hidden.drop_last())
    } else {
        shown(hidden.drop_last()) + 1
    }
}

/// The display of `secret` when `letters` are the letters still available:
/// a position shows its character if that is a letter no longer available,
/// and a blank otherwise.
pub open spec fn display(secret: Seq<char>, letters: Seq<char>) -> Seq<char> {
    Seq::new(
        secret.len(),
        |i: int|
            if lowercase_letter(secret[i]) && !letters.contains(secret[i]) {
                secret[i]
            } else {
                BLANK
            },
    )
}

/// What a letter that the secret word does not hold costs in guesses.
pub open spec fn penalty(letter: char) -> nat {
    if vowel(letter) {
        2
    } else {
        1
    }
}

/// `amount` less `cost`, but never below zero.
pub open spec fn less(amount: nat, cost: nat) -> nat {
    if amount >= cost {
        (amount - cost) as nat
    } else {
        0
    }
}

/// The number of different characters in `word`.
pub open spec fn distinct_letters(word: Seq<char>) -> nat {
    word.to_set().len()
}

/// Everything a game consists of.
pub struct GameState {
    /// The word to guess.
    pub secret: Seq<char>,
    /// The secret word as the player sees it.
    pub hidden: Seq<char>,
    /// The letters not yet guessed.
    pub letters: Seq<char>,
    /// The wrong guesses still allowed.
    pub guesses: nat,
    /// The warnings still allowed.
    pub warnings: nat,
    /// The number of positions revealed so far.
    pub found: nat,
}

impl GameState {
    /// The game at its start.
    pub open spec fn start(secret: Seq<char>) -> GameState {
        GameState {
            secret,
            hidden: blank(secret.len()),
            letters: alphabet(),
            guesses: STARTING_GUESSES as nat,
            warnings: STARTING_WARNINGS as nat,
            found: 0,
        }
    }

    /// What holds of every game that was started and played by the rules.
    pub open spec fn wf(self) -> bool {
        &&& self.hidden == display(self.secret, self.letters)
        &&& self.found == shown(self.hidden)
        &&& self.letters.no_duplicates()
        &&& forall|i: int| 0 <= i < self.letters.len() ==> lowercase_letter(self.letters[i])
        &&& self.guesses <= STARTING_GUESSES
        &&& self.warnings <= STARTING_WARNINGS
    }

    /// Lost once no guess is left, whatever is revealed; else won once every
    /// position is revealed.
    pub open spec fn status(self) -> Status {
        if self.guesses == 0 {
            Status::Lost
        } else if self.found == self.secret.len() {
            Status::Won
        } else {
            Status::Playing
        }
    }

    /// The guesses left times the number of different letters of the secret
    /// word.
    pub open spec fn score(self) -> nat {
        self.guesses * distinct_letters(self.secret)
    }

    /// The game after invalid input: a warning less, or, with no warning
    /// left, a guess less.
    pub open spec fn warned(self) -> GameState {
        if self.warnings == 0 {
            GameState { guesses: less(self.guesses, 1), ..self }
        } else {
            GameState { warnings: less(self.warnings, 1), ..self }
        }
    }

    /// The game after the fresh letter `letter`, which the secret word does
    /// not hold.
    pub open spec fn missed(self, letter: char) -> GameState {
        GameState {
            letters: letters_after(letter, self.letters),
            guesses: less(self.guesses, penalty(letter)),
            ..self
        }
    }

    /// The game after the fresh letter `letter`, which the secret word holds.
    pub open spec fn hit(self, letter: char) -> GameState {
        GameState {
            letters: letters_after(letter, self.letters),
            hidden: revealed(self.secret, self.hidden, letter),
            found: self.found + newly_revealed(self.secret, self.hidden, letter),
            ..self
        }
    }

    /// The game after the character `guess` was guessed.
    pub open spec fn guess(self, guess: char) -> GameState {
        if !(self.status() is Playing) {
            self
        } else {
            match classify(guess, self.letters) {
                InputInfo::HintRequest => self,
                InputInfo::RepeatedLetter => self.warned(),
                InputInfo::NotALetter => self.warned(),
                InputInfo::FreshLetter => if self.secret.contains(guess) {
                    self.hit(guess)
                } else {
                    self.missed(guess)
                },
            }
        }
    }

    /// What guessing the character `guess` comes to.
    pub open spec fn guess_outcome(self, guess: char) -> Outcome {
        if !(self.status() is Playing) {
            Outcome::GameOver
        } else {
            match classify(guess, self.letters) {
                InputInfo::HintRequest => Outcome::Hint,
                InputInfo::RepeatedLetter => if self.warnings == 0 {
                    Outcome::NoWarningsLeft
                } else {
                    Outcome::AlreadyGuessed
                },
                InputInfo::NotALetter => if self.warnings == 0 {
                    Outcome::NoWarningsLeft
                } else {
                    Outcome::NotALetter
                },
                InputInfo::FreshLetter => if self.secret.contains(guess) {
                    Outcome::GoodGuess
                } else if vowel(guess) {
                    Outcome::MissedVowel
                } else {
                    Outcome::MissedConsonant
                },
            }
        }
    }

    /// Whether `line` is passed on as a guess: the game is on, the line is
    /// not empty, and without the whitespace around it it holds one
    /// character at most.
    pub open spec fn accepts(self, line: Seq<char>) -> bool {
        self.status() is Playing && line.len() > 0 && trimmed(line).len() <= 1
    }

    /// The game after the line `line` was entered: its first character,
    /// lowered, is the guess.
    pub open spec fn turn(self, line: Seq<char>) -> GameState {
        if self.accepts(line) {
            self.guess(lowered(line.first()))
        } else {
            self
        }
    }

    /// What entering the line `line` comes to.
    pub open spec fn turn_outcome(self, line: Seq<char>) -> Outcome {
        if !(self.status() is Playing) {
            Outcome::GameOver
        } else if line.len() == 0 {
            Outcome::NoInput
        } else if trimmed(line).len() > 1 {
            Outcome::TooLong
        } else {
            self.guess_outcome(lowered(line.first()))
        }
    }
}

} // verus!
