//! Hangman: the rules of the word-guessing game, with every rule stated as a
//! contract and proved.
//!
//! A secret word is picked from a word list. The player guesses one letter
//! per line; a letter of the word is revealed wherever it stands, a letter
//! outside it costs guesses, and invalid input costs warnings first and
//! guesses after. [`Game`] holds one game, [`state::GameState`] is its
//! mathematical model, and [`laws`] states what holds of every game.

pub mod chars;
pub mod game;
pub mod hint;
pub mod input;
pub mod laws;
pub mod line;
pub mod resolver;
pub mod score;
pub mod state;
pub mod text;
pub mod wellformed;
pub mod words;

pub use game::{singular, Game};
pub use hint::{match_with_hidden, possible_matches};
pub use input::{is_valid, InputInfo};
pub use resolver::{guess_in_word, reveal_guess};
pub use state::{Outcome, Status};
pub use words::{get_word, split_words, word_at};
