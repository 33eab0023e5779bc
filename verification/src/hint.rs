//! Hints: the words that the hidden display still allows.

use vstd::prelude::*;
use crate::chars::{is_lowercase_letter, lowercase_letter};
use crate::text::chars_of;

verus! {

/// `word` fits `pattern`: both have the same length, and wherever `pattern`
/// shows a lowercase letter, `word` holds that letter. Any other character
/// of `pattern` stands for a position not yet revealed and fits every
/// character.
pub open spec fn fits(pattern: Seq<char>, word: Seq<char>) -> bool {
    &&& pattern.len() == word.len()
    &&& forall|i: int|
        0 <= i < pattern.len() && lowercase_letter(pattern[i]) ==> pattern[i] == word[i]
}

/// Whether `other_word` fits the hidden display `my_word`.
pub fn match_with_hidden(my_word: &str, other_word: &str) -> (matched: bool)
    ensures
        matched == fits(my_word@, other_word@),
{
    let pattern = chars_of(my_word);
    let word = chars_of(other_word);
    word_fits(&pattern, &word)
}

/// Whether `word` fits `pattern`.
fn word_fits(pattern: &Vec<char>, word: &Vec<char>) -> (matched: bool)
    ensures
        matched == fits(pattern@, word@),
{
    if pattern.len() != word.len() {
        return false;
    }
    let mut i: usize = 0;
    while i < pattern.len()
        invariant
            i <= pattern.len(),
            pattern.len() == word.len(),
            forall|k: int| 0 <= k < i && lowercase_letter(pattern@[k]) ==> pattern@[k] == word@[k],
        decreases pattern.len() - i,
    {
        if is_lowercase_letter(pattern[i]) && pattern[i] != word[i] {
            return false;
        }
        i += 1;
    }
    true
}

/// The words of `wordlist` that fit the hidden display `my_word`, in the
/// order of the list.
pub fn possible_matches(my_word: &str, wordlist: &Vec<String>) -> (matches: Vec<String>)
    ensures
        matches@ == wordlist@.filter(|word: String| fits(my_word@, word@)),
{
    let pattern = chars_of(my_word);
    let ghost fitting = |word: String| fits(my_word@, word@);
    let mut matches: Vec<String> = Vec::new();
    let mut i: usize = 0;
    proof {
        reveal(Seq::filter);
    }
    while i < wordlist.len()
        invariant
            i <= wordlist.len(),
            pattern@ == my_word@,
            fitting == |word: String| fits(my_word@, word@),
            matches@ == wordlist@.take(i as int).filter(fitting),
        decreases wordlist.len() - i,
    {
        let word = chars_of(wordlist[i].as_str());
        proof {
            let front = wordlist@.take(i as int);
            assert(wordlist@.take(i + 1) == front.push(wordlist@[i as int]));
            front.lemma_filter_push(wordlist@[i as int], fitting);
        }
        if word_fits(&pattern, &word) {
            matches.push(wordlist[i].clone());
        }
        i += 1;
    }
    proof {
        assert(wordlist@.take(i as int) == wordlist@);
    }
    matches
}

} // verus!
