//! Counting the different letters of a word, for the score.

use vstd::prelude::*;
use vstd::relations::injective_on;
use vstd::seq_lib::seq_to_set_is_finite;
use vstd::set_lib::{lemma_int_range, lemma_len_subset, lemma_map_size, set_int_range};
use crate::state::distinct_letters;
use crate::text::{chars_of, first_index_of};

verus! {

/// The number of different characters a word can hold at most: the number of
/// code points below the end of the Unicode code space.
pub const MOST_LETTERS: usize = 0x110000;

/// The code of a character lies below the end of the code space.
proof fn lemma_code_in_range(c: char)
    ensures
        0 <= (c as int) < MOST_LETTERS,
{
}

/// No word holds more different characters than there are characters.
pub proof fn lemma_distinct_letters_bound(word: Seq<char>)
    ensures
        distinct_letters(word) <= MOST_LETTERS,
        distinct_letters(word) <= word.len(),
{
    let letters = word.to_set();
    let code = |c: char| c as int;
    let codes = letters.map(code);
    seq_to_set_is_finite(word);
    assert(injective_on(code, letters));
    lemma_map_size(letters, codes, code);
    lemma_int_range(0, MOST_LETTERS as int);
    assert forall|n: int| codes.contains(n) implies set_int_range(0, MOST_LETTERS as int).contains(
        n,
    ) by {
        let c = choose|c: char| letters.contains(c) && n == code(c);
        lemma_code_in_range(c);
    }
    lemma_len_subset(codes, set_int_range(0, MOST_LETTERS as int));
    word.lemma_cardinality_of_set();
}

/// The number of different characters in `word`.
pub fn count_distinct(word: &str) -> (n: usize)
    ensures
        n == distinct_letters(word@),
        n <= MOST_LETTERS,
{
    let chars = chars_of(word);
    let mut seen: Vec<char> = Vec::new();
    let mut i: usize = 0;
    assert(chars@.take(0).to_set() =~= seen@.to_set());
    while i < chars.len()
        invariant
            i <= chars.len(),
            seen@.no_duplicates(),
            seen@.to_set() == chars@.take(i as int).to_set(),
        decreases chars.len() - i,
    {
        let c = chars[i];
        proof {
            let front = chars@.take(i as int);
            assert(chars@.take(i + 1) == front.push(c));
            front.lemma_push_to_set_commute(c);
            seen@.lemma_push_to_set_commute(c);
            if seen@.contains(c) {
                assert(seen@.to_set().contains(c));
                assert(seen@.to_set().insert(c) =~= seen@.to_set());
            }
        }
        if first_index_of(&seen, c).is_none() {
            seen.push(c);
        }
        i += 1;
    }
    proof {
        assert(chars@.take(i as int) == chars@);
        seen@.unique_seq_to_set();
        lemma_distinct_letters_bound(word@);
    }
    seen.len()
}

} // verus!
