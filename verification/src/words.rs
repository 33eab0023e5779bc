//! The word list: splitting a text into its words, and picking one of them
//! at random.

use vstd::prelude::*;
use rand::Rng;
use crate::chars::{is_whitespace, whitespace};
use crate::text::{chars_of, string_of};

verus! {

/// The number of characters at the start of `text` that are not whitespace.
pub open spec fn word_end(text: Seq<char>) -> nat
    decreases text.len(),
{
    if text.len() == 0 || whitespace(text.first()) {
        0
    } else {
        1 + word_end(text.drop_first())
    }
}

/// The words of `text`, in order: its longest stretches of characters that
/// are not whitespace.
pub open spec fn words_of(text: Seq<char>) -> Seq<Seq<char>>
    decreases text.len(),
{
    if text.len() == 0 {
        Seq::empty()
    } else if whitespace(text.first()) {
        words_of(text.drop_first())
    } else {
        proof {
            lemma_word_end(text);
        }
        let end = word_end(text) as int;
        seq![text.take(end)] + words_of(text.skip(end))
    }
}

/// A word ends within the text, and after its first character if that is
/// not whitespace. No character of the word is whitespace; the character
/// after it, if there is one, is.
pub proof fn lemma_word_end(text: Seq<char>)
    ensures
        word_end(text) <= text.len(),
        text.len() > 0 && !whitespace(text.first()) ==> word_end(text) > 0,
        forall|i: int| 0 <= i < word_end(text) ==> !whitespace(text[i]),
        word_end(text) < text.len() ==> whitespace(text[word_end(text) as int]),
    decreases text.len(),
{
    if text.len() > 0 && !whitespace(text.first()) {
        let rest = text.drop_first();
        lemma_word_end(rest);
        assert forall|i: int| 0 <= i < word_end(text) implies !whitespace(text[i]) by {
            if i > 0 {
                assert(text[i] == rest[i - 1]);
            }
        }
    }
}

/// A stretch of `n` characters without whitespace that ends the text or is
/// followed by whitespace is the word at the start of the text.
pub proof fn lemma_word_end_is(text: Seq<char>, n: int)
    requires
        0 <= n <= text.len(),
        forall|i: int| 0 <= i < n ==> !whitespace(text[i]),
        n < text.len() ==> whitespace(text[n]),
    ensures
        word_end(text) == n,
    decreases n,
{
    if n > 0 {
        let rest = text.drop_first();
        assert forall|i: int| 0 <= i < n - 1 implies !whitespace(rest[i]) by {
            assert(rest[i] == text[i + 1]);
        }
        lemma_word_end_is(rest, n - 1);
    }
}

/// `word` holds at least one character, and none that is whitespace.
pub open spec fn is_word(word: Seq<char>) -> bool {
    word.len() > 0 && forall|i: int| 0 <= i < word.len() ==> !whitespace(word[i])
}

/// Every word of a text holds at least one character, and none that is
/// whitespace.
pub proof fn lemma_words_are_words(text: Seq<char>)
    ensures
        forall|k: int| 0 <= k < words_of(text).len() ==> is_word(#[trigger] words_of(text)[k]),
    decreases text.len(),
{
    if text.len() == 0 {
        assert(words_of(text).len() == 0);
    } else if whitespace(text.first()) {
        lemma_words_are_words(text.drop_first());
        assert(words_of(text) == words_of(text.drop_first()));
    } else {
        lemma_word_end(text);
        let end = word_end(text) as int;
        let first = text.take(end);
        let others = words_of(text.skip(end));
        lemma_words_are_words(text.skip(end));
        assert(is_word(first));
        assert forall|k: int| 0 <= k < words_of(text).len() implies is_word(
            #[trigger] words_of(text)[k],
        ) by {
            if k > 0 {
                assert(words_of(text)[k] == others[k - 1]);
            }
        }
    }
}

/// Splits `text` into its words: the stretches of characters between
/// whitespace, none of them empty, in the order of the text.
pub fn split_words(text: &str) -> (words: Vec<String>)
    ensures
        words.deep_view() == words_of(text@),
{
    let chars = chars_of(text);
    let mut words: Vec<String> = Vec::new();
    let mut i: usize = 0;
    assert(chars@.skip(0) == chars@);
    while i < chars.len()
        invariant
            i <= chars.len(),
            chars@ == text@,
            words.deep_view() + words_of(chars@.skip(i as int)) == words_of(chars@),
        decreases chars.len() - i,
    {
        let ghost rest = chars@.skip(i as int);
        if is_whitespace(chars[i]) {
            assert(rest.drop_first() == chars@.skip(i + 1));
            i += 1;
        } else {
            let start = i;
            let mut word: Vec<char> = Vec::new();
            while i < chars.len() && !is_whitespace(chars[i])
                invariant
                    start <= i <= chars.len(),
                    word@ == chars@.subrange(start as int, i as int),
                    forall|k: int| start <= k < i ==> !whitespace(chars@[k]),
                decreases chars.len() - i,
            {
                word.push(chars[i]);
                i += 1;
            }
            let ghost before = words.deep_view();
            words.push(string_of(&word));
            proof {
                lemma_word_end_is(rest, i - start);
                assert(rest.take(i - start) == word@);
                assert(rest.skip(i - start) == chars@.skip(i as int));
                assert(words.deep_view() == before + seq![word@]);
            }
        }
    }
    assert(words.deep_view() + Seq::<Seq<char>>::empty() == words.deep_view());
    words
}

/// `rand::rngs::ThreadRng`, the handle to the random number generator of the
/// current thread. It is carried from where it is made to where a number is
/// drawn; nothing is known of what it holds.
#[verifier::external_type_specification]
#[verifier::external_body]
pub struct ExThreadRng(rand::rngs::ThreadRng);

/// `rand::rng`: hands out the generator of the current thread. Nothing is
/// claimed of the generator. The call fails only where the operating system
/// gives the thread no randomness to seed it with.
#[verifier::external_body]
fn thread_rng() -> rand::rngs::ThreadRng {
    rand::rng()
}

/// `Rng::random_range` on the range from zero up to, and without, `n`: the
/// number drawn lies in that range, and nothing more is claimed of it. An
/// empty range makes the call panic, so `n` must not be zero.
#[verifier::external_body]
fn random_below(rng: &mut rand::rngs::ThreadRng, n: usize) -> (i: usize)
    requires
        n > 0,
    ensures
        i < n,
{
    rng.random_range(0..n)
}

/// The word of `list` at `index`.
pub fn word_at(list: &Vec<String>, index: usize) -> (word: &String)
    requires
        index < list.len(),
    ensures
        *word == list@[index as int],
{
    &list[index]
}

/// A word of `list`, picked at random.
pub fn get_word(list: &Vec<String>) -> (word: &String)
    requires
        list.len() > 0,
    ensures
        list@.contains(*word),
{
    let mut rng = thread_rng();
    let index = random_below(&mut rng, list.len());
    word_at(list, index)
}

} // verus!
