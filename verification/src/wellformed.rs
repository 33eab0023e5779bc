//! Every game that was started and played by the rules is well formed.

use vstd::prelude::*;
use crate::chars::{lowercase_letter, lowered, BLANK};
use crate::input::{classify, letters_after};
use crate::resolver::{blank, newly_revealed, revealed};
use crate::state::{alphabet, display, shown, GameState};

verus! {

/// Taking a value out of a sequence that holds nothing twice removes exactly
/// that value and keeps the rest.
pub proof fn lemma_remove_value(letters: Seq<char>, c: char)
    requires
        letters.no_duplicates(),
        letters.contains(c),
    ensures
        letters.remove_value(c).no_duplicates(),
        letters.remove_value(c).len() == letters.len() - 1,
        forall|x: char|
            letters.remove_value(c).contains(x) <==> letters.contains(x) && x != c,
{
    letters.index_of_first_ensures(c);
    let at = letters.index_of_first(c).unwrap();
    let rest = letters.remove_value(c);
    assert(rest == letters.remove(at));
    letters.remove_ensures(at);
    assert forall|x: char| rest.contains(x) <==> letters.contains(x) && x != c by {
        if rest.contains(x) {
            let k = choose|k: int| 0 <= k < rest.len() && rest[k] == x;
            if k < at {
                assert(letters[k] == x);
            } else {
                assert(letters[k + 1] == x);
            }
        }
        if letters.contains(x) && x != c {
            let k = choose|k: int| 0 <= k < letters.len() && letters[k] == x;
            if k < at {
                assert(rest[k] == x);
            } else {
                assert(rest[k - 1] == x);
            }
        }
    }
    assert forall|i: int, j: int| 0 <= i < rest.len() && 0 <= j < rest.len() && i != j implies rest[i]
        != rest[j] by {
        let a = if i < at { i } else { i + 1 };
        let b = if j < at { j } else { j + 1 };
        assert(rest[i] == letters[a]);
        assert(rest[j] == letters[b]);
    }
}

/// No more positions are shown than the display has.
pub proof fn lemma_shown_bound(hidden: Seq<char>)
    ensures
        shown(hidden) <= hidden.len(),
    decreases hidden.len(),
{
    if hidden.len() > 0 {
        lemma_shown_bound(hidden.drop_last());
    }
}

/// Every position is shown exactly when the display holds no blank.
pub proof fn lemma_shown_all(hidden: Seq<char>)
    ensures
        shown(hidden) == hidden.len() <==> !hidden.contains(BLANK),
    decreases hidden.len(),
{
    if hidden.len() > 0 {
        let front = hidden.drop_last();
        lemma_shown_all(front);
        lemma_shown_bound(front);
        if hidden.last() == BLANK {
            assert(hidden[hidden.len() - 1] == BLANK);
        } else {
            if front.contains(BLANK) {
                let k = choose|k: int| 0 <= k < front.len() && front[k] == BLANK;
                assert(hidden[k] == BLANK);
            }
            if hidden.contains(BLANK) {
                let k = choose|k: int| 0 <= k < hidden.len() && hidden[k] == BLANK;
                assert(front[k] == BLANK);
            }
        }
    }
}

/// A display of blanks shows nothing.
pub proof fn lemma_shown_blank(n: nat)
    ensures
        shown(blank(n)) == 0,
    decreases n,
{
    if n > 0 {
        assert(blank(n).drop_last() == blank((n - 1) as nat));
        lemma_shown_blank((n - 1) as nat);
    }
}

/// Revealing a letter in a display that is blank wherever the secret word
/// holds it shows as many positions more as are newly revealed.
pub proof fn lemma_shown_after_reveal(secret: Seq<char>, hidden: Seq<char>, letter: char)
    requires
        secret.len() == hidden.len(),
        letter != BLANK,
        forall|i: int| 0 <= i < secret.len() && secret[i] == letter ==> hidden[i] == BLANK,
    ensures
        shown(revealed(secret, hidden, letter)) == shown(hidden) + newly_revealed(
            secret,
            hidden,
            letter,
        ),
    decreases secret.len(),
{
    if secret.len() > 0 {
        let s = secret.drop_last();
        let h = hidden.drop_last();
        assert forall|i: int| 0 <= i < s.len() && s[i] == letter implies h[i] == BLANK by {
            assert(secret[i] == letter);
        }
        lemma_shown_after_reveal(s, h, letter);
        assert(revealed(secret, hidden, letter).drop_last() == revealed(s, h, letter));
        let last = secret.len() - 1;
        assert(secret[last] == letter ==> hidden[last] == BLANK);
    } else {
        assert(revealed(secret, hidden, letter) == hidden);
    }
}

/// The alphabet holds each lowercase letter once, and nothing else.
pub proof fn lemma_alphabet()
    ensures
        alphabet().no_duplicates(),
        forall|i: int| 0 <= i < alphabet().len() ==> lowercase_letter(alphabet()[i]),
        forall|c: char| lowercase_letter(c) ==> alphabet().contains(c),
{
    assert forall|c: char| lowercase_letter(c) implies alphabet().contains(c) by {
        let k = c as int - 'a' as int;
        assert(alphabet()[k] == c);
    }
}

/// A new game is well formed.
pub proof fn lemma_start_wf(secret: Seq<char>)
    ensures
        GameState::start(secret).wf(),
{
    let s = GameState::start(secret);
    lemma_alphabet();
    lemma_shown_blank(secret.len());
    assert(s.hidden == display(s.secret, s.letters));
}

/// A guess leaves a well-formed game well formed.
pub proof fn lemma_guess_wf(s: GameState, guess: char)
    requires
        s.wf(),
    ensures
        s.guess(guess).wf(),
{
    let t = s.guess(guess);
    if s.status() is Playing && classify(guess, s.letters) is FreshLetter {
        lemma_remove_value(s.letters, guess);
        let rest = letters_after(guess, s.letters);
        assert(rest == s.letters.remove_value(guess));
        assert forall|i: int| 0 <= i < rest.len() implies lowercase_letter(rest[i]) by {
            let x = rest[i];
            assert(s.letters.remove_value(guess).contains(x));
            assert(s.letters.contains(x));
            let k = choose|k: int| 0 <= k < s.letters.len() && s.letters[k] == x;
        }
        if s.secret.contains(guess) {
            assert(t.hidden == display(t.secret, t.letters)) by {
                assert forall|i: int| 0 <= i < s.secret.len() implies t.hidden[i] == display(
                    t.secret,
                    t.letters,
                )[i] by {
                    assert(s.hidden[i] == display(s.secret, s.letters)[i]);
                }
            }
            assert forall|i: int| 0 <= i < s.secret.len() && s.secret[i] == guess implies s.hidden[i]
                == BLANK by {
                assert(s.hidden[i] == display(s.secret, s.letters)[i]);
            }
            lemma_shown_after_reveal(s.secret, s.hidden, guess);
        } else {
            assert(t.hidden == display(t.secret, t.letters)) by {
                assert forall|i: int| 0 <= i < s.secret.len() implies t.hidden[i] == display(
                    t.secret,
                    t.letters,
                )[i] by {
                    assert(s.hidden[i] == display(s.secret, s.letters)[i]);
                    assert(s.secret.contains(s.secret[i]));
                }
            }
        }
    }
}

/// A line of input leaves a well-formed game well formed.
pub proof fn lemma_turn_wf(s: GameState, line: Seq<char>)
    requires
        s.wf(),
    ensures
        s.turn(line).wf(),
{
    if s.accepts(line) {
        lemma_guess_wf(s, lowered(line.first()));
    }
}

} // verus!
