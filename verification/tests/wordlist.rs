use hangman::{get_word, split_words, word_at};

fn list(words: &[&str]) -> Vec<String> {
    words.iter().map(|w| w.to_string()).collect()
}

#[test]
fn words_are_split_at_spaces() {
    assert_eq!(split_words("apple banana cherry"), list(&["apple", "banana", "cherry"]));
    assert_eq!(split_words("cat"), list(&["cat"]));
}

#[test]
fn empty_tokens_are_dropped() {
    assert_eq!(split_words(""), Vec::<String>::new());
    assert_eq!(split_words("   "), Vec::<String>::new());
    assert_eq!(split_words("  apple   banana  "), list(&["apple", "banana"]));
    assert_eq!(split_words(" a"), list(&["a"]));
    assert_eq!(split_words("a "), list(&["a"]));
}

#[test]
fn any_whitespace_separates() {
    assert_eq!(split_words("apple\nbanana\tcherry\r\n"), list(&["apple", "banana", "cherry"]));
    assert_eq!(split_words("a\u{a0}b\u{3000}c"), list(&["a", "b", "c"]));
}

#[test]
fn split_agrees_with_split_whitespace() {
    let texts = ["", " ", "one", "one two", " one  two\tthree\n", "\u{e9}t\u{e9} d\u{e9}j\u{e0}"];
    for text in texts {
        let expected: Vec<String> = text.split_whitespace().map(|w| w.to_string()).collect();
        assert_eq!(split_words(text), expected, "at {:?}", text);
    }
}

#[test]
fn word_at_is_the_word_at_the_index() {
    let words = list(&["cat", "bat", "mat"]);
    assert_eq!(word_at(&words, 0), "cat");
    assert_eq!(word_at(&words, 1), "bat");
    assert_eq!(word_at(&words, 2), "mat");
}

#[test]
fn picked_word_is_in_the_list() {
    let words = list(&["cat", "bat", "mat", "hat", "rat"]);
    for _ in 0..500 {
        let word = get_word(&words);
        assert!(words.contains(word));
    }
}

#[test]
fn single_word_is_always_picked() {
    let words = list(&["only"]);
    for _ in 0..50 {
        assert_eq!(get_word(&words), "only");
    }
}

#[test]
fn picking_reaches_every_word() {
    let words = list(&["cat", "bat", "mat", "hat", "rat"]);
    let mut seen = vec![false; 5];
    for _ in 0..2000 {
        let word = get_word(&words);
        let at = words.iter().position(|w| w == word).unwrap();
        seen[at] = true;
    }
    assert_eq!(seen, vec![true; 5]);
}
