use hangman::{match_with_hidden, possible_matches, Game};

fn list(words: &[&str]) -> Vec<String> {
    words.iter().map(|w| w.to_string()).collect()
}

#[test]
fn words_with_the_revealed_letter_match() {
    assert!(match_with_hidden("_a_", "cat"));
    assert!(match_with_hidden("_a_", "bat"));
    assert!(match_with_hidden("_a_", "mat"));
    assert!(!match_with_hidden("_a_", "cot"));
}

#[test]
fn words_of_another_length_do_not_match() {
    assert!(!match_with_hidden("_a_", "cart"));
    assert!(!match_with_hidden("_a_", "at"));
    assert!(!match_with_hidden("_a_", ""));
    assert!(!match_with_hidden("", "a"));
}

#[test]
fn blank_positions_match_any_letter() {
    assert!(match_with_hidden("___", "cat"));
    assert!(match_with_hidden("___", "dog"));
    assert!(match_with_hidden("", ""));
    assert!(match_with_hidden("c__", "cat"));
    assert!(!match_with_hidden("c__", "bat"));
    assert!(match_with_hidden("cat", "cat"));
    assert!(!match_with_hidden("cat", "cab"));
}

#[test]
fn every_revealed_position_counts() {
    assert!(!match_with_hidden("ca_", "cot"));
    assert!(!match_with_hidden("c_t", "cab"));
    assert!(match_with_hidden("c_t", "cut"));
    assert!(!match_with_hidden("a__a", "abcd"));
}

#[test]
fn possible_matches_keeps_the_order_of_the_list() {
    let words = list(&["cat", "cot", "bat", "cart", "mat", "at", "cat"]);
    assert_eq!(possible_matches("_a_", &words), list(&["cat", "bat", "mat", "cat"]));
    assert_eq!(possible_matches("c__", &words), list(&["cat", "cot", "cat"]));
    assert_eq!(possible_matches("___", &words), list(&["cat", "cot", "bat", "mat", "cat"]));
    assert_eq!(possible_matches("z__", &words), Vec::<String>::new());
    assert_eq!(possible_matches("_a_", &Vec::new()), Vec::<String>::new());
}

#[test]
fn game_hints_follow_the_display() {
    let words = list(&["cat", "cot", "bat", "mat", "cart"]);
    let mut game = Game::new("cat");
    assert_eq!(game.hints(&words), list(&["cat", "cot", "bat", "mat"]));
    game.guess('a');
    assert_eq!(game.hidden_word(), "_a_");
    assert_eq!(game.hints(&words), list(&["cat", "bat", "mat"]));
    game.guess('c');
    assert_eq!(game.hints(&words), list(&["cat"]));
}
