use hangman::{guess_in_word, reveal_guess};

#[test]
fn letter_of_the_word_is_found() {
    assert!(guess_in_word('c', "cat"));
    assert!(guess_in_word('a', "cat"));
    assert!(guess_in_word('t', "cat"));
    assert!(guess_in_word('a', "banana"));
}

#[test]
fn letter_outside_the_word_is_not_found() {
    assert!(!guess_in_word('x', "cat"));
    assert!(!guess_in_word('C', "cat"));
    assert!(!guess_in_word('a', ""));
    assert!(!guess_in_word('_', "cat"));
}

#[test]
fn reveal_shows_every_occurrence() {
    let mut hidden = "______".to_string();
    let mut found: usize = 0;
    reveal_guess('a', "banana", &mut hidden, &mut found);
    assert_eq!(hidden, "_a_a_a");
    assert_eq!(found, 3);
    reveal_guess('n', "banana", &mut hidden, &mut found);
    assert_eq!(hidden, "_anana");
    assert_eq!(found, 5);
    reveal_guess('b', "banana", &mut hidden, &mut found);
    assert_eq!(hidden, "banana");
    assert_eq!(found, 6);
}

#[test]
fn reveal_of_an_absent_letter_changes_nothing() {
    let mut hidden = "_a_".to_string();
    let mut found: usize = 1;
    reveal_guess('x', "cat", &mut hidden, &mut found);
    assert_eq!(hidden, "_a_");
    assert_eq!(found, 1);
}

#[test]
fn reveal_counts_only_what_was_not_shown() {
    let mut hidden = "_a_a_a".to_string();
    let mut found: usize = 3;
    reveal_guess('a', "banana", &mut hidden, &mut found);
    assert_eq!(hidden, "_a_a_a");
    assert_eq!(found, 3);
    let mut partly = "_a____".to_string();
    let mut count: usize = 10;
    reveal_guess('a', "banana", &mut partly, &mut count);
    assert_eq!(partly, "_a_a_a");
    assert_eq!(count, 12);
}

#[test]
fn reveal_on_the_empty_word() {
    let mut hidden = String::new();
    let mut found: usize = 0;
    reveal_guess('a', "", &mut hidden, &mut found);
    assert_eq!(hidden, "");
    assert_eq!(found, 0);
}
