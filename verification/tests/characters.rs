use hangman::chars::{is_lowercase_letter, is_vowel, is_whitespace, to_lower};
use hangman::singular;
use hangman::line::trimmed_len;
use hangman::text::{chars_of, first_index_of, string_of};

fn every_char() -> Vec<char> {
    let mut all = Vec::new();
    let mut code: u32 = 0;
    while code <= 0x10FFFF {
        if let Some(c) = char::from_u32(code) {
            all.push(c);
        }
        code += 1;
    }
    all
}

#[test]
fn whitespace_is_what_std_calls_whitespace() {
    for c in every_char() {
        assert_eq!(is_whitespace(c), c.is_whitespace(), "at {:?}", c);
    }
}

#[test]
fn lowering_is_ascii_lowering() {
    for c in every_char() {
        assert_eq!(to_lower(c), c.to_ascii_lowercase(), "at {:?}", c);
    }
    assert_eq!(to_lower('A'), 'a');
    assert_eq!(to_lower('Z'), 'z');
    assert_eq!(to_lower('m'), 'm');
    assert_eq!(to_lower('@'), '@');
    assert_eq!(to_lower('['), '[');
    assert_eq!(to_lower('\u{c9}'), '\u{c9}');
}

#[test]
fn lowercase_letters_are_a_to_z() {
    let mut count = 0;
    for c in every_char() {
        if is_lowercase_letter(c) {
            count += 1;
            assert!(('a'..='z').contains(&c));
        }
    }
    assert_eq!(count, 26);
    assert!(!is_lowercase_letter('`'));
    assert!(!is_lowercase_letter('{'));
    assert!(!is_lowercase_letter('A'));
    assert!(!is_lowercase_letter('_'));
    assert!(!is_lowercase_letter('*'));
}

#[test]
fn vowels_are_five() {
    let vowels: Vec<char> = every_char().into_iter().filter(|c| is_vowel(*c)).collect();
    assert_eq!(vowels, vec!['a', 'e', 'i', 'o', 'u']);
}

#[test]
fn only_one_is_singular() {
    assert!(!singular(0));
    assert!(singular(1));
    assert!(!singular(2));
    assert!(!singular(6));
    assert!(!singular(usize::MAX));
}

#[test]
fn chars_and_strings_convert_both_ways() {
    assert_eq!(chars_of("cat"), vec!['c', 'a', 't']);
    assert_eq!(chars_of(""), Vec::<char>::new());
    assert_eq!(chars_of("na\u{ef}ve"), vec!['n', 'a', '\u{ef}', 'v', 'e']);
    assert_eq!(string_of(&vec!['c', 'a', 't']), "cat");
    assert_eq!(string_of(&Vec::new()), "");
    assert_eq!(string_of(&chars_of("_a_ \u{1F600}")), "_a_ \u{1F600}");
}

#[test]
fn first_index_is_the_first() {
    let v = vec!['b', 'a', 'n', 'a', 'n', 'a'];
    assert_eq!(first_index_of(&v, 'b'), Some(0));
    assert_eq!(first_index_of(&v, 'a'), Some(1));
    assert_eq!(first_index_of(&v, 'n'), Some(2));
    assert_eq!(first_index_of(&v, 'x'), None);
    assert_eq!(first_index_of(&Vec::new(), 'a'), None);
}

#[test]
fn trimmed_length_counts_between_the_whitespace() {
    let samples = [
        "",
        "a",
        "a\n",
        "ab\n",
        "  a  ",
        " a b ",
        "\n",
        " \t\r\n",
        "\u{a0}x\u{3000}",
        "\u{e9}\n",
        "a b",
        "*",
        "hello world\r\n",
    ];
    for s in samples {
        assert_eq!(trimmed_len(&chars_of(s)), s.trim().chars().count(), "at {:?}", s);
    }
    assert_eq!(trimmed_len(&chars_of("  a  ")), 1);
    assert_eq!(trimmed_len(&chars_of(" a b ")), 3);
    assert_eq!(trimmed_len(&chars_of(" \t\r\n")), 0);
}
