use ddi::text::{chars_of, find_char, join, same_text};

#[test]
fn chars_of_counts_characters_not_bytes() {
    assert_eq!(chars_of("aé=ü"), vec!['a', 'é', '=', 'ü']);
    assert_eq!(chars_of(""), Vec::<char>::new());
}

#[test]
fn find_char_gives_the_first_position_or_the_length() {
    let chars = chars_of("a=b=c");
    assert_eq!(find_char(&chars, 0, '='), 1);
    assert_eq!(find_char(&chars, 1, '='), 1);
    assert_eq!(find_char(&chars, 2, '='), 3);
    assert_eq!(find_char(&chars, 4, '='), 5);
    assert_eq!(find_char(&chars, 5, '='), 5);
    assert_eq!(find_char(&chars, 0, 'x'), 5);
    assert_eq!(find_char(&Vec::new(), 0, '='), 0);
}

#[test]
fn same_text_compares_characters() {
    assert!(same_text("--help", "--help"));
    assert!(same_text("", ""));
    assert!(!same_text("--help", "--Help"));
    assert!(!same_text("--help", "--help "));
    assert!(!same_text("a", ""));
}

#[test]
fn join_puts_one_space_between_parts() {
    assert_eq!(join(&Vec::new()), "");
    assert_eq!(join(&vec!["a".to_string()]), "a");
    assert_eq!(join(&vec!["a".to_string(), "b".to_string(), "c".to_string()]), "a b c");
    assert_eq!(join(&vec![String::new(), String::new()]), " ");
}
