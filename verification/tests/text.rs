use cendash::text::{join, list_texts, to_decimal};

#[test]
fn decimal_of_small_counts() {
    assert_eq!(to_decimal(0), "0");
    assert_eq!(to_decimal(7), "7");
    assert_eq!(to_decimal(9), "9");
    assert_eq!(to_decimal(10), "10");
    assert_eq!(to_decimal(42), "42");
    assert_eq!(to_decimal(100), "100");
    assert_eq!(to_decimal(1234567890), "1234567890");
}

#[test]
fn decimal_agrees_with_the_standard_formatting() {
    let mut n: usize = 0;
    while n < 3000 {
        assert_eq!(to_decimal(n), n.to_string());
        n += 1;
    }
    assert_eq!(to_decimal(usize::MAX), usize::MAX.to_string());
}

#[test]
fn join_puts_the_tail_behind_the_prefix() {
    assert_eq!(join("GitRef: ", "release-42"), "GitRef: release-42");
    assert_eq!(join("", ""), "");
    assert_eq!(join("a", ""), "a");
    assert_eq!(join("", "b"), "b");
}

#[test]
fn texts_are_listed_with_commas_between() {
    assert_eq!(list_texts(&Vec::new()), "");
    assert_eq!(list_texts(&vec!["a.txt".to_string()]), "a.txt");
    assert_eq!(list_texts(&vec!["a.txt".to_string(), "b".to_string()]), "a.txt, b");
    assert_eq!(
        list_texts(&vec!["x".to_string(), "".to_string(), "z".to_string()]),
        "x, , z"
    );
}
