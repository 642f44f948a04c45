use reasoner::text::{clone_words, join_words, position, push_decimal, push_signed_decimal, same_text};

fn words(list: &[&str]) -> Vec<String> {
    list.iter().map(|word| word.to_string()).collect()
}

fn decimal(n: u64) -> String {
    let mut s = String::from("n=");
    push_decimal(&mut s, n);
    s
}

fn signed(n: i32) -> String {
    let mut s = String::new();
    push_signed_decimal(&mut s, n);
    s
}

#[test]
fn decimals_have_no_leading_zeros() {
    assert_eq!(decimal(0), "n=0");
    assert_eq!(decimal(9), "n=9");
    assert_eq!(decimal(10), "n=10");
    assert_eq!(decimal(4207), "n=4207");
    assert_eq!(decimal(u64::MAX), "n=18446744073709551615");
}

#[test]
fn negative_decimals_have_a_sign() {
    assert_eq!(signed(0), "0");
    assert_eq!(signed(101), "101");
    assert_eq!(signed(-7), "-7");
    assert_eq!(signed(i32::MIN), "-2147483648");
    assert_eq!(signed(i32::MAX), "2147483647");
}

#[test]
fn words_are_joined_with_single_spaces() {
    assert_eq!(join_words(&words(&[])), "");
    assert_eq!(join_words(&words(&["one"])), "one");
    assert_eq!(join_words(&words(&["make", "it", "so"])), "make it so");
    assert_eq!(join_words(&words(&["", "a b", ""])), " a b ");
}

#[test]
fn the_first_position_is_found() {
    let list = words(&["a", "b", "a"]);
    assert_eq!(position(&list, &"a".to_string()), Some(0));
    assert_eq!(position(&list, &"b".to_string()), Some(1));
    assert_eq!(position(&list, &"c".to_string()), None);
}

#[test]
fn texts_are_compared_and_copied() {
    assert!(same_text(&"done".to_string(), "done"));
    assert!(!same_text(&"done".to_string(), "Done"));
    assert_eq!(clone_words(&words(&["x", "é"])), words(&["x", "é"]));
}
