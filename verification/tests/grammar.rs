use number_to_words::blocks::{char_to_int, NumBlock};
use number_to_words::verbalize;

#[test]
fn char_to_int_maps_digits() {
    assert_eq!(char_to_int('0'), 0);
    assert_eq!(char_to_int('7'), 7);
    assert_eq!(char_to_int('9'), 9);
}

#[test]
fn is_empty_checks_all_three_digits() {
    let empty = NumBlock { index: 2, last: false, ones: 0, tens: 0, huns: 0 };
    assert!(empty.is_empty());
    let ones_only = NumBlock { index: 0, last: true, ones: 4, tens: 0, huns: 0 };
    assert!(!ones_only.is_empty());
    let huns_only = NumBlock { index: 0, last: true, ones: 0, tens: 0, huns: 3 };
    assert!(!huns_only.is_empty());
}

#[test]
fn grouper_cuts_from_the_least_significant_end() {
    let blocks = NumBlock::to_num_blocks("1355823").unwrap();
    assert_eq!(blocks.len(), 3);

    assert_eq!(blocks[0].index, 0);
    assert!(!blocks[0].last);
    assert_eq!((blocks[0].huns, blocks[0].tens, blocks[0].ones), (8, 2, 3));

    assert_eq!(blocks[1].index, 1);
    assert!(!blocks[1].last);
    assert_eq!((blocks[1].huns, blocks[1].tens, blocks[1].ones), (3, 5, 5));

    assert_eq!(blocks[2].index, 2);
    assert!(blocks[2].last);
    assert_eq!((blocks[2].huns, blocks[2].tens, blocks[2].ones), (0, 0, 1));
}

#[test]
fn grouper_pads_the_top_group_with_zeros() {
    let blocks = NumBlock::to_num_blocks("12").unwrap();
    assert_eq!(blocks.len(), 1);
    assert!(blocks[0].last);
    assert_eq!((blocks[0].huns, blocks[0].tens, blocks[0].ones), (0, 1, 2));
}

#[test]
fn grouper_keeps_one_group_for_zeros_only() {
    let blocks = NumBlock::to_num_blocks("000000").unwrap();
    assert_eq!(blocks.len(), 1);
    assert!(blocks[0].last);
    assert_eq!(blocks[0].index, 0);
    assert!(blocks[0].is_empty());
}

#[test]
fn word_form_renders_one_group() {
    let teen = NumBlock { index: 0, last: true, ones: 3, tens: 1, huns: 2 };
    assert_eq!(teen.word_form(), "two hundred thirteen");

    let tens = NumBlock { index: 1, last: false, ones: 5, tens: 4, huns: 0 };
    assert_eq!(tens.word_form(), ", forty five thousand");

    let lone_zero = NumBlock { index: 0, last: true, ones: 0, tens: 0, huns: 0 };
    assert_eq!(lone_zero.word_form(), "zero");

    let silent = NumBlock { index: 1, last: false, ones: 0, tens: 0, huns: 0 };
    assert_eq!(silent.word_form(), "");
}

#[test]
fn ten_comes_from_the_tens_table_not_the_teens() {
    assert_eq!(verbalize("10"), Ok(String::from("ten")));
    assert_eq!(verbalize("210"), Ok(String::from("two hundred ten")));
    assert_eq!(verbalize("1010"), Ok(String::from("one thousand, ten")));
}

#[test]
fn teens_override_tens_and_ones() {
    assert_eq!(verbalize("11"), Ok(String::from("eleven")));
    assert_eq!(verbalize("19"), Ok(String::from("nineteen")));
    assert_eq!(verbalize("911"), Ok(String::from("nine hundred eleven")));
    assert_eq!(verbalize("115"), Ok(String::from("one hundred fifteen")));
}

#[test]
fn plain_tens_and_ones_compose_with_single_spaces() {
    assert_eq!(verbalize("20"), Ok(String::from("twenty")));
    assert_eq!(verbalize("42"), Ok(String::from("forty two")));
    assert_eq!(verbalize("7"), Ok(String::from("seven")));
    assert_eq!(verbalize("305"), Ok(String::from("three hundred five")));
    assert_eq!(verbalize("999"), Ok(String::from("nine hundred ninety nine")));
}
