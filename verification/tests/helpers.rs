use adventurers::quests::tally::Tally;
use adventurers::text::push_decimal;
use adventurers::text::push_indented;
use adventurers::QuestStatus;

fn decimal(number: u32) -> String {
    let mut text = String::new();
    push_decimal(&mut text, number);
    text
}

fn indented(lower: &str) -> String {
    let mut text = String::new();
    push_indented(&mut text, lower);
    text
}

#[test]
fn decimal_has_no_leading_zeros() {
    assert_eq!(decimal(0), "0");
    assert_eq!(decimal(7), "7");
    assert_eq!(decimal(9), "9");
    assert_eq!(decimal(10), "10");
    assert_eq!(decimal(100), "100");
    assert_eq!(decimal(1234567890), "1234567890");
    assert_eq!(decimal(u32::MAX), "4294967295");
}

#[test]
fn decimal_is_appended_to_what_is_there() {
    let mut text = String::from("n = ");
    push_decimal(&mut text, 42);
    assert_eq!(text, "n = 42");
}

#[test]
fn indentation_puts_a_tab_behind_each_line_break() {
    assert_eq!(indented(""), "");
    assert_eq!(indented("one line"), "one line");
    assert_eq!(indented("two\nlines"), "two\n\tlines");
    assert_eq!(indented("\n"), "\n\t");
    assert_eq!(indented("a\n\nb\n"), "a\n\t\n\tb\n\t");
    assert_eq!(indented("a\n\tb"), "a\n\t\tb");
}

#[test]
fn indented_text_is_appended_to_what_is_there() {
    let mut text = String::from("head:\n\t");
    push_indented(&mut text, "x\ny");
    assert_eq!(text, "head:\n\tx\n\ty");
}

#[test]
fn indentation_keeps_characters_of_any_width() {
    assert_eq!(indented("\u{2705}\n\u{1F4AC}"), "\u{2705}\n\t\u{1F4AC}");
}

#[test]
fn a_tally_is_complete_when_the_count_is_there() {
    let mut tally = Tally::new(2);
    assert_eq!(tally.status(), QuestStatus::Ongoing);
    assert_eq!(tally.needed(), 2);
    assert_eq!(tally.remaining(), 2);
    tally.advance();
    assert_eq!(tally.status(), QuestStatus::Ongoing);
    assert_eq!(tally.remaining(), 1);
    tally.advance();
    assert_eq!(tally.status(), QuestStatus::Complete);
    assert_eq!(tally.remaining(), 0);
    assert_eq!(tally.needed(), 2);
}

#[test]
fn a_tally_starts_again_from_nothing() {
    let mut tally = Tally::new(3);
    tally.advance();
    tally.advance();
    tally.restart();
    assert_eq!(tally.remaining(), 3);
    assert_eq!(tally.status(), QuestStatus::Ongoing);
    tally.advance();
    tally.advance();
    tally.advance();
    assert_eq!(tally.status(), QuestStatus::Complete);
    tally.restart();
    assert_eq!(tally.status(), QuestStatus::Ongoing);
    assert_eq!(tally.remaining(), 3);
}

#[test]
fn a_tally_of_nothing_is_complete_at_once() {
    let mut tally = Tally::new(0);
    assert_eq!(tally.status(), QuestStatus::Complete);
    assert_eq!(tally.remaining(), 0);
    tally.restart();
    assert_eq!(tally.status(), QuestStatus::Complete);
}

#[test]
fn a_tally_counts_up_to_the_largest_number() {
    let mut tally = Tally::new(u32::MAX);
    tally.advance();
    assert_eq!(tally.remaining(), u32::MAX - 1);
    assert_eq!(tally.status(), QuestStatus::Ongoing);
}
