use rusth::util::decimal::{decimal, push_decimal};
use rusth::util::prompt::Prompt;

#[test]
fn decimal_of_small_numbers() {
    assert_eq!(decimal(0), "0");
    assert_eq!(decimal(7), "7");
    assert_eq!(decimal(10), "10");
    assert_eq!(decimal(12), "12");
    assert_eq!(decimal(1234567890), "1234567890");
}

#[test]
fn decimal_of_negative_numbers() {
    assert_eq!(decimal(-1), "-1");
    assert_eq!(decimal(-20), "-20");
    assert_eq!(decimal(i32::MIN), "-2147483648");
    assert_eq!(decimal(i32::MAX), "2147483647");
}

#[test]
fn decimal_agrees_with_the_standard_library() {
    for n in [-1000, -999, -101, -100, -11, -10, -9, 9, 11, 99, 100, 101, 999, 1000, 65535] {
        assert_eq!(decimal(n), format!("{}", n));
    }
}

#[test]
fn push_decimal_adds_to_the_end() {
    let mut text = "code ".to_string();
    push_decimal(&mut text, -45);
    assert_eq!(text, "code -45");
}

#[test]
fn new_prompt_is_coloured_and_shows_no_status() {
    let mut prompt = Prompt::new();
    assert!(prompt.have_ansi);
    assert_eq!(prompt.prompt_base, "\x1b[1;32m>>\x1b[0m ");
    assert_eq!(prompt.return_code, None);
    assert_eq!(prompt.make_prompt(None), "\x1b[1;32m>>\x1b[0m ");
}

#[test]
fn plain_prompt_has_the_plain_marker() {
    let mut prompt = Prompt::with_ansi(false);
    assert!(!prompt.have_ansi);
    assert_eq!(prompt.make_prompt(None), ">> ");
    assert_eq!(prompt.make_prompt(Some("/tmp")), "/tmp >> ");
}

#[test]
fn prompt_shows_the_status_once() {
    let mut prompt = Prompt::with_ansi(false);
    prompt.set_return_code(Some(12));
    assert_eq!(prompt.return_code, Some(12));
    assert_eq!(prompt.make_prompt(Some("/home/u")), "(12) /home/u >> ");
    assert_eq!(prompt.return_code, None);
    assert_eq!(prompt.make_prompt(Some("/home/u")), "/home/u >> ");
    prompt.set_return_code(Some(-1));
    assert_eq!(prompt.make_prompt(None), "(-1) >> ");
    prompt.set_return_code(None);
    assert_eq!(prompt.make_prompt(None), ">> ");
}
