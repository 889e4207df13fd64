use crownpositor::numbers::{parse_i32, parse_usize, parses_as_float};
use crownpositor::text::{chars_of, split_words, string_from, word_is};

fn chars(s: &str) -> Vec<char> {
    s.chars().collect()
}

#[test]
fn integers_read_as_std_reads_them() {
    assert_eq!(parse_i32(&chars("42")), Some(42));
    assert_eq!(parse_i32(&chars("+7")), Some(7));
    assert_eq!(parse_i32(&chars("-2147483648")), Some(i32::MIN));
    assert_eq!(parse_i32(&chars("2147483648")), None, "one past the top");
    assert_eq!(parse_i32(&chars("-")), None);
    assert_eq!(parse_i32(&chars("")), None);
    assert_eq!(parse_i32(&chars("1x")), None);
    assert_eq!(parse_usize(&chars("3")), Some(3));
    assert_eq!(parse_usize(&chars("-3")), None);
}

#[test]
fn decimals_are_recognised_as_floats_are() {
    assert!(parses_as_float(&chars("0.05")));
    assert!(parses_as_float(&chars("-.5")));
    assert!(parses_as_float(&chars("1e3")));
    assert!(parses_as_float(&chars("inf")));
    assert!(parses_as_float(&chars("NaN")));
    assert!(!parses_as_float(&chars("1.2.3")));
    assert!(!parses_as_float(&chars("")));
    assert!(!parses_as_float(&chars("e5")));
}

#[test]
fn words_split_on_any_whitespace() {
    let words = split_words(&chars("  spawn\tfoot  -e\n"));
    let words: Vec<String> = words.iter().map(string_from).collect();
    assert_eq!(words, ["spawn", "foot", "-e"]);
    assert!(word_is(&chars_of("quit"), "quit"));
    assert!(!word_is(&chars_of("quit"), "quiet"));
}
