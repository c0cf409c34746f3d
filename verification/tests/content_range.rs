use download_manager::text::{chars_of, decimal_text, is_white_space, parse_u64, trimmed_bounds};
use download_manager::unsatisfiable_range_total;

#[test]
fn reads_the_total_of_a_refused_range() {
    assert_eq!(unsatisfiable_range_total(Some("bytes */16")), Some(16));
    assert_eq!(unsatisfiable_range_total(Some("bytes */0")), Some(0));
    assert_eq!(unsatisfiable_range_total(Some("bytes */ 16\t")), Some(16));
    assert_eq!(unsatisfiable_range_total(Some("bytes */\u{3000}16\u{a0}")), Some(16));
    assert_eq!(unsatisfiable_range_total(Some("bytes */+16")), Some(16));
    assert_eq!(unsatisfiable_range_total(Some("bytes */0016")), Some(16));
    assert_eq!(
        unsatisfiable_range_total(Some("bytes */18446744073709551615")),
        Some(18446744073709551615)
    );
}

#[test]
fn anything_else_states_no_total() {
    for text in [
        "", "bytes", "bytes */", "bytes */ ", "bytes */*", "bytes */+", "bytes */-1", "bytes */1 6",
        "bytes */1_6", "bytes 0-15/16", " bytes */16", "Bytes */16", "bytes*/16",
        "bytes */18446744073709551616", "bytes */99999999999999999999", "bytes */++1",
        "bytes */\u{661}",
    ] {
        assert_eq!(unsatisfiable_range_total(Some(text)), None, "{}", text);
    }
    assert_eq!(unsatisfiable_range_total(None), None);
}

#[test]
fn what_is_written_in_decimal_is_read_back() {
    for n in [0, 1, 9, 10, 16, 99, 100, 416, 4294967296, 18446744073709551615] {
        let text = format!("bytes */{}", decimal_text(n));
        assert_eq!(decimal_text(n), n.to_string());
        assert_eq!(unsatisfiable_range_total(Some(&text)), Some(n));
    }
}

#[test]
fn white_space_is_that_of_unicode() {
    for code in 0..=0x10ffff {
        if let Some(c) = char::from_u32(code) {
            assert_eq!(is_white_space(c), c.is_whitespace(), "{}", code);
        }
    }
}

#[test]
fn parts_of_a_text_are_trimmed_and_parsed() {
    let chars = chars_of("x 42 y");
    assert_eq!(chars, vec!['x', ' ', '4', '2', ' ', 'y']);
    assert_eq!(trimmed_bounds(&chars, 1, 5), (2, 4));
    assert_eq!(trimmed_bounds(&chars, 1, 2), (2, 2));
    assert_eq!(parse_u64(&chars, 2, 4), Some(42));
    assert_eq!(parse_u64(&chars, 2, 5), None);
    assert_eq!(parse_u64(&chars, 2, 2), None);
}
