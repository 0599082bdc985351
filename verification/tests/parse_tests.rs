use quantum_plot::parse::parse_i32;

#[test]
fn digits_are_read_as_a_level() {
    assert_eq!(Ok(0), parse_i32("0"));
    assert_eq!(Ok(7), parse_i32("7"));
    assert_eq!(Ok(10), parse_i32("10"));
    assert_eq!(Ok(7), parse_i32("007"));
    assert_eq!(Ok(4294967295), parse_i32("4294967295"));
}

#[test]
fn plus_sign_in_front_is_taken() {
    assert_eq!(Ok(12), parse_i32("+12"));
    assert_eq!(Ok(0), parse_i32("+0"));
}

#[test]
fn empty_text_is_refused() {
    assert_eq!(
        Err("Failed to parse u32: cannot parse integer from empty string".to_string()),
        parse_i32("")
    );
}

#[test]
fn text_with_anything_but_digits_is_refused() {
    let message = Err("Failed to parse u32: invalid digit found in string".to_string());
    assert_eq!(message, parse_i32("+"));
    assert_eq!(message, parse_i32("-"));
    assert_eq!(message, parse_i32("-1"));
    assert_eq!(message, parse_i32("1 "));
    assert_eq!(message, parse_i32(" 1"));
    assert_eq!(message, parse_i32("1_0"));
    assert_eq!(message, parse_i32("++1"));
    assert_eq!(message, parse_i32("1.0"));
    assert_eq!(message, parse_i32("٣"));
    assert_eq!(message, parse_i32("429496729x"));
    assert_eq!(message, parse_i32("x99999999999"));
}

#[test]
fn number_beyond_32_bits_is_refused() {
    let message = Err("Failed to parse u32: number too large to fit in target type".to_string());
    assert_eq!(message, parse_i32("4294967296"));
    assert_eq!(message, parse_i32("+99999999999"));
    assert_eq!(message, parse_i32("99999999990x"));
}

#[test]
fn reading_agrees_with_the_standard_parser() {
    for text in [
        "", "+", "-", "0", "+0", "-0", "12", "4294967295", "4294967296", "42949672950", "1a",
        "a1", "99999999999x", "429496729x", "00000000000000000001", " 5", "5 ", "+-5", "٣",
    ] {
        let expected = text.parse::<u32>().map_err(|e| format!("Failed to parse u32: {}", e));
        assert_eq!(expected, parse_i32(text), "for {:?}", text);
    }
}
