use nesting_engine::svg::expand_svg_viewbox;

fn bytes(s: &str) -> Vec<u8> {
    s.as_bytes().to_vec()
}

#[test]
fn test_viewbox_scenario() {
    // A declaration "0 0 100 50" with margin 10 becomes "-10 -10 120 70";
    // every other byte stays.
    let input = bytes("<svg viewBox=\"0 0 100 50\" width=\"5\"><rect/></svg>");
    let out = expand_svg_viewbox(&input, 10);
    assert_eq!(
        String::from_utf8(out).unwrap(),
        "<svg viewBox=\"-10 -10 120 70\" width=\"5\"><rect/></svg>"
    );
}

#[test]
fn test_no_viewbox_unchanged() {
    // Text with no viewport declaration is returned byte-for-byte unchanged.
    let input = bytes("<svg width=\"5\"><rect/></svg>");
    let out = expand_svg_viewbox(&input, 10);
    assert_eq!(out, input);
}

#[test]
fn test_malformed_number_unchanged() {
    let input = bytes("<svg viewBox=\"0 0 abc 50\"/>");
    let out = expand_svg_viewbox(&input, 10);
    assert_eq!(out, input);
}

#[test]
fn test_wrong_token_count_unchanged() {
    let three = bytes("<svg viewBox=\"0 0 100\"/>");
    assert_eq!(expand_svg_viewbox(&three, 10), three);
    let five = bytes("<svg viewBox=\"0 0 100 50 7\"/>");
    assert_eq!(expand_svg_viewbox(&five, 10), five);
}

#[test]
fn test_missing_closing_quote_unchanged() {
    let input = bytes("<svg viewBox=\"0 0 100 50");
    assert_eq!(expand_svg_viewbox(&input, 10), input);
}

#[test]
fn test_fractional_values() {
    // Fractions are shifted exactly and printed canonically: 0.5 - 1 = -0.5,
    // -2.25 - 1 = -3.25, 100.50 + 2 = 102.5, 7 + 2 = 9.
    let input = bytes("<svg viewBox=\"0.5 -2.25 100.50 7\"/>");
    let out = expand_svg_viewbox(&input, 1);
    assert_eq!(
        String::from_utf8(out).unwrap(),
        "<svg viewBox=\"-0.5 -3.25 102.5 9\"/>"
    );
}

#[test]
fn test_negative_margin() {
    let input = bytes("viewBox=\"0 0 100 50\"");
    let out = expand_svg_viewbox(&input, -10);
    assert_eq!(String::from_utf8(out).unwrap(), "viewBox=\"10 10 80 30\"");
}

#[test]
fn test_zero_margin_canonicalizes() {
    // The four numbers are reformatted even when the margin is zero:
    // trailing fraction zeros drop.
    let input = bytes("viewBox=\"0.50 -0.0 100 50\"");
    let out = expand_svg_viewbox(&input, 0);
    assert_eq!(String::from_utf8(out).unwrap(), "viewBox=\"0.5 0 100 50\"");
}

#[test]
fn test_extra_whitespace_between_numbers() {
    let input = bytes("viewBox=\"  0\t0   100  50 \" tail");
    let out = expand_svg_viewbox(&input, 10);
    assert_eq!(
        String::from_utf8(out).unwrap(),
        "viewBox=\"-10 -10 120 70\" tail"
    );
}

#[test]
fn test_first_declaration_only() {
    let input = bytes("a viewBox=\"0 0 10 10\" b viewBox=\"1 1 1 1\"");
    let out = expand_svg_viewbox(&input, 1);
    assert_eq!(
        String::from_utf8(out).unwrap(),
        "a viewBox=\"-1 -1 12 12\" b viewBox=\"1 1 1 1\""
    );
}

#[test]
fn test_too_many_digits_unchanged() {
    // More than 18 digits in one number does not parse; the input stands.
    let input = bytes("viewBox=\"1234567890123456789012 0 1 1\"");
    assert_eq!(expand_svg_viewbox(&input, 1), input);
}
