use orion_eira_nexus::text::{decimal_string, push_hex_fixed, push_padded};
use orion_eira_nexus::terminal::push_confidence;

#[test]
fn decimal_numerals() {
    assert_eq!(decimal_string(0), "0");
    assert_eq!(decimal_string(7), "7");
    assert_eq!(decimal_string(10), "10");
    assert_eq!(decimal_string(11434), "11434");
    assert_eq!(decimal_string(u64::MAX), "18446744073709551615");
}

#[test]
fn hex_fixed_width() {
    let mut s = String::new();
    push_hex_fixed(&mut s, 0xabc, 5);
    assert_eq!(s, "00abc");
    let mut t = String::new();
    push_hex_fixed(&mut t, 0x12345, 3);
    assert_eq!(t, "345");
}

#[test]
fn padding_to_width() {
    let mut s = String::new();
    push_padded(&mut s, "ab", 4);
    push_padded(&mut s, "wider", 2);
    assert_eq!(s, "ab  wider");
}

#[test]
fn confidence_rounds_to_hundredths() {
    let cases = [(9200, "0.92"), (10000, "1.00"), (0, "0.00"), (8549, "0.85"), (8550, "0.85"), (12345, "1.23"), (1250, "0.12"), (6250, "0.62"), (1350, "0.14"), (9950, "0.99"), (8551, "0.86"), (1650, "0.17"), (1450, "0.14"), (50, "0.01"), (150, "0.01")];
    for (bp, text) in cases {
        let mut s = String::new();
        push_confidence(&mut s, bp);
        assert_eq!(s, text);
    }
}

#[test]
fn confidence_text_matches_two_decimal_formatting_of_the_double() {
    let mut bp: u32 = 0;
    while bp <= 30000 {
        let mut s = String::new();
        push_confidence(&mut s, bp);
        assert_eq!(s, format!("{:.2}", bp as f64 / 10000.0), "bp = {}", bp);
        bp += 1;
    }
    for bp in [u32::MAX, 4_000_000_050, 123_456_789, 1_000_050] {
        let mut s = String::new();
        push_confidence(&mut s, bp);
        assert_eq!(s, format!("{:.2}", bp as f64 / 10000.0), "bp = {}", bp);
    }
}
