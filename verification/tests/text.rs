use mpris_bridge::text::{blank, push_decimal};

fn decimal_text(n: u64) -> String {
    let mut out = String::new();
    push_decimal(&mut out, n);
    out
}

#[test]
fn decimal_digits_are_appended() {
    assert_eq!(decimal_text(0), "0");
    assert_eq!(decimal_text(9), "9");
    assert_eq!(decimal_text(10), "10");
    assert_eq!(decimal_text(12345), "12345");
    assert_eq!(decimal_text(u64::MAX), "18446744073709551615");
    let mut out = String::from("n=");
    push_decimal(&mut out, 700);
    assert_eq!(out, "n=700");
}

#[test]
fn blank_text_is_white_space_only() {
    assert!(blank(""));
    assert!(blank(" \t\r\n"));
    assert!(blank("\u{3000}\u{a0}"));
    assert!(!blank(" a "));
    assert!(!blank("\u{200b}"));
    assert!(!blank("\u{feff}"));
}

#[test]
fn white_space_is_the_unicode_property() {
    let listed = |c: char| {
        matches!(
            c,
            '\u{9}'..='\u{d}'
                | ' '
                | '\u{85}'
                | '\u{a0}'
                | '\u{1680}'
                | '\u{2000}'..='\u{200a}'
                | '\u{2028}'
                | '\u{2029}'
                | '\u{202f}'
                | '\u{205f}'
                | '\u{3000}'
        )
    };
    for c in '\0'..=char::MAX {
        let mut buffer = [0u8; 4];
        assert_eq!(blank(c.encode_utf8(&mut buffer)), listed(c));
    }
}
