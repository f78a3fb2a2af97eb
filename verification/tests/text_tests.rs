use tailsnip::devices::DeviceTable;
use tailsnip::text::{
    chars_of, decimal_string, is_blank_str, str_eq_ignore_ascii_case, text_equal, text_less,
    trim_text,
};

#[test]
fn decimal_rendering() {
    assert_eq!(decimal_string(0), "0");
    assert_eq!(decimal_string(7), "7");
    assert_eq!(decimal_string(10), "10");
    assert_eq!(decimal_string(3947), "3947");
    assert_eq!(decimal_string(u64::MAX), u64::MAX.to_string());
}

#[test]
fn blank_and_trim_follow_unicode_whitespace() {
    assert!(is_blank_str(""));
    assert!(is_blank_str(" \t\n\r\u{a0}\u{3000}"));
    assert!(!is_blank_str(" x "));
    assert!(!is_blank_str("secret-token"));
    assert!(is_blank_str("\u{85}\u{1680}\u{2000}\u{200a}\u{2028}\u{2029}\u{202f}\u{205f}\u{b}\u{c}"));
    assert!(!is_blank_str("\u{200b}"));
    for c in ['\t', '\n', ' ', '\u{a0}', '\u{3000}', 'a', '\u{200b}', '\u{180e}', '\u{8d8a}'] {
        assert_eq!(is_blank_str(&c.to_string()), c.is_whitespace());
    }
    assert_eq!(trim_text("  hi there \n"), "hi there");
    assert_eq!(trim_text("\u{2003}x\u{2003}"), "x");
    assert_eq!(trim_text("   "), "");
    assert_eq!(trim_text("none"), "none");
}

#[test]
fn ascii_case_folding() {
    assert!(str_eq_ignore_ascii_case("HtTp", "http"));
    assert!(!str_eq_ignore_ascii_case("http", "https"));
    assert!(!str_eq_ignore_ascii_case("É", "é"));
}

#[test]
fn text_order_is_code_point_order() {
    assert!(text_less("air", "desktop"));
    assert!(text_less("a", "ab"));
    assert!(!text_less("ab", "a"));
    assert!(!text_less("same", "same"));
    assert!(text_less("Z", "a"));
    assert!(text_equal("é", "é"));
    assert!(!text_equal("e", "é"));
    assert_eq!(chars_of("héllo"), vec!['h', 'é', 'l', 'l', 'o']);
}

#[test]
fn table_reads_back_what_was_written() {
    let mut table = DeviceTable::new();
    assert!(table.is_empty());
    table.insert("macbook".into(), "100.64.0.10:3947".into());
    table.insert("air".into(), "100.64.0.12:3947".into());
    table.insert("desktop".into(), "100.64.0.11:3947".into());
    table.insert("air".into(), "100.64.0.13:3947".into());
    assert!(!table.is_empty());
    assert_eq!(table.get("air").unwrap(), "100.64.0.13:3947");
    assert_eq!(table.get("macbook").unwrap(), "100.64.0.10:3947");
    assert!(table.get("laptop").is_none());
    assert_eq!(table.len(), 3);
    let copy = table.duplicate();
    assert_eq!(copy.entries(), table.entries());
    let aliases: Vec<String> = table.entries().into_iter().map(|e| e.alias).collect();
    assert_eq!(aliases, ["air", "desktop", "macbook"]);
}

#[test]
fn table_listing_does_not_depend_on_insertion_order() {
    let pairs = [
        ("macbook", "100.64.0.10:3947"),
        ("air", "100.64.0.12:3947"),
        ("desktop", "100.64.0.11:3947"),
    ];
    let mut forward = DeviceTable::new();
    for (alias, address) in pairs {
        forward.insert(alias.into(), address.into());
    }
    let mut backward = DeviceTable::new();
    for (alias, address) in pairs.iter().rev() {
        backward.insert(alias.to_string(), address.to_string());
    }
    assert_eq!(forward.entries(), backward.entries());
}
