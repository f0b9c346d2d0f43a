use editor_panels::text::{
    characters, concat_all, decimal_string, is_whitespace, same_text, starts_with, trim,
};

#[test]
fn whitespace_is_that_of_std() {
    for n in 0..=0x10ffff_u32 {
        if let Some(c) = char::from_u32(n) {
            assert_eq!(is_whitespace(c), c.is_whitespace(), "{:x}", n);
        }
    }
}

#[test]
fn trim_is_that_of_std() {
    for s in [
        "",
        " ",
        "a",
        "  a b  ",
        "\t\n a \r\n",
        "\u{3000}wide\u{2003}",
        "\u{200b}zero width\u{200b}",
        "é ",
        " \u{a0}\u{85}",
    ] {
        assert_eq!(trim(s), s.trim());
    }
}

#[test]
fn trimmed_text_is_stable() {
    let once = trim("  what is this ?\n");
    assert_eq!(once, "what is this ?");
    assert_eq!(trim(&once), once);
    assert_eq!(trim(" \t "), "");
}

#[test]
fn decimal_is_that_of_std() {
    for n in [0_usize, 1, 9, 10, 11, 99, 100, 101, 2048, 1_000_000, usize::MAX] {
        assert_eq!(decimal_string(n), n.to_string());
    }
}

#[test]
fn characters_in_order() {
    assert_eq!(characters("aé…"), vec!['a', 'é', '…']);
    assert!(characters("").is_empty());
}

#[test]
fn prefixes() {
    assert!(starts_with("/clear", "/c"));
    assert!(starts_with("/clear", ""));
    assert!(starts_with("é", "é"));
    assert!(!starts_with("/c", "/clear"));
    assert!(!starts_with("/clear", "c"));
}

#[test]
fn equality() {
    assert!(same_text("", ""));
    assert!(same_text("enter", "enter"));
    assert!(!same_text("enter", "Enter"));
    assert!(!same_text("enter", "ente"));
    assert!(!same_text("ente", "enter"));
}

#[test]
fn concatenation() {
    let pieces = vec!["Hel".to_string(), "".to_string(), "lo…".to_string()];
    assert_eq!(concat_all(&pieces), "Hello…");
    assert_eq!(concat_all(&Vec::new()), "");
}
