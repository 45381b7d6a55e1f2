use votor_measurement_harness::text::is_blank;

#[test]
fn blank_lines_are_white_space_only() {
    assert!(is_blank(""));
    assert!(is_blank("   \t\r"));
    assert!(is_blank("\u{3000}\u{a0}"));
    assert!(!is_blank(" {} "));
    assert!(!is_blank("x"));
    assert!(!is_blank("\u{200b}"));
}

#[test]
fn blank_agrees_with_trim() {
    for code in 0u32..0x3100 {
        if let Some(c) = char::from_u32(code) {
            let text = format!(" {c}\t");
            assert_eq!(is_blank(&text), text.trim().is_empty(), "{code:#x}");
        }
    }
}
