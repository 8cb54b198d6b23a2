use nyaterm::dynamic_title::{
    sanitize_dynamic_title, truncate_grapheme_safe, MAX_DYNAMIC_TITLE_CODE_POINTS,
};

#[test]
fn sanitizes_controls_bidi_and_whitespace() {
    assert_eq!(
        sanitize_dynamic_title("  admin\t\u{202e}txt.exe\r\n host\u{0007}  "),
        Some("admin txt.exe host".to_string())
    );
}

#[test]
fn normalizes_to_nfc_and_rejects_empty_titles() {
    assert_eq!(
        sanitize_dynamic_title("Cafe\u{301}"),
        Some("Café".to_string())
    );
    assert_eq!(sanitize_dynamic_title("\u{202e}\n\t"), None);
}

#[test]
fn truncates_without_splitting_a_grapheme() {
    let family = "👨‍👩‍👧‍👦";
    let title = format!("{}{}tail", "a".repeat(247), family);
    let sanitized = sanitize_dynamic_title(&title).unwrap();

    assert!(sanitized.ends_with('…'));
    assert!(sanitized.contains(family));
    assert!(!sanitized.contains("tail"));
    assert!(sanitized.chars().count() <= MAX_DYNAMIC_TITLE_CODE_POINTS);
}

#[test]
fn sanitized_titles_stay_within_the_limit_and_clean() {
    let title = format!("x{}", " \u{85}y\u{2066}".repeat(400));
    let sanitized = sanitize_dynamic_title(&title).unwrap();
    assert_eq!(sanitized.chars().count(), MAX_DYNAMIC_TITLE_CODE_POINTS);
    assert!(sanitized.starts_with("x y y"));
    assert!(!sanitized.contains("  "));
    assert!(!sanitized.contains('\u{85}'));
    assert!(!sanitized.contains('\u{2066}'));
}

#[test]
fn truncation_keeps_short_titles_and_handles_a_zero_limit() {
    assert_eq!(truncate_grapheme_safe("abc", 3), "abc");
    assert_eq!(truncate_grapheme_safe("abcd", 3), "ab…");
    assert_eq!(truncate_grapheme_safe("abcd", 0), "");
    assert_eq!(truncate_grapheme_safe("abcd", 1), "…");
    // A combining mark stays with its base letter: "e\u{301}" is one cluster.
    assert_eq!(truncate_grapheme_safe("ae\u{301}bc", 3), "a…");
}

#[test]
fn collapsed_inner_whitespace_becomes_one_space() {
    assert_eq!(
        sanitize_dynamic_title("a\u{3000}\u{2028} \tb"),
        Some("a b".to_string())
    );
    assert_eq!(sanitize_dynamic_title("\u{7f}\u{9f}"), None);
}
