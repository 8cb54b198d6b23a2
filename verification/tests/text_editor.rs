use nyaterm::text_editor::{
    byte_offset_for_char_column, is_close_bracket, is_word_char, line_end,
    line_number_visual_rows, line_start, matching_bracket_ranges, matching_close_bracket,
    nearest_char_boundary, next_char_boundary, next_word_boundary, previous_char_boundary,
    previous_word_boundary, remote_text_selection_drag_active, should_auto_close, utf16_to_utf8,
    word_bounds, MouseButton, NavigationDirection,
};

#[test]
fn editor_selection_drag_stops_when_left_button_is_no_longer_pressed() {
    assert!(remote_text_selection_drag_active(
        true,
        Some(MouseButton::Left)
    ));
    assert!(!remote_text_selection_drag_active(true, None));
    assert!(!remote_text_selection_drag_active(
        true,
        Some(MouseButton::Right)
    ));
    assert!(!remote_text_selection_drag_active(
        false,
        Some(MouseButton::Left)
    ));
}

#[test]
fn editor_boundaries_preserve_utf8_characters() {
    let content = "a你🙂b";
    assert_eq!(next_char_boundary(content, 1), 4);
    assert_eq!(next_char_boundary(content, 4), 8);
    assert_eq!(previous_char_boundary(content, 8), 4);
    assert_eq!(nearest_char_boundary(content, 7), 4);
}

#[test]
fn editor_line_navigation_clamps_to_target_line() {
    let content = "abcdef\nxy\n1234";
    assert_eq!(line_start(content, 5), 0);
    assert_eq!(line_start(content, 9), 7);
    assert_eq!(line_end(content, 7), 9);
    assert_eq!(byte_offset_for_char_column(content, 7, 9, 5), 9);
}

#[test]
fn editor_word_bounds_group_words_and_punctuation() {
    assert_eq!(word_bounds("hello, world", 2), (0, 5));
    assert_eq!(word_bounds("hello, world", 5), (5, 6));
    assert_eq!(word_bounds("hello, world", 8), (7, 12));
}

#[test]
fn editor_utf16_offsets_round_trip_surrogate_pairs() {
    let content = "a🙂你";
    assert_eq!(utf16_to_utf8(content, 1), 1);
    assert_eq!(utf16_to_utf8(content, 3), 5);
    assert_eq!(utf16_to_utf8(content, 4), content.len());
}

#[test]
fn editor_matches_nested_brackets_from_either_side() {
    let content = "fn main() { call([1, 2]); }";
    assert_eq!(matching_bracket_ranges(content, 10), Some((10..11, 26..27)));
    assert_eq!(matching_bracket_ranges(content, 28), Some((10..11, 26..27)));
    assert_eq!(matching_bracket_ranges(content, 18), Some((17..18, 22..23)));
}

#[test]
fn editor_bracket_pair_helpers_cover_supported_pairs() {
    assert_eq!(matching_close_bracket("("), Some(')'));
    assert_eq!(matching_close_bracket("\""), Some('"'));
    assert!(is_close_bracket("}"));
    assert!(!is_close_bracket("("));
    assert!(should_auto_close("value = ", 8, "\""));
    assert!(!should_auto_close("isn't", 3, "'"));
}

#[test]
fn editor_line_numbers_follow_soft_wrapped_rows() {
    assert_eq!(
        line_number_visual_rows("abcdef\nxy\n", "abc\ndef\nxy\n"),
        vec![0, 2, 3]
    );
    assert_eq!(line_number_visual_rows("a\n\nb", "a\n\nb"), vec![0, 1, 2]);
}

#[test]
fn editor_boundaries_clamp_past_the_end_and_at_the_start() {
    let content = "a你🙂b";
    assert_eq!(nearest_char_boundary(content, 100), content.len());
    assert_eq!(next_char_boundary(content, 100), content.len());
    assert_eq!(previous_char_boundary(content, 0), 0);
    assert_eq!(previous_char_boundary(content, 2), 0);
    assert_eq!(nearest_char_boundary("", 3), 0);
}

#[test]
fn editor_every_cursor_step_lands_between_characters() {
    let content = "x 你好, 🙂ab\ncd";
    for offset in 0..=content.len() + 2 {
        for position in [
            nearest_char_boundary(content, offset),
            previous_char_boundary(content, offset),
            next_char_boundary(content, offset),
            previous_word_boundary(content, offset),
            next_word_boundary(content, offset),
            line_start(content, offset),
            line_end(content, offset),
            word_bounds(content, offset).0,
            word_bounds(content, offset).1,
            utf16_to_utf8(content, offset),
        ] {
            assert!(content.is_char_boundary(position), "{offset} -> {position}");
        }
        let here = nearest_char_boundary(content, offset);
        assert!(previous_char_boundary(content, offset) <= here);
        assert!(here <= next_char_boundary(content, offset));
        assert!(line_start(content, offset) <= here && here <= line_end(content, offset));
        let (start, end) = word_bounds(content, offset);
        assert!(start <= here && here <= end);
    }
}

#[test]
fn editor_word_moves_skip_runs_and_white_space() {
    let content = "foo_bar  = baz;";
    assert_eq!(next_word_boundary(content, 0), 9);
    assert_eq!(next_word_boundary(content, 9), 11);
    assert_eq!(next_word_boundary(content, 11), 14);
    assert_eq!(next_word_boundary(content, 14), 15);
    assert_eq!(previous_word_boundary(content, 15), 14);
    assert_eq!(previous_word_boundary(content, 14), 11);
    assert_eq!(previous_word_boundary(content, 11), 9);
    assert_eq!(previous_word_boundary(content, 9), 0);
    assert_eq!(previous_word_boundary(content, 0), 0);
}

#[test]
fn editor_word_characters_include_underscore_and_letters() {
    assert!(is_word_char('_'));
    assert!(is_word_char('a'));
    assert!(is_word_char('你'));
    assert!(is_word_char('7'));
    assert!(!is_word_char(','));
    assert!(!is_word_char(' '));
}

#[test]
fn editor_word_bounds_at_line_breaks_spaces_and_ends() {
    assert_eq!(word_bounds("", 0), (0, 0));
    assert_eq!(word_bounds("ab\ncd", 2), (2, 3));
    assert_eq!(word_bounds("ab  \n", 3), (2, 4));
    assert_eq!(word_bounds("abc", 3), (0, 3));
    assert_eq!(word_bounds("a->b", 2), (1, 3));
}

#[test]
fn editor_brackets_without_partner_or_next_to_nothing() {
    assert_eq!(matching_bracket_ranges("(()", 0), None);
    assert_eq!(matching_bracket_ranges("abc", 1), None);
    assert_eq!(matching_bracket_ranges("", 0), None);
    assert_eq!(matching_bracket_ranges("[x]", 3), Some((0..1, 2..3)));
    assert_eq!(matching_bracket_ranges("(你)", 1), Some((0..1, 4..5)));
}

#[test]
fn editor_auto_close_rules_for_quotes_and_brackets() {
    assert!(should_auto_close("word", 2, "("));
    assert!(should_auto_close("", 0, "'"));
    assert!(should_auto_close("f()", 2, "\""));
    assert!(!should_auto_close("ab", 2, "\""));
    assert!(!should_auto_close("a_", 2, "'"));
    assert!(!should_auto_close(" x", 1, "'"));
    assert_eq!(matching_close_bracket("x"), None);
    assert_eq!(matching_close_bracket("(("), None);
    assert_eq!(matching_close_bracket("{"), Some('}'));
    assert!(!is_close_bracket(")]"));
}

#[test]
fn editor_columns_and_utf16_offsets_past_the_end() {
    let content = "abcdef\nxy\n1234";
    assert_eq!(byte_offset_for_char_column(content, 0, 6, 3), 3);
    assert_eq!(byte_offset_for_char_column(content, 10, 14, 0), 10);
    assert_eq!(utf16_to_utf8("a🙂你", 2), 5);
    assert_eq!(utf16_to_utf8("a🙂你", 0), 0);
    assert_eq!(utf16_to_utf8("a🙂你", 99), "a🙂你".len());
}

#[test]
fn editor_line_numbers_for_unwrapped_and_overflowing_text() {
    assert_eq!(line_number_visual_rows("ab\ncd", "ab\ncd"), vec![0, 1]);
    assert_eq!(line_number_visual_rows("abcdef", "ab"), vec![0]);
    assert_eq!(line_number_visual_rows("abc\nd", "ab"), vec![0, 2]);
    assert_eq!(line_number_visual_rows("", ""), vec![0]);
}

#[test]
fn editor_side_buttons_do_not_drag() {
    assert!(!remote_text_selection_drag_active(
        true,
        Some(MouseButton::Navigate(NavigationDirection::Back))
    ));
    assert!(!remote_text_selection_drag_active(
        true,
        Some(MouseButton::Middle)
    ));
}
