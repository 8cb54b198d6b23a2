use nyaterm::editor_buffer::{
    crlf_to_lf, key_command, EditorBuffer, EditorCommand, EditorEffect, UNDO_LIMIT,
};
use nyaterm::text_editor::MouseButton;

fn editor(content: &str) -> EditorBuffer {
    EditorBuffer::new(
        "tab-1".to_string(),
        content.to_string(),
        false,
        false,
        String::new(),
        0,
    )
}

fn place(buffer: &mut EditorBuffer, anchor: usize, head: usize) {
    buffer.move_cursor(anchor, false);
    buffer.move_cursor(head, true);
}

#[test]
fn buffer_starts_at_the_end_of_the_tab_text() {
    let b = editor("abc\ndef");
    assert_eq!((b.anchor, b.head), (7, 7));
    assert!(!b.read_only);
    assert!(b.undo_stack.is_empty() && b.redo_stack.is_empty());
    let locked = EditorBuffer::new("t".to_string(), "x".to_string(), true, false, String::new(), 0);
    assert!(locked.read_only);
    let preview = EditorBuffer::new_read_only("p".to_string(), "xyz".to_string());
    assert!(preview.read_only);
    assert_eq!((preview.anchor, preview.head), (0, 0));
}

#[test]
fn buffer_replace_moves_cursor_after_new_text_and_undo_restores() {
    let mut b = editor("hello world");
    place(&mut b, 0, 5);
    assert_eq!(b.replace_byte_range(0..5, "bye", true), EditorEffect::ContentChanged);
    assert_eq!(b.content, "bye world");
    assert_eq!((b.anchor, b.head), (3, 3));
    assert_eq!(b.undo(), EditorEffect::ContentChanged);
    assert_eq!(b.content, "hello world");
    assert_eq!((b.anchor, b.head), (0, 5));
    assert_eq!(b.redo(), EditorEffect::ContentChanged);
    assert_eq!(b.content, "bye world");
    assert_eq!((b.anchor, b.head), (3, 3));
    assert_eq!(b.redo(), EditorEffect::Unchanged);
}

#[test]
fn buffer_replace_snaps_ranges_to_character_boundaries() {
    let mut b = editor("a你b");
    b.replace_byte_range(2..9, "X", true);
    assert_eq!(b.content, "aX");
    assert_eq!(b.head, 2);
    let mut c = editor("abc");
    c.replace_byte_range(2..1, "-", false);
    assert_eq!(c.content, "ab-c");
    assert!(c.undo_stack.is_empty());
}

#[test]
fn buffer_undo_history_keeps_the_latest_edits() {
    let mut b = editor("");
    for _ in 0..UNDO_LIMIT + 5 {
        let end = b.content.len();
        b.replace_byte_range(end..end, "x", true);
    }
    assert_eq!(b.undo_stack.len(), UNDO_LIMIT);
    let mut undone = 0;
    while b.undo() == EditorEffect::ContentChanged {
        undone += 1;
    }
    assert_eq!(undone, UNDO_LIMIT);
    assert_eq!(b.content.len(), 5);
}

#[test]
fn buffer_read_only_text_is_never_edited() {
    let mut b = EditorBuffer::new_read_only("p".to_string(), "abc".to_string());
    assert_eq!(b.replace_byte_range(0..1, "z", true), EditorEffect::Unchanged);
    assert_eq!(b.replace_text_in_range(None, "q"), EditorEffect::Unchanged);
    assert_eq!(b.paste("zz"), EditorEffect::Unchanged);
    assert_eq!(b.undo(), EditorEffect::Unchanged);
    assert_eq!(b.content, "abc");
    assert_eq!(key_command("backspace", false, false, false, true), None);
    assert_eq!(key_command("x", true, false, false, true), None);
    assert_eq!(key_command("c", true, false, false, true), Some(EditorCommand::Copy));
}

#[test]
fn buffer_arrows_collapse_selection_or_step_by_character_and_word() {
    let mut b = editor("ab 你好 cd");
    place(&mut b, 1, 6);
    b.move_left(false, false);
    assert_eq!((b.anchor, b.head), (1, 1));
    place(&mut b, 1, 6);
    b.move_right(false, false);
    assert_eq!((b.anchor, b.head), (6, 6));
    b.move_right(false, false);
    assert_eq!(b.head, 9);
    b.move_left(true, false);
    assert_eq!((b.anchor, b.head), (9, 6));
    b.move_cursor(0, false);
    b.move_right(false, true);
    assert_eq!(b.head, 3);
    b.move_right(false, true);
    assert_eq!(b.head, 10);
    b.move_left(false, true);
    assert_eq!(b.head, 3);
}

#[test]
fn buffer_vertical_moves_keep_the_column() {
    let mut b = editor("abcdef\nxy\n1234");
    b.move_cursor(5, false);
    b.move_vertical(1, false);
    assert_eq!(b.head, 9);
    b.move_vertical(1, false);
    assert_eq!(b.head, 12);
    b.move_vertical(1, false);
    assert_eq!(b.head, 12);
    b.move_vertical(-1, false);
    assert_eq!(b.head, 9);
    b.move_vertical(-1, true);
    assert_eq!((b.anchor, b.head), (9, 2));
    b.move_vertical(-1, false);
    assert_eq!((b.anchor, b.head), (2, 2));
}

#[test]
fn buffer_double_and_triple_clicks_select_words_and_lines() {
    let mut b = editor("hello, world\nnext");
    assert_eq!(b.mouse_down(Some(2), 2, false), EditorEffect::CursorMoved);
    assert_eq!((b.anchor, b.head), (0, 5));
    assert!(!b.selecting);
    b.mouse_down(Some(2), 3, false);
    assert_eq!((b.anchor, b.head), (0, 13));
    b.mouse_down(Some(14), 3, false);
    assert_eq!((b.anchor, b.head), (13, 17));
    b.mouse_down(Some(1), 1, false);
    assert!(b.selecting);
    assert_eq!(b.mouse_move(Some(4), Some(MouseButton::Left)), EditorEffect::CursorMoved);
    assert_eq!((b.anchor, b.head), (1, 4));
    assert_eq!(b.mouse_move(Some(6), None), EditorEffect::Unchanged);
    assert!(!b.selecting);
    assert_eq!(b.head, 4);
    b.mouse_down(None, 1, true);
    assert_eq!((b.anchor, b.head), (1, 17));
    b.mouse_up();
    assert!(!b.selecting);
}

#[test]
fn buffer_enter_keeps_indentation_and_opens_blocks() {
    let mut b = editor("    let x = 1;");
    b.insert_newline();
    assert_eq!(b.content, "    let x = 1;\n    ");
    assert_eq!(b.head, 19);
    let mut c = editor("  f() {}");
    c.move_cursor(7, false);
    c.insert_newline();
    assert_eq!(c.content, "  f() {\n      \n  }");
    assert_eq!((c.anchor, c.head), (14, 14));
    assert_eq!(c.undo(), EditorEffect::ContentChanged);
    assert_eq!(c.content, "  f() {}");
}

#[test]
fn buffer_tab_indents_and_shift_tab_outdents_whole_lines() {
    let mut b = editor("a\nb\nc");
    b.move_cursor(0, false);
    assert_eq!(b.indent_selection(false), EditorEffect::ContentChanged);
    assert_eq!(b.content, "    a\nb\nc");
    assert_eq!(b.head, 4);
    place(&mut b, 1, 8);
    b.indent_selection(false);
    assert_eq!(b.content, "        a\n    b\nc");
    assert_eq!((b.anchor, b.head), (0, 15));
    b.indent_selection(true);
    assert_eq!(b.content, "    a\nb\nc");
    let mut t = editor("\tx\n  y\nz");
    place(&mut t, 0, 8);
    assert_eq!(t.indent_selection(true), EditorEffect::ContentChanged);
    assert_eq!(t.content, "x\ny\nz");
    assert_eq!(t.indent_selection(true), EditorEffect::Unchanged);
    assert_eq!(t.content, "x\ny\nz");
}

#[test]
fn buffer_typing_pairs_brackets_and_steps_over_closers() {
    let mut b = editor("f");
    b.replace_text_in_range(None, "(");
    assert_eq!(b.content, "f()");
    assert_eq!(b.head, 2);
    assert_eq!(b.replace_text_in_range(None, ")"), EditorEffect::CursorMoved);
    assert_eq!(b.content, "f()");
    assert_eq!(b.head, 3);
    b.replace_text_in_range(None, "\"");
    assert_eq!(b.content, "f()\"\"");
    let mut w = editor("don");
    w.replace_text_in_range(None, "'");
    assert_eq!(w.content, "don'");
    w.replace_text_in_range(None, "t");
    assert_eq!(w.content, "don't");
}

#[test]
fn buffer_input_method_composes_then_commits() {
    let mut b = editor("ab");
    b.move_cursor(1, false);
    b.replace_and_mark_text_in_range(None, "ni", Some(1..2));
    assert_eq!(b.content, "anib");
    assert_eq!(b.marked_range, Some(1..3));
    assert_eq!((b.anchor, b.head), (2, 3));
    assert_eq!(b.marked_text_range(), Some(1..3));
    b.replace_text_in_range(None, "你");
    assert_eq!(b.content, "a你b");
    assert_eq!(b.marked_range, None);
    assert_eq!(b.head, 4);
    assert_eq!(b.undo_stack.len(), 1);
    b.undo();
    assert_eq!(b.content, "ab");
}

#[test]
fn buffer_converts_between_utf16_and_bytes() {
    let b = editor("a🙂你");
    assert_eq!(b.offset_to_utf16(5), 3);
    assert_eq!(b.offset_to_utf16(3), 1);
    assert_eq!(b.offset_from_utf16(3), 5);
    assert_eq!(b.range_to_utf16(&(1..8)), 1..4);
    let mut actual = None;
    assert_eq!(b.text_for_range(1..3, &mut actual), Some("🙂".to_string()));
    assert_eq!(actual, Some(1..3));
    assert_eq!(b.selected_text_range(), (4..4, false));
}

#[test]
fn buffer_search_selects_the_active_match() {
    let mut b = editor("aaa aaa aaa");
    assert_eq!(b.sync_from_tab("aaa aaa aaa", false, false, "aa", 1), EditorEffect::Redraw);
    assert_eq!((b.anchor, b.head), (4, 6));
    b.sync_from_tab("aaa aaa aaa", false, false, "aa", 9);
    assert_eq!((b.anchor, b.head), (4, 6));
    b.sync_from_tab("aaa aaa aaa", false, false, "", 9);
    assert_eq!((b.anchor, b.head), (6, 6));
    assert_eq!(b.sync_from_tab("aaa aaa aaa", false, false, "", 9), EditorEffect::Unchanged);
    assert_eq!(b.sync_from_tab("aaa aaa aaa", true, false, "", 9), EditorEffect::Redraw);
    assert!(b.read_only);
    assert_eq!(b.sync_from_tab("x你", false, false, "", 9), EditorEffect::TextReloaded);
    assert_eq!((b.anchor, b.head), (4, 4));
    assert!(b.undo_stack.is_empty());
}

#[test]
fn buffer_preview_resets_only_on_new_content() {
    let mut b = EditorBuffer::new_read_only("p".to_string(), "abc".to_string());
    b.select_all();
    assert_eq!(b.sync_read_only("p", "abc"), EditorEffect::Unchanged);
    assert_eq!((b.anchor, b.head), (0, 3));
    assert_eq!(b.sync_read_only("q", "abc"), EditorEffect::TextReloaded);
    assert_eq!((b.anchor, b.head), (0, 0));
    assert_eq!(b.tab_id, "q");
}

#[test]
fn buffer_cursor_position_counts_lines_and_characters() {
    let mut b = editor("ab\n你好x");
    assert_eq!(b.cursor_position(), (2, 4));
    b.move_cursor(2, false);
    assert_eq!(b.cursor_position(), (1, 3));
    b.move_cursor(0, false);
    assert_eq!(b.cursor_position(), (1, 1));
}

#[test]
fn buffer_clipboard_operations() {
    let mut b = editor("one two");
    assert_eq!(b.selected_text(), None);
    place(&mut b, 4, 7);
    assert_eq!(b.selected_text(), Some("two".to_string()));
    let (cut, effect) = b.cut_selection();
    assert_eq!(cut, Some("two".to_string()));
    assert_eq!(effect, EditorEffect::ContentChanged);
    assert_eq!(b.content, "one ");
    b.paste("a\r\nb\rc");
    assert_eq!(b.content, "one a\nb\rc");
    assert_eq!(crlf_to_lf("\r\n\r\r\n"), "\n\r\n");
}

#[test]
fn buffer_keys_map_to_commands() {
    assert_eq!(key_command("a", true, false, false, false), Some(EditorCommand::SelectAll));
    assert_eq!(key_command("z", true, false, true, false), Some(EditorCommand::Redo));
    assert_eq!(key_command("z", true, false, false, false), Some(EditorCommand::Undo));
    assert_eq!(key_command("y", true, false, false, false), Some(EditorCommand::Redo));
    assert_eq!(key_command("q", true, false, false, false), None);
    assert_eq!(
        key_command("left", true, false, true, false),
        Some(EditorCommand::MoveLeft { extend: true, by_word: true })
    );
    assert_eq!(
        key_command("left", true, true, false, false),
        Some(EditorCommand::MoveLeft { extend: false, by_word: false })
    );
    assert_eq!(
        key_command("tab", false, false, true, false),
        Some(EditorCommand::Indent { outdent: true })
    );
    assert_eq!(key_command("enter", false, false, false, false), Some(EditorCommand::Enter));
    assert_eq!(key_command("a", false, false, false, false), None);
}

#[test]
fn buffer_backspace_and_delete_remove_whole_characters() {
    let mut b = editor("a你b");
    b.move_cursor(4, false);
    assert_eq!(b.apply(EditorCommand::Backspace), EditorEffect::ContentChanged);
    assert_eq!(b.content, "ab");
    assert_eq!(b.head, 1);
    assert_eq!(b.apply(EditorCommand::Delete), EditorEffect::ContentChanged);
    assert_eq!(b.content, "a");
    assert_eq!(b.apply(EditorCommand::Delete), EditorEffect::Unchanged);
    b.move_cursor(0, false);
    assert_eq!(b.apply(EditorCommand::Backspace), EditorEffect::Unchanged);
    assert_eq!(b.apply(EditorCommand::LineEnd { extend: true }), EditorEffect::CursorMoved);
    assert_eq!((b.anchor, b.head), (0, 1));
    assert_eq!(b.apply(EditorCommand::Copy), EditorEffect::Unchanged);
}

#[test]
fn unmarking_keeps_the_composed_text() {
    let mut b = editor("ab");
    b.move_cursor(1, false);
    b.replace_and_mark_text_in_range(None, "ni", Some(2..2));
    assert_eq!(b.marked_text_range(), Some(1..3));
    b.unmark_text();
    assert_eq!(b.marked_text_range(), None);
    assert_eq!(b.content, "anib");
}
