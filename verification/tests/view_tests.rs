use hecto::editorcommand::{Direction, EditorCommand};
use hecto::screen::{Position, Size};
use hecto::view::{EditorView, Location};

#[test]
fn render_with_zero_size_issues_no_draws() {
    let mut view = EditorView::new(Size { height: 0, width: 0 });
    view.load("ab\ncd");
    let rows = view.render();
    assert_eq!(rows.len(), 0);
}

#[test]
fn resize_to_zero_then_back_still_redraws() {
    let mut view = EditorView::new(Size { height: 2, width: 5 });
    view.load("ab\ncd");
    view.resize(Size { height: 0, width: 0 });
    let rows = view.render();
    assert_eq!(rows.len(), 0);
    view.resize(Size { height: 2, width: 5 });
    let rows = view.render();
    assert_eq!(rows, vec!["ab", "cd"]);
}

#[test]
fn render_shows_lines_and_placeholders() {
    let mut view = EditorView::new(Size { height: 3, width: 5 });
    view.load("ab\ncd");
    let rows = view.render();
    assert_eq!(rows, vec!["ab", "cd", "~"]);
}

#[test]
fn render_consumes_the_redraw_flag() {
    let mut view = EditorView::new(Size { height: 3, width: 5 });
    view.load("ab\ncd");
    let rows = view.render();
    assert_eq!(rows.len(), 3);
    let rows = view.render();
    assert_eq!(rows.len(), 0);
}

#[test]
fn render_clips_to_the_viewport_width() {
    let mut view = EditorView::new(Size { height: 1, width: 2 });
    view.load("abcdef");
    let rows = view.render();
    assert_eq!(rows, vec!["ab"]);
}

#[test]
fn empty_buffer_shows_welcome_banner() {
    let mut view = EditorView::new(Size { height: 9, width: 40 });
    let rows = view.render();
    assert_eq!(rows.len(), 9);
    assert_eq!(rows[3], "~         hecto editor -- version 0.1.0");
    assert_eq!(rows[0], "~");
    assert_eq!(rows[8], "~");
}

#[test]
fn narrow_viewport_shows_bare_tilde_instead_of_banner() {
    let mut view = EditorView::new(Size { height: 9, width: 10 });
    let rows = view.render();
    assert_eq!(rows[3], "~");
}

#[test]
fn moving_right_walks_clusters_then_wraps_to_next_line() {
    let mut view = EditorView::new(Size { height: 10, width: 10 });
    view.load("ab\ncd");
    view.handle_command(EditorCommand::Move(Direction::Right));
    assert_eq!(view.text_location, Location { grapheme_index: 1, line_index: 0 });
    view.handle_command(EditorCommand::Move(Direction::Right));
    assert_eq!(view.text_location, Location { grapheme_index: 2, line_index: 0 });
    view.handle_command(EditorCommand::Move(Direction::Right));
    assert_eq!(view.text_location, Location { grapheme_index: 0, line_index: 1 });
}

#[test]
fn moving_right_stops_at_document_end() {
    let mut view = EditorView::new(Size { height: 10, width: 10 });
    view.load("a");
    view.handle_command(EditorCommand::Move(Direction::End));
    view.handle_command(EditorCommand::Move(Direction::Right));
    assert_eq!(view.text_location, Location { grapheme_index: 1, line_index: 0 });
}

#[test]
fn moving_left_at_document_start_stays_put() {
    let mut view = EditorView::new(Size { height: 10, width: 10 });
    view.load("ab\ncd");
    view.handle_command(EditorCommand::Move(Direction::Left));
    assert_eq!(view.text_location, Location { grapheme_index: 0, line_index: 0 });
}

#[test]
fn moving_left_at_line_start_goes_to_end_of_previous_line() {
    let mut view = EditorView::new(Size { height: 10, width: 10 });
    view.load("ab\ncd");
    view.handle_command(EditorCommand::Move(Direction::Down));
    view.handle_command(EditorCommand::Move(Direction::Left));
    assert_eq!(view.text_location, Location { grapheme_index: 2, line_index: 0 });
}

#[test]
fn vertical_movement_clamps_the_grapheme_index() {
    let mut view = EditorView::new(Size { height: 10, width: 10 });
    view.load("abcd\nx");
    view.handle_command(EditorCommand::Move(Direction::End));
    assert_eq!(view.text_location, Location { grapheme_index: 4, line_index: 0 });
    view.handle_command(EditorCommand::Move(Direction::Down));
    assert_eq!(view.text_location, Location { grapheme_index: 1, line_index: 1 });
}

#[test]
fn home_and_end_jump_within_the_line() {
    let mut view = EditorView::new(Size { height: 10, width: 10 });
    view.load("abc");
    view.handle_command(EditorCommand::Move(Direction::End));
    assert_eq!(view.text_location, Location { grapheme_index: 3, line_index: 0 });
    view.handle_command(EditorCommand::Move(Direction::Home));
    assert_eq!(view.text_location, Location { grapheme_index: 0, line_index: 0 });
}

#[test]
fn page_movement_steps_by_viewport_height_minus_one() {
    let mut view = EditorView::new(Size { height: 3, width: 10 });
    view.load("a\nb\nc\nd\ne\nf");
    view.handle_command(EditorCommand::Move(Direction::PageDown));
    assert_eq!(view.text_location.line_index, 2);
    view.handle_command(EditorCommand::Move(Direction::PageUp));
    assert_eq!(view.text_location.line_index, 0);
}

#[test]
fn movement_on_empty_buffer_stays_at_origin() {
    let mut view = EditorView::new(Size { height: 5, width: 5 });
    for direction in [
        Direction::Up,
        Direction::Down,
        Direction::Left,
        Direction::Right,
        Direction::Home,
        Direction::End,
        Direction::PageUp,
        Direction::PageDown,
    ] {
        view.handle_command(EditorCommand::Move(direction));
        assert_eq!(view.text_location, Location { grapheme_index: 0, line_index: 0 });
    }
}

#[test]
fn scrolling_follows_the_cursor_and_settles() {
    let mut view = EditorView::new(Size { height: 2, width: 3 });
    view.load("a\nb\nc\nd");
    view.handle_command(EditorCommand::Move(Direction::Down));
    view.handle_command(EditorCommand::Move(Direction::Down));
    view.handle_command(EditorCommand::Move(Direction::Down));
    assert_eq!(view.scroll_offset, Position { col: 0, row: 2 });
    let before = view.scroll_offset;
    view.resize(Size { height: 2, width: 3 });
    assert_eq!(view.scroll_offset, before);
}

#[test]
fn crate_position_is_relative_to_the_scroll_offset() {
    let mut view = EditorView::new(Size { height: 2, width: 3 });
    view.load("a\nb\nc\nd");
    assert_eq!(view.crate_position(), Position { col: 0, row: 0 });
    view.handle_command(EditorCommand::Move(Direction::Down));
    view.handle_command(EditorCommand::Move(Direction::Down));
    assert_eq!(view.scroll_offset, Position { col: 0, row: 1 });
    assert_eq!(view.crate_position(), Position { col: 0, row: 1 });
}

#[test]
fn crate_position_counts_display_columns() {
    let mut view = EditorView::new(Size { height: 5, width: 10 });
    view.load("a\u{1f600}b");
    view.handle_command(EditorCommand::Move(Direction::Right));
    view.handle_command(EditorCommand::Move(Direction::Right));
    assert_eq!(view.crate_position(), Position { col: 3, row: 0 });
}

#[test]
fn inserting_moves_the_cursor_past_the_new_cluster() {
    let mut view = EditorView::new(Size { height: 5, width: 10 });
    view.load("ab");
    view.handle_command(EditorCommand::Move(Direction::Right));
    view.handle_command(EditorCommand::Insert('x'));
    assert_eq!(view.buffer.lines[0].to_text(), "axb");
    assert_eq!(view.text_location, Location { grapheme_index: 2, line_index: 0 });
}

#[test]
fn inserting_into_an_empty_buffer_creates_the_first_line() {
    let mut view = EditorView::new(Size { height: 5, width: 10 });
    view.handle_command(EditorCommand::Insert('h'));
    view.handle_command(EditorCommand::Insert('i'));
    assert_eq!(view.buffer.lines[0].to_text(), "hi");
    assert_eq!(view.text_location, Location { grapheme_index: 2, line_index: 0 });
}

#[test]
fn quit_command_leaves_the_view_untouched() {
    let mut view = EditorView::new(Size { height: 5, width: 10 });
    view.load("ab");
    view.handle_command(EditorCommand::Quit);
    assert_eq!(view.text_location, Location { grapheme_index: 0, line_index: 0 });
    assert_eq!(view.buffer.lines[0].to_text(), "ab");
}

#[test]
fn load_resets_cursor_and_scroll() {
    let mut view = EditorView::new(Size { height: 2, width: 3 });
    view.load("a\nb\nc\nd");
    view.handle_command(EditorCommand::Move(Direction::Down));
    view.handle_command(EditorCommand::Move(Direction::Down));
    assert_eq!(view.scroll_offset, Position { col: 0, row: 1 });
    view.load("x");
    assert_eq!(view.text_location, Location { grapheme_index: 0, line_index: 0 });
    assert_eq!(view.scroll_offset, Position { col: 0, row: 0 });
}

#[test]
fn position_saturating_sub_never_goes_negative() {
    let a = Position { col: 2, row: 5 };
    let b = Position { col: 4, row: 1 };
    assert_eq!(a.saturating_sub(b), Position { col: 0, row: 4 });
    assert_eq!(b.saturating_sub(a), Position { col: 2, row: 0 });
}

#[test]
fn clamp_to_buffer_restores_validity() {
    let mut view = EditorView::new(Size { height: 5, width: 5 });
    view.load("ab\ncd");
    view.text_location = Location { grapheme_index: 99, line_index: 99 };
    view.clamp_to_buffer();
    assert_eq!(view.text_location, Location { grapheme_index: 2, line_index: 1 });
}

#[test]
fn clamp_on_empty_buffer_goes_to_origin() {
    let mut view = EditorView::new(Size { height: 5, width: 5 });
    view.text_location = Location { grapheme_index: 3, line_index: 7 };
    view.clamp_to_buffer();
    assert_eq!(view.text_location, Location { grapheme_index: 0, line_index: 0 });
}

#[test]
fn scrolling_at_zero_size_leaves_the_offset_unchanged() {
    let mut view = EditorView::new(Size { height: 0, width: 0 });
    view.load("a\nb\nc\nd");
    view.handle_command(EditorCommand::Move(Direction::Down));
    view.handle_command(EditorCommand::Move(Direction::Down));
    assert_eq!(view.scroll_offset, Position { col: 0, row: 0 });
    view.resize(Size { height: 0, width: 0 });
    assert_eq!(view.scroll_offset, Position { col: 0, row: 0 });
}
