//! The orchestrating view: it owns the buffer, the cursor, the viewport
//! size and the scroll offset, applies editing commands, and decides what
//! each screen row shows.

use crate::buffer::{buffer_insert_applied, Buffer};
use crate::editorcommand::{Direction, EditorCommand};
use crate::line::prefix_width;
use crate::screen::{Position, Size};
use crate::{cap_usize, max0};
use vstd::prelude::*;
use vstd::string::StrSliceExecFns;
use vstd::string::StringExecFns;

verus! {

/// A text-space cursor position: `line_index` is the row in the buffer and
/// `grapheme_index` counts grapheme clusters (not bytes) within that line.
#[derive(Clone, Copy, Debug, Default, PartialEq, Eq, Structural)]
pub struct Location {
    pub grapheme_index: usize,
    pub line_index: usize,
}

/// The number of grapheme clusters in line `li` of the buffer, counting a
/// missing line as empty.
pub open spec fn count_at(b: Buffer, li: int) -> int {
    if 0 <= li < b.lines@.len() {
        b.lines@[li]@.len() as int
    } else {
        0
    }
}

/// A cursor position is valid for a buffer when its line index stays below
/// the buffer height (or on line zero of an empty buffer) and its grapheme
/// index does not pass the end of that line.
pub open spec fn loc_wf(b: Buffer, loc: Location) -> bool {
    &&& (loc.line_index as int) < vstd::math::max(b.lines@.len() as int, 1)
    &&& loc.grapheme_index as int <= count_at(b, loc.line_index as int)
}

/// The cursor with its grapheme index clamped to the end of its line.
pub open spec fn snap_grapheme(b: Buffer, loc: Location) -> Location {
    Location {
        grapheme_index: vstd::math::min(
            loc.grapheme_index as int,
            count_at(b, loc.line_index as int),
        ) as usize,
        line_index: loc.line_index,
    }
}

/// The cursor with its line index clamped to the last line (or to line zero
/// of an empty buffer).
pub open spec fn snap_line(b: Buffer, loc: Location) -> Location {
    Location {
        grapheme_index: loc.grapheme_index,
        line_index: vstd::math::min(loc.line_index as int, max0(b.lines@.len() - 1)) as usize,
    }
}

/// The cursor after moving up `step` lines: the line index saturates at the
/// top and the grapheme index is clamped to the new line.
pub open spec fn moved_up(b: Buffer, loc: Location, step: int) -> Location {
    snap_grapheme(
        b,
        Location {
            grapheme_index: loc.grapheme_index,
            line_index: max0(loc.line_index - step) as usize,
        },
    )
}

/// The cursor after moving down `step` lines: the line index is clamped to
/// the last line and the grapheme index to the new line.
pub open spec fn moved_down(b: Buffer, loc: Location, step: int) -> Location {
    snap_grapheme(
        b,
        snap_line(
            b,
            Location {
                grapheme_index: loc.grapheme_index,
                line_index: cap_usize(loc.line_index + step) as usize,
            },
        ),
    )
}

/// The cursor after one movement command. Left at the start of a line jumps
/// to the end of the previous line; right at the end of a line jumps to the
/// start of the next; page movements step by one less than the viewport
/// height; nothing wraps around the document.
pub open spec fn moved_location(b: Buffer, size: Size, loc: Location, dir: Direction) -> Location {
    match dir {
        Direction::Up => moved_up(b, loc, 1),
        Direction::Down => moved_down(b, loc, 1),
        Direction::Left => if loc.grapheme_index > 0 {
            Location {
                grapheme_index: (loc.grapheme_index - 1) as usize,
                line_index: loc.line_index,
            }
        } else if loc.line_index > 0 {
            let up = (loc.line_index - 1) as usize;
            Location { grapheme_index: count_at(b, up as int) as usize, line_index: up }
        } else {
            loc
        },
        Direction::Right => if (loc.grapheme_index as int) < count_at(b, loc.line_index as int) {
            Location {
                grapheme_index: (loc.grapheme_index + 1) as usize,
                line_index: loc.line_index,
            }
        } else if loc.line_index as int + 1 < b.lines@.len() {
            Location { grapheme_index: 0, line_index: (loc.line_index + 1) as usize }
        } else {
            loc
        },
        Direction::Home => Location { grapheme_index: 0, line_index: loc.line_index },
        Direction::End => Location {
            grapheme_index: count_at(b, loc.line_index as int) as usize,
            line_index: loc.line_index,
        },
        Direction::PageUp => moved_up(b, loc, max0(size.height - 1)),
        Direction::PageDown => moved_down(b, loc, max0(size.height - 1)),
    }
}

/// One scroll component (row or column): the offset moves back to the
/// cursor when the cursor is before the window, moves forward just far
/// enough when the cursor is at or past its far edge, and otherwise stays.
/// A window of no cells in this dimension can show nothing, so the offset
/// stays put.
pub open spec fn scroll_component(to: int, off: int, extent: int) -> int {
    if extent == 0 {
        off
    } else if to < off {
        to
    } else if to >= cap_usize(off + extent) {
        cap_usize(max0(to - extent) + 1)
    } else {
        off
    }
}

/// Whether one scroll component changes (and so forces a redraw).
pub open spec fn scroll_component_moves(to: int, off: int, extent: int) -> bool {
    extent > 0 && (to < off || to >= cap_usize(off + extent))
}

/// The view under edit: the document, the redraw flag, the viewport size,
/// the text-space cursor, and the scroll offset mapping buffer coordinates
/// to the screen.
#[derive(Debug)]
pub struct EditorView {
    pub buffer: Buffer,
    pub needs_redraw: bool,
    pub size: Size,
    pub text_location: Location,
    pub scroll_offset: Position,
}

/// The cursor's absolute screen row: its line index.
pub open spec fn position_row(v: EditorView) -> int {
    v.text_location.line_index as int
}

/// The cursor's absolute screen column: the summed width of the clusters
/// before it on its line, or zero when the line is absent.
pub open spec fn position_col(v: EditorView) -> int {
    if (v.text_location.line_index as int) < v.buffer.lines@.len() {
        cap_usize(
            prefix_width(
                v.buffer.lines@[v.text_location.line_index as int]@,
                v.text_location.grapheme_index as int,
            ),
        )
    } else {
        0
    }
}

/// Whether `post` is `pre` after scrolling the cursor into view: both
/// offset components follow `scroll_component`, the redraw flag is raised
/// when either component moved, and nothing else changes.
pub open spec fn scroll_applied(pre: EditorView, post: EditorView) -> bool {
    let to_row = position_row(pre);
    let to_col = position_col(pre);
    let row_moves = scroll_component_moves(
        to_row,
        pre.scroll_offset.row as int,
        pre.size.height as int,
    );
    let col_moves = scroll_component_moves(
        to_col,
        pre.scroll_offset.col as int,
        pre.size.width as int,
    );
    &&& post.scroll_offset.row == scroll_component(
        to_row,
        pre.scroll_offset.row as int,
        pre.size.height as int,
    )
    &&& post.scroll_offset.col == scroll_component(
        to_col,
        pre.scroll_offset.col as int,
        pre.size.width as int,
    )
    &&& post.needs_redraw == (pre.needs_redraw || row_moves || col_moves)
    &&& post.buffer == pre.buffer
    &&& post.size == pre.size
    &&& post.text_location == pre.text_location
}

/// Whether `post` is `pre` after one movement command: the cursor moves as
/// `moved_location` says and is then scrolled into view.
pub open spec fn move_applied(pre: EditorView, post: EditorView, dir: Direction) -> bool {
    scroll_applied(
        EditorView {
            text_location: moved_location(pre.buffer, pre.size, pre.text_location, dir),
            ..pre
        },
        post,
    )
}

/// Whether `post` is `pre` after a resize: the size is replaced, the cursor
/// is scrolled into the new viewport, and a redraw is forced.
pub open spec fn resize_applied(pre: EditorView, post: EditorView, to: Size) -> bool {
    &&& post.size == to
    &&& post.buffer == pre.buffer
    &&& post.text_location == pre.text_location
    &&& post.scroll_offset.row == scroll_component(
        position_row(pre),
        pre.scroll_offset.row as int,
        to.height as int,
    )
    &&& post.scroll_offset.col == scroll_component(
        position_col(pre),
        pre.scroll_offset.col as int,
        to.width as int,
    )
    &&& post.needs_redraw
}

/// The cursor after an insertion at its own position: it steps one cluster
/// to the right exactly when its line gained a cluster, and is then clamped
/// to the edited line.
pub open spec fn inserted_location(pre: EditorView, post_buffer: Buffer) -> Location {
    let li = pre.text_location.line_index as int;
    let gi = pre.text_location.grapheme_index as int;
    let grew = count_at(post_buffer, li) > count_at(pre.buffer, li);
    let g1 = if grew {
        gi + 1
    } else {
        gi
    };
    snap_grapheme(
        post_buffer,
        Location { grapheme_index: g1 as usize, line_index: pre.text_location.line_index },
    )
}

/// Whether `post` is `pre` after inserting a character at the cursor: the
/// buffer changes as `buffer_insert_applied` says, the cursor follows the
/// insertion, a redraw is forced, and the cursor is scrolled into view.
pub open spec fn insert_applied(pre: EditorView, post: EditorView, ch: char) -> bool {
    &&& buffer_insert_applied(pre.buffer, post.buffer, ch, pre.text_location)
    &&& scroll_applied(
        EditorView {
            buffer: post.buffer,
            text_location: inserted_location(pre, post.buffer),
            needs_redraw: true,
            ..pre
        },
        post,
    )
}

/// Whether `post` is `pre` after one editing command.
pub open spec fn command_applied(pre: EditorView, post: EditorView, c: EditorCommand) -> bool {
    match c {
        EditorCommand::Move(d) => move_applied(pre, post, d),
        EditorCommand::Resize(s) => resize_applied(pre, post, s),
        EditorCommand::Insert(ch) => insert_applied(pre, post, ch),
        EditorCommand::Quit => post == pre,
    }
}

impl EditorView {
    /// The cursor is always valid for the buffer; every operation
    /// re-establishes this.
    pub open spec fn wf(self) -> bool {
        loc_wf(self.buffer, self.text_location)
    }

    /// A fresh view of the given size: empty buffer, cursor and scroll
    /// offset at the origin, and an initial redraw pending.
    pub fn new(size: Size) -> (r: Self)
        ensures
            r.buffer.lines@.len() == 0,
            r.needs_redraw,
            r.size == size,
            r.text_location == (Location { grapheme_index: 0, line_index: 0 }),
            r.scroll_offset == (Position { col: 0, row: 0 }),
            r.wf(),
    {
        EditorView {
            buffer: Buffer::default(),
            needs_redraw: true,
            size,
            text_location: Location { grapheme_index: 0, line_index: 0 },
            scroll_offset: Position { col: 0, row: 0 },
        }
    }

    /// The cursor's absolute screen position (before the scroll offset is
    /// taken off).
    fn text_location_to_position(&self) -> (r: Position)
        ensures
            r.row == position_row(*self),
            r.col == position_col(*self),
    {
        let row = self.text_location.line_index;
        let col = if row < self.buffer.lines.len() {
            self.buffer.lines[row].width_until(self.text_location.grapheme_index)
        } else {
            0
        };
        Position { col, row }
    }

    /// The caret position inside the viewport: the cursor's absolute screen
    /// position less the scroll offset, saturating at the viewport origin.
    pub fn crate_position(&self) -> (r: Position)
        ensures
            r.row == max0(position_row(*self) - self.scroll_offset.row as int),
            r.col == max0(position_col(*self) - self.scroll_offset.col as int),
    {
        self.text_location_to_position().saturating_sub(self.scroll_offset)
    }

    /// Scrolls the vertical offset so that buffer row `to` is inside the
    /// viewport, raising the redraw flag if the offset moved.
    fn scroll_vertically(&mut self, to: usize)
        ensures
            final(self).scroll_offset.row == scroll_component(
                to as int,
                old(self).scroll_offset.row as int,
                old(self).size.height as int,
            ),
            final(self).scroll_offset.col == old(self).scroll_offset.col,
            final(self).needs_redraw == (old(self).needs_redraw || scroll_component_moves(
                to as int,
                old(self).scroll_offset.row as int,
                old(self).size.height as int,
            )),
            final(self).buffer == old(self).buffer,
            final(self).size == old(self).size,
            final(self).text_location == old(self).text_location,
    {
        let height = self.size.height;
        let offset_changed = if height == 0 {
            false
        } else if to < self.scroll_offset.row {
            self.scroll_offset.row = to;
            true
        } else if to >= self.scroll_offset.row.saturating_add(height) {
            self.scroll_offset.row = to.saturating_sub(height).saturating_add(1);
            true
        } else {
            false
        };
        self.needs_redraw = self.needs_redraw || offset_changed;
    }

    /// Scrolls the horizontal offset so that screen column `to` is inside
    /// the viewport, raising the redraw flag if the offset moved.
    fn scroll_horizontally(&mut self, to: usize)
        ensures
            final(self).scroll_offset.col == scroll_component(
                to as int,
                old(self).scroll_offset.col as int,
                old(self).size.width as int,
            ),
            final(self).scroll_offset.row == old(self).scroll_offset.row,
            final(self).needs_redraw == (old(self).needs_redraw || scroll_component_moves(
                to as int,
                old(self).scroll_offset.col as int,
                old(self).size.width as int,
            )),
            final(self).buffer == old(self).buffer,
            final(self).size == old(self).size,
            final(self).text_location == old(self).text_location,
    {
        let width = self.size.width;
        let offset_changed = if width == 0 {
            false
        } else if to < self.scroll_offset.col {
            self.scroll_offset.col = to;
            true
        } else if to >= self.scroll_offset.col.saturating_add(width) {
            self.scroll_offset.col = to.saturating_sub(width).saturating_add(1);
            true
        } else {
            false
        };
        self.needs_redraw = self.needs_redraw || offset_changed;
    }

    /// Scrolls both offset components so the cursor lies inside the
    /// viewport.
    fn scroll_text_location_into_view(&mut self)
        ensures
            scroll_applied(*old(self), *final(self)),
    {
        let pos = self.text_location_to_position();
        self.scroll_vertically(pos.row);
        self.scroll_horizontally(pos.col);
    }

    /// Clamps the cursor's grapheme index to the end of its line: afterwards
    /// it does not pass that line's cluster count.
    fn snap_to_valid_grapheme(&mut self)
        ensures
            final(self).text_location == snap_grapheme(old(self).buffer, old(self).text_location),
            final(self).text_location.grapheme_index as int <= count_at(
                old(self).buffer,
                old(self).text_location.line_index as int,
            ),
            final(self).buffer == old(self).buffer,
            final(self).size == old(self).size,
            final(self).scroll_offset == old(self).scroll_offset,
            final(self).needs_redraw == old(self).needs_redraw,
    {
        let li = self.text_location.line_index;
        let count = if li < self.buffer.lines.len() {
            self.buffer.lines[li].grapheme_count()
        } else {
            0
        };
        if self.text_location.grapheme_index > count {
            self.text_location.grapheme_index = count;
        }
    }

    /// Clamps the cursor's line index to the last line of the buffer:
    /// afterwards it is below the buffer height (or zero when the buffer is
    /// empty).
    fn snap_to_valid_line(&mut self)
        ensures
            final(self).text_location == snap_line(old(self).buffer, old(self).text_location),
            (final(self).text_location.line_index as int) < vstd::math::max(
                old(self).buffer.lines@.len() as int,
                1,
            ),
            final(self).buffer == old(self).buffer,
            final(self).size == old(self).size,
            final(self).scroll_offset == old(self).scroll_offset,
            final(self).needs_redraw == old(self).needs_redraw,
    {
        let limit = if self.buffer.lines.len() > 0 {
            self.buffer.lines.len() - 1
        } else {
            0
        };
        if self.text_location.line_index > limit {
            self.text_location.line_index = limit;
        }
    }

    /// Clamps the cursor to the buffer: after this call the line index is
    /// below the buffer height (or zero in an empty buffer), and the
    /// grapheme index does not pass the end of that line.
    pub fn clamp_to_buffer(&mut self)
        ensures
            final(self).text_location == snap_grapheme(
                old(self).buffer,
                snap_line(old(self).buffer, old(self).text_location),
            ),
            (final(self).text_location.line_index as int) < vstd::math::max(
                old(self).buffer.lines@.len() as int,
                1,
            ),
            final(self).text_location.grapheme_index as int <= count_at(
                old(self).buffer,
                final(self).text_location.line_index as int,
            ),
            final(self).wf(),
            final(self).buffer == old(self).buffer,
            final(self).size == old(self).size,
            final(self).scroll_offset == old(self).scroll_offset,
            final(self).needs_redraw == old(self).needs_redraw,
    {
        self.snap_to_valid_line();
        self.snap_to_valid_grapheme();
    }

    /// Moves the cursor up `step` lines.
    fn move_up(&mut self, step: usize)
        ensures
            final(self).text_location == moved_up(
                old(self).buffer,
                old(self).text_location,
                step as int,
            ),
            final(self).buffer == old(self).buffer,
            final(self).size == old(self).size,
            final(self).scroll_offset == old(self).scroll_offset,
            final(self).needs_redraw == old(self).needs_redraw,
    {
        self.text_location.line_index = self.text_location.line_index.saturating_sub(step);
        self.snap_to_valid_grapheme();
    }

    /// Moves the cursor down `step` lines.
    fn move_down(&mut self, step: usize)
        ensures
            final(self).text_location == moved_down(
                old(self).buffer,
                old(self).text_location,
                step as int,
            ),
            final(self).buffer == old(self).buffer,
            final(self).size == old(self).size,
            final(self).scroll_offset == old(self).scroll_offset,
            final(self).needs_redraw == old(self).needs_redraw,
    {
        self.text_location.line_index = self.text_location.line_index.saturating_add(step);
        self.snap_to_valid_line();
        self.snap_to_valid_grapheme();
    }

    /// Moves the cursor one cluster left, jumping to the end of the
    /// previous line at a line start; at the very start of the document it
    /// stays put.
    fn move_left(&mut self)
        ensures
            final(self).text_location == moved_location(
                old(self).buffer,
                old(self).size,
                old(self).text_location,
                Direction::Left,
            ),
            final(self).buffer == old(self).buffer,
            final(self).size == old(self).size,
            final(self).scroll_offset == old(self).scroll_offset,
            final(self).needs_redraw == old(self).needs_redraw,
    {
        if self.text_location.grapheme_index > 0 {
            self.text_location.grapheme_index -= 1;
        } else if self.text_location.line_index > 0 {
            self.move_up(1);
            self.move_to_end_of_line();
        }
    }

    /// Moves the cursor one cluster right, jumping to the start of the next
    /// line at a line end; at the very end of the document it stays put
    /// (nothing wraps around).
    fn move_right(&mut self)
        requires
            old(self).wf(),
        ensures
            final(self).text_location == moved_location(
                old(self).buffer,
                old(self).size,
                old(self).text_location,
                Direction::Right,
            ),
            final(self).buffer == old(self).buffer,
            final(self).size == old(self).size,
            final(self).scroll_offset == old(self).scroll_offset,
            final(self).needs_redraw == old(self).needs_redraw,
    {
        let li = self.text_location.line_index;
        let count = if li < self.buffer.lines.len() {
            self.buffer.lines[li].grapheme_count()
        } else {
            0
        };
        if self.text_location.grapheme_index < count {
            self.text_location.grapheme_index += 1;
        } else if li + 1 < self.buffer.lines.len() {
            self.move_down(1);
            self.move_to_start_of_line();
        }
    }

    /// Moves the cursor to the start of its line.
    fn move_to_start_of_line(&mut self)
        ensures
            final(self).text_location == (Location {
                grapheme_index: 0,
                line_index: old(self).text_location.line_index,
            }),
            final(self).buffer == old(self).buffer,
            final(self).size == old(self).size,
            final(self).scroll_offset == old(self).scroll_offset,
            final(self).needs_redraw == old(self).needs_redraw,
    {
        self.text_location.grapheme_index = 0;
    }

    /// Moves the cursor to the end of its line.
    fn move_to_end_of_line(&mut self)
        ensures
            final(self).text_location == (Location {
                grapheme_index: count_at(
                    old(self).buffer,
                    old(self).text_location.line_index as int,
                ) as usize,
                line_index: old(self).text_location.line_index,
            }),
            final(self).buffer == old(self).buffer,
            final(self).size == old(self).size,
            final(self).scroll_offset == old(self).scroll_offset,
            final(self).needs_redraw == old(self).needs_redraw,
    {
        let li = self.text_location.line_index;
        self.text_location.grapheme_index = if li < self.buffer.lines.len() {
            self.buffer.lines[li].grapheme_count()
        } else {
            0
        };
    }

    /// Applies one movement command to the cursor and scrolls it into
    /// view.
    fn move_text_location(&mut self, direction: &Direction)
        requires
            old(self).wf(),
        ensures
            move_applied(*old(self), *final(self), *direction),
            final(self).wf(),
    {
        let height = self.size.height;
        match direction {
            Direction::Up => self.move_up(1),
            Direction::Down => self.move_down(1),
            Direction::Left => self.move_left(),
            Direction::Right => self.move_right(),
            Direction::Home => self.move_to_start_of_line(),
            Direction::End => self.move_to_end_of_line(),
            Direction::PageUp => self.move_up(height.saturating_sub(1)),
            Direction::PageDown => self.move_down(height.saturating_sub(1)),
        }
        proof {
            lemma_moved_location_wf(
                old(self).buffer,
                old(self).size,
                old(self).text_location,
                *direction,
            );
        }
        self.scroll_text_location_into_view();
    }

    /// Replaces the viewport size, scrolls the cursor into the new
    /// viewport, and forces a redraw.
    pub fn resize(&mut self, to: Size)
        requires
            old(self).wf(),
        ensures
            resize_applied(*old(self), *final(self), to),
            final(self).wf(),
    {
        self.size = to;
        self.scroll_text_location_into_view();
        self.needs_redraw = true;
    }

    /// Inserts a character at the cursor, moves the cursor past it when its
    /// line gained a cluster, and scrolls the cursor into view.
    fn insert_char(&mut self, character: char)
        requires
            old(self).wf(),
        ensures
            insert_applied(*old(self), *final(self), character),
            final(self).wf(),
    {
        let li = self.text_location.line_index;
        let old_count = if li < self.buffer.lines.len() {
            self.buffer.lines[li].grapheme_count()
        } else {
            0
        };
        self.buffer.insert_char(character, self.text_location);
        let new_count = if li < self.buffer.lines.len() {
            self.buffer.lines[li].grapheme_count()
        } else {
            0
        };
        if new_count > old_count {
            self.text_location.grapheme_index += 1;
        }
        self.snap_to_valid_grapheme();
        self.needs_redraw = true;
        proof {
            lemma_insert_keeps_line_wf(*old(self), self.buffer, character);
        }
        self.scroll_text_location_into_view();
    }

    /// Applies one editing command: movement, resize or insertion; `Quit`
    /// is the caller's concern and leaves the view untouched.
    pub fn handle_command(&mut self, command: EditorCommand)
        requires
            old(self).wf(),
        ensures
            command_applied(*old(self), *final(self), command),
            final(self).wf(),
    {
        match command {
            EditorCommand::Move(direction) => self.move_text_location(&direction),
            EditorCommand::Resize(size) => self.resize(size),
            EditorCommand::Insert(character) => self.insert_char(character),
            EditorCommand::Quit => {},
        }
    }

    /// Replaces the buffer with the given file contents and resets the
    /// cursor, the scroll offset and the redraw flag.
    pub fn load(&mut self, contents: &str)
        ensures
            crate::buffer::buffer_lines_match(
                final(self).buffer,
                crate::buffer::split_lines(contents@),
            ),
            final(self).text_location == (Location { grapheme_index: 0, line_index: 0 }),
            final(self).scroll_offset == (Position { col: 0, row: 0 }),
            final(self).needs_redraw,
            final(self).size == old(self).size,
            final(self).wf(),
    {
        self.buffer = Buffer::load(contents);
        self.text_location = Location { grapheme_index: 0, line_index: 0 };
        self.scroll_offset = Position { col: 0, row: 0 };
        self.needs_redraw = true;
    }
}

/// The banner shown on an empty buffer.
pub open spec fn welcome_msg() -> Seq<char> {
    "hecto editor -- version 0.1.0"@
}

/// The welcome line for a viewport of the given width: a single space at
/// width zero, a bare `~` when the banner does not fit, and otherwise a
/// `~`, padding spaces, and the banner, cut off at the viewport edge.
pub open spec fn welcome_text(width: int) -> Seq<char> {
    if width == 0 {
        seq![' ']
    } else if width <= welcome_msg().len() {
        seq!['~']
    } else {
        let padding = max0(width / 2 - 1) / 2;
        let full = seq!['~'] + Seq::new(padding as nat, |i: int| ' ') + welcome_msg();
        if width < full.len() {
            full.take(width)
        } else {
            full
        }
    }
}

/// What row `row` of the viewport shows: the visible slice of the buffer
/// line scrolled there; on an empty buffer, the welcome banner a third of
/// the way down; otherwise a `~` placeholder.
pub open spec fn visible_row_text(v: EditorView, row: int) -> Seq<char> {
    let top = v.scroll_offset.row as int;
    let left = v.scroll_offset.col as int;
    let idx = cap_usize(row + top);
    if idx < v.buffer.lines@.len() {
        crate::line::visible_text(
            v.buffer.lines@[idx]@,
            left,
            cap_usize(left + v.size.width as int),
        )
    } else if row == v.size.height as int / 3 && v.buffer.lines@.len() == 0 {
        welcome_text(v.size.width as int)
    } else {
        seq!['~']
    }
}

impl EditorView {
    /// The welcome line for the given viewport width.
    fn build_welcome_message(width: usize) -> (r: String)
        ensures
            r@ == welcome_text(width as int),
    {
        let msg = "hecto editor -- version 0.1.0";
        if width == 0 {
            let blank = String::from_str(" ");
            proof {
                reveal_strlit(" ");
                assert(blank@ =~= seq![' ']);
            }
            return blank;
        }
        let len = msg.unicode_len();
        if width <= len {
            let tilde = String::from_str("~");
            proof {
                reveal_strlit("~");
                assert(tilde@ =~= seq!['~']);
            }
            return tilde;
        }
        let padding = (width / 2).saturating_sub(1) / 2;
        let ghost full = seq!['~'] + Seq::new(padding as nat, |i: int| ' ') + welcome_msg();
        let mut chars: Vec<char> = Vec::new();
        chars.push('~');
        let mut i: usize = 0;
        while i < padding
            invariant
                0 <= i <= padding,
                chars@ =~= seq!['~'] + Seq::new(i as nat, |j: int| ' '),
            decreases padding - i,
        {
            chars.push(' ');
            i += 1;
        }
        let mut k: usize = 0;
        while k < len
            invariant
                len == msg@.len(),
                msg@ == welcome_msg(),
                0 <= k <= len,
                chars@ =~= seq!['~'] + Seq::new(padding as nat, |j: int| ' ') + msg@.take(k as int),
            decreases len - k,
        {
            chars.push(msg.get_char(k));
            k += 1;
        }
        proof {
            assert(msg@.take(len as int) =~= msg@);
            assert(chars@ =~= full);
        }
        chars.truncate(width);
        let out = crate::unicode::chars_to_string(&chars);
        proof {
            if width < full.len() {
                assert(out@ =~= full.take(width as int));
            } else {
                assert(out@ =~= full);
            }
        }
        out
    }

    /// Computes the text for every viewport row and clears the redraw flag.
    /// Nothing is produced (and the flag is left alone) when no redraw is
    /// pending or the viewport has no cells.
    pub fn render(&mut self) -> (rows: Vec<String>)
        ensures
            !old(self).needs_redraw ==> rows@.len() == 0 && *final(self) == *old(self),
            old(self).needs_redraw && (old(self).size.height == 0 || old(self).size.width == 0)
                ==> rows@.len() == 0 && *final(self) == *old(self),
            old(self).needs_redraw && old(self).size.height > 0 && old(self).size.width > 0 ==> {
                &&& rows@.len() == old(self).size.height
                &&& (forall|r: int|
                    0 <= r < rows@.len() ==> (#[trigger] rows@[r])@ == visible_row_text(
                        *old(self),
                        r,
                    ))
                &&& *final(self) == (EditorView { needs_redraw: false, ..*old(self) })
            },
    {
        if !self.needs_redraw {
            return Vec::new();
        }
        let height = self.size.height;
        let width = self.size.width;
        if height == 0 || width == 0 {
            return Vec::new();
        }
        let vertical_center = height / 3;
        let top = self.scroll_offset.row;
        let left = self.scroll_offset.col;
        let mut rows: Vec<String> = Vec::new();
        let mut current_row: usize = 0;
        while current_row < height
            invariant
                0 <= current_row <= height,
                height == self.size.height,
                width == self.size.width,
                vertical_center == height / 3,
                top == self.scroll_offset.row,
                left == self.scroll_offset.col,
                self == old(self),
                rows@.len() == current_row,
                forall|r: int|
                    0 <= r < current_row ==> (#[trigger] rows@[r])@ == visible_row_text(*self, r),
            decreases height - current_row,
        {
            let idx = current_row.saturating_add(top);
            let text: String = if idx < self.buffer.lines.len() {
                let right = left.saturating_add(width);
                self.buffer.lines[idx].get_visible_graphemes(left..right)
            } else if current_row == vertical_center && self.buffer.is_empty() {
                Self::build_welcome_message(width)
            } else {
                let tilde = String::from_str("~");
                proof {
                    reveal_strlit("~");
                    assert(tilde@ =~= seq!['~']);
                }
                tilde
            };
            rows.push(text);
            current_row += 1;
        }
        self.needs_redraw = false;
        rows
    }
}

/// One scroll component settles after a single step: re-scrolling to the
/// same target from the offset it produced leaves that offset unchanged,
/// whatever the viewport extent.
pub proof fn lemma_scroll_component_idempotent(to: int, off: int, extent: int)
    requires
        0 <= extent <= usize::MAX,
        0 <= to <= usize::MAX,
        0 <= off <= usize::MAX,
    ensures
        scroll_component(to, scroll_component(to, off, extent), extent) == scroll_component(
            to,
            off,
            extent,
        ),
{
}

/// After one scroll component runs, the target coordinate lies inside the
/// window `[offset, offset + extent)`, provided the extent is at least one.
pub proof fn lemma_scroll_component_reaches_window(to: int, off: int, extent: int)
    requires
        1 <= extent <= usize::MAX,
        0 <= to <= usize::MAX,
        0 <= off <= usize::MAX,
    ensures
        scroll_component(to, off, extent) <= to < scroll_component(to, off, extent) + extent,
{
}

/// After scrolling, with a viewport of at least one cell in each dimension,
/// the cursor's screen-relative position lies inside the viewport: its row
/// in `[0, height)` and its column in `[0, width)`.
pub proof fn lemma_scroll_puts_cursor_in_view(v: EditorView, v1: EditorView)
    requires
        v.size.height >= 1,
        v.size.width >= 1,
        scroll_applied(v, v1),
    ensures
        v1.scroll_offset.row <= position_row(v1) < v1.scroll_offset.row + v1.size.height,
        v1.scroll_offset.col <= position_col(v1) < v1.scroll_offset.col + v1.size.width,
{
    crate::line::lemma_prefix_width_nonneg(
        if (v.text_location.line_index as int) < v.buffer.lines@.len() {
            v.buffer.lines@[v.text_location.line_index as int]@
        } else {
            Seq::empty()
        },
        v.text_location.grapheme_index as int,
    );
    assert(position_row(v1) == position_row(v));
    assert(position_col(v1) == position_col(v));
    lemma_scroll_component_reaches_window(
        position_row(v),
        v.scroll_offset.row as int,
        v.size.height as int,
    );
    lemma_scroll_component_reaches_window(
        position_col(v),
        v.scroll_offset.col as int,
        v.size.width as int,
    );
}

/// Scrolling the cursor into view is idempotent: a second scroll with no
/// intervening state change leaves the scroll offset exactly where the
/// first put it, whatever the viewport size.
pub proof fn lemma_scroll_into_view_idempotent(v: EditorView, v1: EditorView, v2: EditorView)
    requires
        scroll_applied(v, v1),
        scroll_applied(v1, v2),
    ensures
        v2.scroll_offset == v1.scroll_offset,
{
    crate::line::lemma_prefix_width_nonneg(
        if (v.text_location.line_index as int) < v.buffer.lines@.len() {
            v.buffer.lines@[v.text_location.line_index as int]@
        } else {
            Seq::empty()
        },
        v.text_location.grapheme_index as int,
    );
    assert(position_row(v1) == position_row(v));
    assert(position_col(v1) == position_col(v));
    lemma_scroll_component_idempotent(
        position_row(v),
        v.scroll_offset.row as int,
        v.size.height as int,
    );
    lemma_scroll_component_idempotent(
        position_col(v),
        v.scroll_offset.col as int,
        v.size.width as int,
    );
}

/// A movement never leaves the cursor outside the buffer: from a valid
/// cursor, every direction yields a valid cursor.
pub proof fn lemma_moved_location_wf(b: Buffer, size: Size, loc: Location, dir: Direction)
    requires
        loc_wf(b, loc),
    ensures
        loc_wf(b, moved_location(b, size, loc, dir)),
{
}

/// After an insertion at a valid cursor, the clamped cursor is again valid:
/// the edited buffer is at least as tall as before at the cursor's line.
proof fn lemma_insert_keeps_line_wf(pre: EditorView, post_buffer: Buffer, ch: char)
    requires
        pre.wf(),
        buffer_insert_applied(pre.buffer, post_buffer, ch, pre.text_location),
    ensures
        (pre.text_location.line_index as int) < vstd::math::max(post_buffer.lines@.len() as int, 1),
{
}

} // verus!
