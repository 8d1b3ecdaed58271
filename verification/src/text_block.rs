//! The View: one cursor, viewport and input mode bound to a shared
//! document. A three-mode state machine (Normal/Insert/Command) interprets
//! normalized key events into cursor motion, mode transitions, and
//! structural edits applied to the document.

use vstd::prelude::*;

use crate::coords::{Coords, TermScreenCoords, TermSize};
use crate::document::Document;
use crate::errors::ChaiError;
use crate::input::{Event, KeyCode, KeyEvent, KeyModifiers};
use crate::words::{
    first_word_end, first_word_start, last_word_start, next_word_end, next_word_start,
    prev_word_start, spec_first_word_end, spec_first_word_start, spec_last_word_start,
    spec_next_word_end, spec_next_word_start, spec_prev_word_start,
};

verus! {

/// The input-interpretation state of a view; Normal is initial.
#[derive(Clone, Copy, PartialEq, Eq, Structural, Debug)]
pub enum Mode {
    Normal,
    Insert,
    Command,
}

/// A view over a document: the editing and rendering unit.
pub struct TextBlock {
    /// Where this view sits on the terminal screen.
    pub position: TermScreenCoords,
    /// Scroll offset windowing the document onto the view.
    pub offset: Coords,
    /// Requested size; clipped to the screen on each render.
    pub size: TermSize,
    /// Logical cursor; `x` is clamped lazily, at read time.
    pub cursor: Coords,
    pub mode: Mode,
    /// Handle of the shared document this view edits.
    pub doc_index: usize,
}

/// `a` floored at `b`: saturating subtraction on mathematical integers.
pub open spec fn ssub(a: int, b: int) -> int {
    if a >= b {
        a - b
    } else {
        0
    }
}

pub open spec fn imin(a: int, b: int) -> int {
    if a <= b {
        a
    } else {
        b
    }
}

pub open spec fn imax(a: int, b: int) -> int {
    if a >= b {
        a
    } else {
        b
    }
}

/// What a key event asks of a view, given its current mode.
pub enum KeyAction {
    MoveLeft,
    MoveRight,
    MoveUp,
    MoveDown,
    SetCommand,
    SetInsert,
    SetNormal,
    WordBack,
    WordEnd,
    WordStart,
    InsertChar(char),
    Split,
    Delete,
    Noop,
}

/// The action a printable character asks for.
pub open spec fn char_action(mode: Mode, m: KeyModifiers, ch: char) -> KeyAction {
    if mode == Mode::Normal {
        if ch == ':' {
            KeyAction::SetCommand
        } else if m == KeyModifiers::Plain {
            if ch == 'h' {
                KeyAction::MoveLeft
            } else if ch == 'l' {
                KeyAction::MoveRight
            } else if ch == 'k' {
                KeyAction::MoveUp
            } else if ch == 'j' {
                KeyAction::MoveDown
            } else if ch == 'i' {
                KeyAction::SetInsert
            } else if ch == 'b' {
                KeyAction::WordBack
            } else if ch == 'e' {
                KeyAction::WordEnd
            } else if ch == 'w' {
                KeyAction::WordStart
            } else {
                KeyAction::Noop
            }
        } else {
            KeyAction::Noop
        }
    } else if mode == Mode::Insert {
        if m == KeyModifiers::Plain || m == KeyModifiers::Shift {
            KeyAction::InsertChar(ch)
        } else {
            KeyAction::Noop
        }
    } else {
        KeyAction::Noop
    }
}

/// The full key binding table: what `ev` asks of a view in `mode`.
pub open spec fn action_of(mode: Mode, ev: KeyEvent) -> KeyAction {
    match ev.code {
        KeyCode::Char(ch) => char_action(mode, ev.modifiers, ch),
        KeyCode::Left => if ev.modifiers == KeyModifiers::Plain {
            KeyAction::MoveLeft
        } else {
            KeyAction::Noop
        },
        KeyCode::Right => if ev.modifiers == KeyModifiers::Plain {
            KeyAction::MoveRight
        } else {
            KeyAction::Noop
        },
        KeyCode::Up => if ev.modifiers == KeyModifiers::Plain {
            KeyAction::MoveUp
        } else {
            KeyAction::Noop
        },
        KeyCode::Down => if ev.modifiers == KeyModifiers::Plain {
            KeyAction::MoveDown
        } else {
            KeyAction::Noop
        },
        KeyCode::Esc => if ev.modifiers == KeyModifiers::Plain && (mode == Mode::Insert || mode
            == Mode::Command) {
            KeyAction::SetNormal
        } else {
            KeyAction::Noop
        },
        KeyCode::Enter => if ev.modifiers == KeyModifiers::Plain && mode == Mode::Insert {
            KeyAction::Split
        } else {
            KeyAction::Noop
        },
        KeyCode::Backspace => if ev.modifiers == KeyModifiers::Plain && mode == Mode::Insert {
            KeyAction::Delete
        } else {
            KeyAction::Noop
        },
        KeyCode::Other => KeyAction::Noop,
    }
}

/// Everything of a view except cursor and mode is untouched.
pub open spec fn view_keeps_frame(v0: TextBlock, v1: TextBlock) -> bool {
    &&& v1.position == v0.position
    &&& v1.offset == v0.offset
    &&& v1.size == v0.size
    &&& v1.doc_index == v0.doc_index
}

/// The document's lines changed as given; dirty flag and source identity
/// are untouched.
pub open spec fn doc_lines_became(d0: Document, d1: Document, lines: Seq<Seq<char>>) -> bool {
    &&& d1.lines_view() == lines
    &&& d1.dirty == d0.dirty
    &&& d1.file_path == d0.file_path
}

/// Left motion: one column left, clamped into `[0, line_len - 1]`.
pub open spec fn move_left_post(
    v0: TextBlock,
    d0: Document,
    v1: TextBlock,
    d1: Document,
    r: Result<(), ChaiError>,
) -> bool {
    &&& d1 == d0
    &&& view_keeps_frame(v0, v1)
    &&& v1.mode == v0.mode
    &&& if v0.cursor.y < d0.lines_view().len() {
        let len = d0.lines_view()[v0.cursor.y as int].len() as int;
        &&& v1.cursor.y == v0.cursor.y
        &&& v1.cursor.x == imin(ssub(v0.cursor.x as int, 1), ssub(len, 1))
        &&& r == Ok::<(), ChaiError>(())
    } else {
        &&& v1.cursor == v0.cursor
        &&& r == Err::<(), ChaiError>(ChaiError::NoLine)
    }
}

/// Right motion: one column right, never past the line length, and never
/// backwards.
pub open spec fn move_right_post(
    v0: TextBlock,
    d0: Document,
    v1: TextBlock,
    d1: Document,
    r: Result<(), ChaiError>,
) -> bool {
    &&& d1 == d0
    &&& view_keeps_frame(v0, v1)
    &&& v1.mode == v0.mode
    &&& if v0.cursor.y < d0.lines_view().len() {
        let len = d0.lines_view()[v0.cursor.y as int].len() as int;
        &&& v1.cursor.y == v0.cursor.y
        &&& v1.cursor.x == imax(imin(v0.cursor.x as int + 1, len), v0.cursor.x as int)
        &&& r == Ok::<(), ChaiError>(())
    } else {
        &&& v1.cursor == v0.cursor
        &&& r == Err::<(), ChaiError>(ChaiError::NoLine)
    }
}

/// Up motion: one row up (saturating), clamped to the last row.
pub open spec fn move_up_post(v0: TextBlock, d0: Document, v1: TextBlock, d1: Document) -> bool {
    &&& d1 == d0
    &&& view_keeps_frame(v0, v1)
    &&& v1.mode == v0.mode
    &&& v1.cursor.x == v0.cursor.x
    &&& v1.cursor.y == imin(ssub(v0.cursor.y as int, 1), ssub(d0.lines_view().len() as int, 1))
}

/// Down motion: one row down, clamped to the last row.
pub open spec fn move_down_post(v0: TextBlock, d0: Document, v1: TextBlock, d1: Document) -> bool {
    &&& d1 == d0
    &&& view_keeps_frame(v0, v1)
    &&& v1.mode == v0.mode
    &&& v1.cursor.x == v0.cursor.x
    &&& v1.cursor.y == imin(v0.cursor.y as int + 1, ssub(d0.lines_view().len() as int, 1))
}

/// `b`: to the previous word start, falling back to the last word start of
/// the row above; a no-op on the first row or when nothing is found.
pub open spec fn word_back_post(v0: TextBlock, d0: Document, v1: TextBlock, d1: Document) -> bool {
    &&& d1 == d0
    &&& view_keeps_frame(v0, v1)
    &&& v1.mode == v0.mode
    &&& {
        let lines = d0.lines_view();
        let cy = v0.cursor.y as int;
        let cx = v0.cursor.x as int;
        let prev = if cy < lines.len() && cx <= lines[cy].len() {
            spec_prev_word_start(lines[cy], cx)
        } else {
            None
        };
        match prev {
            Some(st) => v1.cursor.x == st && v1.cursor.y == cy,
            None => if cy == 0 {
                v1.cursor == v0.cursor
            } else if cy - 1 < lines.len() {
                v1.cursor.x == spec_last_word_start(lines[cy - 1]) && v1.cursor.y == cy - 1
            } else {
                v1.cursor == v0.cursor
            },
        }
    }
}

/// `e`: to the next word end, falling back to the first word end of the row
/// below; a no-op when that row does not exist.
pub open spec fn word_end_post(v0: TextBlock, d0: Document, v1: TextBlock, d1: Document) -> bool {
    &&& d1 == d0
    &&& view_keeps_frame(v0, v1)
    &&& v1.mode == v0.mode
    &&& {
        let lines = d0.lines_view();
        let cy = v0.cursor.y as int;
        let cx = v0.cursor.x as int;
        let nwe = if cy < lines.len() {
            spec_next_word_end(lines[cy], cx)
        } else {
            None
        };
        match nwe {
            Some(we) => v1.cursor.x == we && v1.cursor.y == cy,
            None => if cy + 1 < lines.len() {
                v1.cursor.x == spec_first_word_end(lines[cy + 1]) && v1.cursor.y == cy + 1
            } else {
                v1.cursor == v0.cursor
            },
        }
    }
}

/// `w`: to the next word start, falling back to the first word start of the
/// row below, and otherwise to the current word's end.
pub open spec fn word_start_post(v0: TextBlock, d0: Document, v1: TextBlock, d1: Document) -> bool {
    &&& d1 == d0
    &&& view_keeps_frame(v0, v1)
    &&& v1.mode == v0.mode
    &&& {
        let lines = d0.lines_view();
        let cy = v0.cursor.y as int;
        let cx = v0.cursor.x as int;
        let nws = if cy < lines.len() {
            spec_next_word_start(lines[cy], cx)
        } else {
            None
        };
        match nws {
            Some(ws) => v1.cursor.x == ws && v1.cursor.y == cy,
            None => if cy + 1 < lines.len() {
                v1.cursor.x == spec_first_word_start(lines[cy + 1]) && v1.cursor.y == cy + 1
            } else {
                let nwe = if cy < lines.len() {
                    spec_next_word_end(lines[cy], cx)
                } else {
                    None
                };
                match nwe {
                    Some(we) => v1.cursor.x == we && v1.cursor.y == cy,
                    None => v1.cursor == v0.cursor,
                }
            },
        }
    }
}

/// A mode transition: only the mode changes.
pub open spec fn set_mode_post(
    v0: TextBlock,
    d0: Document,
    v1: TextBlock,
    d1: Document,
    m: Mode,
) -> bool {
    &&& d1 == d0
    &&& view_keeps_frame(v0, v1)
    &&& v1.cursor == v0.cursor
    &&& v1.mode == m
}

/// Inserting a printable character at the clamped cursor column; the cursor
/// advances one column.
pub open spec fn add_char_post(
    v0: TextBlock,
    d0: Document,
    v1: TextBlock,
    d1: Document,
    c: char,
    r: Result<(), ChaiError>,
) -> bool {
    &&& view_keeps_frame(v0, v1)
    &&& v1.mode == v0.mode
    &&& {
        let lines = d0.lines_view();
        let cy = v0.cursor.y as int;
        if cy < lines.len() {
            let ci = imin(v0.cursor.x as int, lines[cy].len() as int);
            &&& doc_lines_became(d0, d1, lines.update(cy, lines[cy].insert(ci, c)))
            &&& v1.cursor.y == cy
            &&& v1.cursor.x == ci + 1
            &&& r == Ok::<(), ChaiError>(())
        } else {
            &&& d1 == d0
            &&& v1.cursor == v0.cursor
            &&& r == Err::<(), ChaiError>(ChaiError::NoLine)
        }
    }
}

/// Enter: the line is cut at the clamped cursor column; the head stays, the
/// tail becomes the next line, and the cursor moves to its start.
pub open spec fn new_line_post(
    v0: TextBlock,
    d0: Document,
    v1: TextBlock,
    d1: Document,
    r: Result<(), ChaiError>,
) -> bool {
    &&& view_keeps_frame(v0, v1)
    &&& v1.mode == v0.mode
    &&& {
        let lines = d0.lines_view();
        let cy = v0.cursor.y as int;
        if cy < lines.len() {
            let ci = imin(v0.cursor.x as int, lines[cy].len() as int);
            &&& doc_lines_became(
                d0,
                d1,
                lines.update(cy, lines[cy].subrange(0, ci)).insert(
                    cy + 1,
                    lines[cy].subrange(ci, lines[cy].len() as int),
                ),
            )
            &&& v1.cursor.y == cy + 1
            &&& v1.cursor.x == 0
            &&& r == Ok::<(), ChaiError>(())
        } else {
            &&& d1 == d0
            &&& v1.cursor == v0.cursor
            &&& r == Err::<(), ChaiError>(ChaiError::NoLine)
        }
    }
}

/// Backspace: with a positive clamped column, one character left of the
/// cursor goes and the cursor steps left; at column 0 of a later row, the
/// row is joined onto the previous one and the cursor lands at that line's
/// pre-merge length; at `(0, 0)` nothing changes.
pub open spec fn delete_post(
    v0: TextBlock,
    d0: Document,
    v1: TextBlock,
    d1: Document,
    r: Result<(), ChaiError>,
) -> bool {
    &&& view_keeps_frame(v0, v1)
    &&& v1.mode == v0.mode
    &&& {
        let lines = d0.lines_view();
        let cy = v0.cursor.y as int;
        if cy < lines.len() {
            let ci = imin(v0.cursor.x as int, lines[cy].len() as int);
            if ci == 0 && cy == 0 {
                &&& d1 == d0
                &&& v1.cursor.x == 0
                &&& v1.cursor.y == 0
                &&& r == Ok::<(), ChaiError>(())
            } else if ci == 0 {
                &&& doc_lines_became(
                    d0,
                    d1,
                    lines.update(cy - 1, lines[cy - 1] + lines[cy]).remove(cy),
                )
                &&& v1.cursor.x == lines[cy - 1].len()
                &&& v1.cursor.y == cy - 1
                &&& r == Ok::<(), ChaiError>(())
            } else {
                &&& doc_lines_became(d0, d1, lines.update(cy, lines[cy].remove(ci - 1)))
                &&& v1.cursor.x == ci - 1
                &&& v1.cursor.y == cy
                &&& r == Ok::<(), ChaiError>(())
            }
        } else {
            &&& d1 == d0
            &&& v1.cursor == v0.cursor
            &&& r == Err::<(), ChaiError>(ChaiError::NoLine)
        }
    }
}

/// What handling one key event does, for every mode and binding.
pub open spec fn handle_key_post(
    v0: TextBlock,
    d0: Document,
    v1: TextBlock,
    d1: Document,
    ev: KeyEvent,
    r: Result<(), ChaiError>,
) -> bool {
    match action_of(v0.mode, ev) {
        KeyAction::MoveLeft => move_left_post(v0, d0, v1, d1, r),
        KeyAction::MoveRight => move_right_post(v0, d0, v1, d1, r),
        KeyAction::MoveUp => move_up_post(v0, d0, v1, d1) && r == Ok::<(), ChaiError>(()),
        KeyAction::MoveDown => move_down_post(v0, d0, v1, d1) && r == Ok::<(), ChaiError>(()),
        KeyAction::SetCommand => set_mode_post(v0, d0, v1, d1, Mode::Command) && r == Ok::<
            (),
            ChaiError,
        >(()),
        KeyAction::SetInsert => set_mode_post(v0, d0, v1, d1, Mode::Insert) && r == Ok::<
            (),
            ChaiError,
        >(()),
        KeyAction::SetNormal => set_mode_post(v0, d0, v1, d1, Mode::Normal) && r == Ok::<
            (),
            ChaiError,
        >(()),
        KeyAction::WordBack => word_back_post(v0, d0, v1, d1) && r == Ok::<(), ChaiError>(()),
        KeyAction::WordEnd => word_end_post(v0, d0, v1, d1) && r == Ok::<(), ChaiError>(()),
        KeyAction::WordStart => word_start_post(v0, d0, v1, d1) && r == Ok::<(), ChaiError>(()),
        KeyAction::InsertChar(c) => add_char_post(v0, d0, v1, d1, c, r),
        KeyAction::Split => new_line_post(v0, d0, v1, d1, r),
        KeyAction::Delete => delete_post(v0, d0, v1, d1, r),
        KeyAction::Noop => v1 == v0 && d1 == d0 && r == Ok::<(), ChaiError>(()),
    }
}

/// What feeding one normalized event to a view does: key events go through
/// the binding table, everything else is a no-op.
pub open spec fn update_post(
    v0: TextBlock,
    d0: Document,
    v1: TextBlock,
    d1: Document,
    ev: Event,
    r: Result<(), ChaiError>,
) -> bool {
    match ev {
        Event::Key(k) => handle_key_post(v0, d0, v1, d1, k, r),
        Event::Other => v1 == v0 && d1 == d0 && r == Ok::<(), ChaiError>(()),
    }
}

/// One axis of the effective size: the requested extent clipped to the
/// window, measured from the view's screen position.
pub open spec fn eff_axis(size: int, pos: int, window: int) -> int {
    ssub(imin(size + pos, window), pos)
}

/// One rendered row: the characters of `line` from `ox`, at most `w` of
/// them; empty when the line ends before the offset.
pub open spec fn row_slice(line: Seq<char>, ox: int, w: int) -> Seq<char> {
    if ox <= line.len() {
        line.subrange(ox, imin(ox + w, line.len() as int))
    } else {
        Seq::empty()
    }
}

impl TextBlock {
    pub open spec fn eff_width(self, window: TermSize) -> int {
        eff_axis(self.size.width as int, self.position.x as int, window.width as int)
    }

    pub open spec fn eff_height(self, window: TermSize) -> int {
        eff_axis(self.size.height as int, self.position.y as int, window.height as int)
    }

    /// The vertical offset after one scroll pass: one row down when the
    /// cursor crossed the bottom boundary, one row up when it crossed the
    /// top.
    pub open spec fn scroll_offset_y(self, window: TermSize) -> int {
        let effh = self.eff_height(window);
        let cy = self.cursor.y as int;
        let oy = self.offset.y as int;
        let o1 = if ssub(cy, oy) > ssub(effh, 1) {
            oy + 1
        } else {
            oy
        };
        if cy < o1 {
            ssub(o1, 1)
        } else {
            o1
        }
    }

    /// The horizontal offset after a scroll pass: fully recomputed so the
    /// cursor stays visible while as much of the current line shows as
    /// fits.
    pub open spec fn scroll_offset_x(self, d: Document, window: TermSize) -> int {
        let effw = self.eff_width(window);
        imin(
            ssub(self.cursor.x as int, effw),
            ssub(d.lines_view()[self.cursor.y as int].len() as int, effw),
        )
    }

    /// The cursor's terminal column before the fit check.
    pub open spec fn term_cursor_x(self, d: Document) -> int {
        imin(
            ssub(self.cursor.x as int, self.offset.x as int),
            ssub(
                d.lines_view()[self.cursor.y as int].len() as int,
                self.offset.x as int,
            ),
        ) + self.position.x as int
    }

    /// The cursor's terminal row before the fit check.
    pub open spec fn term_cursor_y(self) -> int {
        ssub(self.cursor.y as int, self.offset.y as int) + self.position.y as int
    }
}

/// What the terminal cursor lookup yields: the shifted, clamped cell when
/// it exists and fits a terminal cell, and which failure happened when not.
pub open spec fn term_pos_post(v: TextBlock, d: Document, r: Result<TermScreenCoords, ChaiError>) -> bool {
    match r {
        Ok(t) => {
            &&& v.cursor.y < d.lines_view().len()
            &&& v.term_cursor_x(d) <= 65535
            &&& v.term_cursor_y() <= 65535
            &&& t.x == v.term_cursor_x(d)
            &&& t.y == v.term_cursor_y()
        },
        Err(e) => if v.cursor.y >= d.lines_view().len() {
            e == ChaiError::NoLine
        } else {
            &&& (v.term_cursor_x(d) > 65535 || v.term_cursor_y() > 65535)
            &&& e == ChaiError::CoordsTooLarge
        },
    }
}

/// The view after one scroll pass; with the cursor's row out of bounds the
/// horizontal offset stays as it was.
pub open spec fn scrolled(v: TextBlock, d: Document, window: TermSize) -> TextBlock {
    if v.cursor.y < d.lines_view().len() {
        TextBlock {
            offset: Coords {
                x: v.scroll_offset_x(d, window) as usize,
                y: v.scroll_offset_y(window) as usize,
            },
            ..v
        }
    } else {
        TextBlock {
            offset: Coords { x: v.offset.x, y: v.scroll_offset_y(window) as usize },
            ..v
        }
    }
}

/// The rows a view shows of `d`: from the vertical offset, at most
/// effective-height lines, each cut at the horizontal offset to the
/// narrower of the requested and effective widths.
pub open spec fn render_rows_spec(v: TextBlock, d: Document, window: TermSize) -> Seq<Seq<char>> {
    let w = imin(v.size.width as int, v.eff_width(window));
    let count = imin(v.eff_height(window), ssub(d.lines_view().len() as int, v.offset.y as int));
    Seq::new(
        count as nat,
        |i: int| row_slice(d.lines_view()[v.offset.y + i], v.offset.x as int, w),
    )
}

impl TextBlock {
    /// The view `new` builds: Normal mode, scrolled to the origin, cursor
    /// at the given position or the origin.
    pub open spec fn new_spec(
        doc_index: usize,
        size: TermSize,
        position: TermScreenCoords,
        cursor: Option<(usize, usize)>,
    ) -> TextBlock {
        TextBlock {
            position,
            offset: Coords { x: 0, y: 0 },
            size,
            cursor: match cursor {
                Some(c) => Coords { x: c.0, y: c.1 },
                None => Coords { x: 0, y: 0 },
            },
            mode: Mode::Normal,
            doc_index,
        }
    }

    /// A fresh view over the document with handle `doc_index`, in Normal
    /// mode, scrolled to the origin.
    pub fn new(
        doc_index: usize,
        size: TermSize,
        position: TermScreenCoords,
        cursor: Option<(usize, usize)>,
    ) -> (r: TextBlock)
        ensures
            r == Self::new_spec(doc_index, size, position, cursor),
    {
        let c = match cursor {
            Some(c) => Coords { x: c.0, y: c.1 },
            None => Coords { x: 0, y: 0 },
        };
        TextBlock {
            position,
            offset: Coords { x: 0, y: 0 },
            size,
            cursor: c,
            mode: Mode::Normal,
            doc_index,
        }
    }

    /// The cursor as read: the row as stored, the column clamped to the
    /// row's line length.
    pub fn get_cursor_pos(&self, doc: &Document) -> (r: Result<(usize, usize), ChaiError>)
        ensures
            match r {
                Ok(p) => self.cursor.y < doc.lines_view().len() && p.0 == imin(
                    self.cursor.x as int,
                    doc.lines_view()[self.cursor.y as int].len() as int,
                ) && p.1 == self.cursor.y,
                Err(e) => self.cursor.y >= doc.lines_view().len() && e == ChaiError::NoLine,
            },
    {
        match doc.line_len(self.cursor.y) {
            Some(len) => {
                let x = if self.cursor.x < len {
                    self.cursor.x
                } else {
                    len
                };
                Ok((x, self.cursor.y))
            },
            None => Err(ChaiError::NoLine),
        }
    }

    /// Sets the raw cursor column; it may transiently exceed the line
    /// length and is clamped at read time.
    pub fn set_cursor_x(&mut self, x: usize) -> (r: Result<(), ChaiError>)
        ensures
            *final(self) == (TextBlock {
                cursor: Coords { x, y: old(self).cursor.y },
                ..*old(self)
            }),
            r == Ok::<(), ChaiError>(()),
    {
        self.cursor.x = x;
        Ok(())
    }

    fn set_cursor_y(&mut self, y: usize) -> (r: Result<(), ChaiError>)
        ensures
            *final(self) == (TextBlock {
                cursor: Coords { x: old(self).cursor.x, y },
                ..*old(self)
            }),
            r == Ok::<(), ChaiError>(()),
    {
        self.cursor.y = y;
        Ok(())
    }

    fn goto_line(&mut self, doc: &Document, line_number: usize)
        ensures
            *final(self) == (TextBlock {
                cursor: Coords {
                    x: old(self).cursor.x,
                    y: imin(line_number as int, ssub(doc.lines_view().len() as int, 1)) as usize,
                },
                ..*old(self)
            }),
    {
        let lines_len = doc.num_lines();
        let last = if lines_len == 0 {
            0
        } else {
            lines_len - 1
        };
        self.cursor.y = if line_number < last {
            line_number
        } else {
            last
        };
    }

    fn move_left(&mut self, doc: &Document) -> (r: Result<(), ChaiError>)
        ensures
            move_left_post(*old(self), *doc, *final(self), *doc, r),
    {
        match doc.line_len(self.cursor.y) {
            Some(len) => {
                let a = if self.cursor.x >= 1 {
                    self.cursor.x - 1
                } else {
                    0
                };
                let b = if len >= 1 {
                    len - 1
                } else {
                    0
                };
                self.cursor.x = if a < b {
                    a
                } else {
                    b
                };
                Ok(())
            },
            None => Err(ChaiError::NoLine),
        }
    }

    fn move_right(&mut self, doc: &Document) -> (r: Result<(), ChaiError>)
        ensures
            move_right_post(*old(self), *doc, *final(self), *doc, r),
    {
        match doc.line_len(self.cursor.y) {
            Some(len) => {
                let prev = self.cursor.x;
                let stepped = if self.cursor.x < len {
                    self.cursor.x + 1
                } else {
                    len
                };
                self.cursor.x = if stepped > prev {
                    stepped
                } else {
                    prev
                };
                Ok(())
            },
            None => Err(ChaiError::NoLine),
        }
    }

    fn move_up(&mut self, doc: &Document)
        ensures
            move_up_post(*old(self), *doc, *final(self), *doc),
    {
        let target = if self.cursor.y >= 1 {
            self.cursor.y - 1
        } else {
            0
        };
        self.goto_line(doc, target);
    }

    fn move_down(&mut self, doc: &Document)
        ensures
            move_down_post(*old(self), *doc, *final(self), *doc),
    {
        let lines_len = doc.num_lines();
        let last = if lines_len == 0 {
            0
        } else {
            lines_len - 1
        };
        self.cursor.y = if self.cursor.y < last {
            self.cursor.y + 1
        } else {
            last
        };
    }

    fn word_back(&mut self, doc: &Document)
        ensures
            word_back_post(*old(self), *doc, *final(self), *doc),
    {
        let n = doc.num_lines();
        let cy = self.cursor.y;
        let cx = self.cursor.x;
        let mut prev: Option<usize> = None;
        if cy < n {
            let len = doc.line_len_req(cy);
            if cx <= len {
                let chars = doc.line_chars(cy);
                prev = prev_word_start(&chars, cx);
            }
        }
        match prev {
            Some(st) => {
                self.cursor.x = st;
            },
            None => {
                if cy == 0 {
                } else if cy - 1 < n {
                    let chars = doc.line_chars(cy - 1);
                    let st = last_word_start(&chars);
                    self.cursor.x = st;
                    self.cursor.y = cy - 1;
                }
            },
        }
    }

    fn word_end(&mut self, doc: &Document)
        ensures
            word_end_post(*old(self), *doc, *final(self), *doc),
    {
        let n = doc.num_lines();
        let cy = self.cursor.y;
        let cx = self.cursor.x;
        let mut nwe: Option<usize> = None;
        if cy < n {
            let chars = doc.line_chars(cy);
            nwe = next_word_end(&chars, cx);
        }
        match nwe {
            Some(we) => {
                self.cursor.x = we;
            },
            None => {
                if n > 0 && cy < n - 1 {
                    let chars = doc.line_chars(cy + 1);
                    let we = first_word_end(&chars);
                    self.cursor.x = we;
                    self.cursor.y = cy + 1;
                }
            },
        }
    }

    fn word_start(&mut self, doc: &Document)
        ensures
            word_start_post(*old(self), *doc, *final(self), *doc),
    {
        let n = doc.num_lines();
        let cy = self.cursor.y;
        let cx = self.cursor.x;
        let mut nws: Option<usize> = None;
        if cy < n {
            let chars = doc.line_chars(cy);
            nws = next_word_start(&chars, cx);
        }
        match nws {
            Some(ws) => {
                self.cursor.x = ws;
            },
            None => {
                if n > 0 && cy < n - 1 {
                    let chars = doc.line_chars(cy + 1);
                    let ws = first_word_start(&chars);
                    self.cursor.x = ws;
                    self.cursor.y = cy + 1;
                } else {
                    let mut nwe: Option<usize> = None;
                    if cy < n {
                        let chars = doc.line_chars(cy);
                        nwe = next_word_end(&chars, cx);
                    }
                    match nwe {
                        Some(we) => {
                            self.cursor.x = we;
                        },
                        None => {},
                    }
                }
            },
        }
    }

    /// Splices `c` into the current line at the clamped cursor column and
    /// advances the cursor.
    pub fn add_char(&mut self, doc: &mut Document, c: char) -> (r: Result<(), ChaiError>)
        ensures
            add_char_post(*old(self), *old(doc), *final(self), *final(doc), c, r),
    {
        let (ci, cy) = match self.get_cursor_pos(doc) {
            Ok(p) => p,
            Err(e) => {
                return Err(e);
            },
        };
        doc.insert_char_at(cy, ci, c);
        let new_len = doc.line_len_req(cy);
        proof {
            assert(ci < new_len);
        }
        self.cursor.x = ci + 1;
        Ok(())
    }

    /// Enter: splits the current line at the clamped cursor column.
    pub fn new_line(&mut self, doc: &mut Document) -> (r: Result<(), ChaiError>)
        ensures
            new_line_post(*old(self), *old(doc), *final(self), *final(doc), r),
    {
        let (ci, cy) = match self.get_cursor_pos(doc) {
            Ok(p) => p,
            Err(e) => {
                return Err(e);
            },
        };
        let n = doc.num_lines();
        doc.split_line_at(cy, ci);
        proof {
            assert(cy < n <= usize::MAX);
        }
        self.cursor.y = cy + 1;
        self.cursor.x = 0;
        Ok(())
    }

    /// The position one deletion step left of the clamped cursor: the same
    /// row one column back, or the end-minus-one of the previous row at
    /// column 0, or the origin itself at `(0, 0)`.
    pub fn subtract_cursor_pos(&self, doc: &Document) -> (r: Result<(usize, usize), ChaiError>)
        ensures
            match r {
                Ok(p) => self.cursor.y < doc.lines_view().len() && {
                    let lines = doc.lines_view();
                    let cy = self.cursor.y as int;
                    let ci = imin(self.cursor.x as int, lines[cy].len() as int);
                    if ci == 0 && cy == 0 {
                        p.0 == 0 && p.1 == 0
                    } else if ci == 0 {
                        p.0 == ssub(lines[cy - 1].len() as int, 1) && p.1 == cy - 1
                    } else {
                        p.0 == ci - 1 && p.1 == cy
                    }
                },
                Err(e) => self.cursor.y >= doc.lines_view().len() && e == ChaiError::NoLine,
            },
    {
        let (ci, cy) = match self.get_cursor_pos(doc) {
            Ok(p) => p,
            Err(e) => {
                return Err(e);
            },
        };
        if ci == 0 && cy == 0 {
            Ok((0, 0))
        } else if ci == 0 {
            let prev_len = match doc.line_len(cy - 1) {
                Some(l) => l,
                None => 0,
            };
            let col = if prev_len >= 1 {
                prev_len - 1
            } else {
                0
            };
            Ok((col, cy - 1))
        } else {
            Ok((ci - 1, cy))
        }
    }

    /// Backspace: removes one character left of the cursor, or joins the
    /// current row onto the previous one at column 0; at the pre-merge
    /// length of the destination line the cursor lands between the joined
    /// halves.
    pub fn delete(&mut self, doc: &mut Document) -> (r: Result<(), ChaiError>)
        ensures
            delete_post(*old(self), *old(doc), *final(self), *final(doc), r),
    {
        let (ci, cy) = match self.get_cursor_pos(doc) {
            Ok(p) => p,
            Err(e) => {
                return Err(e);
            },
        };
        let (mut nx, ny) = match self.subtract_cursor_pos(doc) {
            Ok(p) => p,
            Err(e) => {
                return Err(e);
            },
        };
        if ci > 0 {
            doc.remove_char_at(cy, ci - 1);
        }
        if ny < cy {
            nx = doc.line_len_req(ny);
            doc.join_line_into_prev(cy);
        }
        let _ = self.set_cursor_x(nx);
        let _ = self.set_cursor_y(ny);
        Ok(())
    }

    /// Interprets one key event against the current mode: motion, mode
    /// transition, or a structural edit of the shared document.
    pub fn handle_key(&mut self, doc: &mut Document, event: &KeyEvent) -> (r: Result<
        (),
        ChaiError,
    >)
        ensures
            handle_key_post(*old(self), *old(doc), *final(self), *final(doc), *event, r),
    {
        match event.code {
            KeyCode::Char(c) => {
                let mode = self.mode;
                match mode {
                    Mode::Normal => {
                        if c == ':' {
                            self.mode = Mode::Command;
                            Ok(())
                        } else if event.modifiers == KeyModifiers::Plain {
                            if c == 'h' {
                                self.move_left(doc)
                            } else if c == 'l' {
                                self.move_right(doc)
                            } else if c == 'k' {
                                self.move_up(doc);
                                Ok(())
                            } else if c == 'j' {
                                self.move_down(doc);
                                Ok(())
                            } else if c == 'i' {
                                self.mode = Mode::Insert;
                                Ok(())
                            } else if c == 'b' {
                                self.word_back(doc);
                                Ok(())
                            } else if c == 'e' {
                                self.word_end(doc);
                                Ok(())
                            } else if c == 'w' {
                                self.word_start(doc);
                                Ok(())
                            } else {
                                Ok(())
                            }
                        } else {
                            Ok(())
                        }
                    },
                    Mode::Insert => {
                        if event.modifiers == KeyModifiers::Plain || event.modifiers
                            == KeyModifiers::Shift {
                            self.add_char(doc, c)
                        } else {
                            Ok(())
                        }
                    },
                    Mode::Command => Ok(()),
                }
            },
            KeyCode::Left => {
                if event.modifiers == KeyModifiers::Plain {
                    self.move_left(doc)
                } else {
                    Ok(())
                }
            },
            KeyCode::Right => {
                if event.modifiers == KeyModifiers::Plain {
                    self.move_right(doc)
                } else {
                    Ok(())
                }
            },
            KeyCode::Up => {
                if event.modifiers == KeyModifiers::Plain {
                    self.move_up(doc);
                }
                Ok(())
            },
            KeyCode::Down => {
                if event.modifiers == KeyModifiers::Plain {
                    self.move_down(doc);
                }
                Ok(())
            },
            KeyCode::Esc => {
                if event.modifiers == KeyModifiers::Plain {
                    let mode = self.mode;
                    match mode {
                        Mode::Insert => {
                            self.mode = Mode::Normal;
                        },
                        Mode::Command => {
                            self.mode = Mode::Normal;
                        },
                        Mode::Normal => {},
                    }
                }
                Ok(())
            },
            KeyCode::Enter => {
                let mode = self.mode;
                if event.modifiers == KeyModifiers::Plain && (match mode {
                    Mode::Insert => true,
                    _ => false,
                }) {
                    self.new_line(doc)
                } else {
                    Ok(())
                }
            },
            KeyCode::Backspace => {
                let mode = self.mode;
                if event.modifiers == KeyModifiers::Plain && (match mode {
                    Mode::Insert => true,
                    _ => false,
                }) {
                    self.delete(doc)
                } else {
                    Ok(())
                }
            },
            KeyCode::Other => Ok(()),
        }
    }

    /// Repositions the viewport for the current cursor: the vertical offset
    /// follows by at most one row per pass, the horizontal offset snaps to
    /// keep the cursor visible while showing as much of the line as fits.
    pub fn scroll(&mut self, doc: &Document, window_size: TermSize) -> (r: Result<(), ChaiError>)
        ensures
            *final(self) == scrolled(*old(self), *doc, window_size),
            r == (if old(self).cursor.y < doc.lines_view().len() {
                Ok::<(), ChaiError>(())
            } else {
                Err::<(), ChaiError>(ChaiError::NoLine)
            }),
    {
        let size = match self.get_effective_size(window_size) {
            Ok(s) => s,
            Err(e) => {
                proof {
                    assert(false);
                }
                return Err(e);
            },
        };
        let cy = self.cursor.y;
        let cx = self.cursor.x;

        let dy = if cy >= self.offset.y {
            cy - self.offset.y
        } else {
            0
        };
        let hb: usize = if size.height >= 1 {
            (size.height - 1) as usize
        } else {
            0
        };
        if dy > hb {
            self.offset.y = self.offset.y + 1;
        }
        if cy < self.offset.y {
            self.offset.y = self.offset.y - 1;
        }

        match doc.line_len(cy) {
            Some(len) => {
                let effw = size.width as usize;
                let oc = if cx >= effw {
                    cx - effw
                } else {
                    0
                };
                let ol = if len >= effw {
                    len - effw
                } else {
                    0
                };
                self.offset.x = if oc < ol {
                    oc
                } else {
                    ol
                };
                Ok(())
            },
            None => Err(ChaiError::NoLine),
        }
    }

    /// The requested size clipped, per axis, to the space remaining between
    /// this view's screen position and the window edge.
    pub fn get_effective_size(&self, window_size: TermSize) -> (r: Result<TermSize, ChaiError>)
        ensures
            match r {
                Ok(t) => t.width == self.eff_width(window_size) && t.height == self.eff_height(
                    window_size,
                ),
                Err(_) => false,
            },
    {
        let sum_w: u32 = self.size.width as u32 + self.position.x as u32;
        let win_w: u32 = window_size.width as u32;
        let min_w: u32 = if sum_w < win_w {
            sum_w
        } else {
            win_w
        };
        let px: u32 = self.position.x as u32;
        let ew: u32 = if min_w >= px {
            min_w - px
        } else {
            0
        };

        let sum_h: u32 = self.size.height as u32 + self.position.y as u32;
        let win_h: u32 = window_size.height as u32;
        let min_h: u32 = if sum_h < win_h {
            sum_h
        } else {
            win_h
        };
        let py: u32 = self.position.y as u32;
        let eh: u32 = if min_h >= py {
            min_h - py
        } else {
            0
        };

        Ok(TermSize { width: ew as u16, height: eh as u16 })
    }

    /// The cursor's terminal cell: the in-document position minus the
    /// scroll offset, shifted by the view's screen position, with the
    /// column clamped to the visible end of the current line.
    pub fn get_cursor_term_pos(&self, doc: &Document) -> (r: Result<TermScreenCoords, ChaiError>)
        ensures
            term_pos_post(*self, *doc, r),
    {
        let cx = self.cursor.x;
        let cy = self.cursor.y;
        let ox = self.offset.x;
        let oy = self.offset.y;
        let px = self.position.x as usize;
        let py = self.position.y as usize;
        match doc.line_len(cy) {
            Some(len) => {
                let a = if cx >= ox {
                    cx - ox
                } else {
                    0
                };
                let b = if len >= ox {
                    len - ox
                } else {
                    0
                };
                let m = if a < b {
                    a
                } else {
                    b
                };
                let ybase = if cy >= oy {
                    cy - oy
                } else {
                    0
                };
                if m > 65535 {
                    return Err(ChaiError::CoordsTooLarge);
                }
                let tx = m + px;
                if tx > 65535 {
                    return Err(ChaiError::CoordsTooLarge);
                }
                if ybase > 65535 {
                    return Err(ChaiError::CoordsTooLarge);
                }
                let ty = ybase + py;
                if ty > 65535 {
                    return Err(ChaiError::CoordsTooLarge);
                }
                Ok(TermScreenCoords { x: tx as u16, y: ty as u16 })
            },
            None => Err(ChaiError::NoLine),
        }
    }

    /// Scrolls, then yields the visible rows: from the vertical offset, at
    /// most effective-height lines, each cut to the visible column range.
    /// The view never writes to a device; the caller paints the rows.
    pub fn render(&mut self, doc: &Document, window_size: TermSize) -> (r: Result<
        Vec<String>,
        ChaiError,
    >)
        ensures
            *final(self) == scrolled(*old(self), *doc, window_size),
            match r {
                Ok(rows) => old(self).cursor.y < doc.lines_view().len() && rows.deep_view()
                    == render_rows_spec(
                    scrolled(*old(self), *doc, window_size),
                    *doc,
                    window_size,
                ),
                Err(e) => old(self).cursor.y >= doc.lines_view().len() && e == ChaiError::NoLine,
            },
    {
        match self.scroll(doc, window_size) {
            Ok(_u) => {},
            Err(e) => {
                return Err(e);
            },
        }
        let size = match self.get_effective_size(window_size) {
            Ok(s) => s,
            Err(e) => {
                proof {
                    assert(false);
                }
                return Err(e);
            },
        };
        let n = doc.num_lines();
        let oy = self.offset.y;
        let ox = self.offset.x;
        let w_u16 = if self.size.width < size.width {
            self.size.width
        } else {
            size.width
        };
        let w = w_u16 as usize;
        let avail = if n > oy {
            n - oy
        } else {
            0
        };
        let eh = size.height as usize;
        let count = if eh < avail {
            eh
        } else {
            avail
        };
        let mut rows: Vec<String> = Vec::new();
        let mut i: usize = 0;
        while i < count
            invariant
                count <= avail,
                avail <= n,
                n == doc.lines_view().len(),
                oy + count <= n || avail == 0,
                avail == 0 ==> count == 0,
                oy == self.offset.y,
                ox == self.offset.x,
                w as int == imin(self.size.width as int, self.eff_width(window_size)),
                count as int == imin(
                    self.eff_height(window_size),
                    ssub(doc.lines_view().len() as int, self.offset.y as int),
                ),
                i <= count,
                rows@.len() == i,
                forall|k: int| 0 <= k < i ==> (#[trigger] rows@[k])@ == row_slice(
                    doc.lines_view()[self.offset.y + k],
                    self.offset.x as int,
                    w as int,
                ),
            decreases count - i,
        {
            let row = oy + i;
            let len = doc.line_len_req(row);
            if ox > len {
                rows.push(String::new());
            } else {
                let rem = len - ox;
                let end = if rem < w {
                    len
                } else {
                    ox + w
                };
                let s = doc.line_slice(row, ox, end);
                rows.push(s);
            }
            i += 1;
        }
        proof {
            assert(rows.deep_view() =~= render_rows_spec(*self, *doc, window_size));
        }
        Ok(rows)
    }

    /// Feeds one normalized event to the view; everything but a key event
    /// is an explicit no-op.
    pub fn update(&mut self, doc: &mut Document, event: &Event) -> (r: Result<(), ChaiError>)
        ensures
            update_post(*old(self), *old(doc), *final(self), *final(doc), *event, r),
    {
        match event {
            Event::Key(k) => self.handle_key(doc, k),
            Event::Other => Ok(()),
        }
    }
}

} // verus!
