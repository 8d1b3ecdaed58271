//! An editor component: a text view plus a read-only status line showing
//! the active mode. The status line owns its own single-line document of
//! derived display text; it never represents shared editable state.

use vstd::prelude::*;

use crate::coords::{TermScreenCoords, TermSize};
use crate::document::Document;
use crate::errors::ChaiError;
use crate::extended_linked_list::ExtendedLinkedList;
use crate::input::{Event, KeyCode};
use crate::line_store::rope_from_str;
use crate::text_block::{
    render_rows_spec, scrolled, term_pos_post, update_post, Mode, TextBlock,
};

verus! {

/// The status line: its own one-line document and the view that shows it.
pub struct InfoLine {
    pub content: Document,
    pub text_block: TextBlock,
}

pub struct Editor {
    pub text_block: TextBlock,
    pub info_line: InfoLine,
}

/// The status text shown for each mode.
pub open spec fn mode_text(m: Mode) -> Seq<char> {
    match m {
        Mode::Normal => "-- NORMAL --"@,
        Mode::Insert => "-- INSERT --"@,
        Mode::Command => "-- COMMAND --"@,
    }
}

fn mode_str(m: Mode) -> (s: &'static str)
    ensures
        s@ == mode_text(m),
{
    match m {
        Mode::Normal => "-- NORMAL --",
        Mode::Insert => "-- INSERT --",
        Mode::Command => "-- COMMAND --",
    }
}

/// In Command mode only Escape is interpreted: back to Normal. Every other
/// key is a no-op; the mode is explicitly incomplete.
pub open spec fn command_next_mode(m: Mode, ev: Event) -> Mode {
    match ev {
        Event::Key(k) => if k.code == KeyCode::Esc {
            Mode::Normal
        } else {
            m
        },
        Event::Other => m,
    }
}

impl Editor {
    /// A fresh editor component: the text view over the document with
    /// handle `doc_index`, and a one-row status line directly below it.
    pub fn new(
        doc_index: usize,
        size: TermSize,
        position: TermScreenCoords,
        cursor: Option<(usize, usize)>,
    ) -> (r: Editor)
        ensures
            r.text_block == TextBlock::new_spec(doc_index, size, position, cursor),
            r.info_line.text_block == TextBlock::new_spec(
                0,
                TermSize { width: size.width, height: 1 },
                TermScreenCoords { x: position.x, y: size.height },
                None,
            ),
            r.info_line.content.wf(),
            r.info_line.content.lines_view() == seq!["INSERT"@],
            r.info_line.content.dirty == false,
            r.info_line.content.file_path is None,
    {
        let info_content = Document {
            content: ExtendedLinkedList::from([rope_from_str("INSERT")]),
            dirty: false,
            file_path: None,
        };
        proof {
            assert(info_content.lines_view() =~= seq!["INSERT"@]);
        }
        Editor {
            text_block: TextBlock::new(doc_index, size, position, cursor),
            info_line: InfoLine {
                // The status view renders its own document, handed to it
                // explicitly; its document handle is never used.
                text_block: TextBlock::new(
                    0,
                    TermSize { width: size.width, height: 1 },
                    TermScreenCoords { x: position.x, y: size.height },
                    None,
                ),
                content: info_content,
            },
        }
    }

    fn update_command(&mut self, event: &Event) -> (r: Result<(), ChaiError>)
        ensures
            final(self).text_block == (TextBlock {
                mode: command_next_mode(old(self).text_block.mode, *event),
                ..old(self).text_block
            }),
            final(self).info_line == old(self).info_line,
            r == Ok::<(), ChaiError>(()),
    {
        match event {
            Event::Key(k) => {
                match k.code {
                    KeyCode::Esc => {
                        self.text_block.mode = Mode::Normal;
                    },
                    _ => {},
                }
            },
            Event::Other => {},
        }
        Ok(())
    }

    /// Feeds one event to the component: Command mode handles only Escape
    /// itself; every other mode forwards to the text view, which may edit
    /// the shared document.
    pub fn update(&mut self, doc: &mut Document, event: &Event) -> (r: Result<(), ChaiError>)
        ensures
            final(self).info_line == old(self).info_line,
            if old(self).text_block.mode == Mode::Command {
                &&& *final(doc) == *old(doc)
                &&& final(self).text_block == (TextBlock {
                    mode: command_next_mode(Mode::Command, *event),
                    ..old(self).text_block
                })
                &&& r == Ok::<(), ChaiError>(())
            } else {
                update_post(
                    old(self).text_block,
                    *old(doc),
                    final(self).text_block,
                    *final(doc),
                    *event,
                    r,
                )
            },
    {
        let mode = self.text_block.mode;
        match mode {
            Mode::Command => self.update_command(event),
            _ => self.text_block.update(doc, event),
        }
    }

    /// Renders the text view over its document, refreshes the status line
    /// from the current mode, and renders it; yields both row sets.
    pub fn render(&mut self, doc: &Document, window_size: TermSize) -> (r: Result<
        (Vec<String>, Vec<String>),
        ChaiError,
    >)
        ensures
            final(self).text_block == scrolled(old(self).text_block, *doc, window_size),
            if old(self).text_block.cursor.y >= doc.lines_view().len() {
                &&& r == Err::<(Vec<String>, Vec<String>), ChaiError>(ChaiError::NoLine)
                &&& final(self).info_line == old(self).info_line
            } else {
                &&& final(self).info_line.content.lines_view() == seq![
                    mode_text(old(self).text_block.mode),
                ]
                &&& final(self).info_line.content.dirty == old(self).info_line.content.dirty
                &&& final(self).info_line.content.file_path == old(
                    self,
                ).info_line.content.file_path
                &&& final(self).info_line.text_block == scrolled(
                    old(self).info_line.text_block,
                    final(self).info_line.content,
                    window_size,
                )
                &&& if old(self).info_line.text_block.cursor.y < 1 {
                    match r {
                        Ok(p) => {
                            &&& p.0.deep_view() == render_rows_spec(
                                final(self).text_block,
                                *doc,
                                window_size,
                            )
                            &&& p.1.deep_view() == render_rows_spec(
                                final(self).info_line.text_block,
                                final(self).info_line.content,
                                window_size,
                            )
                        },
                        Err(_) => false,
                    }
                } else {
                    r == Err::<(Vec<String>, Vec<String>), ChaiError>(ChaiError::NoLine)
                }
            },
    {
        let text_rows = match self.text_block.render(doc, window_size) {
            Ok(rows) => rows,
            Err(e) => {
                return Err(e);
            },
        };
        let ms = mode_str(self.text_block.mode);
        self.info_line.content.content = ExtendedLinkedList::from([rope_from_str(ms)]);
        proof {
            assert(self.info_line.content.lines_view() =~= seq![
                mode_text(old(self).text_block.mode),
            ]);
        }
        let info_rows = match self.info_line.text_block.render(
            &self.info_line.content,
            window_size,
        ) {
            Ok(rows) => rows,
            Err(e) => {
                return Err(e);
            },
        };
        Ok((text_rows, info_rows))
    }

    /// The terminal cell of the text view's cursor.
    pub fn get_cursor_term_pos(&self, doc: &Document) -> (r: Result<TermScreenCoords, ChaiError>)
        ensures
            term_pos_post(self.text_block, *doc, r),
    {
        self.text_block.get_cursor_term_pos(doc)
    }
}

} // verus!
