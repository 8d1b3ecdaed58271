//! The document: an ordered, never-empty sequence of line stores, a dirty
//! flag, and an optional source identity. Content arrives as an already
//! decoded sequence of line strings; reading and writing storage is the
//! caller's job.

use vstd::prelude::*;

use crate::extended_linked_list::ExtendedLinkedList;
use crate::line_store::{
    rope_append, rope_chars, rope_chars_vec, rope_from_str, rope_insert_char, rope_len_chars,
    rope_new, rope_remove_char, rope_slice_string, rope_split_off,
};

verus! {

pub struct Document {
    pub content: ExtendedLinkedList<ropey::Rope>,
    pub dirty: bool,
    pub file_path: Option<String>,
}

impl Document {
    /// The document as a sequence of lines, each a sequence of characters.
    pub open spec fn lines_view(self) -> Seq<Seq<char>> {
        self.content@.map(|i: int, r: ropey::Rope| rope_chars(r))
    }

    /// A document always holds at least one line.
    pub open spec fn wf(self) -> bool {
        self.lines_view().len() >= 1
    }

    /// Builds a document from externally supplied line strings; with no
    /// lines given it holds a single empty line.
    pub fn new(file_path: Option<String>, lines: Vec<String>) -> (d: Document)
        ensures
            d.wf(),
            d.dirty == false,
            d.file_path == file_path,
            lines@.len() > 0 ==> d.lines_view() == lines.deep_view(),
            lines@.len() == 0 ==> d.lines_view() == seq![Seq::<char>::empty()],
    {
        if lines.len() == 0 {
            let content = ExtendedLinkedList::from([rope_new()]);
            let d = Document { content, dirty: false, file_path };
            proof {
                assert(d.lines_view() =~= seq![Seq::<char>::empty()]);
            }
            d
        } else {
            let mut ropes: Vec<ropey::Rope> = Vec::new();
            let mut i: usize = 0;
            while i < lines.len()
                invariant
                    i <= lines@.len(),
                    ropes@.len() == i,
                    forall|k: int| 0 <= k < i ==> rope_chars(#[trigger] ropes@[k]) == lines@[k]@,
                decreases lines@.len() - i,
            {
                let r = rope_from_str(lines[i].as_str());
                ropes.push(r);
                i += 1;
            }
            let content = ExtendedLinkedList::from_vec(ropes);
            let d = Document { content, dirty: false, file_path };
            proof {
                assert(d.lines_view() =~= lines.deep_view());
            }
            d
        }
    }

    pub fn get_content(&self) -> (r: &ExtendedLinkedList<ropey::Rope>)
        ensures
            r == &self.content,
    {
        &self.content
    }

    pub fn num_lines(&self) -> (n: usize)
        ensures
            n == self.lines_view().len(),
    {
        self.content.len()
    }

    /// The character count of line `row`, absent when the row is out of
    /// bounds.
    pub fn line_len(&self, row: usize) -> (r: Option<usize>)
        ensures
            match r {
                Some(n) => row < self.lines_view().len() && n == self.lines_view()[
                    row as int
                ].len(),
                None => row >= self.lines_view().len(),
            },
    {
        match self.content.get(row) {
            Some(line) => Some(rope_len_chars(line)),
            None => None,
        }
    }

    /// The text of line `row` as a string, absent when the row is out of
    /// bounds.
    pub fn line_text(&self, row: usize) -> (r: Option<String>)
        ensures
            row < self.lines_view().len() ==> (match r {
                Some(s) => s@ == self.lines_view()[row as int],
                None => false,
            }),
            row >= self.lines_view().len() ==> r is None,
    {
        match self.content.get(row) {
            Some(line) => {
                let n = rope_len_chars(line);
                let s = rope_slice_string(line, 0, n);
                proof {
                    assert(s@ =~= self.lines_view()[row as int]);
                }
                Some(s)
            },
            None => None,
        }
    }

    /// The character count of line `row`, which must exist.
    pub(crate) fn line_len_req(&self, row: usize) -> (n: usize)
        requires
            row < self.lines_view().len(),
        ensures
            n == self.lines_view()[row as int].len(),
    {
        match self.content.get(row) {
            Some(line) => rope_len_chars(line),
            None => {
                proof {
                    assert(false);
                }
                0
            },
        }
    }

    /// The characters of line `row`, which must exist.
    pub(crate) fn line_chars(&self, row: usize) -> (v: Vec<char>)
        requires
            row < self.lines_view().len(),
        ensures
            v@ == self.lines_view()[row as int],
    {
        match self.content.get(row) {
            Some(line) => rope_chars_vec(line),
            None => {
                proof {
                    assert(false);
                }
                Vec::new()
            },
        }
    }

    /// The text of line `row` between character offsets `start` and `end`,
    /// which must be in bounds.
    pub(crate) fn line_slice(&self, row: usize, start: usize, end: usize) -> (s: String)
        requires
            row < self.lines_view().len(),
            start <= end <= self.lines_view()[row as int].len(),
        ensures
            s@ == self.lines_view()[row as int].subrange(start as int, end as int),
    {
        match self.content.get(row) {
            Some(line) => rope_slice_string(line, start, end),
            None => {
                proof {
                    assert(false);
                }
                String::new()
            },
        }
    }

    /// Splices `ch` into line `row` at character offset `col`.
    pub fn insert_char_at(&mut self, row: usize, col: usize, ch: char)
        requires
            row < old(self).lines_view().len(),
            col <= old(self).lines_view()[row as int].len(),
        ensures
            final(self).lines_view() == old(self).lines_view().update(
                row as int,
                old(self).lines_view()[row as int].insert(col as int, ch),
            ),
            final(self).dirty == old(self).dirty,
            final(self).file_path == old(self).file_path,
    {
        let line = self.content.get_mut(row);
        rope_insert_char(line, col, ch);
        proof {
            assert(self.lines_view() =~= old(self).lines_view().update(
                row as int,
                old(self).lines_view()[row as int].insert(col as int, ch),
            ));
        }
    }

    /// Removes the character at offset `col` of line `row`.
    pub fn remove_char_at(&mut self, row: usize, col: usize)
        requires
            row < old(self).lines_view().len(),
            col < old(self).lines_view()[row as int].len(),
        ensures
            final(self).lines_view() == old(self).lines_view().update(
                row as int,
                old(self).lines_view()[row as int].remove(col as int),
            ),
            final(self).dirty == old(self).dirty,
            final(self).file_path == old(self).file_path,
    {
        let line = self.content.get_mut(row);
        rope_remove_char(line, col);
        proof {
            assert(self.lines_view() =~= old(self).lines_view().update(
                row as int,
                old(self).lines_view()[row as int].remove(col as int),
            ));
        }
    }

    /// Cuts line `row` at offset `col`: the head stays at `row`, the tail
    /// becomes a new line at `row + 1`.
    pub fn split_line_at(&mut self, row: usize, col: usize)
        requires
            row < old(self).lines_view().len(),
            col <= old(self).lines_view()[row as int].len(),
        ensures
            final(self).lines_view() == old(self).lines_view().update(
                row as int,
                old(self).lines_view()[row as int].subrange(0, col as int),
            ).insert(
                row as int + 1,
                old(self).lines_view()[row as int].subrange(
                    col as int,
                    old(self).lines_view()[row as int].len() as int,
                ),
            ),
            final(self).dirty == old(self).dirty,
            final(self).file_path == old(self).file_path,
    {
        let n = self.content.len();
        let line = self.content.get_mut(row);
        let tail = rope_split_off(line, col);
        proof {
            assert(row < n <= usize::MAX);
        }
        self.content.push_at(row + 1, tail);
        proof {
            assert(self.lines_view() =~= old(self).lines_view().update(
                row as int,
                old(self).lines_view()[row as int].subrange(0, col as int),
            ).insert(
                row as int + 1,
                old(self).lines_view()[row as int].subrange(
                    col as int,
                    old(self).lines_view()[row as int].len() as int,
                ),
            ));
        }
    }

    /// Removes line `row` and appends its content onto line `row - 1`.
    pub fn join_line_into_prev(&mut self, row: usize)
        requires
            1 <= row < old(self).lines_view().len(),
        ensures
            final(self).lines_view() == old(self).lines_view().update(
                row as int - 1,
                old(self).lines_view()[row as int - 1] + old(self).lines_view()[row as int],
            ).remove(row as int),
            final(self).dirty == old(self).dirty,
            final(self).file_path == old(self).file_path,
    {
        let removed = self.content.remove_at(row);
        match removed {
            Some(r) => {
                let prev = self.content.get_mut(row - 1);
                rope_append(prev, r);
                proof {
                    assert(self.lines_view() =~= old(self).lines_view().update(
                        row as int - 1,
                        old(self).lines_view()[row as int - 1]
                            + old(self).lines_view()[row as int],
                    ).remove(row as int));
                }
            },
            None => {
                proof {
                    assert(false);
                }
            },
        }
    }
}

} // verus!
