//! A pane: a tiled collection of views sharing a screen region. Views hold
//! handles into the editor's documents; the pane routes each view to its
//! document when rendering.

use vstd::prelude::*;

use crate::coords::TermScreenCoords;
use crate::coords::TermSize;
use crate::document::Document;
use crate::errors::ChaiError;
use crate::text_block::{render_rows_spec, scrolled, TextBlock};

verus! {

/// What one view contributes to a render pass: its screen position and its
/// visible rows, top to bottom.
pub struct ViewFrame {
    pub position: TermScreenCoords,
    pub rows: Vec<String>,
}

pub struct Pane {
    pub views: Vec<TextBlock>,
    pub active_view_index: usize,
}

/// A view can render against these documents: its handle resolves and its
/// cursor row exists.
pub open spec fn view_render_ok(v: TextBlock, docs: Seq<Document>) -> bool {
    &&& v.doc_index < docs.len()
    &&& v.cursor.y < docs[v.doc_index as int].lines_view().len()
}

/// View `k` of the pane was scrolled for this pass.
pub open spec fn view_scrolled_at(
    p0: Pane,
    docs: Seq<Document>,
    window: TermSize,
    p1: Pane,
    k: int,
) -> bool {
    p1.views@[k] == scrolled(p0.views@[k], docs[p0.views@[k].doc_index as int], window)
}

/// Frame `k` holds view `k`'s screen position and its rows for this pass.
pub open spec fn frame_matches_at(
    p0: Pane,
    docs: Seq<Document>,
    window: TermSize,
    frames: Seq<ViewFrame>,
    k: int,
) -> bool {
    let v0 = p0.views@[k];
    &&& frames[k].position == v0.position
    &&& frames[k].rows.deep_view() == render_rows_spec(
        scrolled(v0, docs[v0.doc_index as int], window),
        docs[v0.doc_index as int],
        window,
    )
}

/// Every view of the pane resolved its document and was scrolled for this
/// pass; nothing else of the pane changed.
pub open spec fn pane_scrolled_ok(
    p0: Pane,
    docs: Seq<Document>,
    window: TermSize,
    p1: Pane,
) -> bool {
    &&& p1.active_view_index == p0.active_view_index
    &&& p1.views@.len() == p0.views@.len()
    &&& forall|k: int| 0 <= k < p0.views@.len() ==> view_render_ok(#[trigger] p0.views@[k], docs)
    &&& forall|k: int|
        0 <= k < p0.views@.len() ==> #[trigger] view_scrolled_at(p0, docs, window, p1, k)
}

/// What a pane render pass does: on success every view is scrolled and
/// yields its frame; on failure the views before the first failing one are
/// scrolled, the failing one is scrolled when only its cursor row was bad,
/// and the rest are untouched.
pub open spec fn pane_render_post(
    p0: Pane,
    docs: Seq<Document>,
    window: TermSize,
    p1: Pane,
    r: Result<Vec<ViewFrame>, ChaiError>,
) -> bool {
    &&& p1.active_view_index == p0.active_view_index
    &&& p1.views@.len() == p0.views@.len()
    &&& match r {
        Ok(frames) => {
            &&& frames@.len() == p0.views@.len()
            &&& forall|k: int|
                0 <= k < p0.views@.len() ==> view_render_ok(#[trigger] p0.views@[k], docs)
            &&& forall|k: int|
                0 <= k < p0.views@.len() ==> #[trigger] view_scrolled_at(p0, docs, window, p1, k)
            &&& forall|k: int|
                0 <= k < p0.views@.len() ==> #[trigger] frame_matches_at(
                    p0,
                    docs,
                    window,
                    frames@,
                    k,
                )
        },
        Err(e) => exists|j: int|
            {
                &&& 0 <= j < p0.views@.len()
                &&& !view_render_ok(#[trigger] p0.views@[j], docs)
                &&& (forall|k: int| 0 <= k < j ==> view_render_ok(#[trigger] p0.views@[k], docs))
                &&& (forall|k: int|
                    0 <= k < j ==> #[trigger] view_scrolled_at(p0, docs, window, p1, k))
                &&& (forall|k: int|
                    j < k < p0.views@.len() ==> p1.views@[k] == #[trigger] p0.views@[k])
                &&& if p0.views@[j].doc_index < docs.len() {
                    view_scrolled_at(p0, docs, window, p1, j) && e == ChaiError::NoLine
                } else {
                    p1.views@[j] == p0.views@[j] && e == ChaiError::NoDocument
                }
            },
    }
}

impl Pane {
    /// A pane holding one fresh view over the document with handle
    /// `doc_index`.
    pub fn new(
        doc_index: usize,
        size: TermSize,
        position: TermScreenCoords,
        cursor: Option<(usize, usize)>,
    ) -> (r: Pane)
        ensures
            r.active_view_index == 0,
            r.views@.len() == 1,
            r.views@[0] == TextBlock::new_spec(doc_index, size, position, cursor),
    {
        let v = TextBlock::new(doc_index, size, position, cursor);
        Pane { views: vec![v], active_view_index: 0 }
    }

    /// The active view, absent when the active index is out of bounds.
    pub fn get_active_view(&self) -> (r: Result<&TextBlock, ChaiError>)
        ensures
            match r {
                Ok(v) => self.active_view_index < self.views@.len() && *v == self.views@[
                    self.active_view_index as int
                ],
                Err(e) => self.active_view_index >= self.views@.len() && e == ChaiError::NoView,
            },
    {
        if self.active_view_index < self.views.len() {
            Ok(&self.views[self.active_view_index])
        } else {
            Err(ChaiError::NoView)
        }
    }

    /// A mutable borrow of the active view, which must exist.
    pub fn get_current_view_mut(&mut self) -> (r: &mut TextBlock)
        requires
            old(self).active_view_index < old(self).views@.len(),
        ensures
            *r == old(self).views@[old(self).active_view_index as int],
            final(self).views@ == old(self).views@.update(
                old(self).active_view_index as int,
                *final(r),
            ),
            final(self).active_view_index == old(self).active_view_index,
    {
        let i = self.active_view_index;
        &mut self.views[i]
    }

    /// Renders every view in turn against its document; stops at the first
    /// structural failure.
    pub fn render(&mut self, docs: &Vec<Document>, window_size: TermSize) -> (r: Result<
        Vec<ViewFrame>,
        ChaiError,
    >)
        ensures
            pane_render_post(*old(self), docs@, window_size, *final(self), r),
    {
        let mut frames: Vec<ViewFrame> = Vec::new();
        let n = self.views.len();
        let mut k: usize = 0;
        while k < n
            invariant
                n == self.views@.len(),
                self.views@.len() == old(self).views@.len(),
                self.active_view_index == old(self).active_view_index,
                k <= n,
                frames@.len() == k,
                forall|j: int| 0 <= j < k ==> view_render_ok(#[trigger] old(self).views@[j], docs@),
                forall|j: int|
                    0 <= j < k ==> #[trigger] view_scrolled_at(
                        *old(self),
                        docs@,
                        window_size,
                        *self,
                        j,
                    ),
                forall|j: int|
                    0 <= j < k ==> #[trigger] frame_matches_at(
                        *old(self),
                        docs@,
                        window_size,
                        frames@,
                        j,
                    ),
                forall|j: int| k <= j < n ==> self.views@[j] == #[trigger] old(self).views@[j],
            decreases n - k,
        {
            let ghost self_top = *self;
            let ghost frames_top = frames@;
            let di = self.views[k].doc_index;
            if di >= docs.len() {
                proof {
                    assert(!view_render_ok(old(self).views@[k as int], docs@));
                }
                return Err(ChaiError::NoDocument);
            }
            let d = &docs[di];
            let view = &mut self.views[k];
            let pos = view.position;
            let res = view.render(d, window_size);
            proof {
                assert forall|j: int| 0 <= j < n && j != k implies self.views@[j] == #[trigger] self_top.views@[j] by {
                    assert(self.views@ == self_top.views@.update(k as int, self.views@[k as int]));
                }
                assert(view_scrolled_at(*old(self), docs@, window_size, *self, k as int));
                assert forall|j: int| 0 <= j < k implies #[trigger] view_scrolled_at(
                    *old(self),
                    docs@,
                    window_size,
                    *self,
                    j,
                ) by {
                    assert(self.views@[j] == self_top.views@[j]);
                    assert(view_scrolled_at(*old(self), docs@, window_size, self_top, j));
                }
                assert forall|j: int| (k as int) < j < n implies self.views@[j] == #[trigger] old(
                    self,
                ).views@[j] by {
                    assert(self.views@[j] == self_top.views@[j]);
                }
            }
            match res {
                Ok(rows) => {
                    frames.push(ViewFrame { position: pos, rows });
                    proof {
                        assert forall|j: int| 0 <= j < k implies #[trigger] frame_matches_at(
                            *old(self),
                            docs@,
                            window_size,
                            frames@,
                            j,
                        ) by {
                            assert(frames@[j] == frames_top[j]);
                            assert(frame_matches_at(*old(self), docs@, window_size, frames_top, j));
                        }
                        assert(frame_matches_at(*old(self), docs@, window_size, frames@, k as int));
                    }
                },
                Err(e) => {
                    proof {
                        assert(!view_render_ok(old(self).views@[k as int], docs@));
                    }
                    return Err(e);
                },
            }
            k += 1;
        }
        Ok(frames)
    }
}

} // verus!
