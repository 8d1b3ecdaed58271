//! The editor root: the open documents and the panes over them. Processing
//! is single-threaded and step-per-event: one normalized input event is
//! fully handled before the next is read, so all access to a shared
//! document is serialized here.

use vstd::prelude::*;

use crate::coords::{TermScreenCoords, TermSize};
use crate::document::Document;
use crate::errors::ChaiError;
use crate::input::Event;
use crate::pane::{pane_render_post, pane_scrolled_ok, Pane, ViewFrame};
use crate::text_block::update_post;

verus! {

pub struct Chai {
    pub panes: Vec<Pane>,
    pub active_pane_index: usize,
    pub window_size: TermSize,
    pub documents: Vec<Document>,
}

/// What one event step does: the event reaches the active pane's active
/// view and that view's document; every other pane, view and document stays
/// as it was. A missing pane, view or document is reported and nothing
/// changes.
pub open spec fn handle_event_post(c0: Chai, c1: Chai, ev: Event, r: Result<(), ChaiError>) -> bool {
    let api = c0.active_pane_index as int;
    if api >= c0.panes@.len() {
        c1 == c0 && r == Err::<(), ChaiError>(ChaiError::NoPane)
    } else {
        let p0 = c0.panes@[api];
        let avi = p0.active_view_index as int;
        if avi >= p0.views@.len() {
            c1 == c0 && r == Err::<(), ChaiError>(ChaiError::NoView)
        } else {
            let v0 = p0.views@[avi];
            let di = v0.doc_index as int;
            if di >= c0.documents@.len() {
                c1 == c0 && r == Err::<(), ChaiError>(ChaiError::NoDocument)
            } else {
                &&& c1.window_size == c0.window_size
                &&& c1.active_pane_index == c0.active_pane_index
                &&& c1.panes@.len() == c0.panes@.len()
                &&& (forall|k: int|
                    0 <= k < c0.panes@.len() && k != api ==> c1.panes@[k] == #[trigger] c0.panes@[k])
                &&& c1.panes@[api].active_view_index == p0.active_view_index
                &&& c1.panes@[api].views@.len() == p0.views@.len()
                &&& (forall|k: int|
                    0 <= k < p0.views@.len() && k != avi ==> c1.panes@[api].views@[k]
                        == #[trigger] p0.views@[k])
                &&& c1.documents@.len() == c0.documents@.len()
                &&& (forall|k: int|
                    0 <= k < c0.documents@.len() && k != di ==> c1.documents@[k]
                        == #[trigger] c0.documents@[k])
                &&& update_post(
                    v0,
                    c0.documents@[di],
                    c1.panes@[api].views@[avi],
                    c1.documents@[di],
                    ev,
                    r,
                )
            }
        }
    }
}

/// What a full render pass does: every pane renders its views against the
/// current documents; on a structural failure the pass stops there, with
/// the earlier panes already scrolled and the later ones untouched.
pub open spec fn chai_render_post(c0: Chai, c1: Chai, r: Result<
    Vec<Vec<ViewFrame>>,
    ChaiError,
>) -> bool {
    &&& c1.documents == c0.documents
    &&& c1.active_pane_index == c0.active_pane_index
    &&& c1.window_size == c0.window_size
    &&& c1.panes@.len() == c0.panes@.len()
    &&& match r {
        Ok(frames) => {
            &&& frames@.len() == c0.panes@.len()
            &&& forall|k: int|
                0 <= k < c0.panes@.len() ==> #[trigger] pane_render_post(
                    c0.panes@[k],
                    c0.documents@,
                    c0.window_size,
                    c1.panes@[k],
                    Ok(frames@[k]),
                )
        },
        Err(e) => exists|j: int|
            {
                &&& 0 <= j < c0.panes@.len()
                &&& (forall|k: int|
                    0 <= k < j ==> #[trigger] pane_scrolled_ok(
                        c0.panes@[k],
                        c0.documents@,
                        c0.window_size,
                        c1.panes@[k],
                    ))
                &&& #[trigger] pane_render_post(
                    c0.panes@[j],
                    c0.documents@,
                    c0.window_size,
                    c1.panes@[j],
                    Err::<Vec<ViewFrame>, ChaiError>(e),
                )
                &&& (forall|k: int|
                    j < k < c0.panes@.len() ==> c1.panes@[k] == #[trigger] c0.panes@[k])
            },
    }
}

impl Chai {
    /// A fresh editor: one document built from the given lines, shown by
    /// one pane with one view that leaves the bottom terminal row free for
    /// a status line.
    pub fn new(file_path: Option<String>, lines: Vec<String>, window_size: TermSize) -> (r: Chai)
        requires
            window_size.height >= 1,
        ensures
            r.active_pane_index == 0,
            r.window_size == window_size,
            r.documents@.len() == 1,
            r.documents@[0].wf(),
            r.documents@[0].dirty == false,
            r.documents@[0].file_path == file_path,
            lines@.len() > 0 ==> r.documents@[0].lines_view() == lines.deep_view(),
            lines@.len() == 0 ==> r.documents@[0].lines_view() == seq![Seq::<char>::empty()],
            r.panes@.len() == 1,
            r.panes@[0].active_view_index == 0,
            r.panes@[0].views@.len() == 1,
            r.panes@[0].views@[0] == crate::text_block::TextBlock::new_spec(
                0,
                TermSize { width: window_size.width, height: (window_size.height - 1) as u16 },
                TermScreenCoords { x: 0, y: 0 },
                None,
            ),
    {
        let doc = Document::new(file_path, lines);
        let pane = Pane::new(
            0,
            TermSize { width: window_size.width, height: window_size.height - 1 },
            TermScreenCoords { x: 0, y: 0 },
            None,
        );
        Chai { panes: vec![pane], active_pane_index: 0, window_size, documents: vec![doc] }
    }

    /// The active pane, absent when the active index is out of bounds.
    pub fn get_active_pane(&self) -> (r: Result<&Pane, ChaiError>)
        ensures
            match r {
                Ok(p) => self.active_pane_index < self.panes@.len() && *p == self.panes@[
                    self.active_pane_index as int
                ],
                Err(e) => self.active_pane_index >= self.panes@.len() && e == ChaiError::NoPane,
            },
    {
        if self.active_pane_index < self.panes.len() {
            Ok(&self.panes[self.active_pane_index])
        } else {
            Err(ChaiError::NoPane)
        }
    }

    /// A mutable borrow of the active pane, which must exist.
    pub fn get_current_pane_mut(&mut self) -> (r: &mut Pane)
        requires
            old(self).active_pane_index < old(self).panes@.len(),
        ensures
            *r == old(self).panes@[old(self).active_pane_index as int],
            final(self).panes@ == old(self).panes@.update(
                old(self).active_pane_index as int,
                *final(r),
            ),
            final(self).active_pane_index == old(self).active_pane_index,
            final(self).window_size == old(self).window_size,
            final(self).documents == old(self).documents,
    {
        let i = self.active_pane_index;
        &mut self.panes[i]
    }

    /// Routes one normalized event to the active view, which edits its
    /// document in place; sibling views are not touched and re-validate
    /// their cursors lazily, on their own next read.
    pub fn handle_event(&mut self, event: Event) -> (r: Result<(), ChaiError>)
        ensures
            handle_event_post(*old(self), *final(self), event, r),
    {
        let api = self.active_pane_index;
        if api >= self.panes.len() {
            return Err(ChaiError::NoPane);
        }
        let avi = self.panes[api].active_view_index;
        if avi >= self.panes[api].views.len() {
            return Err(ChaiError::NoView);
        }
        let di = self.panes[api].views[avi].doc_index;
        if di >= self.documents.len() {
            return Err(ChaiError::NoDocument);
        }
        let doc = &mut self.documents[di];
        let view = &mut self.panes[api].views[avi];
        view.update(doc, &event)
    }

    /// Renders every pane against the current documents; the core never
    /// writes to a device, it yields the frames for the caller to paint.
    pub fn render(&mut self) -> (r: Result<Vec<Vec<ViewFrame>>, ChaiError>)
        ensures
            chai_render_post(*old(self), *final(self), r),
    {
        let mut frames: Vec<Vec<ViewFrame>> = Vec::new();
        let n = self.panes.len();
        let ws = self.window_size;
        let mut i: usize = 0;
        while i < n
            invariant
                n == self.panes@.len(),
                self.panes@.len() == old(self).panes@.len(),
                self.documents == old(self).documents,
                self.active_pane_index == old(self).active_pane_index,
                self.window_size == old(self).window_size,
                ws == old(self).window_size,
                i <= n,
                frames@.len() == i,
                forall|k: int|
                    0 <= k < i ==> #[trigger] pane_render_post(
                        old(self).panes@[k],
                        old(self).documents@,
                        ws,
                        self.panes@[k],
                        Ok(frames@[k]),
                    ),
                forall|k: int| i <= k < n ==> self.panes@[k] == #[trigger] old(self).panes@[k],
            decreases n - i,
        {
            let ghost self_top = *self;
            let ghost frames_top = frames@;
            let pane = &mut self.panes[i];
            let res = pane.render(&self.documents, ws);
            proof {
                assert forall|j: int| 0 <= j < n && j != i implies self.panes@[j]
                    == #[trigger] self_top.panes@[j] by {
                    assert(self.panes@ == self_top.panes@.update(i as int, self.panes@[i as int]));
                }
            }
            match res {
                Ok(fs) => {
                    frames.push(fs);
                    proof {
                        assert forall|k: int| 0 <= k < i implies #[trigger] pane_render_post(
                            old(self).panes@[k],
                            old(self).documents@,
                            ws,
                            self.panes@[k],
                            Ok(frames@[k]),
                        ) by {
                            assert(frames@[k] == frames_top[k]);
                            assert(self.panes@[k] == self_top.panes@[k]);
                            assert(pane_render_post(
                                old(self).panes@[k],
                                old(self).documents@,
                                ws,
                                self_top.panes@[k],
                                Ok(frames_top[k]),
                            ));
                        }
                        assert(pane_render_post(
                            old(self).panes@[i as int],
                            old(self).documents@,
                            ws,
                            self.panes@[i as int],
                            Ok(frames@[i as int]),
                        ));
                    }
                },
                Err(e) => {
                    proof {
                        assert(pane_render_post(
                            old(self).panes@[i as int],
                            old(self).documents@,
                            ws,
                            self.panes@[i as int],
                            Err::<Vec<ViewFrame>, ChaiError>(e),
                        ));
                        assert forall|k: int| 0 <= k < i implies #[trigger] pane_scrolled_ok(
                            old(self).panes@[k],
                            old(self).documents@,
                            ws,
                            self.panes@[k],
                        ) by {
                            assert(self.panes@[k] == self_top.panes@[k]);
                            assert(pane_render_post(
                                old(self).panes@[k],
                                old(self).documents@,
                                ws,
                                self_top.panes@[k],
                                Ok(frames_top[k]),
                            ));
                        }
                        assert forall|k: int| (i as int) < k < n implies self.panes@[k]
                            == #[trigger] old(self).panes@[k] by {
                            assert(self.panes@[k] == self_top.panes@[k]);
                        }
                    }
                    return Err(e);
                },
            }
            i += 1;
        }
        Ok(frames)
    }

    /// The editor closes when no pane is left.
    pub fn should_close(&self) -> (r: bool)
        ensures
            r == (self.panes@.len() == 0),
    {
        self.panes.len() == 0
    }
}

} // verus!
