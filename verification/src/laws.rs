//! The engine's cross-cutting guarantees, stated over the same predicates
//! the methods' contracts use and proved once for all inputs.

use vstd::prelude::*;

use crate::chai::{handle_event_post, Chai};
use crate::document::Document;
use crate::errors::ChaiError;
use crate::input::Event;
use crate::text_block::{
    delete_post, imin, move_down_post, move_right_post, move_up_post, new_line_post,
    render_rows_spec, scrolled, ssub, TextBlock,
};
use crate::coords::TermSize;

verus! {

/// For any document with at least one line, the cursor row is inside
/// `[0, N-1]` after an up or a down step — and so after any sequence of
/// them, each step starting where the last ended.
pub proof fn lemma_vertical_motion_keeps_row_in_range(
    v0: TextBlock,
    d0: Document,
    v1: TextBlock,
    d1: Document,
)
    requires
        d0.wf(),
        move_up_post(v0, d0, v1, d1) || move_down_post(v0, d0, v1, d1),
    ensures
        v1.cursor.y < d0.lines_view().len(),
{
}

/// Right motion is monotonic non-decreasing, and a cursor at or inside the
/// line's length never moves past it.
pub proof fn lemma_right_motion_monotonic(
    v0: TextBlock,
    d0: Document,
    v1: TextBlock,
    d1: Document,
    r: Result<(), ChaiError>,
)
    requires
        move_right_post(v0, d0, v1, d1, r),
    ensures
        v1.cursor.x >= v0.cursor.x,
        v0.cursor.y < d0.lines_view().len() && v0.cursor.x <= d0.lines_view()[
            v0.cursor.y as int
        ].len() ==> v1.cursor.x <= d0.lines_view()[v0.cursor.y as int].len(),
{
}

/// Backspace at `(column 0, row 0)` is a no-op: the document and the whole
/// view, cursor included, are unchanged.
pub proof fn lemma_backspace_origin_noop(
    v0: TextBlock,
    d0: Document,
    v1: TextBlock,
    d1: Document,
    r: Result<(), ChaiError>,
)
    requires
        d0.wf(),
        delete_post(v0, d0, v1, d1, r),
        v0.cursor.x == 0,
        v0.cursor.y == 0,
    ensures
        d1 == d0,
        v1 == v0,
        r == Ok::<(), ChaiError>(()),
{
}

/// Enter at the end of a line of length L, followed immediately by
/// Backspace, restores the document's lines and leaves the cursor at
/// `(L, row)`.
pub proof fn lemma_enter_backspace_round_trip(
    v0: TextBlock,
    d0: Document,
    v1: TextBlock,
    d1: Document,
    v2: TextBlock,
    d2: Document,
    r1: Result<(), ChaiError>,
    r2: Result<(), ChaiError>,
)
    requires
        d0.wf(),
        v0.cursor.y < d0.lines_view().len(),
        v0.cursor.x == d0.lines_view()[v0.cursor.y as int].len(),
        new_line_post(v0, d0, v1, d1, r1),
        delete_post(v1, d1, v2, d2, r2),
    ensures
        d2.lines_view() == d0.lines_view(),
        d2.dirty == d0.dirty,
        d2.file_path == d0.file_path,
        v2.cursor.y == v0.cursor.y,
        v2.cursor.x == v0.cursor.x,
{
    let lines = d0.lines_view();
    let cy = v0.cursor.y as int;
    let line_len = lines[cy].len() as int;
    assert(imin(v0.cursor.x as int, line_len) == line_len);
    assert(lines[cy].subrange(0, line_len) =~= lines[cy]);
    assert(lines[cy].subrange(line_len, line_len) =~= Seq::<char>::empty());
    assert(d1.lines_view()[cy] == lines[cy]);
    assert(d1.lines_view()[cy + 1] =~= Seq::<char>::empty());
    assert(d1.lines_view().len() == lines.len() + 1);
    assert(v1.cursor.y == cy + 1 && v1.cursor.x == 0);
    assert(imin(v1.cursor.x as int, d1.lines_view()[cy + 1].len() as int) == 0);
    assert(d1.lines_view()[cy] + d1.lines_view()[cy + 1] =~= lines[cy]);
    assert(d2.lines_view() =~= d0.lines_view());
}

/// Per render pass the vertical offset follows the cursor by at most one
/// row: it grows by exactly 1 exactly when the cursor crossed the bottom
/// boundary, shrinks by exactly 1 exactly when it crossed the top, and
/// otherwise stays. Catching up to a multi-row jump takes several passes.
pub proof fn lemma_vertical_scroll_one_step(v: TextBlock, d: Document, w: TermSize)
    ensures
        ssub(v.cursor.y as int, v.offset.y as int) > ssub(v.eff_height(w), 1) ==> scrolled(
            v,
            d,
            w,
        ).offset.y == v.offset.y + 1,
        !(ssub(v.cursor.y as int, v.offset.y as int) > ssub(v.eff_height(w), 1)) && (
        v.cursor.y as int) < v.offset.y as int ==> scrolled(v, d, w).offset.y == v.offset.y - 1,
        !(ssub(v.cursor.y as int, v.offset.y as int) > ssub(v.eff_height(w), 1)) && !((
        v.cursor.y as int) < v.offset.y as int) ==> scrolled(v, d, w).offset.y == v.offset.y,
{
}

/// A render pass reads the document it is handed at that moment: over equal
/// lines, scrolling and the rendered rows are identical. So an edit made
/// through one view of a shared document shows in a sibling view's very
/// next render.
pub proof fn lemma_render_reads_current_lines(
    v: TextBlock,
    d1: Document,
    d2: Document,
    w: TermSize,
)
    requires
        d1.lines_view() == d2.lines_view(),
    ensures
        scrolled(v, d1, w) == scrolled(v, d2, w),
        render_rows_spec(scrolled(v, d1, w), d1, w) == render_rows_spec(scrolled(v, d2, w), d2, w),
{
    assert(render_rows_spec(scrolled(v, d1, w), d1, w) =~= render_rows_spec(
        scrolled(v, d2, w),
        d2,
        w,
    ));
}

/// One event step touches only the active view and its document: every
/// sibling view — its cursor included — is left exactly as it was.
pub proof fn lemma_event_leaves_siblings_alone(
    c0: Chai,
    c1: Chai,
    ev: Event,
    r: Result<(), ChaiError>,
    pi: int,
    vi: int,
)
    requires
        handle_event_post(c0, c1, ev, r),
        0 <= pi < c0.panes@.len(),
        0 <= vi < c0.panes@[pi].views@.len(),
        !(pi == c0.active_pane_index && vi == c0.panes@[pi].active_view_index),
    ensures
        c1.panes@.len() == c0.panes@.len(),
        c1.panes@[pi].views@.len() == c0.panes@[pi].views@.len(),
        c1.panes@[pi].views@[vi] == c0.panes@[pi].views@[vi],
{
}

} // verus!
