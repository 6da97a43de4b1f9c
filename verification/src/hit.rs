//! Hit testing: which element of a layout lies under a cell.

use vstd::prelude::*;
use crate::geometry::{
    bar_region, is_inside, layout_fits, row, screen_layout, split_row, title_region, Rect,
};

verus! {

/// What lies under a cell.
#[derive(Clone, Copy, Debug, PartialEq, Eq, Structural)]
pub enum HitResult {
    /// Nothing that reacts.
    Miss,
    /// The title region of the entry with this index.
    Title(usize),
    /// The bar region of the entry with this index.
    Bar(usize),
    /// The add button.
    Add,
}

/// The region of row `r`, the row of entry `i`, that holds the cell.
pub open spec fn classify(col: int, line: int, r: Rect, i: int) -> HitResult {
    if title_region(r).contains(col, line) {
        HitResult::Title(i as usize)
    } else if bar_region(r).contains(col, line) {
        HitResult::Bar(i as usize)
    } else {
        HitResult::Miss
    }
}

/// Whether the layout has no more entry rows from index `k` on, for a list
/// of `count` entries.
pub open spec fn rows_done(layout: Seq<Rect>, count: int, k: int) -> bool {
    k >= count || k >= layout.len()
}

/// The hit among the entry rows from index `k` on, then the add button: the
/// first row that holds the cell decides, by its two regions; with no such
/// row the rectangle at index `count`, if the layout has one and it holds
/// the cell, gives `Add`.
pub open spec fn hit_from(col: int, line: int, layout: Seq<Rect>, count: int, k: int) -> HitResult
    decreases layout.len() - k,
{
    if k < 0 || rows_done(layout, count, k) {
        if 0 <= count < layout.len() && layout[count].contains(col, line) {
            HitResult::Add
        } else {
            HitResult::Miss
        }
    } else if layout[k].contains(col, line) {
        classify(col, line, layout[k], k)
    } else {
        hit_from(col, line, layout, count, k + 1)
    }
}

/// What lies under the cell (`col`, `line`) in a layout for `count` entries.
pub open spec fn hit_at(col: int, line: int, layout: Seq<Rect>, count: int) -> HitResult {
    hit_from(col, line, layout, count, 0)
}

/// Whether a rectangle holds at least one cell.
pub open spec fn nonempty(r: Rect) -> bool {
    r.width > 0 && r.height > 0
}

/// That a cell lies in entry row `i` and in no earlier row makes row `i`
/// decide the hit.
pub proof fn lemma_first_row_decides(
    col: int,
    line: int,
    layout: Seq<Rect>,
    count: int,
    i: int,
    k: int,
)
    requires
        0 <= k <= i < count,
        i < layout.len(),
        layout[i].contains(col, line),
        forall|j: int| 0 <= j < i ==> !(#[trigger] layout[j]).contains(col, line),
    ensures
        hit_from(col, line, layout, count, k) == classify(col, line, layout[i], i),
    decreases i - k,
{
    if k < i {
        lemma_first_row_decides(col, line, layout, count, i, k + 1);
    }
}

/// A hit on a title or a bar names an entry of the list whose row the
/// layout has.
pub proof fn lemma_hit_names_entry(col: int, line: int, layout: Seq<Rect>, count: int, k: int)
    requires
        0 <= k,
    ensures
        hit_from(col, line, layout, count, k) matches HitResult::Title(i) ==> 0 <= i < count && i
            < layout.len(),
        hit_from(col, line, layout, count, k) matches HitResult::Bar(i) ==> 0 <= i < count && i
            < layout.len(),
    decreases layout.len() - k,
{
    if !rows_done(layout, count, k) && !layout[k].contains(col, line) {
        lemma_hit_names_entry(col, line, layout, count, k + 1);
    }
}

/// That a cell lies in no entry row leaves the hit to the add button.
pub proof fn lemma_no_row_leaves_add(col: int, line: int, layout: Seq<Rect>, count: int, k: int)
    requires
        0 <= k,
        forall|j: int| 0 <= j < count && j < layout.len() ==> !(#[trigger] layout[j]).contains(col, line),
    ensures
        hit_from(col, line, layout, count, k) == (if 0 <= count < layout.len()
            && layout[count].contains(col, line) {
            HitResult::Add
        } else {
            HitResult::Miss
        }),
    decreases layout.len() - k,
{
    if !rows_done(layout, count, k) {
        lemma_no_row_leaves_add(col, line, layout, count, k + 1);
    }
}

/// In the layout of a screen, the middle cell of each region hits that
/// region: of a non-empty title region the title, of a non-empty bar region
/// the bar, and of a non-empty add rectangle the add button.
pub proof fn lemma_centers_hit(size: Rect, count: int, i: int)
    requires
        size.fits(),
        0 <= i < count <= usize::MAX,
    ensures
        ({
            let layout = screen_layout(size, count);
            &&& nonempty(title_region(layout[i])) ==> hit_at(
                title_region(layout[i]).center_col(),
                title_region(layout[i]).center_row(),
                layout,
                count,
            ) == HitResult::Title(i as usize)
            &&& nonempty(bar_region(layout[i])) ==> hit_at(
                bar_region(layout[i]).center_col(),
                bar_region(layout[i]).center_row(),
                layout,
                count,
            ) == HitResult::Bar(i as usize)
            &&& nonempty(layout[count]) ==> hit_at(
                layout[count].center_col(),
                layout[count].center_row(),
                layout,
                count,
            ) == HitResult::Add
        }),
{
    let layout = screen_layout(size, count);
    let r = layout[i];
    assert(r == row(size, i));
    let t = title_region(r);
    let b = bar_region(r);
    if nonempty(t) {
        let (c, l) = (t.center_col(), t.center_row());
        assert(r.contains(c, l));
        assert forall|j: int| 0 <= j < i implies !(#[trigger] layout[j]).contains(c, l) by {
            assert(layout[j] == row(size, j));
        }
        lemma_first_row_decides(c, l, layout, count, i, 0);
    }
    if nonempty(b) {
        let (c, l) = (b.center_col(), b.center_row());
        assert(r.contains(c, l));
        assert forall|j: int| 0 <= j < i implies !(#[trigger] layout[j]).contains(c, l) by {
            assert(layout[j] == row(size, j));
        }
        lemma_first_row_decides(c, l, layout, count, i, 0);
    }
    let a = layout[count];
    assert(a == row(size, count));
    if nonempty(a) {
        let (c, l) = (a.center_col(), a.center_row());
        assert forall|j: int| 0 <= j < count && j < layout.len() implies !(#[trigger] layout[j]).contains(c, l) by {
            assert(layout[j] == row(size, j));
        }
        lemma_no_row_leaves_add(c, l, layout, count, 0);
    }
}

/// What lies under the cell `pos` = (column, row) in a layout for `count`
/// entries.
pub fn hit(pos: (u16, u16), chunks: &Vec<Rect>, count: usize) -> (r: HitResult)
    requires
        layout_fits(chunks@),
    ensures
        r == hit_at(pos.0 as int, pos.1 as int, chunks@, count as int),
        r matches HitResult::Title(i) ==> i < count && i < chunks@.len(),
        r matches HitResult::Bar(i) ==> i < count && i < chunks@.len(),
{
    let mut i: usize = 0;
    while i < count && i < chunks.len()
        invariant
            layout_fits(chunks@),
            hit_from(pos.0 as int, pos.1 as int, chunks@, count as int, i as int) == hit_at(
                pos.0 as int,
                pos.1 as int,
                chunks@,
                count as int,
            ),
        decreases chunks.len() - i,
    {
        let area = chunks[i];
        if is_inside(pos, area) {
            assert(area.fits());
            let parts = split_row(area);
            if is_inside(pos, parts.0) {
                return HitResult::Title(i);
            } else if is_inside(pos, parts.1) {
                return HitResult::Bar(i);
            } else {
                return HitResult::Miss;
            }
        }
        i += 1;
    }
    if count < chunks.len() && is_inside(pos, chunks[count]) {
        HitResult::Add
    } else {
        HitResult::Miss
    }
}

} // verus!
