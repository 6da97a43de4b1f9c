//! Rectangles of terminal cells and the layout of the screen: one row per
//! entry, one more for the add button, each row split into a title region
//! and a bar region.

use vstd::prelude::*;

verus! {

/// Width of the title region of a row, in columns. Rendering and hit testing
/// both split rows with it.
pub const TITLE_WIDTH: u16 = 30;

/// A rectangle of terminal cells: columns `[x, x + width)`, rows
/// `[y, y + height)`.
#[derive(Clone, Copy, Debug, PartialEq, Eq, Structural)]
pub struct Rect {
    pub x: u16,
    pub y: u16,
    pub width: u16,
    pub height: u16,
}

impl Rect {
    /// The first column to the right of the rectangle.
    pub open spec fn right(self) -> int {
        self.x + self.width
    }

    /// The first row below the rectangle.
    pub open spec fn bottom(self) -> int {
        self.y + self.height
    }

    /// Whether the cell at (`col`, `row`) lies in the rectangle.
    pub open spec fn contains(self, col: int, row: int) -> bool {
        self.x <= col < self.right() && self.y <= row < self.bottom()
    }

    /// Whether the far edges are themselves coordinates of the terminal grid.
    pub open spec fn fits(self) -> bool {
        self.right() <= u16::MAX && self.bottom() <= u16::MAX
    }

    /// The rectangle shrunk by one cell on every side; empty when there is
    /// no room for the margin.
    pub open spec fn inset(self) -> Rect {
        if self.width < 2 || self.height < 2 {
            Rect { x: self.x, y: self.y, width: 0, height: 0 }
        } else {
            Rect {
                x: (self.x + 1) as u16,
                y: (self.y + 1) as u16,
                width: (self.width - 2) as u16,
                height: (self.height - 2) as u16,
            }
        }
    }

    /// The column of the middle cell (the left one of two).
    pub open spec fn center_col(self) -> int {
        self.x + self.width / 2
    }

    /// The row of the middle cell (the upper one of two).
    pub open spec fn center_row(self) -> int {
        self.y + self.height / 2
    }

    /// A rectangle with the given corner and size.
    pub fn new(x: u16, y: u16, width: u16, height: u16) -> (r: Rect)
        ensures
            r == (Rect { x, y, width, height }),
    {
        Rect { x, y, width, height }
    }

    /// Whether the far edges are coordinates of the terminal grid.
    pub fn fits_grid(&self) -> (r: bool)
        ensures
            r == self.fits(),
    {
        self.x as u32 + self.width as u32 <= 0xffff && self.y as u32 + self.height as u32 <= 0xffff
    }

    /// Executable form of [`Rect::inset`].
    pub fn inner(self) -> (r: Rect)
        requires
            self.fits(),
        ensures
            r == self.inset(),
            r.fits(),
    {
        if self.width < 2 || self.height < 2 {
            Rect { x: self.x, y: self.y, width: 0, height: 0 }
        } else {
            Rect { x: self.x + 1, y: self.y + 1, width: self.width - 2, height: self.height - 2 }
        }
    }
}

/// Whether every rectangle of a layout fits the terminal grid.
pub open spec fn layout_fits(layout: Seq<Rect>) -> bool {
    forall|i: int| 0 <= i < layout.len() ==> (#[trigger] layout[i]).fits()
}

/// The `i`-th stripe of the screen `size`: inside the one-cell margin, one
/// row tall, stripe `i` on the `i`-th row. A stripe for which the screen has
/// no row left is empty and sits on the lower edge.
pub open spec fn row(size: Rect, i: int) -> Rect {
    let inner = size.inset();
    if i < inner.height {
        Rect { x: inner.x, y: (inner.y + i) as u16, width: inner.width, height: 1 }
    } else {
        Rect { x: inner.x, y: (inner.y + inner.height) as u16, width: inner.width, height: 0 }
    }
}

/// The layout of `count` entries and the add button on a screen `size`:
/// stripes `0` to `count`.
pub open spec fn screen_layout(size: Rect, count: int) -> Seq<Rect> {
    Seq::new((count + 1) as nat, |i: int| row(size, i))
}

/// Columns of a row `width` wide that go to the title: `TITLE_WIDTH` when
/// that leaves at least one column for the bar, else all but one.
pub open spec fn title_columns(width: int) -> int {
    if width > TITLE_WIDTH {
        TITLE_WIDTH as int
    } else if width >= 1 {
        width - 1
    } else {
        0
    }
}

/// The title region of a row: its leftmost `title_columns` columns.
pub open spec fn title_region(r: Rect) -> Rect {
    Rect { x: r.x, y: r.y, width: title_columns(r.width as int) as u16, height: r.height }
}

/// The bar region of a row: what the title region leaves.
pub open spec fn bar_region(r: Rect) -> Rect {
    Rect {
        x: (r.x + title_columns(r.width as int)) as u16,
        y: r.y,
        width: (r.width - title_columns(r.width as int)) as u16,
        height: r.height,
    }
}

/// Whether the cell `pos` = (column, row) lies in `area`.
pub fn is_inside(pos: (u16, u16), area: Rect) -> (r: bool)
    ensures
        r == area.contains(pos.0 as int, pos.1 as int),
{
    let col: u32 = pos.0 as u32;
    let line: u32 = pos.1 as u32;
    col >= area.x as u32 && col < area.x as u32 + area.width as u32 && line >= area.y as u32
        && line < area.y as u32 + area.height as u32
}

/// Splits a row into its title region and its bar region.
pub fn split_row(r: Rect) -> (parts: (Rect, Rect))
    requires
        r.fits(),
    ensures
        parts.0 == title_region(r),
        parts.1 == bar_region(r),
        parts.0.fits(),
        parts.1.fits(),
{
    let title: u16 = if r.width > TITLE_WIDTH {
        TITLE_WIDTH
    } else if r.width >= 1 {
        r.width - 1
    } else {
        0
    };
    (
        Rect { x: r.x, y: r.y, width: title, height: r.height },
        Rect { x: r.x + title, y: r.y, width: r.width - title, height: r.height },
    )
}

/// Lays out `count` entries and the add button on a screen of the given
/// size: `count + 1` stripes, top to bottom.
pub fn compute_chunks(size: Rect, count: usize) -> (chunks: Vec<Rect>)
    requires
        size.fits(),
    ensures
        chunks@ == screen_layout(size, count as int),
        layout_fits(chunks@),
{
    let inner = size.inner();
    let mut chunks: Vec<Rect> = Vec::new();
    let mut i: usize = 0;
    while i < count
        invariant
            inner == size.inset(),
            inner.fits(),
            i <= count,
            chunks@.len() == i,
            forall|k: int| 0 <= k < i ==> #[trigger] chunks@[k] == row(size, k),
            layout_fits(chunks@),
        decreases count - i,
    {
        chunks.push(stripe(inner, i));
        i += 1;
    }
    chunks.push(stripe(inner, count));
    assert(chunks@ =~= screen_layout(size, count as int));
    chunks
}

/// The `i`-th stripe of an area that the margin has already been taken from.
fn stripe(inner: Rect, i: usize) -> (r: Rect)
    requires
        inner.fits(),
    ensures
        r.fits(),
        r == (if i < inner.height {
            Rect { x: inner.x, y: (inner.y + i) as u16, width: inner.width, height: 1 }
        } else {
            Rect { x: inner.x, y: (inner.y + inner.height) as u16, width: inner.width, height: 0 }
        }),
{
    if i < inner.height as usize {
        Rect { x: inner.x, y: inner.y + i as u16, width: inner.width, height: 1 }
    } else {
        Rect { x: inner.x, y: inner.y + inner.height, width: inner.width, height: 0 }
    }
}

/// The stripes of a layout do not overlap and come top to bottom: each
/// ends where or before the next begins, so no cell lies in two of them. A
/// stripe that the screen has a row for is exactly one row tall and lies as
/// many rows below the margin as stripes come before it; where the screen
/// has a row for each, that holds of all `count + 1`.
pub proof fn lemma_rows_stacked(size: Rect, count: int, i: int, j: int)
    requires
        size.fits(),
        0 <= i < j <= count,
    ensures
        screen_layout(size, count).len() == count + 1,
        screen_layout(size, count)[i].bottom() <= screen_layout(size, count)[j].y,
        screen_layout(size, count)[i].y <= screen_layout(size, count)[j].y,
        forall|col: int, line: int|
            !(screen_layout(size, count)[i].contains(col, line) && screen_layout(
                size,
                count,
            )[j].contains(col, line)),
        i < size.inset().height ==> screen_layout(size, count)[i].height == 1 && screen_layout(
            size,
            count,
        )[i].y == size.inset().y + i,
        j < size.inset().height ==> screen_layout(size, count)[j].height == 1 && screen_layout(
            size,
            count,
        )[j].y == size.inset().y + j,
        count < size.inset().height ==> screen_layout(size, count)[i].height == 1
            && screen_layout(size, count)[j].height == 1 && screen_layout(size, count)[i].y
            < screen_layout(size, count)[j].y,
{
}

} // verus!
