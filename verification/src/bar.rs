//! The textual progress bar, and its inverse: the percentage that a mouse
//! column on the bar stands for.

use vstd::prelude::*;
use crate::geometry::Rect;
use crate::text::push_char;

verus! {

/// The character for the decimal digit `d`.
pub open spec fn digit(d: int) -> char {
    if d == 0 {
        '0'
    } else if d == 1 {
        '1'
    } else if d == 2 {
        '2'
    } else if d == 3 {
        '3'
    } else if d == 4 {
        '4'
    } else if d == 5 {
        '5'
    } else if d == 6 {
        '6'
    } else if d == 7 {
        '7'
    } else if d == 8 {
        '8'
    } else {
        '9'
    }
}

/// The decimal representation of `n`, most significant digit first, without
/// leading zeros.
pub open spec fn decimal(n: nat) -> Seq<char>
    decreases n,
{
    if n < 10 {
        seq![digit(n as int)]
    } else {
        decimal(n / 10).push(digit((n % 10) as int))
    }
}

/// What follows the bar: a space, the percentage in decimal, a percent sign.
pub open spec fn suffix(p: nat) -> Seq<char> {
    seq![' '] + decimal(p) + seq!['%']
}

/// The columns that are not bar cells: the two brackets and the suffix.
pub open spec fn overhead(p: nat) -> nat {
    2 + suffix(p).len()
}

/// The number of bar cells at the given total width; zero when the width
/// does not exceed the overhead.
pub open spec fn bar_cells(p: nat, width: nat) -> nat {
    if width <= overhead(p) {
        0
    } else {
        (width - overhead(p)) as nat
    }
}

/// The number of filled cells: the percentage of the bar cells, rounded
/// down, and never more than there are cells.
pub open spec fn filled_cells(p: nat, width: nat) -> nat {
    let cells = bar_cells(p, width);
    if p * cells / 100 > cells {
        cells
    } else {
        p * cells / 100
    }
}

/// `n` copies of `c`.
pub open spec fn repeat(c: char, n: nat) -> Seq<char> {
    Seq::new(n, |i: int| c)
}

/// The progress bar for percentage `p` at the given width: only the suffix
/// when the width does not exceed the overhead, else an opening bracket, the
/// filled cells as `#`, the other cells as `-`, a closing bracket and the
/// suffix.
pub open spec fn bar_text(p: nat, width: nat) -> Seq<char> {
    if width <= overhead(p) {
        suffix(p)
    } else {
        seq!['['] + repeat('#', filled_cells(p, width)) + repeat(
            '-',
            (bar_cells(p, width) - filled_cells(p, width)) as nat,
        ) + seq![']'] + suffix(p)
    }
}

/// How many columns of `text` show in a region `width` columns wide.
pub open spec fn visible_len(text: Seq<char>, width: nat) -> nat {
    if text.len() <= width {
        text.len()
    } else {
        width
    }
}

/// The percentage after the mouse touched column `mx` of a bar drawn in
/// `area` for percentage `p`. The bar cells start one column right of the
/// area's left edge. A column from the first cell up to the closing bracket
/// gives its distance from the first cell as a percentage of the number of
/// cells, rounded down and at most 100; any other column, or an area with
/// no cells, leaves `p`.
pub open spec fn progress_at(p: nat, area: Rect, mx: int) -> nat {
    let cells = bar_cells(p, area.width as nat);
    let start = area.x + 1;
    if cells > 0 && start <= mx <= start + cells {
        if (mx - start) * 100 / (cells as int) > 100 {
            100
        } else {
            ((mx - start) * 100 / (cells as int)) as nat
        }
    } else {
        p
    }
}

/// Whatever the percentage before, the percentage after a touch is at most
/// 100 or unchanged.
pub proof fn lemma_progress_at_bounded(p: nat, area: Rect, mx: int)
    ensures
        progress_at(p, area, mx) <= 100 || progress_at(p, area, mx) == p,
        p <= 100 ==> progress_at(p, area, mx) <= 100,
{
}

/// The bar never has more filled cells than cells, and for a percentage of
/// at most 100 the filled cells are exactly the rounded-down share.
pub proof fn lemma_filled_cells(p: nat, width: nat)
    ensures
        filled_cells(p, width) <= bar_cells(p, width),
        p <= 100 ==> filled_cells(p, width) == p * bar_cells(p, width) / 100,
{
    let cells = bar_cells(p, width);
    if p <= 100 {
        assert(p * cells / 100 <= cells) by (nonlinear_arith)
            requires
                p <= 100,
                cells >= 0,
        ;
    }
}

/// The smaller of two numbers.
pub open spec fn smaller(a: nat, b: nat) -> nat {
    if a <= b {
        a
    } else {
        b
    }
}

/// The width of the rendered bar. At a width beyond the overhead the text
/// is exactly as wide as asked, and for a percentage of at most 100 the
/// filled cells are the rounded-down share of the `width - overhead` cells.
/// At a width of at most the overhead the text is the suffix, two columns
/// shorter than the overhead: it shows `min(width, suffix length)` columns,
/// which is `min(width, overhead)` wherever the width does not exceed the
/// suffix's length.
pub proof fn lemma_bar_text_len(p: nat, width: nat)
    ensures
        width > overhead(p) ==> bar_text(p, width).len() == width,
        width > overhead(p) ==> visible_len(bar_text(p, width), width) == width,
        width > overhead(p) && p <= 100 ==> filled_cells(p, width) == p * (width - overhead(p))
            / 100,
        width <= overhead(p) ==> bar_text(p, width) == suffix(p),
        width <= overhead(p) ==> visible_len(bar_text(p, width), width) == smaller(
            width,
            suffix(p).len(),
        ),
        width <= suffix(p).len() ==> visible_len(bar_text(p, width), width) == smaller(
            width,
            overhead(p),
        ),
{
    lemma_filled_cells(p, width);
}

/// The cells of a bar that has room for them: the text opens with `[`, its
/// first `filled_cells` cells are `#`, the cells after them `-`, and `]`
/// closes them.
pub proof fn lemma_bar_text_cells(p: nat, width: nat, i: int)
    requires
        width > overhead(p),
        0 <= i < bar_cells(p, width),
    ensures
        bar_text(p, width)[0] == '[',
        i < filled_cells(p, width) ==> bar_text(p, width)[1 + i] == '#',
        i >= filled_cells(p, width) ==> bar_text(p, width)[1 + i] == '-',
        bar_text(p, width)[1 + bar_cells(p, width) as int] == ']',
        bar_text(p, width).subrange(2 + bar_cells(p, width) as int, width as int) == suffix(p),
{
    lemma_filled_cells(p, width);
    let filled = filled_cells(p, width);
    let rest = (bar_cells(p, width) - filled) as nat;
    let head = seq!['['] + repeat('#', filled) + repeat('-', rest) + seq![']'];
    assert(head.len() == 2 + bar_cells(p, width));
    assert(bar_text(p, width) == head + suffix(p));
    assert((head + suffix(p)).subrange(head.len() as int, width as int) =~= suffix(p));
}

/// The character for a decimal digit.
fn digit_char(d: u16) -> (c: char)
    requires
        d < 10,
    ensures
        c == digit(d as int),
{
    if d == 0 {
        '0'
    } else if d == 1 {
        '1'
    } else if d == 2 {
        '2'
    } else if d == 3 {
        '3'
    } else if d == 4 {
        '4'
    } else if d == 5 {
        '5'
    } else if d == 6 {
        '6'
    } else if d == 7 {
        '7'
    } else if d == 8 {
        '8'
    } else {
        '9'
    }
}

/// Appends the decimal representation of `n` to `s` and returns the number
/// of digits written.
fn push_decimal(s: &mut String, n: u16) -> (digits: usize)
    ensures
        final(s)@ == old(s)@ + decimal(n as nat),
        digits == decimal(n as nat).len(),
        1 <= digits <= n + 1,
    decreases n,
{
    if n < 10 {
        push_char(s, digit_char(n));
        assert(s@ =~= old(s)@ + decimal(n as nat));
        1
    } else {
        let head: usize = push_decimal(s, n / 10);
        push_char(s, digit_char(n % 10));
        assert(s@ =~= old(s)@ + decimal(n as nat));
        head + 1
    }
}

/// Appends `n` copies of `c` to `s`.
fn push_repeat(s: &mut String, c: char, n: usize)
    ensures
        final(s)@ == old(s)@ + repeat(c, n as nat),
{
    let mut i: usize = 0;
    assert(s@ =~= old(s)@ + repeat(c, 0));
    while i < n
        invariant
            i <= n,
            s@ == old(s)@ + repeat(c, i as nat),
        decreases n - i,
    {
        push_char(s, c);
        i += 1;
        assert(s@ =~= old(s)@ + repeat(c, i as nat));
    }
}

/// Renders the progress bar for percentage `progress` into `width` columns.
pub fn build_progress_bar(progress: u16, width: usize) -> (text: String)
    ensures
        text@ == bar_text(progress as nat, width as nat),
{
    let mut tail = String::new();
    push_char(&mut tail, ' ');
    let digits: usize = push_decimal(&mut tail, progress);
    push_char(&mut tail, '%');
    assert(tail@ =~= suffix(progress as nat));
    let extra: usize = digits + 4;
    if width <= extra {
        return tail;
    }
    let cells: usize = width - extra;
    assert(progress as u128 * cells as u128 <= 0xffff * 0xffff_ffff_ffff_ffff) by (nonlinear_arith)
        requires
            progress <= 0xffff,
            cells <= 0xffff_ffff_ffff_ffff,
    ;
    let share: u128 = (progress as u128 * cells as u128) / 100;
    let filled: usize = if share > cells as u128 {
        cells
    } else {
        share as usize
    };
    let mut text = String::new();
    push_char(&mut text, '[');
    push_repeat(&mut text, '#', filled);
    push_repeat(&mut text, '-', cells - filled);
    push_char(&mut text, ']');
    text.append(tail.as_str());
    assert(text@ =~= bar_text(progress as nat, width as nat));
    text
}

/// The percentage that a touch at column `mouse_x` gives a bar drawn in
/// `area` for percentage `progress`.
pub fn touched_progress(progress: u16, area: Rect, mouse_x: u16) -> (p: u16)
    ensures
        p == progress_at(progress as nat, area, mouse_x as int),
{
    let mut scratch = String::new();
    let digits: usize = push_decimal(&mut scratch, progress);
    assert(scratch@ =~= decimal(progress as nat));
    assert(suffix(progress as nat).len() == digits + 2);
    let extra: u32 = digits as u32 + 4;
    let width: u32 = area.width as u32;
    if width <= extra {
        return progress;
    }
    let cells: u32 = width - extra;
    let start: u32 = area.x as u32 + 1;
    let column: u32 = mouse_x as u32;
    if column >= start && column <= start + cells {
        let share: u32 = (column - start) * 100 / cells;
        if share > 100 {
            100
        } else {
            share as u16
        }
    } else {
        progress
    }
}

} // verus!
