//! One frame of the screen as plain values: for every entry the text and
//! place of its title and of its bar, and the add button.

use vstd::prelude::*;
use vstd::string::StringExecFns;
use crate::bar::{bar_text, build_progress_bar};
use crate::geometry::{
    bar_region, compute_chunks, layout_fits, row, screen_layout, split_row, title_region, Rect,
};
use crate::model::{list_view, Todo, TodoView};
use crate::session::index_view;
use crate::text::push_char;

verus! {

/// What is drawn for one entry.
#[derive(Clone, Debug)]
pub struct RowFrame {
    pub title_area: Rect,
    pub title: String,
    /// Whether the title is drawn in the style of a name being edited.
    pub highlighted: bool,
    pub bar_area: Rect,
    pub bar: String,
}

/// What is drawn for one entry, as a mathematical value.
pub struct RowView {
    pub title_area: Rect,
    pub title: Seq<char>,
    pub highlighted: bool,
    pub bar_area: Rect,
    pub bar: Seq<char>,
}

impl View for RowFrame {
    type V = RowView;

    open spec fn view(&self) -> RowView {
        RowView {
            title_area: self.title_area,
            title: self.title@,
            highlighted: self.highlighted,
            bar_area: self.bar_area,
            bar: self.bar@,
        }
    }
}

/// One frame: the entries' rows, top to bottom, and the add button.
#[derive(Clone, Debug)]
pub struct Frame {
    pub rows: Vec<RowFrame>,
    pub add_area: Rect,
    pub add_label: String,
}

/// One frame as a mathematical value.
pub struct FrameView {
    pub rows: Seq<RowView>,
    pub add_area: Rect,
    pub add_label: Seq<char>,
}

impl View for Frame {
    type V = FrameView;

    open spec fn view(&self) -> FrameView {
        FrameView {
            rows: self.rows@.map_values(|r: RowFrame| r@),
            add_area: self.add_area,
            add_label: self.add_label@,
        }
    }
}

/// The text on the add button.
pub open spec fn add_label() -> Seq<char> {
    "[     +     ]"@
}

/// What is drawn for entry `i`: in the title region its name, or, where it
/// is being edited, the buffer followed by `_` as a cursor, highlighted; in
/// the bar region its progress bar at that region's width.
pub open spec fn row_frame(
    size: Rect,
    todos: Seq<TodoView>,
    editing: Option<int>,
    buffer: Seq<char>,
    i: int,
) -> RowView {
    let area = row(size, i);
    let edited = editing == Some(i);
    RowView {
        title_area: title_region(area),
        title: if edited {
            buffer.push('_')
        } else {
            todos[i].name
        },
        highlighted: edited,
        bar_area: bar_region(area),
        bar: bar_text(todos[i].progress, bar_region(area).width as nat),
    }
}

/// The frame of a list on a screen `size`: a row for every entry, and the
/// add button in the stripe after the last entry.
pub open spec fn frame_of(
    size: Rect,
    todos: Seq<TodoView>,
    editing: Option<int>,
    buffer: Seq<char>,
) -> FrameView {
    FrameView {
        rows: Seq::new(todos.len(), |i: int| row_frame(size, todos, editing, buffer, i)),
        add_area: row(size, todos.len() as int),
        add_label: add_label(),
    }
}

/// Composes the frame of a list on a screen of the given size.
pub fn ui(size: Rect, todos: &Vec<Todo>, editing_index: Option<usize>, input_buffer: &String) -> (frame:
    Frame)
    requires
        size.fits(),
    ensures
        frame@ == frame_of(size, list_view(todos@), index_view(editing_index), input_buffer@),
{
    let chunks = compute_chunks(size, todos.len());
    let ghost list = list_view(todos@);
    let ghost editing = index_view(editing_index);
    let mut rows: Vec<RowFrame> = Vec::new();
    let mut i: usize = 0;
    while i < todos.len()
        invariant
            i <= todos@.len(),
            list == list_view(todos@),
            editing == index_view(editing_index),
            chunks@ == screen_layout(size, todos@.len() as int),
            layout_fits(chunks@),
            rows@.len() == i,
            forall|k: int|
                0 <= k < i ==> (#[trigger] rows@[k])@ == row_frame(
                    size,
                    list,
                    editing,
                    input_buffer@,
                    k,
                ),
        decreases todos@.len() - i,
    {
        let edited = match editing_index {
            Some(k) => k == i,
            None => false,
        };
        let title = if edited {
            let mut shown = input_buffer.clone();
            push_char(&mut shown, '_');
            shown
        } else {
            todos[i].name.clone()
        };
        let area = chunks[i];
        assert(area.fits());
        let parts = split_row(area);
        let bar = build_progress_bar(todos[i].progress, parts.1.width as usize);
        rows.push(
            RowFrame { title_area: parts.0, title, highlighted: edited, bar_area: parts.1, bar },
        );
        i += 1;
    }
    let frame = Frame {
        rows,
        add_area: chunks[todos.len()],
        add_label: String::from_str("[     +     ]"),
    };
    assert(frame@.rows =~= frame_of(
        size,
        list_view(todos@),
        index_view(editing_index),
        input_buffer@,
    ).rows);
    frame
}

} // verus!
