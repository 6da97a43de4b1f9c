//! The interaction state machine: what each key, mouse and tick event does
//! to the list and to the editing and dragging state, and whether the list
//! must be saved afterwards.

use vstd::prelude::*;
use vstd::string::StrSliceExecFns;
use crate::bar::{lemma_progress_at_bounded, progress_at};
use crate::geometry::{bar_region, compute_chunks, layout_fits, screen_layout, split_row, Rect};
use crate::hit::{hit, hit_at, lemma_hit_names_entry, HitResult};
use crate::model::{
    default_name, fresh_todo, in_range, list_view, update_progress, Todo, TodoView,
};
use crate::text::{pop_char, push_char};

verus! {

/// A key of the keyboard, as far as the session tells keys apart.
#[derive(Clone, Copy, Debug, PartialEq, Eq, Structural)]
pub enum Key {
    /// A printable character.
    Char(char),
    Backspace,
    Enter,
    Esc,
    /// Any other key.
    Other,
}

/// A mouse button.
#[derive(Clone, Copy, Debug, PartialEq, Eq, Structural)]
pub enum Button {
    Left,
    /// Any other button.
    Other,
}

/// What the mouse did.
#[derive(Clone, Copy, Debug, PartialEq, Eq, Structural)]
pub enum MouseKind {
    Down(Button),
    Up(Button),
    Drag(Button),
    Moved,
    /// Anything else, such as the wheel.
    Other,
}

/// A mouse event at a cell of the terminal.
#[derive(Clone, Copy, Debug, PartialEq, Eq, Structural)]
pub struct MouseEvent {
    pub kind: MouseKind,
    pub column: u16,
    pub row: u16,
}

/// An event of the session's queue.
#[derive(Clone, Copy, Debug, PartialEq, Eq, Structural)]
pub enum Event {
    Key(Key),
    Mouse(MouseEvent),
    Tick,
}

/// What the caller owes after an event: to save the list, to leave the loop.
#[derive(Clone, Copy, Debug, PartialEq, Eq, Structural)]
pub struct Outcome {
    pub persist: bool,
    pub exit: bool,
}

/// The session: the list and the interaction state.
#[derive(Clone, Debug)]
pub struct App {
    pub todos: Vec<Todo>,
    /// The entry whose name is being edited, if any.
    pub editing_index: Option<usize>,
    /// The name as typed so far; empty outside editing.
    pub input_buffer: String,
    /// Whether a bar is being dragged.
    pub dragging: bool,
    /// The entry whose bar is being dragged.
    pub drag_index: Option<usize>,
    /// Set on entering editing; the next mouse event while editing clears it
    /// and is dropped.
    pub just_started_editing: bool,
}

/// The session as a mathematical value.
pub struct AppView {
    pub todos: Seq<TodoView>,
    pub editing: Option<int>,
    pub buffer: Seq<char>,
    pub dragging: bool,
    pub drag_index: Option<int>,
    pub latch: bool,
}

/// An optional index as an optional integer.
pub open spec fn index_view(i: Option<usize>) -> Option<int> {
    match i {
        Some(k) => Some(k as int),
        None => None,
    }
}

impl View for App {
    type V = AppView;

    open spec fn view(&self) -> AppView {
        AppView {
            todos: list_view(self.todos@),
            editing: index_view(self.editing_index),
            buffer: self.input_buffer@,
            dragging: self.dragging,
            drag_index: index_view(self.drag_index),
            latch: self.just_started_editing,
        }
    }
}

/// No list to save, no leaving.
pub open spec fn carry_on() -> Outcome {
    Outcome { persist: false, exit: false }
}

/// The list is to be saved.
pub open spec fn saved() -> Outcome {
    Outcome { persist: true, exit: false }
}

/// The list is to be saved and the loop left.
pub open spec fn quit() -> Outcome {
    Outcome { persist: true, exit: true }
}

impl AppView {
    /// The state's invariant: the indices point into the list; a drag has
    /// an index and an index means a drag; dragging and editing exclude each
    /// other; outside editing the buffer is empty.
    pub open spec fn wf(self) -> bool {
        &&& self.editing matches Some(i) ==> 0 <= i < self.todos.len()
        &&& self.drag_index matches Some(i) ==> 0 <= i < self.todos.len()
        &&& self.dragging <==> self.drag_index.is_some()
        &&& self.dragging ==> self.editing.is_none()
        &&& self.editing.is_none() ==> self.buffer.len() == 0
    }

    /// Entry `i` with its progress replaced by `p`.
    pub open spec fn with_progress(self, i: int, p: nat) -> AppView {
        AppView {
            todos: self.todos.update(i, TodoView { name: self.todos[i].name, progress: p }),
            ..self
        }
    }

    /// Entry `i` touched at column `col` of its bar, drawn in the bar
    /// region of `row_area`.
    pub open spec fn touch(self, i: int, row_area: Rect, col: int) -> AppView {
        self.with_progress(i, progress_at(self.todos[i].progress, bar_region(row_area), col))
    }

    /// Leaving editing of entry `i`: the buffer becomes its name and is
    /// emptied.
    pub open spec fn commit(self, i: int) -> AppView {
        AppView {
            todos: self.todos.update(
                i,
                TodoView { name: self.buffer, progress: self.todos[i].progress },
            ),
            editing: None,
            buffer: Seq::empty(),
            ..self
        }
    }

    /// Entering editing of entry `i`: the buffer starts as the entry's
    /// name, or empty where that is the default name; any drag ends.
    pub open spec fn begin_edit(self, i: int) -> AppView {
        AppView {
            editing: Some(i),
            buffer: if self.todos[i].name == default_name() {
                Seq::empty()
            } else {
                self.todos[i].name
            },
            dragging: false,
            drag_index: None,
            latch: true,
            ..self
        }
    }

    /// Starting a drag on the bar of entry `i`.
    pub open spec fn grab(self, i: int) -> AppView {
        AppView { dragging: true, drag_index: Some(i), ..self }
    }

    /// Ending a drag.
    pub open spec fn release(self) -> AppView {
        AppView { dragging: false, drag_index: None, ..self }
    }

    /// A new entry at the end of the list.
    pub open spec fn append(self) -> AppView {
        AppView { todos: self.todos.push(fresh_todo()), ..self }
    }

    /// Whether a drag event moves a bar: outside editing, during a drag,
    /// with the dragged entry's row in the layout.
    pub open spec fn drag_applies(self, layout: Seq<Rect>) -> bool {
        &&& self.editing.is_none()
        &&& self.dragging
        &&& self.drag_index matches Some(i) && 0 <= i < self.todos.len() && i < layout.len()
    }

    /// A mouse event outside editing: the state after it, and whether the
    /// list is to be saved.
    ///
    /// The left button going down acts on what it hits: a title enters
    /// editing, a bar starts a drag and takes the touch, the add button
    /// appends an entry. A drag with the left button moves the dragged bar.
    /// The left button going up ends the drag. Nothing else has an effect.
    pub open spec fn mouse(self, ev: MouseEvent, layout: Seq<Rect>) -> (AppView, bool) {
        match ev.kind {
            MouseKind::Down(Button::Left) => match hit_at(
                ev.column as int,
                ev.row as int,
                layout,
                self.todos.len() as int,
            ) {
                HitResult::Title(i) => (self.begin_edit(i as int), false),
                HitResult::Bar(i) => (
                    self.grab(i as int).touch(i as int, layout[i as int], ev.column as int),
                    true,
                ),
                HitResult::Add => (self.append(), true),
                HitResult::Miss => (self, false),
            },
            MouseKind::Drag(Button::Left) => if self.drag_applies(layout) {
                let i = self.drag_index.unwrap();
                (self.touch(i, layout[i], ev.column as int), true)
            } else {
                (self, false)
            },
            MouseKind::Up(Button::Left) => (self.release(), false),
            _ => (self, false),
        }
    }

    /// A key while entry `i` is edited. `q` and every key that is neither
    /// a character nor backspace leave editing, and `q` leaves the loop.
    pub open spec fn edit_key(self, i: int, key: Key) -> (AppView, Outcome) {
        match key {
            Key::Char(c) => if c == 'q' {
                (self.commit(i), quit())
            } else {
                (AppView { buffer: self.buffer.push(c), ..self }, carry_on())
            },
            Key::Backspace => if self.buffer.len() > 0 {
                (AppView { buffer: self.buffer.drop_last(), ..self }, carry_on())
            } else {
                (self, carry_on())
            },
            _ => (self.commit(i), saved()),
        }
    }

    /// A mouse event while entry `i` is edited. The first one after
    /// entering is dropped; a mere move has no effect; any other leaves
    /// editing and then acts as outside editing.
    pub open spec fn edit_mouse(self, i: int, ev: MouseEvent, layout: Seq<Rect>) -> (
        AppView,
        Outcome,
    ) {
        if self.latch {
            (AppView { latch: false, ..self }, carry_on())
        } else if ev.kind == MouseKind::Moved {
            (self, carry_on())
        } else {
            (self.commit(i).mouse(ev, layout).0, saved())
        }
    }

    /// One event: the state after it and what the caller owes.
    pub open spec fn step(self, event: Event, layout: Seq<Rect>) -> (AppView, Outcome) {
        match self.editing {
            Some(i) => match event {
                Event::Key(key) => self.edit_key(i, key),
                Event::Mouse(ev) => self.edit_mouse(i, ev, layout),
                Event::Tick => (self, carry_on()),
            },
            None => match event {
                Event::Key(Key::Char(c)) => if c == 'q' {
                    (self, quit())
                } else {
                    (self, carry_on())
                },
                Event::Key(_) => (self, carry_on()),
                Event::Mouse(ev) => (
                    self.mouse(ev, layout).0,
                    Outcome { persist: self.mouse(ev, layout).1, exit: false },
                ),
                Event::Tick => (self, carry_on()),
            },
        }
    }
}

/// The state after a run of events, each with the size that the screen had
/// when it came; the layout of each step is that of the list as it then was.
pub open spec fn run(s: AppView, events: Seq<(Event, Rect)>) -> AppView
    decreases events.len(),
{
    if events.len() == 0 {
        s
    } else {
        let before = run(s, events.drop_last());
        before.step(events.last().0, screen_layout(events.last().1, before.todos.len() as int)).0
    }
}

/// A mouse event outside editing keeps the state's invariant, keeps every
/// progress a percentage, and never shortens the list.
pub proof fn lemma_mouse_preserves(s: AppView, ev: MouseEvent, layout: Seq<Rect>)
    requires
        s.wf(),
        s.editing.is_none(),
    ensures
        s.mouse(ev, layout).0.wf(),
        in_range(s.todos) ==> in_range(s.mouse(ev, layout).0.todos),
        s.mouse(ev, layout).0.todos.len() >= s.todos.len(),
{
    let n = s.todos.len() as int;
    lemma_hit_names_entry(ev.column as int, ev.row as int, layout, n, 0);
    match ev.kind {
        MouseKind::Down(Button::Left) => {
            match hit_at(ev.column as int, ev.row as int, layout, n) {
                HitResult::Bar(i) => {
                    lemma_progress_at_bounded(
                        s.todos[i as int].progress,
                        bar_region(layout[i as int]),
                        ev.column as int,
                    );
                },
                _ => {},
            }
        },
        MouseKind::Drag(Button::Left) => {
            if s.drag_applies(layout) {
                let i = s.drag_index.unwrap();
                lemma_progress_at_bounded(
                    s.todos[i].progress,
                    bar_region(layout[i]),
                    ev.column as int,
                );
            }
        },
        _ => {},
    }
}

/// Every event keeps the state's invariant: dragging and editing exclude
/// each other before and after. It keeps every progress a percentage, and
/// it never shortens the list.
pub proof fn lemma_step_preserves(s: AppView, event: Event, layout: Seq<Rect>)
    requires
        s.wf(),
    ensures
        s.step(event, layout).0.wf(),
        s.step(event, layout).0.dragging ==> s.step(event, layout).0.editing.is_none(),
        s.step(event, layout).0.editing.is_some() ==> !s.step(event, layout).0.dragging,
        in_range(s.todos) ==> in_range(s.step(event, layout).0.todos),
        s.step(event, layout).0.todos.len() >= s.todos.len(),
{
    match s.editing {
        Some(i) => {
            match event {
                Event::Mouse(ev) => {
                    lemma_mouse_preserves(s.commit(i), ev, layout);
                },
                _ => {},
            }
        },
        None => {
            match event {
                Event::Mouse(ev) => {
                    lemma_mouse_preserves(s, ev, layout);
                },
                _ => {},
            }
        },
    }
}

/// After every run of events from a state that meets the invariant,
/// dragging and editing exclude each other, and every progress is a
/// percentage if every progress was one at the start.
pub proof fn lemma_run_preserves(s: AppView, events: Seq<(Event, Rect)>)
    requires
        s.wf(),
    ensures
        run(s, events).wf(),
        run(s, events).dragging ==> run(s, events).editing.is_none(),
        run(s, events).editing.is_some() ==> !run(s, events).dragging,
        in_range(s.todos) ==> in_range(run(s, events).todos),
        run(s, events).todos.len() >= s.todos.len(),
    decreases events.len(),
{
    if events.len() > 0 {
        lemma_run_preserves(s, events.drop_last());
        let before = run(s, events.drop_last());
        lemma_step_preserves(
            before,
            events.last().0,
            screen_layout(events.last().1, before.todos.len() as int),
        );
    }
}

impl App {
    /// A session on the given list: not editing, not dragging.
    pub fn new(todos: Vec<Todo>) -> (app: App)
        ensures
            app.todos == todos,
            app@ == (AppView {
                todos: list_view(todos@),
                editing: None,
                buffer: Seq::empty(),
                dragging: false,
                drag_index: None,
                latch: false,
            }),
            app@.wf(),
    {
        App {
            todos,
            editing_index: None,
            input_buffer: String::new(),
            dragging: false,
            drag_index: None,
            just_started_editing: false,
        }
    }

    /// Whether the state meets its invariant.
    pub fn is_well_formed(&self) -> (r: bool)
        ensures
            r == self@.wf(),
    {
        let count = self.todos.len();
        let editing_ok = match self.editing_index {
            Some(i) => i < count,
            None => self.input_buffer.as_str().unicode_len() == 0,
        };
        let drag_ok = match self.drag_index {
            Some(i) => i < count && self.dragging && self.editing_index.is_none(),
            None => !self.dragging,
        };
        editing_ok && drag_ok
    }

    /// Appends a new entry: the list grows by one, and its last entry has
    /// the default name and no progress.
    pub fn add_todo(&mut self)
        ensures
            final(self)@ == old(self)@.append(),
            final(self)@.todos.len() == old(self)@.todos.len() + 1,
            final(self)@.todos.last() == fresh_todo(),
            forall|i: int|
                0 <= i < old(self)@.todos.len() ==> final(self)@.todos[i] == old(self)@.todos[i],
    {
        self.todos.push(Todo::fresh());
        assert(self@.todos =~= old(self)@.todos.push(fresh_todo()));
    }

    /// Replaces the progress of entry `i` by what a touch at `column` of
    /// its bar gives; the bar is drawn in the bar region of `row_area`.
    fn touch_bar(&mut self, i: usize, row_area: Rect, column: u16)
        requires
            i < old(self).todos@.len(),
            row_area.fits(),
        ensures
            final(self)@ == old(self)@.touch(i as int, row_area, column as int),
    {
        let parts = split_row(row_area);
        let mut entry = self.todos[i].duplicate();
        update_progress(&mut entry, parts.1, column);
        self.todos.set(i, entry);
        assert(self@.todos =~= old(self)@.touch(i as int, row_area, column as int).todos);
    }

    /// Leaves editing of entry `i`: the buffer becomes its name.
    fn commit(&mut self, i: usize)
        requires
            i < old(self).todos@.len(),
        ensures
            final(self)@ == old(self)@.commit(i as int),
    {
        let name = self.input_buffer.clone();
        let progress: u16 = self.todos[i].progress;
        self.todos.set(i, Todo { name, progress });
        self.input_buffer = String::new();
        self.editing_index = None;
        assert(self@.todos =~= old(self)@.commit(i as int).todos);
    }

    /// Enters editing of entry `i`.
    fn begin_edit(&mut self, i: usize)
        requires
            i < old(self).todos@.len(),
        ensures
            final(self)@ == old(self)@.begin_edit(i as int),
    {
        let fresh = Todo::fresh();
        if self.todos[i].name == fresh.name {
            self.input_buffer = String::new();
        } else {
            self.input_buffer = self.todos[i].name.clone();
        }
        self.editing_index = Some(i);
        self.just_started_editing = true;
        self.dragging = false;
        self.drag_index = None;
    }

    /// Handles a mouse event outside editing and says whether the list is
    /// to be saved. `chunks` is the layout that the event's cell refers to.
    pub fn process_mouse_event(&mut self, mouse_event: MouseEvent, chunks: &Vec<Rect>) -> (persist:
        bool)
        requires
            old(self)@.wf(),
            layout_fits(chunks@),
        ensures
            (final(self)@, persist) == old(self)@.mouse(mouse_event, chunks@),
            old(self)@.editing.is_none() ==> final(self)@.wf(),
            in_range(old(self)@.todos) ==> in_range(final(self)@.todos),
            final(self)@.todos.len() >= old(self)@.todos.len(),
    {
        match mouse_event.kind {
            MouseKind::Down(Button::Left) => {
                let found = hit((mouse_event.column, mouse_event.row), chunks, self.todos.len());
                match found {
                    HitResult::Title(i) => {
                        self.begin_edit(i);
                        false
                    },
                    HitResult::Bar(i) => {
                        self.dragging = true;
                        self.drag_index = Some(i);
                        proof {
                            lemma_progress_at_bounded(
                                self@.todos[i as int].progress,
                                bar_region(chunks@[i as int]),
                                mouse_event.column as int,
                            );
                        }
                        self.touch_bar(i, chunks[i], mouse_event.column);
                        true
                    },
                    HitResult::Add => {
                        self.add_todo();
                        true
                    },
                    HitResult::Miss => false,
                }
            },
            MouseKind::Drag(Button::Left) => {
                if self.editing_index.is_none() && self.dragging {
                    match self.drag_index {
                        Some(i) => {
                            if i < chunks.len() {
                                proof {
                                    lemma_progress_at_bounded(
                                        self@.todos[i as int].progress,
                                        bar_region(chunks@[i as int]),
                                        mouse_event.column as int,
                                    );
                                }
                                self.touch_bar(i, chunks[i], mouse_event.column);
                                true
                            } else {
                                false
                            }
                        },
                        None => false,
                    }
                } else {
                    false
                }
            },
            MouseKind::Up(Button::Left) => {
                self.dragging = false;
                self.drag_index = None;
                false
            },
            _ => false,
        }
    }

    /// Handles one event against the given layout and says what the caller
    /// owes: to save the list, to leave the loop.
    pub fn handle_event_in(&mut self, event: Event, chunks: &Vec<Rect>) -> (outcome: Outcome)
        requires
            old(self)@.wf(),
            layout_fits(chunks@),
        ensures
            (final(self)@, outcome) == old(self)@.step(event, chunks@),
            final(self)@.wf(),
            final(self)@.dragging ==> final(self)@.editing.is_none(),
            final(self)@.editing.is_some() ==> !final(self)@.dragging,
            in_range(old(self)@.todos) ==> in_range(final(self)@.todos),
            final(self)@.todos.len() >= old(self)@.todos.len(),
            outcome.exit ==> outcome.persist,
    {
        match self.editing_index {
            Some(i) => match event {
                Event::Key(key) => match key {
                    Key::Char(c) => {
                        if c == 'q' {
                            self.commit(i);
                            Outcome { persist: true, exit: true }
                        } else {
                            push_char(&mut self.input_buffer, c);
                            Outcome { persist: false, exit: false }
                        }
                    },
                    Key::Backspace => {
                        let _ = pop_char(&mut self.input_buffer);
                        Outcome { persist: false, exit: false }
                    },
                    _ => {
                        self.commit(i);
                        Outcome { persist: true, exit: false }
                    },
                },
                Event::Mouse(mouse_event) => {
                    if self.just_started_editing {
                        self.just_started_editing = false;
                        Outcome { persist: false, exit: false }
                    } else {
                        match mouse_event.kind {
                            MouseKind::Moved => Outcome { persist: false, exit: false },
                            _ => {
                                self.commit(i);
                                let _ = self.process_mouse_event(mouse_event, chunks);
                                Outcome { persist: true, exit: false }
                            },
                        }
                    }
                },
                Event::Tick => Outcome { persist: false, exit: false },
            },
            None => match event {
                Event::Key(key) => match key {
                    Key::Char(c) => {
                        if c == 'q' {
                            Outcome { persist: true, exit: true }
                        } else {
                            Outcome { persist: false, exit: false }
                        }
                    },
                    _ => Outcome { persist: false, exit: false },
                },
                Event::Mouse(mouse_event) => {
                    let persist = self.process_mouse_event(mouse_event, chunks);
                    Outcome { persist, exit: false }
                },
                Event::Tick => Outcome { persist: false, exit: false },
            },
        }
    }

    /// Handles one event on a screen of the given size: lays the screen
    /// out for the list as it is, then handles the event against that
    /// layout.
    pub fn handle_event(&mut self, event: Event, size: Rect) -> (outcome: Outcome)
        requires
            old(self)@.wf(),
            size.fits(),
        ensures
            (final(self)@, outcome) == old(self)@.step(
                event,
                screen_layout(size, old(self)@.todos.len() as int),
            ),
            final(self)@.wf(),
            final(self)@.dragging ==> final(self)@.editing.is_none(),
            final(self)@.editing.is_some() ==> !final(self)@.dragging,
            in_range(old(self)@.todos) ==> in_range(final(self)@.todos),
            final(self)@.todos.len() >= old(self)@.todos.len(),
            outcome.exit ==> outcome.persist,
    {
        let chunks = compute_chunks(size, self.todos.len());
        self.handle_event_in(event, &chunks)
    }
}

} // verus!
