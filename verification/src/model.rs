//! The entries of the list and their mathematical model.

use vstd::prelude::*;
use vstd::string::StringExecFns;
use crate::bar::{progress_at, touched_progress};
use crate::geometry::Rect;

verus! {

/// One entry of the list: a name and how far along it is, in percent.
#[derive(Clone, Debug)]
pub struct Todo {
    pub name: String,
    pub progress: u16,
}

/// An entry as a mathematical value.
pub struct TodoView {
    pub name: Seq<char>,
    pub progress: nat,
}

impl View for Todo {
    type V = TodoView;

    open spec fn view(&self) -> TodoView {
        TodoView { name: self.name@, progress: self.progress as nat }
    }
}

/// The name that a new entry gets.
pub open spec fn default_name() -> Seq<char> {
    "New Todo"@
}

/// The entry that a new list starts with and that the add button appends.
pub open spec fn fresh_todo() -> TodoView {
    TodoView { name: default_name(), progress: 0 }
}

/// A list of entries as a sequence of mathematical values.
pub open spec fn list_view(todos: Seq<Todo>) -> Seq<TodoView> {
    todos.map_values(|t: Todo| t@)
}

/// Whether every entry's progress is a percentage: at most 100.
pub open spec fn in_range(todos: Seq<TodoView>) -> bool {
    forall|i: int| 0 <= i < todos.len() ==> (#[trigger] todos[i]).progress <= 100
}

impl Todo {
    /// A new entry: the default name, no progress.
    pub fn fresh() -> (t: Todo)
        ensures
            t@ == fresh_todo(),
    {
        Todo { name: String::from_str("New Todo"), progress: 0 }
    }

    /// An entry with the given name and progress.
    pub fn new(name: String, progress: u16) -> (t: Todo)
        ensures
            t.name == name,
            t.progress == progress,
    {
        Todo { name, progress }
    }

    /// A copy of the entry.
    pub fn duplicate(&self) -> (t: Todo)
        ensures
            t@ == self@,
    {
        Todo { name: self.name.clone(), progress: self.progress }
    }
}

/// The list a session starts with: what was loaded, or one new entry when
/// nothing was.
pub fn initial_todos(loaded: Vec<Todo>) -> (todos: Vec<Todo>)
    ensures
        list_view(todos@) == (if loaded@.len() == 0 {
            seq![fresh_todo()]
        } else {
            list_view(loaded@)
        }),
{
    let mut todos = loaded;
    if todos.len() == 0 {
        todos.push(Todo::fresh());
        assert(list_view(todos@) =~= seq![fresh_todo()]);
    }
    todos
}

/// Sets an entry's progress from a touch at column `mouse_x` of its bar,
/// drawn in `area`. The name stays.
pub fn update_progress(todo: &mut Todo, area: Rect, mouse_x: u16)
    ensures
        final(todo).name == old(todo).name,
        final(todo).progress == progress_at(old(todo).progress as nat, area, mouse_x as int),
        old(todo).progress <= 100 ==> final(todo).progress <= 100,
{
    let progress: u16 = touched_progress(todo.progress, area, mouse_x);
    if todo.progress != progress {
        todo.progress = progress;
    }
}

} // verus!
