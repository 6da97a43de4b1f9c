use todo_progress::frame::ui;
use todo_progress::geometry::{compute_chunks, Rect};
use todo_progress::model::{initial_todos, Todo};
use todo_progress::session::{App, Button, Event, Key, MouseEvent, MouseKind, Outcome};

const CARRY_ON: Outcome = Outcome { persist: false, exit: false };
const SAVED: Outcome = Outcome { persist: true, exit: false };
const QUIT: Outcome = Outcome { persist: true, exit: true };

fn screen() -> Rect {
    Rect::new(0, 0, 80, 24)
}

fn down(column: u16, row: u16) -> Event {
    Event::Mouse(MouseEvent { kind: MouseKind::Down(Button::Left), column, row })
}

fn up(column: u16, row: u16) -> Event {
    Event::Mouse(MouseEvent { kind: MouseKind::Up(Button::Left), column, row })
}

fn drag(column: u16, row: u16) -> Event {
    Event::Mouse(MouseEvent { kind: MouseKind::Drag(Button::Left), column, row })
}

fn key(c: char) -> Event {
    Event::Key(Key::Char(c))
}

fn names(app: &App) -> Vec<String> {
    app.todos.iter().map(|t| t.name.clone()).collect()
}

fn app_with(entries: &[(&str, u16)]) -> App {
    App::new(entries.iter().map(|(n, p)| Todo::new(String::from(*n), *p)).collect())
}

fn type_text(app: &mut App, text: &str) {
    for c in text.chars() {
        assert_eq!(app.handle_event(key(c), screen()), CARRY_ON);
    }
}

fn assert_exclusive(app: &App) {
    assert!(!(app.dragging && app.editing_index.is_some()));
    assert_eq!(app.dragging, app.drag_index.is_some());
}

#[test]
fn new_session_is_idle() {
    let app = app_with(&[("A", 3)]);
    assert_eq!(app.editing_index, None);
    assert_eq!(app.input_buffer, "");
    assert!(!app.dragging);
    assert_eq!(app.drag_index, None);
    assert!(!app.just_started_editing);
    assert_eq!(names(&app), vec!["A"]);
}

#[test]
fn fresh_start_add_edit_quit() {
    let mut app = App::new(initial_todos(Vec::new()));
    assert_eq!(names(&app), vec!["New Todo"]);
    assert_eq!(app.todos[0].progress, 0);
    // the add button is the stripe after the one entry
    assert_eq!(app.handle_event(down(5, 2), screen()), SAVED);
    assert_eq!(app.handle_event(up(5, 2), screen()), CARRY_ON);
    assert_eq!(names(&app), vec!["New Todo", "New Todo"]);
    assert_eq!(app.handle_event(down(5, 2), screen()), CARRY_ON);
    assert_eq!(app.editing_index, Some(1));
    assert_eq!(app.handle_event(up(5, 2), screen()), CARRY_ON);
    type_text(&mut app, "Buy milk");
    assert_eq!(app.input_buffer, "Buy milk");
    assert_eq!(app.handle_event(Event::Key(Key::Enter), screen()), SAVED);
    assert_eq!(app.editing_index, None);
    assert_eq!(app.handle_event(key('q'), screen()), QUIT);
    assert_eq!(names(&app), vec!["New Todo", "Buy milk"]);
    assert_eq!(app.todos[0].progress, 0);
    assert_eq!(app.todos[1].progress, 0);
}

#[test]
fn esc_commits_the_buffer() {
    let mut app = app_with(&[("A", 0)]);
    assert_eq!(app.handle_event(down(3, 1), screen()), CARRY_ON);
    assert_eq!(app.input_buffer, "A");
    type_text(&mut app, "BC");
    assert_eq!(app.handle_event(Event::Key(Key::Esc), screen()), SAVED);
    assert_eq!(names(&app), vec!["ABC"]);
    assert_eq!(app.editing_index, None);
    assert_eq!(app.input_buffer, "");
}

#[test]
fn esc_after_clearing_commits_what_was_typed() {
    let mut app = app_with(&[("A", 0)]);
    app.handle_event(down(3, 1), screen());
    assert_eq!(app.handle_event(Event::Key(Key::Backspace), screen()), CARRY_ON);
    assert_eq!(app.input_buffer, "");
    assert_eq!(app.handle_event(Event::Key(Key::Backspace), screen()), CARRY_ON);
    assert_eq!(app.input_buffer, "");
    type_text(&mut app, "BC");
    assert_eq!(app.handle_event(Event::Key(Key::Esc), screen()), SAVED);
    assert_eq!(names(&app), vec!["BC"]);
}

#[test]
fn click_to_edit_clears_the_default_name() {
    let mut app = app_with(&[("X", 0)]);
    assert_eq!(app.handle_event(down(5, 2), screen()), SAVED);
    assert_eq!(names(&app), vec!["X", "New Todo"]);
    assert_eq!(app.handle_event(down(5, 2), screen()), CARRY_ON);
    assert_eq!(app.editing_index, Some(1));
    assert_eq!(app.input_buffer, "");
    assert!(app.just_started_editing);
    // the button's release is dropped; the next press leaves and enters the other title
    assert_eq!(app.handle_event(up(5, 2), screen()), CARRY_ON);
    assert_eq!(app.handle_event(down(5, 1), screen()), SAVED);
    assert_eq!(app.editing_index, Some(0));
    assert_eq!(app.input_buffer, "X");
    // the entry left with an empty buffer has an empty name
    assert_eq!(names(&app), vec!["X", ""]);
}

#[test]
fn release_after_the_press_that_entered_editing_is_dropped() {
    let mut app = app_with(&[("A", 0), ("B", 0)]);
    assert_eq!(app.handle_event(down(5, 2), screen()), CARRY_ON);
    assert_eq!(app.editing_index, Some(1));
    assert!(app.just_started_editing);
    assert_eq!(app.handle_event(up(5, 2), screen()), CARRY_ON);
    assert_eq!(app.editing_index, Some(1));
    assert!(!app.just_started_editing);
    assert_eq!(app.input_buffer, "B");
    // a second release is no longer dropped: it leaves editing
    assert_eq!(app.handle_event(up(5, 2), screen()), SAVED);
    assert_eq!(app.editing_index, None);
    assert_eq!(names(&app), vec!["A", "B"]);
}

#[test]
fn q_while_editing_commits_and_quits() {
    let mut app = app_with(&[("A", 0)]);
    app.handle_event(down(3, 1), screen());
    app.handle_event(Event::Key(Key::Backspace), screen());
    type_text(&mut app, "Hello");
    assert_eq!(app.input_buffer, "Hello");
    assert_eq!(app.handle_event(key('q'), screen()), QUIT);
    assert_eq!(names(&app), vec!["Hello"]);
    assert_eq!(app.editing_index, None);
    assert_eq!(app.input_buffer, "");
}

#[test]
fn q_outside_editing_quits() {
    let mut app = app_with(&[("A", 10)]);
    assert_eq!(app.handle_event(key('q'), screen()), QUIT);
    assert_eq!(names(&app), vec!["A"]);
    assert_eq!(app.todos[0].progress, 10);
}

#[test]
fn other_keys_outside_editing_do_nothing() {
    let mut app = app_with(&[("A", 10)]);
    for event in [key('x'), key('Q'), Event::Key(Key::Enter), Event::Key(Key::Esc),
        Event::Key(Key::Backspace), Event::Key(Key::Other), Event::Tick] {
        assert_eq!(app.handle_event(event, screen()), CARRY_ON);
    }
    assert_eq!(names(&app), vec!["A"]);
    assert_eq!(app.editing_index, None);
}

#[test]
fn other_key_while_editing_commits() {
    let mut app = app_with(&[("A", 10)]);
    app.handle_event(down(3, 1), screen());
    type_text(&mut app, "b");
    assert_eq!(app.handle_event(Event::Key(Key::Other), screen()), SAVED);
    assert_eq!(names(&app), vec!["Ab"]);
    assert_eq!(app.editing_index, None);
}

#[test]
fn tick_and_move_keep_editing() {
    let mut app = app_with(&[("A", 10)]);
    app.handle_event(down(3, 1), screen());
    app.handle_event(up(3, 1), screen());
    assert_eq!(app.handle_event(Event::Tick, screen()), CARRY_ON);
    let moved = Event::Mouse(MouseEvent { kind: MouseKind::Moved, column: 50, row: 1 });
    assert_eq!(app.handle_event(moved, screen()), CARRY_ON);
    assert_eq!(app.editing_index, Some(0));
    assert_eq!(app.input_buffer, "A");
}

#[test]
fn press_on_a_bar_while_editing_commits_and_drags() {
    let mut app = app_with(&[("A", 0), ("B", 0)]);
    app.handle_event(down(3, 1), screen());
    app.handle_event(up(3, 1), screen());
    type_text(&mut app, "!");
    // bar of the second entry: columns [31, 79), 43 cells from column 32
    assert_eq!(app.handle_event(down(32 + 43, 2), screen()), SAVED);
    assert_eq!(names(&app), vec!["A!", "B"]);
    assert_eq!(app.editing_index, None);
    assert!(app.dragging);
    assert_eq!(app.drag_index, Some(1));
    assert_eq!(app.todos[1].progress, 100);
}

#[test]
fn press_and_drag_on_a_bar() {
    let mut app = app_with(&[("A", 0)]);
    // bar: columns [31, 79), width 48, 43 cells from column 32
    assert_eq!(app.handle_event(down(32, 1), screen()), SAVED);
    assert!(app.dragging);
    assert_eq!(app.drag_index, Some(0));
    assert_eq!(app.todos[0].progress, 0);
    assert_eq!(app.handle_event(drag(53, 5), screen()), SAVED);
    assert_eq!(app.todos[0].progress, 48);
    // 42 cells now
    assert_eq!(app.handle_event(drag(74, 1), screen()), SAVED);
    assert_eq!(app.todos[0].progress, 100);
    assert_eq!(app.handle_event(drag(79, 1), screen()), SAVED);
    assert_eq!(app.todos[0].progress, 100);
    assert_eq!(app.handle_event(up(79, 1), screen()), CARRY_ON);
    assert!(!app.dragging);
    assert_eq!(app.drag_index, None);
    assert_eq!(app.handle_event(drag(32, 1), screen()), CARRY_ON);
    assert_eq!(app.todos[0].progress, 100);
}

#[test]
fn other_buttons_and_the_wheel_do_nothing() {
    let mut app = app_with(&[("A", 20)]);
    for kind in [MouseKind::Down(Button::Other), MouseKind::Up(Button::Other),
        MouseKind::Drag(Button::Other), MouseKind::Moved, MouseKind::Other] {
        let event = Event::Mouse(MouseEvent { kind, column: 40, row: 1 });
        assert_eq!(app.handle_event(event, screen()), CARRY_ON);
    }
    assert_eq!(app.todos[0].progress, 20);
    assert!(!app.dragging);
    assert_eq!(app.editing_index, None);
}

#[test]
fn press_on_nothing_does_nothing() {
    let mut app = app_with(&[("A", 20)]);
    assert_eq!(app.handle_event(down(0, 0), screen()), CARRY_ON);
    assert_eq!(app.handle_event(down(40, 10), screen()), CARRY_ON);
    assert_eq!(app.todos.len(), 1);
    assert!(!app.dragging);
    assert_eq!(app.editing_index, None);
}

#[test]
fn add_appends_a_default_entry() {
    let mut app = app_with(&[("A", 20), ("B", 30)]);
    app.add_todo();
    assert_eq!(names(&app), vec!["A", "B", "New Todo"]);
    assert_eq!(app.todos[2].progress, 0);
    assert_eq!(app.todos[0].progress, 20);
    assert_eq!(app.todos[1].progress, 30);
}

#[test]
fn progress_stays_a_percentage() {
    let mut app = app_with(&[("A", 0), ("B", 100), ("C", 55)]);
    let mut seed: u32 = 12345;
    for _ in 0..4000 {
        seed = seed.wrapping_mul(1664525).wrapping_add(1013904223);
        let column = ((seed >> 8) % 90) as u16;
        let row = ((seed >> 16) % 8) as u16;
        let event = match (seed >> 24) % 6 {
            0 => down(column, row),
            1 => drag(column, row),
            2 => up(column, row),
            3 => key('a'),
            4 => Event::Key(Key::Enter),
            _ => Event::Tick,
        };
        app.handle_event(event, screen());
        assert!(app.todos.iter().all(|t| t.progress <= 100));
        assert_exclusive(&app);
        if let Some(i) = app.editing_index {
            assert!(i < app.todos.len());
        }
    }
}

#[test]
fn press_on_a_title_ends_a_drag() {
    let mut app = app_with(&[("A", 0)]);
    app.handle_event(down(40, 1), screen());
    assert!(app.dragging);
    app.handle_event(down(3, 1), screen());
    assert_eq!(app.editing_index, Some(0));
    assert_exclusive(&app);
    assert!(!app.dragging);
}

#[test]
fn handling_against_a_given_layout() {
    let mut app = app_with(&[("A", 0)]);
    let chunks = compute_chunks(Rect::new(0, 0, 60, 10), 1);
    assert_eq!(app.handle_event_in(down(55, 1), &chunks), SAVED);
    assert_eq!(app.todos[0].progress, 100);
    let event = MouseEvent { kind: MouseKind::Down(Button::Left), column: 3, row: 2 };
    assert!(app.process_mouse_event(event, &chunks));
    assert_eq!(app.todos.len(), 2);
    // the dragged entry has no row in an empty layout: the drag does nothing
    let event = MouseEvent { kind: MouseKind::Drag(Button::Left), column: 40, row: 1 };
    assert!(!app.process_mouse_event(event, &Vec::new()));
    assert_eq!(app.todos[0].progress, 100);
}

#[test]
fn frame_shows_names_bars_and_the_button() {
    let todos = vec![Todo::new(String::from("A"), 50), Todo::new(String::from("B"), 0)];
    let frame = ui(Rect::new(0, 0, 52, 10), &todos, Some(1), &String::from("Bu"));
    assert_eq!(frame.rows.len(), 2);
    assert_eq!(frame.rows[0].title, "A");
    assert!(!frame.rows[0].highlighted);
    assert_eq!(frame.rows[0].title_area, Rect::new(1, 1, 30, 1));
    assert_eq!(frame.rows[0].bar_area, Rect::new(31, 1, 20, 1));
    assert_eq!(frame.rows[0].bar, "[#######-------] 50%");
    assert_eq!(frame.rows[1].title, "Bu_");
    assert!(frame.rows[1].highlighted);
    assert_eq!(frame.rows[1].title_area, Rect::new(1, 2, 30, 1));
    assert_eq!(frame.rows[1].bar, "[---------------] 0%");
    assert_eq!(frame.add_area, Rect::new(1, 3, 50, 1));
    assert_eq!(frame.add_label, "[     +     ]");
}

#[test]
fn frame_on_a_narrow_screen_shows_the_suffix() {
    let todos = vec![Todo::new(String::from("A"), 50)];
    let frame = ui(Rect::new(0, 0, 20, 10), &todos, None, &String::new());
    assert_eq!(frame.rows[0].title_area, Rect::new(1, 1, 17, 1));
    assert_eq!(frame.rows[0].bar_area, Rect::new(18, 1, 1, 1));
    assert_eq!(frame.rows[0].bar, " 50%");
}

#[test]
fn well_formed_states_are_told_apart() {
    let mut app = app_with(&[("A", 0)]);
    assert!(app.is_well_formed());
    app.handle_event(down(3, 1), screen());
    assert!(app.is_well_formed());
    app.dragging = true;
    assert!(!app.is_well_formed());
    app.dragging = false;
    app.editing_index = Some(1);
    assert!(!app.is_well_formed());
    app.editing_index = None;
    assert!(!app.is_well_formed());
    app.input_buffer.clear();
    assert!(app.is_well_formed());
    app.drag_index = Some(0);
    assert!(!app.is_well_formed());
    app.dragging = true;
    assert!(app.is_well_formed());
}

#[test]
fn screen_rectangles_fit_the_grid() {
    assert!(Rect::new(0, 0, 65535, 65535).fits_grid());
    assert!(!Rect::new(1, 0, 65535, 10).fits_grid());
    assert!(!Rect::new(0, 60000, 10, 6000).fits_grid());
}
