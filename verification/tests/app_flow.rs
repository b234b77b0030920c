use todo_tui::app::{App, Pane, MAX_HISTORY};
use todo_tui::data::Data;
use todo_tui::keys::{map_key, Command, Key, Mode};
use todo_tui::screen::help_area;

fn strings(items: &[&str]) -> Vec<String> {
    items.iter().map(|s| s.to_string()).collect()
}

fn sample() -> Data {
    Data::new(
        "ExampleUser".to_string(),
        strings(&["Buy groceries", "Finish report", "Call John"]),
        strings(&["Walk the dog", "Read a book"]),
    )
}

fn type_text(app: &mut App, text: &str) {
    for c in text.chars() {
        assert!(!app.handle_command(Command::TypeChar(c)));
    }
}

fn add(app: &mut App, text: &str) -> bool {
    app.handle_command(Command::EnterAddTask);
    type_text(app, text);
    app.handle_command(Command::ConfirmAddTask)
}

fn input(app: &App) -> Option<String> {
    match app.mode() {
        Mode::AddTask(t) => Some(t.clone()),
        _ => None,
    }
}

#[test]
fn map_key_normal_bindings() {
    let m = Mode::Normal;
    assert_eq!(map_key(Key::Char('q'), &m), Some(Command::Quit));
    assert_eq!(map_key(Key::Char('?'), &m), Some(Command::ToggleHelp));
    assert_eq!(map_key(Key::Tab, &m), Some(Command::SwitchPane));
    assert_eq!(map_key(Key::Char('l'), &m), Some(Command::SwitchPane));
    assert_eq!(map_key(Key::Char('h'), &m), Some(Command::SwitchPane));
    assert_eq!(map_key(Key::Char('j'), &m), Some(Command::MoveDown));
    assert_eq!(map_key(Key::Down, &m), Some(Command::MoveDown));
    assert_eq!(map_key(Key::Char('k'), &m), Some(Command::MoveUp));
    assert_eq!(map_key(Key::Up, &m), Some(Command::MoveUp));
    assert_eq!(map_key(Key::Char('a'), &m), Some(Command::EnterAddTask));
    assert_eq!(map_key(Key::Char('c'), &m), Some(Command::CompleteTask));
    assert_eq!(map_key(Key::Char('d'), &m), Some(Command::EnterDeletePrompt));
    assert_eq!(map_key(Key::Char('u'), &m), Some(Command::Undo));
    assert_eq!(map_key(Key::Char('r'), &m), Some(Command::Redo));
    assert_eq!(map_key(Key::Char('x'), &m), None);
    assert_eq!(map_key(Key::Enter, &m), None);
    assert_eq!(map_key(Key::Esc, &m), None);
}

#[test]
fn map_key_typing_takes_every_character() {
    let m = Mode::AddTask(String::new());
    assert_eq!(map_key(Key::Char('q'), &m), Some(Command::TypeChar('q')));
    assert_eq!(map_key(Key::Char('u'), &m), Some(Command::TypeChar('u')));
    assert_eq!(map_key(Key::Char(' '), &m), Some(Command::TypeChar(' ')));
    assert_eq!(map_key(Key::Enter, &m), Some(Command::ConfirmAddTask));
    assert_eq!(map_key(Key::Esc, &m), Some(Command::Cancel));
    assert_eq!(map_key(Key::Backspace, &m), Some(Command::Backspace));
    assert_eq!(map_key(Key::Tab, &m), None);
    assert_eq!(map_key(Key::Up, &m), None);
}

#[test]
fn map_key_delete_prompt() {
    let m = Mode::ConfirmDelete;
    assert_eq!(map_key(Key::Char('y'), &m), Some(Command::ConfirmDelete));
    assert_eq!(map_key(Key::Char('Y'), &m), Some(Command::ConfirmDelete));
    assert_eq!(map_key(Key::Char('n'), &m), Some(Command::RejectDelete));
    assert_eq!(map_key(Key::Char('N'), &m), Some(Command::RejectDelete));
    assert_eq!(map_key(Key::Esc, &m), Some(Command::RejectDelete));
    assert_eq!(map_key(Key::Char('q'), &m), None);
    assert_eq!(map_key(Key::Other, &m), None);
}

#[test]
fn new_selects_first_rows() {
    let app = App::new(sample());
    assert_eq!(app.pending_selected(), Some(0));
    assert_eq!(app.completed_selected(), Some(0));
    assert_eq!(app.current_pane(), Pane::Pending);
    assert!(matches!(app.mode(), Mode::Normal));
    assert_eq!(app.status_message(), None);
    assert!(!app.should_quit());
    assert!(!app.show_help());
    assert_eq!(app.undo_depth(), 0);
    assert_eq!(app.redo_depth(), 0);

    let empty = App::new(Data::new("u".to_string(), vec![], vec![]));
    assert_eq!(empty.pending_selected(), None);
    assert_eq!(empty.completed_selected(), None);
}

#[test]
fn add_task_trims_and_appends() {
    let mut app = App::new(sample());
    assert!(add(&mut app, "  Water plants \t"));
    assert_eq!(app.data().tasks, strings(&["Buy groceries", "Finish report", "Call John", "Water plants"]));
    assert_eq!(app.status_message(), Some("Task added."));
    assert!(matches!(app.mode(), Mode::Normal));
    assert_eq!(app.undo_depth(), 1);
    assert_eq!(app.pending_selected(), Some(0));
}

#[test]
fn add_blank_task_adds_nothing() {
    let mut app = App::new(sample());
    assert!(!add(&mut app, " \t  "));
    assert_eq!(app.data().tasks.len(), 3);
    assert_eq!(app.undo_depth(), 0);
    assert_eq!(app.status_message(), None);
    assert!(matches!(app.mode(), Mode::Normal));
}

#[test]
fn first_added_task_is_selected() {
    let mut app = App::new(Data::new("u".to_string(), vec![], vec![]));
    assert!(add(&mut app, "one"));
    assert_eq!(app.pending_selected(), Some(0));
    assert!(add(&mut app, "two"));
    assert_eq!(app.pending_selected(), Some(0));
}

#[test]
fn typing_and_backspace() {
    let mut app = App::new(sample());
    app.handle_command(Command::EnterAddTask);
    assert_eq!(input(&app), Some(String::new()));
    type_text(&mut app, "ab");
    assert_eq!(input(&app), Some("ab".to_string()));
    app.handle_command(Command::Backspace);
    assert_eq!(input(&app), Some("a".to_string()));
    app.handle_command(Command::Backspace);
    app.handle_command(Command::Backspace);
    assert_eq!(input(&app), Some(String::new()));
    app.handle_command(Command::Cancel);
    assert!(matches!(app.mode(), Mode::Normal));
}

#[test]
fn typing_outside_add_mode_is_ignored() {
    let mut app = App::new(sample());
    app.handle_command(Command::TypeChar('z'));
    app.handle_command(Command::Backspace);
    assert!(matches!(app.mode(), Mode::Normal));
}

#[test]
fn complete_moves_selected_task() {
    let mut app = App::new(sample());
    app.handle_command(Command::MoveDown);
    assert!(app.handle_command(Command::CompleteTask));
    assert_eq!(app.data().tasks, strings(&["Buy groceries", "Call John"]));
    assert_eq!(app.data().completed, strings(&["Walk the dog", "Read a book", "Finish report"]));
    assert_eq!(app.pending_selected(), Some(1));
    assert_eq!(app.status_message(), Some("Task completed."));
    assert_eq!(app.undo_depth(), 1);
}

#[test]
fn complete_last_row_moves_selection_up() {
    let mut app = App::new(sample());
    app.handle_command(Command::MoveUp);
    assert_eq!(app.pending_selected(), Some(2));
    assert!(app.handle_command(Command::CompleteTask));
    assert_eq!(app.pending_selected(), Some(1));
    assert!(app.handle_command(Command::CompleteTask));
    assert!(app.handle_command(Command::CompleteTask));
    assert_eq!(app.pending_selected(), None);
    assert!(app.data().tasks.is_empty());
    assert!(!app.handle_command(Command::CompleteTask));
}

#[test]
fn first_completed_task_is_selected() {
    let mut app = App::new(Data::new("u".to_string(), strings(&["a"]), vec![]));
    assert_eq!(app.completed_selected(), None);
    assert!(app.handle_command(Command::CompleteTask));
    assert_eq!(app.completed_selected(), Some(0));
    assert_eq!(app.pending_selected(), None);
}

#[test]
fn complete_in_completed_pane_does_nothing() {
    let mut app = App::new(sample());
    app.handle_command(Command::SwitchPane);
    assert!(!app.handle_command(Command::CompleteTask));
    assert_eq!(app.data().tasks.len(), 3);
}

#[test]
fn delete_flow_pending() {
    let mut app = App::new(sample());
    app.handle_command(Command::EnterDeletePrompt);
    assert!(matches!(app.mode(), Mode::ConfirmDelete));
    app.handle_command(Command::RejectDelete);
    assert!(matches!(app.mode(), Mode::Normal));
    app.handle_command(Command::EnterDeletePrompt);
    assert!(app.handle_command(Command::ConfirmDelete));
    assert_eq!(app.data().tasks, strings(&["Finish report", "Call John"]));
    assert_eq!(app.status_message(), Some("Task deleted."));
    assert!(matches!(app.mode(), Mode::Normal));
    assert_eq!(app.undo_depth(), 0);
}

#[test]
fn delete_flow_completed_last_row() {
    let mut app = App::new(sample());
    app.handle_command(Command::SwitchPane);
    app.handle_command(Command::MoveDown);
    assert_eq!(app.completed_selected(), Some(1));
    app.handle_command(Command::EnterDeletePrompt);
    assert!(app.handle_command(Command::ConfirmDelete));
    assert_eq!(app.data().completed, strings(&["Walk the dog"]));
    assert_eq!(app.completed_selected(), Some(0));
    app.handle_command(Command::EnterDeletePrompt);
    assert!(app.handle_command(Command::ConfirmDelete));
    assert_eq!(app.completed_selected(), None);
    app.handle_command(Command::EnterDeletePrompt);
    assert!(matches!(app.mode(), Mode::Normal));
    assert!(!app.handle_command(Command::ConfirmDelete));
}

#[test]
fn undo_and_redo_round_trip() {
    let mut app = App::new(sample());
    assert!(add(&mut app, "New"));
    assert!(app.handle_command(Command::Undo));
    assert_eq!(app.data().tasks, sample().tasks);
    assert_eq!(app.status_message(), Some("Undo."));
    assert_eq!(app.undo_depth(), 0);
    assert_eq!(app.redo_depth(), 1);
    assert!(app.handle_command(Command::Redo));
    assert_eq!(app.data().tasks.last().map(|s| s.as_str()), Some("New"));
    assert_eq!(app.status_message(), Some("Redo."));
    assert_eq!(app.undo_depth(), 1);
    assert_eq!(app.redo_depth(), 0);
}

#[test]
fn undo_with_empty_history_changes_nothing() {
    let mut app = App::new(sample());
    assert!(!app.handle_command(Command::Undo));
    assert!(!app.handle_command(Command::Redo));
    assert_eq!(app.status_message(), None);
    assert_eq!(app.data().tasks.len(), 3);
}

#[test]
fn undo_of_complete_restores_lists_and_clamps_selection() {
    let mut app = App::new(Data::new("u".to_string(), strings(&["a"]), vec![]));
    assert!(app.handle_command(Command::CompleteTask));
    assert_eq!(app.pending_selected(), None);
    assert!(app.handle_command(Command::Undo));
    assert_eq!(app.data().tasks, strings(&["a"]));
    assert!(app.data().completed.is_empty());
    // an absent selection is kept by the re-sync after undo
    assert_eq!(app.pending_selected(), None);
    assert_eq!(app.completed_selected(), None);
}

#[test]
fn new_edit_clears_redo() {
    let mut app = App::new(sample());
    assert!(add(&mut app, "x"));
    assert!(app.handle_command(Command::Undo));
    assert_eq!(app.redo_depth(), 1);
    assert!(add(&mut app, "y"));
    assert_eq!(app.redo_depth(), 0);
}

#[test]
fn history_is_capped() {
    let mut app = App::new(Data::new("u".to_string(), vec![], vec![]));
    for i in 0..(MAX_HISTORY + 5) {
        assert!(add(&mut app, &format!("t{}", i)));
    }
    assert_eq!(app.undo_depth(), MAX_HISTORY);
    let mut undone = 0;
    while app.handle_command(Command::Undo) {
        undone += 1;
    }
    assert_eq!(undone, MAX_HISTORY);
    assert_eq!(app.data().tasks.len(), 5);
}

#[test]
fn moving_wraps_around() {
    let mut app = App::new(sample());
    app.handle_command(Command::MoveUp);
    assert_eq!(app.pending_selected(), Some(2));
    app.handle_command(Command::MoveDown);
    assert_eq!(app.pending_selected(), Some(0));
    app.handle_command(Command::MoveDown);
    assert_eq!(app.pending_selected(), Some(1));
    app.handle_command(Command::SwitchPane);
    app.handle_command(Command::MoveDown);
    app.handle_command(Command::MoveDown);
    assert_eq!(app.completed_selected(), Some(0));
    assert_eq!(app.pending_selected(), Some(1));
}

#[test]
fn moving_on_empty_list_keeps_nothing_selected() {
    let mut app = App::new(Data::new("u".to_string(), vec![], vec![]));
    app.handle_command(Command::MoveDown);
    app.handle_command(Command::MoveUp);
    assert_eq!(app.pending_selected(), None);
}

#[test]
fn switch_pane_twice_and_selected_index() {
    let mut app = App::new(sample());
    app.handle_command(Command::MoveDown);
    assert_eq!(app.selected_index(), 1);
    app.handle_command(Command::SwitchPane);
    assert_eq!(app.current_pane(), Pane::Completed);
    assert_eq!(app.selected_index(), 0);
    app.handle_command(Command::SwitchPane);
    assert_eq!(app.current_pane(), Pane::Pending);
}

#[test]
fn quit_and_help() {
    let mut app = App::new(sample());
    app.handle_command(Command::ToggleHelp);
    assert!(app.show_help());
    app.handle_command(Command::ToggleHelp);
    assert!(!app.show_help());
    assert!(!app.handle_command(Command::Quit));
    assert!(app.should_quit());
}

#[test]
fn status_is_cleared_by_next_command() {
    let mut app = App::new(sample());
    assert!(add(&mut app, "x"));
    assert_eq!(app.status_message(), Some("Task added."));
    app.handle_command(Command::MoveDown);
    assert_eq!(app.status_message(), None);
}

#[test]
fn key_events() {
    let mut app = App::new(sample());
    assert!(!app.handle_key(Key::Char('q'), false));
    assert!(!app.should_quit());
    assert!(!app.handle_key(Key::Char('a'), true));
    assert!(!app.handle_key(Key::Char('q'), true));
    assert!(!app.should_quit());
    assert!(app.handle_key(Key::Enter, true));
    assert_eq!(app.data().tasks.last().map(|s| s.as_str()), Some("q"));
    assert!(!app.handle_key(Key::Other, true));
    assert!(!app.handle_key(Key::Char('q'), true));
    assert!(app.should_quit());
}

#[test]
fn bottom_text_per_mode() {
    let mut app = App::new(sample());
    assert_eq!(app.bottom_text(), " [q]uit  [a]dd  [c]omplete  [d]elete  [Tab] switch pane  ");
    app.handle_command(Command::EnterAddTask);
    type_text(&mut app, "hi");
    assert_eq!(app.bottom_text(), " Enter task: hi_ (Enter to confirm, Esc to cancel)");
    app.handle_command(Command::ConfirmAddTask);
    assert_eq!(
        app.bottom_text(),
        " [q]uit  [a]dd  [c]omplete  [d]elete  [Tab] switch pane  Task added."
    );
    app.handle_command(Command::EnterDeletePrompt);
    let question = [" Delete this", " task? (y/n)"].concat();
    assert_eq!(app.bottom_text(), question);
}

#[test]
fn help_area_values() {
    assert_eq!(help_area(0, 0, 80, 24), (20, 8, 40, 8));
    assert_eq!(help_area(3, 2, 81, 25), (23, 10, 41, 8));
    assert_eq!(help_area(0, 0, 0, 0), (0, 0, 0, 0));
}

#[test]
fn duplicate_copies_content() {
    let d = sample();
    let c = d.duplicate();
    assert_eq!(c.user_name, d.user_name);
    assert_eq!(c.tasks, d.tasks);
    assert_eq!(c.completed, d.completed);
}

#[test]
fn down_then_up_returns_to_row() {
    let mut app = App::new(sample());
    for start in 0..3usize {
        let mut a = App::new(sample());
        for _ in 0..start {
            a.handle_command(Command::MoveDown);
        }
        assert_eq!(a.pending_selected(), Some(start));
        a.handle_command(Command::MoveDown);
        a.handle_command(Command::MoveUp);
        assert_eq!(a.pending_selected(), Some(start));
        a.handle_command(Command::MoveUp);
        a.handle_command(Command::MoveDown);
        assert_eq!(a.pending_selected(), Some(start));
    }
    app.handle_command(Command::SwitchPane);
    app.handle_command(Command::MoveUp);
    app.handle_command(Command::MoveDown);
    assert_eq!(app.completed_selected(), Some(0));
}

#[test]
fn delete_is_not_recorded_in_history() {
    let mut app = App::new(sample());
    assert!(add(&mut app, "extra"));
    assert_eq!(app.undo_depth(), 1);
    app.handle_command(Command::EnterDeletePrompt);
    assert!(app.handle_command(Command::ConfirmDelete));
    assert_eq!(app.data().tasks, strings(&["Finish report", "Call John", "extra"]));
    assert_eq!(app.undo_depth(), 1);
    // undo goes back to the snapshot taken before the addition
    assert!(app.handle_command(Command::Undo));
    assert_eq!(app.data().tasks, sample().tasks);
}

#[test]
fn complete_keeps_every_task() {
    let mut app = App::new(sample());
    let mut all: Vec<String> = sample().tasks;
    all.extend(sample().completed);
    all.sort();
    while app.handle_command(Command::CompleteTask) {
        let mut now: Vec<String> = app.data().tasks.clone();
        now.extend(app.data().completed.clone());
        now.sort();
        assert_eq!(now, all);
    }
    assert!(app.data().tasks.is_empty());
    assert_eq!(app.data().completed.len(), 5);
}

#[test]
fn selections_stay_on_rows() {
    let mut app = App::new(sample());
    let script = [
        Command::MoveUp,
        Command::CompleteTask,
        Command::SwitchPane,
        Command::MoveUp,
        Command::EnterDeletePrompt,
        Command::ConfirmDelete,
        Command::Undo,
        Command::Undo,
        Command::Redo,
        Command::SwitchPane,
        Command::CompleteTask,
        Command::CompleteTask,
        Command::Undo,
    ];
    for cmd in script {
        app.handle_command(cmd);
        if let Some(i) = app.pending_selected() {
            assert!(i < app.data().tasks.len());
        }
        if let Some(i) = app.completed_selected() {
            assert!(i < app.data().completed.len());
        }
        assert!(app.undo_depth() + app.redo_depth() <= MAX_HISTORY);
    }
}

#[test]
fn unicode_white_space_is_trimmed() {
    let mut app = App::new(Data::new("u".to_string(), vec![], vec![]));
    assert!(!add(&mut app, "  "));
    assert!(!add(&mut app, "\u{3000}\u{a0}\u{2028}"));
    assert!(add(&mut app, " z "));
    assert!(add(&mut app, "\u{2003}w\u{85}"));
    assert_eq!(app.data().tasks, strings(&["z", "w"]));
}
