use vstd::prelude::*;

use crate::data::{Data, DataView, strs};
use crate::keys::{Command, Key, Mode, ModeView, key_command, map_key};
use crate::laws::lemma_step_keeps_wf;
use crate::text::{str_trim, string_pop, string_push, trim_spec};

verus! {

/// How many snapshots the undo history keeps; older ones are dropped.
pub const MAX_HISTORY: usize = 100;

/// The two lists on screen.
#[derive(Clone, Copy, Debug, PartialEq, Eq, Structural)]
pub enum Pane {
    Pending,
    Completed,
}

/// The content of each data snapshot in a history stack, oldest first.
pub open spec fn datas(v: Seq<Data>) -> Seq<DataView> {
    v.map_values(|d: Data| d@)
}

/// The position a selection stands for: the selected index, or the first
/// row when nothing is selected.
pub open spec fn sel_index(sel: Option<usize>) -> int {
    match sel {
        Some(i) => i as int,
        None => 0,
    }
}

/// A selection fits a list of `len` rows when it points at one of them.
pub open spec fn sel_fits(sel: Option<usize>, len: nat) -> bool {
    match sel {
        Some(i) => i < len,
        None => true,
    }
}

/// A selection brought back into a list of `len` rows: nothing on an empty
/// list, the last row when it points past the end, unchanged otherwise.
pub open spec fn clamp_selection(sel: Option<usize>, len: nat) -> Option<usize> {
    if len == 0 {
        None
    } else if sel_index(sel) >= len {
        Some((len - 1) as usize)
    } else {
        sel
    }
}

/// One row up in a list of `len` rows, wrapping from the first row to the last.
pub open spec fn step_up(sel: Option<usize>, len: nat) -> Option<usize> {
    if len == 0 {
        sel
    } else if sel_index(sel) == 0 {
        Some((len - 1) as usize)
    } else {
        Some((sel_index(sel) - 1) as usize)
    }
}

/// One row down in a list of `len` rows, wrapping from the last row to the first.
pub open spec fn step_down(sel: Option<usize>, len: nat) -> Option<usize> {
    if len == 0 {
        sel
    } else if sel_index(sel) + 1 >= len {
        Some(0)
    } else {
        Some((sel_index(sel) + 1) as usize)
    }
}

/// The selection after row `i` was removed and `len` rows are left.
pub open spec fn after_removal(sel: Option<usize>, i: int, len: nat) -> Option<usize> {
    if len == 0 {
        None
    } else if i >= len {
        Some((len - 1) as usize)
    } else {
        sel
    }
}

/// The whole state of the application, as values.
#[verifier::ext_equal]
pub struct AppView {
    pub data: DataView,
    pub pane: Pane,
    pub pending_selected: Option<usize>,
    pub completed_selected: Option<usize>,
    pub mode: ModeView,
    pub status: Option<Seq<char>>,
    pub should_quit: bool,
    pub show_help: bool,
    /// Snapshots to go back to, the most recent last.
    pub undo_stack: Seq<DataView>,
    /// Snapshots undone, to go forward to, the most recent last.
    pub redo_stack: Seq<DataView>,
}

/// The state in which the application starts on `data`: the pending pane
/// shown, the first row of each non-empty list selected, no history.
pub open spec fn initial_state(data: DataView) -> AppView {
    AppView {
        data,
        pane: Pane::Pending,
        pending_selected: if data.tasks.len() > 0 { Some(0) } else { None },
        completed_selected: if data.completed.len() > 0 { Some(0) } else { None },
        mode: ModeView::Normal,
        status: None,
        should_quit: false,
        show_help: false,
        undo_stack: Seq::empty(),
        redo_stack: Seq::empty(),
    }
}

impl AppView {
    /// Every reachable state: each selection points at a row of its list,
    /// and undo and redo history together hold at most `MAX_HISTORY` snapshots.
    pub open spec fn wf(self) -> bool {
        &&& sel_fits(self.pending_selected, self.data.tasks.len())
        &&& sel_fits(self.completed_selected, self.data.completed.len())
        &&& self.undo_stack.len() + self.redo_stack.len() <= MAX_HISTORY
    }

    /// The row the current pane's selection stands for.
    pub open spec fn selected_index(self) -> int {
        match self.pane {
            Pane::Pending => sel_index(self.pending_selected),
            Pane::Completed => sel_index(self.completed_selected),
        }
    }

    /// Both selections brought back into their lists.
    pub open spec fn synced(self) -> AppView {
        AppView {
            pending_selected: clamp_selection(self.pending_selected, self.data.tasks.len()),
            completed_selected: clamp_selection(self.completed_selected, self.data.completed.len()),
            ..self
        }
    }

    /// The current data saved as the newest undo snapshot (the oldest one
    /// dropped beyond `MAX_HISTORY`), and the redo history emptied.
    pub open spec fn pushed_undo(self) -> AppView {
        let u = self.undo_stack.push(self.data);
        AppView {
            undo_stack: if u.len() > MAX_HISTORY { u.drop_first() } else { u },
            redo_stack: Seq::empty(),
            ..self
        }
    }

    /// Back to the newest undo snapshot, the current data saved for redo.
    pub open spec fn undone(self) -> AppView {
        if self.undo_stack.len() == 0 {
            self
        } else {
            AppView {
                data: self.undo_stack.last(),
                undo_stack: self.undo_stack.drop_last(),
                redo_stack: self.redo_stack.push(self.data),
                status: Some("Undo."@),
                ..self
            }.synced()
        }
    }

    /// Forward to the newest redo snapshot, the current data saved for undo.
    pub open spec fn redone(self) -> AppView {
        if self.redo_stack.len() == 0 {
            self
        } else {
            AppView {
                data: self.redo_stack.last(),
                redo_stack: self.redo_stack.drop_last(),
                undo_stack: self.undo_stack.push(self.data),
                status: Some("Redo."@),
                ..self
            }.synced()
        }
    }

    /// The selection of the current pane moved one row up.
    pub open spec fn moved_up(self) -> AppView {
        match self.pane {
            Pane::Pending => AppView {
                pending_selected: step_up(self.pending_selected, self.data.tasks.len()),
                ..self
            },
            Pane::Completed => AppView {
                completed_selected: step_up(self.completed_selected, self.data.completed.len()),
                ..self
            },
        }
    }

    /// The selection of the current pane moved one row down.
    pub open spec fn moved_down(self) -> AppView {
        match self.pane {
            Pane::Pending => AppView {
                pending_selected: step_down(self.pending_selected, self.data.tasks.len()),
                ..self
            },
            Pane::Completed => AppView {
                completed_selected: step_down(self.completed_selected, self.data.completed.len()),
                ..self
            },
        }
    }

    /// The other pane shown.
    pub open spec fn switched(self) -> AppView {
        AppView {
            pane: match self.pane {
                Pane::Pending => Pane::Completed,
                Pane::Completed => Pane::Pending,
            },
            ..self
        }
    }

    /// Whether confirming the typed text adds a task: it must be non-blank.
    pub open spec fn adds_task(self) -> bool {
        match self.mode {
            ModeView::AddTask(text) => trim_spec(text).len() > 0,
            _ => false,
        }
    }

    /// The typed text, trimmed, appended to the pending tasks (when it is not
    /// blank, with an undo snapshot first); back to browsing either way.
    pub open spec fn task_added(self) -> AppView {
        let base = if self.adds_task() {
            let s = self.pushed_undo();
            let tasks = s.data.tasks.push(trim_spec(self.mode->AddTask_0));
            AppView {
                data: DataView { tasks, ..s.data },
                pending_selected: if tasks.len() == 1 { Some(0) } else { s.pending_selected },
                status: Some("Task added."@),
                ..s
            }
        } else {
            self
        };
        AppView { mode: ModeView::Normal, ..base }
    }

    /// Whether completing applies: the pending selection points at a task.
    pub open spec fn completes_task(self) -> bool {
        sel_index(self.pending_selected) < self.data.tasks.len()
    }

    /// The selected pending task moved to the end of the completed list,
    /// after an undo snapshot.
    pub open spec fn task_completed(self) -> AppView {
        if self.completes_task() {
            let i = sel_index(self.pending_selected);
            let s = self.pushed_undo();
            let tasks = s.data.tasks.remove(i);
            let completed = s.data.completed.push(s.data.tasks[i]);
            AppView {
                data: DataView { tasks, completed, ..s.data },
                pending_selected: after_removal(s.pending_selected, i, tasks.len()),
                completed_selected: if completed.len() == 1 { Some(0) } else { s.completed_selected },
                status: Some("Task completed."@),
                ..s
            }
        } else {
            self
        }
    }

    /// Whether deleting applies: the selection of the current pane points at a row.
    pub open spec fn deletes_task(self) -> bool {
        match self.pane {
            Pane::Pending => self.selected_index() < self.data.tasks.len(),
            Pane::Completed => self.selected_index() < self.data.completed.len(),
        }
    }

    /// The selected row of the current pane removed (no undo snapshot is
    /// taken); back to browsing either way.
    pub open spec fn task_deleted(self) -> AppView {
        let i = self.selected_index();
        let base = if !self.deletes_task() {
            self
        } else {
            match self.pane {
                Pane::Pending => {
                    let tasks = self.data.tasks.remove(i);
                    AppView {
                        data: DataView { tasks, ..self.data },
                        pending_selected: after_removal(self.pending_selected, i, tasks.len()),
                        status: Some("Task deleted."@),
                        ..self
                    }
                },
                Pane::Completed => {
                    let completed = self.data.completed.remove(i);
                    AppView {
                        data: DataView { completed, ..self.data },
                        completed_selected: after_removal(
                            self.completed_selected,
                            i,
                            completed.len(),
                        ),
                        status: Some("Task deleted."@),
                        ..self
                    }
                },
            }
        };
        AppView { mode: ModeView::Normal, ..base }
    }

    /// The state after `cmd`. The status line is cleared first.
    pub open spec fn step(self, cmd: Command) -> AppView {
        let s = AppView { status: None, ..self };
        match cmd {
            Command::Quit => AppView { should_quit: true, ..s },
            Command::ToggleHelp => AppView { show_help: !s.show_help, ..s },
            Command::SwitchPane => s.switched(),
            Command::MoveUp => s.moved_up(),
            Command::MoveDown => s.moved_down(),
            Command::EnterAddTask => AppView { mode: ModeView::AddTask(Seq::empty()), ..s },
            Command::ConfirmAddTask => s.task_added(),
            Command::Cancel => AppView { mode: ModeView::Normal, ..s },
            Command::ConfirmDelete => s.task_deleted(),
            Command::RejectDelete => AppView { mode: ModeView::Normal, ..s },
            Command::CompleteTask => if s.pane == Pane::Pending {
                s.task_completed()
            } else {
                s
            },
            Command::EnterDeletePrompt => {
                let has_items = match s.pane {
                    Pane::Pending => s.data.tasks.len() > 0,
                    Pane::Completed => s.data.completed.len() > 0,
                };
                if has_items {
                    AppView { mode: ModeView::ConfirmDelete, ..s }
                } else {
                    s
                }
            },
            Command::TypeChar(c) => match s.mode {
                ModeView::AddTask(text) => AppView { mode: ModeView::AddTask(text.push(c)), ..s },
                _ => s,
            },
            Command::Backspace => match s.mode {
                ModeView::AddTask(text) => AppView {
                    mode: ModeView::AddTask(
                        if text.len() > 0 {
                            text.drop_last()
                        } else {
                            text
                        },
                    ),
                    ..s
                },
                _ => s,
            },
            Command::Undo => s.undone(),
            Command::Redo => s.redone(),
        }
    }

    /// Whether `cmd` changes the task lists, so that they must be written out.
    pub open spec fn step_saves(self, cmd: Command) -> bool {
        match cmd {
            Command::ConfirmAddTask => self.adds_task(),
            Command::ConfirmDelete => self.deletes_task(),
            Command::CompleteTask => self.pane == Pane::Pending && self.completes_task(),
            Command::Undo => self.undo_stack.len() > 0,
            Command::Redo => self.redo_stack.len() > 0,
            _ => false,
        }
    }

    /// The state after a key event: only presses count, and only keys bound
    /// in the current mode.
    pub open spec fn key_step(self, key: Key, pressed: bool) -> AppView {
        if !pressed {
            self
        } else {
            match key_command(key, self.mode) {
                Some(cmd) => self.step(cmd),
                None => self,
            }
        }
    }

    /// Whether a key event changes the task lists.
    pub open spec fn key_saves(self, key: Key, pressed: bool) -> bool {
        pressed && match key_command(key, self.mode) {
            Some(cmd) => self.step_saves(cmd),
            None => false,
        }
    }
}

/// The application: the data, what is selected and shown, the key mode,
/// the status line, and the undo and redo history.
pub struct App {
    data: Data,
    current_pane: Pane,
    pending_selected: Option<usize>,
    completed_selected: Option<usize>,
    mode: Mode,
    status_message: Option<String>,
    should_quit: bool,
    show_help: bool,
    undo_stack: Vec<Data>,
    redo_stack: Vec<Data>,
}

impl View for App {
    type V = AppView;

    closed spec fn view(&self) -> AppView {
        AppView {
            data: self.data@,
            pane: self.current_pane,
            pending_selected: self.pending_selected,
            completed_selected: self.completed_selected,
            mode: self.mode@,
            status: match self.status_message {
                Some(s) => Some(s@),
                None => None,
            },
            should_quit: self.should_quit,
            show_help: self.show_help,
            undo_stack: datas(self.undo_stack@),
            redo_stack: datas(self.redo_stack@),
        }
    }
}

impl App {
    /// The application started on `data`.
    pub fn new(data: Data) -> (app: App)
        ensures
            app@ == initial_state(data@),
            app@.wf(),
    {
        let pending_selected = if !data.tasks.is_empty() {
            Some(0)
        } else {
            None
        };
        let completed_selected = if !data.completed.is_empty() {
            Some(0)
        } else {
            None
        };
        let app = App {
            data,
            current_pane: Pane::Pending,
            pending_selected,
            completed_selected,
            mode: Mode::Normal,
            status_message: None,
            should_quit: false,
            show_help: false,
            undo_stack: Vec::new(),
            redo_stack: Vec::new(),
        };
        assert(datas(app.undo_stack@) =~= Seq::empty());
        assert(datas(app.redo_stack@) =~= Seq::empty());
        app
    }

    /// The row the current pane's selection stands for.
    pub fn selected_index(&self) -> (i: usize)
        ensures
            i == self@.selected_index(),
    {
        match self.current_pane {
            Pane::Pending => self.pending_selected.unwrap_or(0),
            Pane::Completed => self.completed_selected.unwrap_or(0),
        }
    }

    fn push_undo(&mut self)
        ensures
            final(self)@ == old(self)@.pushed_undo(),
    {
        let snapshot = self.data.duplicate();
        let ghost before = self.undo_stack@;
        self.undo_stack.push(snapshot);
        assert(datas(self.undo_stack@) =~= datas(before).push(self.data@));
        if self.undo_stack.len() > MAX_HISTORY {
            let ghost full = self.undo_stack@;
            self.undo_stack.remove(0);
            assert(datas(self.undo_stack@) =~= datas(full).drop_first());
        }
        self.redo_stack.clear();
        assert(datas(self.redo_stack@) =~= Seq::empty());
    }

    fn sync_selection(&mut self)
        ensures
            final(self)@ == old(self)@.synced(),
    {
        let pending_len = self.data.tasks.len();
        if pending_len == 0 {
            self.pending_selected = None;
        } else if self.pending_selected.unwrap_or(0) >= pending_len {
            self.pending_selected = Some(pending_len - 1);
        }
        let completed_len = self.data.completed.len();
        if completed_len == 0 {
            self.completed_selected = None;
        } else if self.completed_selected.unwrap_or(0) >= completed_len {
            self.completed_selected = Some(completed_len - 1);
        }
    }

    /// Goes back to the newest undo snapshot; returns whether the data changed
    /// (and must be written out).
    pub fn undo(&mut self) -> (save: bool)
        ensures
            final(self)@ == old(self)@.undone(),
            old(self)@.wf() ==> final(self)@.wf(),
            save == (old(self)@.undo_stack.len() > 0),
    {
        let ghost before = self.undo_stack@;
        if let Some(prev) = self.undo_stack.pop() {
            assert(datas(self.undo_stack@) =~= datas(before).drop_last());
            let current = self.data.duplicate();
            let ghost redo_before = self.redo_stack@;
            self.redo_stack.push(current);
            assert(datas(self.redo_stack@) =~= datas(redo_before).push(self.data@));
            self.data = prev;
            self.sync_selection();
            self.status_message = Some("Undo.".to_string());
            true
        } else {
            false
        }
    }

    /// Goes forward to the newest redo snapshot; returns whether the data
    /// changed (and must be written out).
    pub fn redo(&mut self) -> (save: bool)
        ensures
            final(self)@ == old(self)@.redone(),
            old(self)@.wf() ==> final(self)@.wf(),
            save == (old(self)@.redo_stack.len() > 0),
    {
        let ghost before = self.redo_stack@;
        if let Some(next) = self.redo_stack.pop() {
            assert(datas(self.redo_stack@) =~= datas(before).drop_last());
            let current = self.data.duplicate();
            let ghost undo_before = self.undo_stack@;
            self.undo_stack.push(current);
            assert(datas(self.undo_stack@) =~= datas(undo_before).push(self.data@));
            self.data = next;
            self.sync_selection();
            self.status_message = Some("Redo.".to_string());
            true
        } else {
            false
        }
    }

    /// Moves the selection of the current pane one row up, wrapping around.
    pub fn move_up(&mut self)
        ensures
            final(self)@ == old(self)@.moved_up(),
            old(self)@.wf() ==> final(self)@.wf(),
    {
        match self.current_pane {
            Pane::Pending => {
                let len = self.data.tasks.len();
                if len > 0 {
                    let i = self.pending_selected.unwrap_or(0);
                    self.pending_selected = Some(
                        if i == 0 {
                            len - 1
                        } else {
                            i - 1
                        },
                    );
                }
            },
            Pane::Completed => {
                let len = self.data.completed.len();
                if len > 0 {
                    let i = self.completed_selected.unwrap_or(0);
                    self.completed_selected = Some(
                        if i == 0 {
                            len - 1
                        } else {
                            i - 1
                        },
                    );
                }
            },
        }
    }

    /// Moves the selection of the current pane one row down, wrapping around.
    pub fn move_down(&mut self)
        ensures
            final(self)@ == old(self)@.moved_down(),
            old(self)@.wf() ==> final(self)@.wf(),
    {
        match self.current_pane {
            Pane::Pending => {
                let len = self.data.tasks.len();
                if len > 0 {
                    let i = self.pending_selected.unwrap_or(0);
                    self.pending_selected = Some(
                        if i >= len - 1 {
                            0
                        } else {
                            i + 1
                        },
                    );
                }
            },
            Pane::Completed => {
                let len = self.data.completed.len();
                if len > 0 {
                    let i = self.completed_selected.unwrap_or(0);
                    self.completed_selected = Some(
                        if i >= len - 1 {
                            0
                        } else {
                            i + 1
                        },
                    );
                }
            },
        }
    }

    /// Shows the other pane.
    pub fn switch_pane(&mut self)
        ensures
            final(self)@ == old(self)@.switched(),
            old(self)@.wf() ==> final(self)@.wf(),
    {
        self.current_pane = match self.current_pane {
            Pane::Pending => Pane::Completed,
            Pane::Completed => Pane::Pending,
        };
    }

    /// Adds the typed text, trimmed, as a pending task unless it is blank,
    /// and goes back to browsing; returns whether a task was added.
    pub fn add_task(&mut self) -> (save: bool)
        ensures
            final(self)@ == old(self)@.task_added(),
            old(self)@.wf() ==> final(self)@.wf(),
            save == old(self)@.adds_task(),
    {
        let mut save = false;
        let mut task: Option<String> = None;
        if let Mode::AddTask(text) = &self.mode {
            let trimmed = str_trim(text.as_str());
            if !trimmed.is_empty() {
                task = Some(trimmed.to_string());
            }
        }
        if let Some(task) = task {
            self.push_undo();
            let ghost before = self.data.tasks@;
            self.data.tasks.push(task);
            assert(strs(self.data.tasks@) =~= strs(before).push(task@));
            if self.data.tasks.len() == 1 {
                self.pending_selected = Some(0);
            }
            self.status_message = Some("Task added.".to_string());
            save = true;
        }
        self.mode = Mode::Normal;
        save
    }

    /// Moves the selected pending task to the end of the completed list,
    /// after an undo snapshot; returns whether a task was moved.
    pub fn complete_task(&mut self) -> (save: bool)
        ensures
            final(self)@ == old(self)@.task_completed(),
            old(self)@.wf() ==> final(self)@.wf(),
            save == old(self)@.completes_task(),
    {
        let i = self.pending_selected.unwrap_or(0);
        if i < self.data.tasks.len() {
            self.push_undo();
            let ghost tasks_before = self.data.tasks@;
            let ghost completed_before = self.data.completed@;
            let task = self.data.tasks.remove(i);
            assert(strs(self.data.tasks@) =~= strs(tasks_before).remove(i as int));
            self.data.completed.push(task);
            assert(strs(self.data.completed@) =~= strs(completed_before).push(
                strs(tasks_before)[i as int],
            ));
            if self.data.completed.len() == 1 {
                self.completed_selected = Some(0);
            }
            if self.data.tasks.is_empty() {
                self.pending_selected = None;
            } else if i >= self.data.tasks.len() {
                self.pending_selected = Some(self.data.tasks.len() - 1);
            }
            self.status_message = Some("Task completed.".to_string());
            true
        } else {
            false
        }
    }

    /// Removes the selected row of the current pane, without an undo
    /// snapshot, and goes back to browsing; returns whether a row was removed.
    pub fn delete_task(&mut self) -> (save: bool)
        ensures
            final(self)@ == old(self)@.task_deleted(),
            old(self)@.wf() ==> final(self)@.wf(),
            save == old(self)@.deletes_task(),
    {
        let i = self.selected_index();
        let mut save = false;
        match self.current_pane {
            Pane::Pending => {
                if i < self.data.tasks.len() {
                    let ghost before = self.data.tasks@;
                    self.data.tasks.remove(i);
                    assert(strs(self.data.tasks@) =~= strs(before).remove(i as int));
                    if self.data.tasks.is_empty() {
                        self.pending_selected = None;
                    } else if i >= self.data.tasks.len() {
                        self.pending_selected = Some(self.data.tasks.len() - 1);
                    }
                    self.status_message = Some("Task deleted.".to_string());
                    save = true;
                }
            },
            Pane::Completed => {
                if i < self.data.completed.len() {
                    let ghost before = self.data.completed@;
                    self.data.completed.remove(i);
                    assert(strs(self.data.completed@) =~= strs(before).remove(i as int));
                    if self.data.completed.is_empty() {
                        self.completed_selected = None;
                    } else if i >= self.data.completed.len() {
                        self.completed_selected = Some(self.data.completed.len() - 1);
                    }
                    self.status_message = Some("Task deleted.".to_string());
                    save = true;
                }
            },
        }
        self.mode = Mode::Normal;
        save
    }


    /// Carries out `cmd`, clearing the status line first; returns whether the
    /// task lists changed (and must be written out).
    pub fn handle_command(&mut self, cmd: Command) -> (save: bool)
        ensures
            final(self)@ == old(self)@.step(cmd),
            save == old(self)@.step_saves(cmd),
            old(self)@.wf() ==> final(self)@.wf(),
    {
        proof {
            if self@.wf() {
                lemma_step_keeps_wf(self@, cmd);
            }
        }
        self.status_message = None;
        match cmd {
            Command::Quit => {
                self.should_quit = true;
                false
            },
            Command::ToggleHelp => {
                self.show_help = !self.show_help;
                false
            },
            Command::SwitchPane => {
                self.switch_pane();
                false
            },
            Command::MoveUp => {
                self.move_up();
                false
            },
            Command::MoveDown => {
                self.move_down();
                false
            },
            Command::EnterAddTask => {
                self.mode = Mode::AddTask(String::new());
                false
            },
            Command::ConfirmAddTask => self.add_task(),
            Command::Cancel => {
                self.mode = Mode::Normal;
                false
            },
            Command::ConfirmDelete => self.delete_task(),
            Command::RejectDelete => {
                self.mode = Mode::Normal;
                false
            },
            Command::CompleteTask => {
                if self.current_pane == Pane::Pending {
                    self.complete_task()
                } else {
                    false
                }
            },
            Command::EnterDeletePrompt => {
                let has_items = match self.current_pane {
                    Pane::Pending => !self.data.tasks.is_empty(),
                    Pane::Completed => !self.data.completed.is_empty(),
                };
                if has_items {
                    self.mode = Mode::ConfirmDelete;
                }
                false
            },
            Command::TypeChar(c) => {
                match &mut self.mode {
                    Mode::AddTask(text) => string_push(text, c),
                    _ => {},
                }
                false
            },
            Command::Backspace => {
                match &mut self.mode {
                    Mode::AddTask(text) => {
                        string_pop(text);
                    },
                    _ => {},
                }
                false
            },
            Command::Undo => self.undo(),
            Command::Redo => self.redo(),
        }
    }

    /// Handles one key event: a press of a key bound in the current mode
    /// carries out its command; anything else changes nothing. Returns
    /// whether the task lists changed (and must be written out).
    pub fn handle_key(&mut self, key: Key, pressed: bool) -> (save: bool)
        ensures
            final(self)@ == old(self)@.key_step(key, pressed),
            save == old(self)@.key_saves(key, pressed),
            old(self)@.wf() ==> final(self)@.wf(),
    {
        if !pressed {
            return false;
        }
        match map_key(key, &self.mode) {
            Some(cmd) => self.handle_command(cmd),
            None => false,
        }
    }

    /// The task data.
    pub fn data(&self) -> (d: &Data)
        ensures
            d@ == self@.data,
    {
        &self.data
    }

    /// The pane shown.
    pub fn current_pane(&self) -> (p: Pane)
        ensures
            p == self@.pane,
    {
        self.current_pane
    }

    /// The selected row of the pending list.
    pub fn pending_selected(&self) -> (sel: Option<usize>)
        ensures
            sel == self@.pending_selected,
    {
        self.pending_selected
    }

    /// The selected row of the completed list.
    pub fn completed_selected(&self) -> (sel: Option<usize>)
        ensures
            sel == self@.completed_selected,
    {
        self.completed_selected
    }

    /// The key mode.
    pub fn mode(&self) -> (m: &Mode)
        ensures
            m@ == self@.mode,
    {
        &self.mode
    }

    /// The status line.
    pub fn status_message(&self) -> (msg: Option<&str>)
        ensures
            self@.status is None ==> msg is None,
            self@.status is Some ==> msg is Some && msg->0@ == self@.status->0,
    {
        match &self.status_message {
            Some(s) => Some(s.as_str()),
            None => None,
        }
    }

    /// Whether the user asked to quit.
    pub fn should_quit(&self) -> (b: bool)
        ensures
            b == self@.should_quit,
    {
        self.should_quit
    }

    /// Whether the help window is shown.
    pub fn show_help(&self) -> (b: bool)
        ensures
            b == self@.show_help,
    {
        self.show_help
    }

    /// How many snapshots undo can go back through.
    pub fn undo_depth(&self) -> (n: usize)
        ensures
            n == self@.undo_stack.len(),
    {
        self.undo_stack.len()
    }

    /// How many snapshots redo can go forward through.
    pub fn redo_depth(&self) -> (n: usize)
        ensures
            n == self@.redo_stack.len(),
    {
        self.redo_stack.len()
    }

}

} // verus!
