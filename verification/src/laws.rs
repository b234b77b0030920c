use vstd::prelude::*;

use crate::app::{AppView, Pane, initial_state, MAX_HISTORY, sel_fits, sel_index, clamp_selection, after_removal};
use crate::text::{is_white_space, lemma_trim_is_bare, trim_spec};
use crate::keys::{Command, Key, ModeView, key_command};
use crate::data::DataView;

verus! {

proof fn lemma_clamp_fits(sel: Option<usize>, len: nat)
    ensures
        sel_fits(clamp_selection(sel, len), len),
{
}

proof fn lemma_removal_fits(sel: Option<usize>, i: int, len: nat)
    requires
        sel_fits(sel, len + 1),
        sel_index(sel) == i,
        0 <= i <= len,
    ensures
        sel_fits(after_removal(sel, i, len), len),
{
}

/// Every command keeps a state well formed: each selection points at a row
/// of its list, and the undo and redo history together never hold more than
/// `MAX_HISTORY` snapshots.
pub proof fn lemma_step_keeps_wf(s: AppView, cmd: Command)
    requires
        s.wf(),
    ensures
        s.step(cmd).wf(),
{
    let t = AppView { status: None, ..s };
    match cmd {
        Command::Undo => {
            if s.undo_stack.len() > 0 {
                let u = AppView {
                    data: t.undo_stack.last(),
                    undo_stack: t.undo_stack.drop_last(),
                    redo_stack: t.redo_stack.push(t.data),
                    status: Some("Undo."@),
                    ..t
                };
                lemma_clamp_fits(u.pending_selected, u.data.tasks.len());
                lemma_clamp_fits(u.completed_selected, u.data.completed.len());
            }
        },
        Command::Redo => {
            if s.redo_stack.len() > 0 {
                let u = AppView {
                    data: t.redo_stack.last(),
                    redo_stack: t.redo_stack.drop_last(),
                    undo_stack: t.undo_stack.push(t.data),
                    status: Some("Redo."@),
                    ..t
                };
                lemma_clamp_fits(u.pending_selected, u.data.tasks.len());
                lemma_clamp_fits(u.completed_selected, u.data.completed.len());
            }
        },
        Command::CompleteTask => {
            if t.pane == Pane::Pending && t.completes_task() {
                let i = sel_index(t.pending_selected);
                lemma_removal_fits(t.pending_selected, i, (t.data.tasks.len() - 1) as nat);
            }
        },
        Command::ConfirmDelete => {
            if t.deletes_task() {
                let i = t.selected_index();
                match t.pane {
                    Pane::Pending => lemma_removal_fits(
                        t.pending_selected,
                        i,
                        (t.data.tasks.len() - 1) as nat,
                    ),
                    Pane::Completed => lemma_removal_fits(
                        t.completed_selected,
                        i,
                        (t.data.completed.len() - 1) as nat,
                    ),
                }
            }
        },
        _ => {},
    }
}

/// Bringing the selections back into their lists a second time changes
/// nothing: the re-sync after undo and redo is idempotent.
pub proof fn lemma_synced_idempotent(s: AppView)
    ensures
        s.synced().synced() == s.synced(),
{
}

/// A task added from typed text neither starts nor ends with white space.
pub proof fn lemma_added_task_is_bare(s: AppView)
    requires
        s.adds_task(),
    ensures
        ({
            let task = s.step(Command::ConfirmAddTask).data.tasks.last();
            &&& task == trim_spec(s.mode->AddTask_0)
            &&& task.len() > 0
            &&& !is_white_space(task[0])
            &&& !is_white_space(task.last())
        }),
{
    lemma_trim_is_bare(s.mode->AddTask_0);
}

/// Undo followed by redo gives back the data and both histories, whenever
/// there was something to undo.
pub proof fn lemma_undo_then_redo(s: AppView)
    requires
        s.undo_stack.len() > 0,
    ensures
        s.step(Command::Undo).step(Command::Redo).data == s.data,
        s.step(Command::Undo).step(Command::Redo).undo_stack == s.undo_stack,
        s.step(Command::Undo).step(Command::Redo).redo_stack == s.redo_stack,
{
    let u = s.step(Command::Undo);
    assert(u.redo_stack.drop_last() =~= s.redo_stack);
    assert(u.undo_stack.push(u.data) =~= s.undo_stack);
}

/// Redo followed by undo gives back the data and both histories, whenever
/// there was something to redo.
pub proof fn lemma_redo_then_undo(s: AppView)
    requires
        s.redo_stack.len() > 0,
    ensures
        s.step(Command::Redo).step(Command::Undo).data == s.data,
        s.step(Command::Redo).step(Command::Undo).undo_stack == s.undo_stack,
        s.step(Command::Redo).step(Command::Undo).redo_stack == s.redo_stack,
{
    let r = s.step(Command::Redo);
    assert(r.undo_stack.drop_last() =~= s.undo_stack);
    assert(r.redo_stack.push(r.data) =~= s.redo_stack);
}

/// With nothing to undo (or redo), undo (or redo) changes nothing but
/// clearing the status line, and asks for nothing to be written.
pub proof fn lemma_empty_history_is_inert(s: AppView)
    ensures
        s.undo_stack.len() == 0 ==> s.step(Command::Undo) == (AppView { status: None, ..s }),
        s.undo_stack.len() == 0 ==> !s.step_saves(Command::Undo),
        s.redo_stack.len() == 0 ==> s.step(Command::Redo) == (AppView { status: None, ..s }),
        s.redo_stack.len() == 0 ==> !s.step_saves(Command::Redo),
{
}

/// Adding a task and then undoing gives back the data as it was.
pub proof fn lemma_add_then_undo(s: AppView)
    requires
        s.adds_task(),
    ensures
        s.step(Command::ConfirmAddTask).step(Command::Undo).data == s.data,
{
}

/// Completing a task and then undoing gives back the data as it was.
pub proof fn lemma_complete_then_undo(s: AppView)
    requires
        s.pane == Pane::Pending,
        s.completes_task(),
    ensures
        s.step(Command::CompleteTask).step(Command::Undo).data == s.data,
{
}

/// Completing a task neither loses nor invents one: the pending and
/// completed lists together hold the same tasks as before.
pub proof fn lemma_complete_keeps_tasks(s: AppView)
    ensures
        (s.step(Command::CompleteTask).data.tasks + s.step(
            Command::CompleteTask,
        ).data.completed).to_multiset() == (s.data.tasks + s.data.completed).to_multiset(),
{
    broadcast use vstd::seq_lib::group_to_multiset_ensures;

    let t = s.step(Command::CompleteTask);
    if s.pane == Pane::Pending && s.completes_task() {
        let i = sel_index(s.pending_selected);
        let x = s.data.tasks[i];
        let tasks = s.data.tasks;
        let done = s.data.completed;
        assert(tasks =~= tasks.take(i) + seq![x] + tasks.skip(i + 1));
        assert(t.data.tasks =~= tasks.take(i) + tasks.skip(i + 1));
        assert(t.data.completed =~= done + seq![x]);
        vstd::seq_lib::lemma_multiset_commutative(tasks.take(i) + seq![x], tasks.skip(i + 1));
        vstd::seq_lib::lemma_multiset_commutative(tasks.take(i), seq![x]);
        vstd::seq_lib::lemma_multiset_commutative(tasks, done);
        vstd::seq_lib::lemma_multiset_commutative(t.data.tasks, t.data.completed);
        vstd::seq_lib::lemma_multiset_commutative(tasks.take(i), tasks.skip(i + 1));
        vstd::seq_lib::lemma_multiset_commutative(done, seq![x]);
        assert((tasks + done).to_multiset() =~= (t.data.tasks + t.data.completed).to_multiset());
    }
}

/// Deleting is not undoable: it leaves both histories as they were.
pub proof fn lemma_delete_keeps_history(s: AppView)
    ensures
        s.step(Command::ConfirmDelete).undo_stack == s.undo_stack,
        s.step(Command::ConfirmDelete).redo_stack == s.redo_stack,
{
}

/// The data is written out whenever a command changed it: a command that
/// asks for no write leaves the data as it was.
pub proof fn lemma_unsaved_keeps_data(s: AppView, cmd: Command)
    ensures
        !s.step_saves(cmd) ==> s.step(cmd).data == s.data,
{
}

/// Switching panes twice comes back to the same state (the status line cleared).
pub proof fn lemma_switch_twice(s: AppView)
    ensures
        s.step(Command::SwitchPane).step(Command::SwitchPane) == (AppView { status: None, ..s }),
{
}

/// Moving down then up, or up then down, comes back to the same row,
/// provided the current pane's selection points at a row or its list is empty.
pub proof fn lemma_down_up_inverse(s: AppView)
    requires
        s.wf(),
        s.data.tasks.len() <= usize::MAX,
        s.data.completed.len() <= usize::MAX,
        s.pane == Pane::Pending ==> s.pending_selected is Some || s.data.tasks.len() == 0,
        s.pane == Pane::Completed ==> s.completed_selected is Some || s.data.completed.len() == 0,
    ensures
        s.step(Command::MoveDown).step(Command::MoveUp) == (AppView { status: None, ..s }),
        s.step(Command::MoveUp).step(Command::MoveDown) == (AppView { status: None, ..s }),
{
    let t = AppView { status: None, ..s };
    match s.pane {
        Pane::Pending => {
            let len = s.data.tasks.len();
            if len > 0 {
                let i = sel_index(s.pending_selected);
                assert(0 <= i < len);
                assert(t.moved_down().moved_up().pending_selected == s.pending_selected);
                assert(t.moved_up().moved_down().pending_selected == s.pending_selected);
            }
        },
        Pane::Completed => {
            let len = s.data.completed.len();
            if len > 0 {
                let i = sel_index(s.completed_selected);
                assert(0 <= i < len);
                assert(t.moved_down().moved_up().completed_selected == s.completed_selected);
                assert(t.moved_up().moved_down().completed_selected == s.completed_selected);
            }
        },
    }
}

/// Typing a character and then deleting it gives back the text typed before.
pub proof fn lemma_type_then_backspace(s: AppView, c: char)
    requires
        s.mode is AddTask,
    ensures
        s.step(Command::TypeChar(c)).step(Command::Backspace) == (AppView { status: None, ..s }),
{
    let text = s.mode->AddTask_0;
    assert(text.push(c).drop_last() =~= text);
}

/// While a task is being typed, every character key types that character:
/// none of them is a shortcut.
pub proof fn lemma_typing_takes_every_char(c: char, text: Seq<char>)
    ensures
        key_command(Key::Char(c), ModeView::AddTask(text)) == Some(Command::TypeChar(c)),
{
}

/// Confirming the delete prompt removes exactly the selected row of the
/// current pane and leaves the other list alone; it is written out.
pub proof fn lemma_delete_removes_selected(s: AppView)
    ensures
        s.pane == Pane::Pending && 0 <= sel_index(s.pending_selected) < s.data.tasks.len() ==> {
            let t = s.step(Command::ConfirmDelete);
            &&& t.data.tasks == s.data.tasks.remove(sel_index(s.pending_selected))
            &&& t.data.completed == s.data.completed
            &&& t.data.user_name == s.data.user_name
            &&& t.mode == ModeView::Normal
            &&& s.step_saves(Command::ConfirmDelete)
        },
        s.pane == Pane::Completed && 0 <= sel_index(s.completed_selected)
            < s.data.completed.len() ==> {
            let t = s.step(Command::ConfirmDelete);
            &&& t.data.completed == s.data.completed.remove(sel_index(s.completed_selected))
            &&& t.data.tasks == s.data.tasks
            &&& t.data.user_name == s.data.user_name
            &&& t.mode == ModeView::Normal
            &&& s.step_saves(Command::ConfirmDelete)
        },
{
}

/// Cancelling the typed text throws it away: back to browsing, with the
/// data, both histories and the selections as they were, and nothing written.
pub proof fn lemma_cancel_discards_text(s: AppView)
    ensures
        s.step(Command::Cancel).data == s.data,
        s.step(Command::Cancel).undo_stack == s.undo_stack,
        s.step(Command::Cancel).redo_stack == s.redo_stack,
        s.step(Command::Cancel).pending_selected == s.pending_selected,
        s.step(Command::Cancel).completed_selected == s.completed_selected,
        s.step(Command::Cancel).mode == ModeView::Normal,
        !s.step_saves(Command::Cancel),
{
}

/// Confirming typed text that is not blank appends it, trimmed, at the end of
/// the pending list, whatever is already there (duplicates included), takes
/// an undo snapshot of the data before, empties the redo history, and is
/// written out. Blank text adds nothing and writes nothing.
pub proof fn lemma_confirm_appends_trimmed(s: AppView, text: Seq<char>)
    requires
        s.mode == ModeView::AddTask(text),
    ensures
        trim_spec(text).len() > 0 ==> {
            let t = s.step(Command::ConfirmAddTask);
            &&& t.data.tasks == s.data.tasks.push(trim_spec(text))
            &&& t.data.completed == s.data.completed
            &&& t.undo_stack.last() == s.data
            &&& t.redo_stack.len() == 0
            &&& t.status == Some("Task added."@)
            &&& t.mode == ModeView::Normal
            &&& s.step_saves(Command::ConfirmAddTask)
        },
        trim_spec(text).len() == 0 ==> {
            let t = s.step(Command::ConfirmAddTask);
            &&& t.data == s.data
            &&& t.undo_stack == s.undo_stack
            &&& t.redo_stack == s.redo_stack
            &&& t.mode == ModeView::Normal
            &&& !s.step_saves(Command::ConfirmAddTask)
        },
{
}

/// Completing the selected pending task moves it from its row to the end of
/// the completed list, takes an undo snapshot of the data before, and empties
/// the redo history, so that a redo right after changes nothing.
pub proof fn lemma_complete_moves_and_clears_redo(s: AppView)
    requires
        s.pane == Pane::Pending,
        0 <= sel_index(s.pending_selected) < s.data.tasks.len(),
    ensures
        ({
            let i = sel_index(s.pending_selected);
            let t = s.step(Command::CompleteTask);
            &&& t.data.tasks == s.data.tasks.remove(i)
            &&& t.data.completed == s.data.completed.push(s.data.tasks[i])
            &&& t.undo_stack.last() == s.data
            &&& t.redo_stack.len() == 0
            &&& s.step_saves(Command::CompleteTask)
            &&& !t.step_saves(Command::Redo)
            &&& t.step(Command::Redo).data == t.data
        }),
{
}

/// The application starts browsing the pending pane with no history, with
/// the first row of each non-empty list selected and nothing selected in an
/// empty one.
pub proof fn lemma_start_state(d: DataView)
    ensures
        initial_state(d).data == d,
        initial_state(d).pane == Pane::Pending,
        initial_state(d).mode == ModeView::Normal,
        initial_state(d).undo_stack.len() == 0,
        initial_state(d).redo_stack.len() == 0,
        d.tasks.len() > 0 <==> initial_state(d).pending_selected == Some(0usize),
        d.tasks.len() == 0 <==> initial_state(d).pending_selected is None,
        d.completed.len() > 0 <==> initial_state(d).completed_selected == Some(0usize),
        d.completed.len() == 0 <==> initial_state(d).completed_selected is None,
{
}

/// Moving in a non-empty list goes to the next (or previous) row, wrapping
/// around at the ends; the other list's selection, the data and the
/// histories stay as they were.
pub proof fn lemma_moves_wrap(s: AppView)
    requires
        s.data.tasks.len() <= usize::MAX,
        s.data.completed.len() <= usize::MAX,
    ensures
        s.pane == Pane::Pending && 0 <= sel_index(s.pending_selected) < s.data.tasks.len() ==> {
            let i = sel_index(s.pending_selected);
            let n = s.data.tasks.len() as int;
            &&& s.step(Command::MoveDown).pending_selected == Some(((i + 1) % n) as usize)
            &&& s.step(Command::MoveUp).pending_selected == Some(((i + n - 1) % n) as usize)
            &&& s.step(Command::MoveDown).completed_selected == s.completed_selected
            &&& s.step(Command::MoveUp).completed_selected == s.completed_selected
        },
        s.pane == Pane::Completed && 0 <= sel_index(s.completed_selected)
            < s.data.completed.len() ==> {
            let i = sel_index(s.completed_selected);
            let n = s.data.completed.len() as int;
            &&& s.step(Command::MoveDown).completed_selected == Some(((i + 1) % n) as usize)
            &&& s.step(Command::MoveUp).completed_selected == Some(((i + n - 1) % n) as usize)
            &&& s.step(Command::MoveDown).pending_selected == s.pending_selected
            &&& s.step(Command::MoveUp).pending_selected == s.pending_selected
        },
        s.step(Command::MoveDown).data == s.data,
        s.step(Command::MoveUp).data == s.data,
        s.step(Command::MoveDown).undo_stack == s.undo_stack,
        s.step(Command::MoveUp).redo_stack == s.redo_stack,
{
    let i = sel_index(s.pending_selected);
    let j = sel_index(s.completed_selected);
    let n = s.data.tasks.len() as int;
    let m = s.data.completed.len() as int;
    if 0 <= i < n {
        assert(i + 1 < n ==> (i + 1) % n == i + 1) by (nonlinear_arith)
            requires 0 <= i < n;
        assert(i + 1 == n ==> (i + 1) % n == 0) by (nonlinear_arith)
            requires 0 <= i < n;
        assert(i > 0 ==> (i + n - 1) % n == i - 1) by (nonlinear_arith)
            requires 0 <= i < n;
        assert(i == 0 ==> (i + n - 1) % n == n - 1) by (nonlinear_arith)
            requires 0 <= i < n;
    }
    if 0 <= j < m {
        assert(j + 1 < m ==> (j + 1) % m == j + 1) by (nonlinear_arith)
            requires 0 <= j < m;
        assert(j + 1 == m ==> (j + 1) % m == 0) by (nonlinear_arith)
            requires 0 <= j < m;
        assert(j > 0 ==> (j + m - 1) % m == j - 1) by (nonlinear_arith)
            requires 0 <= j < m;
        assert(j == 0 ==> (j + m - 1) % m == m - 1) by (nonlinear_arith)
            requires 0 <= j < m;
    }
}

/// Undo goes back to the newest snapshot and keeps the data it leaves for
/// redo; redo does the reverse. Either is written out.
pub proof fn lemma_undo_redo_move_snapshots(s: AppView)
    ensures
        s.undo_stack.len() > 0 ==> {
            let t = s.step(Command::Undo);
            &&& t.data == s.undo_stack.last()
            &&& t.undo_stack == s.undo_stack.drop_last()
            &&& t.redo_stack == s.redo_stack.push(s.data)
            &&& t.status == Some("Undo."@)
            &&& s.step_saves(Command::Undo)
        },
        s.redo_stack.len() > 0 ==> {
            let t = s.step(Command::Redo);
            &&& t.data == s.redo_stack.last()
            &&& t.redo_stack == s.redo_stack.drop_last()
            &&& t.undo_stack == s.undo_stack.push(s.data)
            &&& t.status == Some("Redo."@)
            &&& s.step_saves(Command::Redo)
        },
{
}

/// Typing appends the character to the typed text and Backspace removes its
/// last character (if any); neither touches the data or writes anything.
pub proof fn lemma_typing_edits_text(s: AppView, text: Seq<char>, c: char)
    requires
        s.mode == ModeView::AddTask(text),
    ensures
        s.step(Command::TypeChar(c)).mode == ModeView::AddTask(text.push(c)),
        text.len() > 0 ==> s.step(Command::Backspace).mode == ModeView::AddTask(
            text.subrange(0, text.len() - 1),
        ),
        text.len() == 0 ==> s.step(Command::Backspace).mode == ModeView::AddTask(text),
        s.step(Command::TypeChar(c)).data == s.data,
        s.step(Command::Backspace).data == s.data,
        !s.step_saves(Command::TypeChar(c)),
        !s.step_saves(Command::Backspace),
{
}

/// The delete prompt opens only over a non-empty list, and starting to add a
/// task opens an empty text; neither touches the data.
pub proof fn lemma_prompts_open(s: AppView)
    ensures
        s.step(Command::EnterDeletePrompt).mode == (if (s.pane == Pane::Pending
            && s.data.tasks.len() > 0) || (s.pane == Pane::Completed && s.data.completed.len()
            > 0) {
            ModeView::ConfirmDelete
        } else {
            s.mode
        }),
        s.step(Command::EnterAddTask).mode == ModeView::AddTask(Seq::empty()),
        s.step(Command::EnterDeletePrompt).data == s.data,
        s.step(Command::EnterAddTask).data == s.data,
        s.step(Command::RejectDelete).data == s.data,
        s.step(Command::RejectDelete).mode == ModeView::Normal,
{
}

/// Quitting and the help toggle change only their own flag (and clear the
/// status line).
pub proof fn lemma_flags(s: AppView)
    ensures
        s.step(Command::Quit) == (AppView { should_quit: true, status: None, ..s }),
        s.step(Command::ToggleHelp) == (AppView { show_help: !s.show_help, status: None, ..s }),
{
}

/// At the delete prompt only y or Y confirms and only n, N or Esc declines;
/// every other key is ignored.
pub proof fn lemma_prompt_keys(k: Key)
    ensures
        key_command(k, ModeView::ConfirmDelete) == Some(Command::ConfirmDelete) <==> (k
            == Key::Char('y') || k == Key::Char('Y')),
        key_command(k, ModeView::ConfirmDelete) == Some(Command::RejectDelete) <==> (k
            == Key::Char('n') || k == Key::Char('N') || k == Key::Esc),
        key_command(k, ModeView::ConfirmDelete) is None <==> !(k == Key::Char('y') || k
            == Key::Char('Y') || k == Key::Char('n') || k == Key::Char('N') || k == Key::Esc),
{
}

/// While typing, Enter confirms, Esc cancels and Backspace erases; no other
/// non-character key does anything. While browsing, no key types, confirms,
/// cancels or answers the delete prompt.
pub proof fn lemma_mode_keys(k: Key, text: Seq<char>)
    ensures
        key_command(Key::Enter, ModeView::AddTask(text)) == Some(Command::ConfirmAddTask),
        key_command(Key::Esc, ModeView::AddTask(text)) == Some(Command::Cancel),
        key_command(Key::Backspace, ModeView::AddTask(text)) == Some(Command::Backspace),
        (k is Tab || k is Up || k is Down || k is Other) ==> key_command(
            k,
            ModeView::AddTask(text),
        ) is None,
        key_command(k, ModeView::Normal) != Some(Command::ConfirmAddTask),
        key_command(k, ModeView::Normal) != Some(Command::Cancel),
        key_command(k, ModeView::Normal) != Some(Command::ConfirmDelete),
        key_command(k, ModeView::Normal) != Some(Command::RejectDelete),
        key_command(k, ModeView::Normal) != Some(Command::Backspace),
        !(key_command(k, ModeView::Normal) matches Some(Command::TypeChar(_))),
{
}

} // verus!
