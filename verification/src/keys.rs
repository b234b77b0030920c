use vstd::prelude::*;

verus! {

/// A key as the terminal reports it, reduced to the keys the bindings tell apart.
#[derive(Clone, Copy, Debug, PartialEq, Eq, Structural)]
pub enum Key {
    Char(char),
    Tab,
    Up,
    Down,
    Enter,
    Esc,
    Backspace,
    /// Any other key; no binding uses it.
    Other,
}

/// What the user asked for.
#[derive(Clone, Copy, Debug, PartialEq, Eq, Structural)]
pub enum Command {
    Quit,
    SwitchPane,
    MoveUp,
    MoveDown,
    EnterAddTask,
    ConfirmAddTask,
    Cancel,
    ConfirmDelete,
    RejectDelete,
    CompleteTask,
    EnterDeletePrompt,
    ToggleHelp,
    TypeChar(char),
    Backspace,
    Undo,
    Redo,
}

/// How keys are read: browsing, typing a new task, or answering the delete prompt.
#[derive(Debug)]
pub enum Mode {
    Normal,
    /// Typing a new task; the text typed so far.
    AddTask(String),
    ConfirmDelete,
}

/// The mathematical content of a [`Mode`].
pub enum ModeView {
    Normal,
    AddTask(Seq<char>),
    ConfirmDelete,
}

impl View for Mode {
    type V = ModeView;

    open spec fn view(&self) -> ModeView {
        match self {
            Mode::Normal => ModeView::Normal,
            Mode::AddTask(text) => ModeView::AddTask(text@),
            Mode::ConfirmDelete => ModeView::ConfirmDelete,
        }
    }
}

/// The key bindings of each mode.
pub open spec fn key_command(key: Key, mode: ModeView) -> Option<Command> {
    match mode {
        ModeView::Normal => match key {
            Key::Char('q') => Some(Command::Quit),
            Key::Char('?') => Some(Command::ToggleHelp),
            Key::Tab | Key::Char('l') | Key::Char('h') => Some(Command::SwitchPane),
            Key::Char('j') | Key::Down => Some(Command::MoveDown),
            Key::Char('k') | Key::Up => Some(Command::MoveUp),
            Key::Char('a') => Some(Command::EnterAddTask),
            Key::Char('c') => Some(Command::CompleteTask),
            Key::Char('d') => Some(Command::EnterDeletePrompt),
            Key::Char('u') => Some(Command::Undo),
            Key::Char('r') => Some(Command::Redo),
            _ => None,
        },
        ModeView::AddTask(_) => match key {
            Key::Enter => Some(Command::ConfirmAddTask),
            Key::Esc => Some(Command::Cancel),
            Key::Char(c) => Some(Command::TypeChar(c)),
            Key::Backspace => Some(Command::Backspace),
            _ => None,
        },
        ModeView::ConfirmDelete => match key {
            Key::Char('y') | Key::Char('Y') => Some(Command::ConfirmDelete),
            Key::Char('n') | Key::Char('N') | Key::Esc => Some(Command::RejectDelete),
            _ => None,
        },
    }
}

/// The command that `key` stands for in `mode`, if any.
pub fn map_key(key: Key, mode: &Mode) -> (cmd: Option<Command>)
    ensures
        cmd == key_command(key, mode@),
{
    match mode {
        Mode::Normal => match key {
            Key::Char('q') => Some(Command::Quit),
            Key::Char('?') => Some(Command::ToggleHelp),
            Key::Tab | Key::Char('l') | Key::Char('h') => Some(Command::SwitchPane),
            Key::Char('j') | Key::Down => Some(Command::MoveDown),
            Key::Char('k') | Key::Up => Some(Command::MoveUp),
            Key::Char('a') => Some(Command::EnterAddTask),
            Key::Char('c') => Some(Command::CompleteTask),
            Key::Char('d') => Some(Command::EnterDeletePrompt),
            Key::Char('u') => Some(Command::Undo),
            Key::Char('r') => Some(Command::Redo),
            _ => None,
        },
        Mode::AddTask(_) => match key {
            Key::Enter => Some(Command::ConfirmAddTask),
            Key::Esc => Some(Command::Cancel),
            Key::Char(c) => Some(Command::TypeChar(c)),
            Key::Backspace => Some(Command::Backspace),
            _ => None,
        },
        Mode::ConfirmDelete => match key {
            Key::Char('y') | Key::Char('Y') => Some(Command::ConfirmDelete),
            Key::Char('n') | Key::Char('N') | Key::Esc => Some(Command::RejectDelete),
            _ => None,
        },
    }
}

} // verus!
