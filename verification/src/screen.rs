use vstd::prelude::*;

use crate::app::App;
use crate::keys::{Mode, ModeView};

verus! {

/// The question asked before a row is removed.
pub open spec fn delete_question() -> Seq<char> {
    " Delete this"@ +
    " task? (y/n)"@
}

/// The command line at the bottom of the screen: the key reminder and the
/// status message while browsing, the text typed so far (with a cursor
/// mark) while adding a task, the question while confirming a deletion.
pub open spec fn bottom_line(mode: ModeView, status: Option<Seq<char>>) -> Seq<char> {
    match mode {
        ModeView::Normal => " [q]uit  [a]dd  [c]omplete  [d]elete  [Tab] switch pane  "@ + match status {
            Some(m) => m,
            None => Seq::empty(),
        },
        ModeView::AddTask(text) => " Enter task: "@ + text + "_ (Enter to confirm, Esc to cancel)"@,
        ModeView::ConfirmDelete => delete_question(),
    }
}

impl App {
    /// The text of the command line at the bottom of the screen.
    pub fn bottom_text(&self) -> (t: String)
        ensures
            t@ == bottom_line(self@.mode, self@.status),
    {
        match self.mode() {
            Mode::Normal => {
                let mut t = " [q]uit  [a]dd  [c]omplete  [d]elete  [Tab] switch pane  ".to_string();
                match self.status_message() {
                    Some(m) => t.append(m),
                    None => {
                        assert(t@ + Seq::<char>::empty() =~= t@);
                    },
                }
                t
            },
            Mode::AddTask(text) => {
                let mut t = " Enter task: ".to_string();
                t.append(text.as_str());
                t.append("_ (Enter to confirm, Esc to cancel)");
                t
            },
            Mode::ConfirmDelete => {
                let mut t = " Delete this".to_string();
                t.append(
                    " task? (y/n)",
                );
                t
            },
        }
    }
}

/// The help window over a screen at column `x`, row `y`, `width` columns by
/// `height` rows: a quarter of the width in from the left, a third of the
/// height down from the top, half the width (rounded up) wide and a third
/// of the height (rounded up) high. Returns (column, row, width, height).
pub fn help_area(x: u16, y: u16, width: u16, height: u16) -> (r: (u16, u16, u16, u16))
    requires
        x + width / 4 <= u16::MAX,
        y + height / 3 <= u16::MAX,
        width < u16::MAX,
        height < u16::MAX,
    ensures
        r.0 == x + width / 4,
        r.1 == y + height / 3,
        r.2 == (width + 1) / 2,
        r.3 == (height + 1) / 3,
{
    (x + width / 4, y + height / 3, (width + 1) / 2, (height + 1) / 3)
}

} // verus!
