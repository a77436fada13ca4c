//! The user-facing message for each error kind. The surrounding program
//! prints the composed message and terminates with a non-zero status.

use vstd::prelude::*;
use crate::records::Error;

verus! {

/// The usage hint belonging to each error kind.
pub open spec fn hint_of(e: Error) -> Seq<char> {
    match e {
        Error::Syntax => "'proj [goal, init, kanban] ...'"@,
        Error::SyntaxGoal => "'proj goal [add, remove, edit, view] ...'"@,
        Error::SyntaxGoalAdd => "'proj goal add (ID) (DISP_NAME)'"@,
        Error::SyntaxGoalRemove => "'proj goal remove (ID/DISP_NAME)'"@,
        Error::SyntaxGoalEdit => "'proj goal edit (ID) (NEW_DISP_NAME)'"@,
        Error::SyntaxGoalComplete => "'proj goal complete (ID/DISP_NAME)'"@,
        Error::SyntaxKanban => "'proj kanban [add, remove, move, edit, extend, view, schedule] ...'"@,
        Error::SyntaxKanbanAdd => "'proj kanban add (ID) (DISP_NAME)'"@,
        Error::SyntaxKanbanRemove => "'proj kanban remove (ID/DISP_NAME)'"@,
        Error::SyntaxKanbanMove => "'proj kanban move (ID) (todo, progress, done)'"@,
        Error::SyntaxKanbanEdit => "'proj kanban edit (ID) (NEW_DISP_NAME)'"@,
        Error::SyntaxKanbanExtend => "'proj kanban extend (ID) [hour (h), day (d), week (w)] (AMOUNT)"@,
        Error::SyntaxKanbanSchedule => "'proj kanban schedule (ID/DISP_NAME) (YEAR) (MONTH) (DAY) (opt: TIME)'"@,
        Error::Directory => "Error creating directory for init function, please check write permissions."@,
        Error::File => "Error saving/opening proj file, please run 'proj init' if you haven't already."@,
    }
}

/// The full message printed on failure: a fixed syntax banner followed by
/// the error's usage hint.
pub open spec fn message_of(e: Error) -> Seq<char> {
    "\u{1F534} Failed! | See proj(1) man page for proper usage. | "@ + hint_of(e)
}

/// Composes the failure message for `e`.
pub fn handle(e: Error) -> (r: String)
    ensures
        r@ == message_of(e),
{
    let mut s = String::from_str("\u{1F534} Failed! | See proj(1) man page for proper usage. | ");
    let hint: &str = match e {
        Error::Syntax => "'proj [goal, init, kanban] ...'",
        Error::SyntaxGoal => "'proj goal [add, remove, edit, view] ...'",
        Error::SyntaxGoalAdd => "'proj goal add (ID) (DISP_NAME)'",
        Error::SyntaxGoalRemove => "'proj goal remove (ID/DISP_NAME)'",
        Error::SyntaxGoalEdit => "'proj goal edit (ID) (NEW_DISP_NAME)'",
        Error::SyntaxGoalComplete => "'proj goal complete (ID/DISP_NAME)'",
        Error::SyntaxKanban => "'proj kanban [add, remove, move, edit, extend, view, schedule] ...'",
        Error::SyntaxKanbanAdd => "'proj kanban add (ID) (DISP_NAME)'",
        Error::SyntaxKanbanRemove => "'proj kanban remove (ID/DISP_NAME)'",
        Error::SyntaxKanbanMove => "'proj kanban move (ID) (todo, progress, done)'",
        Error::SyntaxKanbanEdit => "'proj kanban edit (ID) (NEW_DISP_NAME)'",
        Error::SyntaxKanbanExtend => "'proj kanban extend (ID) [hour (h), day (d), week (w)] (AMOUNT)",
        Error::SyntaxKanbanSchedule => "'proj kanban schedule (ID/DISP_NAME) (YEAR) (MONTH) (DAY) (opt: TIME)'",
        Error::Directory => "Error creating directory for init function, please check write permissions.",
        Error::File => "Error saving/opening proj file, please run 'proj init' if you haven't already.",
    };
    s.append(hint);
    s
}

} // verus!
