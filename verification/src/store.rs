//! Path conventions of the record store: each record kind maps to a fixed
//! subdirectory, and a record's file is named exactly by its identifier.

use vstd::prelude::*;

verus! {

/// The path of a goal record's file.
pub open spec fn goal_path_spec(id: Seq<char>) -> Seq<char> {
    "projection/goal/"@ + id
}

/// The path of a kanban record's file.
pub open spec fn kanban_path_spec(id: Seq<char>) -> Seq<char> {
    "projection/kanban/"@ + id
}

/// Builds the file path of the goal record named `id`.
pub fn goal_path(id: &str) -> (r: String)
    ensures
        r@ == goal_path_spec(id@),
{
    let mut s = String::from_str("projection/goal/");
    s.append(id);
    s
}

/// Builds the file path of the kanban record named `id`.
pub fn kanban_path(id: &str) -> (r: String)
    ensures
        r@ == kanban_path_spec(id@),
{
    let mut s = String::from_str("projection/kanban/");
    s.append(id);
    s
}

} // verus!
