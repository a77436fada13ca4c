//! The goal service: parsing a goal sub-command and the pure state changes
//! of each operation. Loading and saving the record file is the caller's
//! part; every decision stands here.

use vstd::prelude::*;
use crate::records::{Error, GoalObject, GoalView};
use crate::text::str_eq;

verus! {

/// A fully parsed goal sub-command, ready to run against the store.
pub enum GoalCommand {
    Add(GoalObject),
    Remove(String),
    Edit(String, String),
    Complete(String),
    View,
}

/// Builds a fresh goal record: not yet complete.
pub fn add(ref_id: String, display_name: String) -> (r: GoalObject)
    ensures
        r@.ref_id == ref_id@,
        r@.display_name == display_name@,
        !r@.complete,
{
    GoalObject { ref_id, display_name, complete: false }
}

/// The record after an `edit`: only the display name changes.
pub open spec fn edit_spec(v: GoalView, name: Seq<char>) -> GoalView {
    GoalView { display_name: name, ..v }
}

/// Replaces the display name, leaving every other field as it was.
pub fn edit(obj: GoalObject, new_disp_name: String) -> (r: GoalObject)
    ensures
        r@ == edit_spec(obj@, new_disp_name@),
{
    let mut obj = obj;
    obj.display_name = new_disp_name;
    obj
}

/// The record after a `complete`: the flag is set, nothing else moves.
pub open spec fn complete_spec(v: GoalView) -> GoalView {
    GoalView { complete: true, ..v }
}

/// Marks the goal complete, leaving every other field as it was.
pub fn complete(obj: GoalObject) -> (r: GoalObject)
    ensures
        r@ == complete_spec(obj@),
{
    let mut obj = obj;
    obj.complete = true;
    obj
}

/// Completing a goal twice stores the same state as completing it once.
pub proof fn lemma_complete_idempotent(v: GoalView)
    ensures
        complete_spec(complete_spec(v)) == complete_spec(v),
{
}

/// The listing line of one goal record: a status glyph, the id, the
/// display name.
pub open spec fn goal_line_spec(v: GoalView) -> Seq<char> {
    (if v.complete {
        "\u{1F7E2}"@
    } else {
        "\u{1F534}"@
    }) + " "@ + v.ref_id + ": "@ + v.display_name
}

/// Renders the listing line of one goal record.
pub fn goal_line(obj: &GoalObject) -> (r: String)
    ensures
        r@ == goal_line_spec(obj@),
{
    let mut s = if obj.complete {
        String::from_str("\u{1F7E2}")
    } else {
        String::from_str("\u{1F534}")
    };
    s.append(" ");
    s.append(obj.ref_id.as_str());
    s.append(": ");
    s.append(obj.display_name.as_str());
    s
}

/// Renders the listing: one line per record, in the order given.
pub fn view(objs: &Vec<GoalObject>) -> (r: Vec<String>)
    ensures
        r@.len() == objs@.len(),
        forall|i: int| 0 <= i < objs@.len() ==> #[trigger] r@[i]@ == goal_line_spec(objs@[i]@),
{
    let mut lines: Vec<String> = Vec::new();
    let n: usize = objs.len();
    let mut k: usize = 0;
    while k < n
        invariant
            n == objs@.len(),
            0 <= k <= n,
            lines@.len() == k,
            forall|i: int| 0 <= i < k ==> #[trigger] lines@[i]@ == goal_line_spec(objs@[i]@),
        decreases n - k,
    {
        let line = goal_line(&objs[k]);
        lines.push(line);
        k = k + 1;
    }
    lines
}

/// Parses a goal sub-command. `args[0]` is the `goal` word itself; the
/// sub-action and its arguments follow. Wrong arity or an unknown
/// sub-action gives the operation's syntax error; no store access happens
/// here.
pub fn goal(args: Vec<String>) -> (r: Result<GoalCommand, Error>)
    requires
        args@.len() >= 1,
    ensures
        ({
            let a = args@;
            match r {
                Ok(cmd) => match cmd {
                    GoalCommand::Add(o) => a.len() == 4 && a[1]@ == "add"@ && o@.ref_id == a[2]@
                        && o@.display_name == a[3]@ && !o@.complete,
                    GoalCommand::Remove(id) => a.len() == 3 && a[1]@ == "remove"@ && id@ == a[2]@,
                    GoalCommand::Edit(id, name) => a.len() == 4 && a[1]@ == "edit"@ && id@ == a[2]@
                        && name@ == a[3]@,
                    GoalCommand::Complete(id) => a.len() == 3 && a[1]@ == "complete"@ && id@
                        == a[2]@,
                    GoalCommand::View => a.len() == 2 && a[1]@ == "view"@,
                },
                Err(e) => {
                    &&& (e == Error::SyntaxGoal || e == Error::SyntaxGoalAdd || e
                        == Error::SyntaxGoalRemove || e == Error::SyntaxGoalEdit || e
                        == Error::SyntaxGoalComplete)
                    &&& (e == Error::SyntaxGoal <==> (a.len() == 1 || (a[1]@ != "add"@ && a[1]@
                        != "remove"@ && a[1]@ != "edit"@ && a[1]@ != "complete"@ && (a[1]@
                        != "view"@ || a.len() != 2))))
                    &&& (e == Error::SyntaxGoalAdd <==> (a.len() >= 2 && a[1]@ == "add"@ && a.len()
                        != 4))
                    &&& (e == Error::SyntaxGoalRemove <==> (a.len() >= 2 && a[1]@ == "remove"@
                        && a.len() != 3))
                    &&& (e == Error::SyntaxGoalEdit <==> (a.len() >= 2 && a[1]@ == "edit"@
                        && a.len() != 4))
                    &&& (e == Error::SyntaxGoalComplete <==> (a.len() >= 2 && a[1]@ == "complete"@
                        && a.len() != 3))
                },
            }
        }),
{
    proof {
        reveal_strlit("add");
        reveal_strlit("remove");
        reveal_strlit("edit");
        reveal_strlit("complete");
        reveal_strlit("view");
        assert("add"@.len() == 3);
        assert("remove"@.len() == 6);
        assert("edit"@.len() == 4);
        assert("complete"@.len() == 8);
        assert("view"@.len() == 4);
        assert("edit"@[0] == 'e');
        assert("view"@[0] == 'v');
    }
    if args.len() == 1 {
        return Err(Error::SyntaxGoal);
    }
    let verb: &String = &args[1];
    if str_eq(verb.as_str(), "add") {
        if args.len() != 4 {
            return Err(Error::SyntaxGoalAdd);
        }
        let mut args = args;
        let name = args.remove(3);
        let id = args.remove(2);
        Ok(GoalCommand::Add(crate::goal::add(id, name)))
    } else if str_eq(verb.as_str(), "remove") {
        if args.len() != 3 {
            return Err(Error::SyntaxGoalRemove);
        }
        let mut args = args;
        let id = args.remove(2);
        Ok(GoalCommand::Remove(id))
    } else if str_eq(verb.as_str(), "edit") {
        if args.len() != 4 {
            return Err(Error::SyntaxGoalEdit);
        }
        let mut args = args;
        let name = args.remove(3);
        let id = args.remove(2);
        Ok(GoalCommand::Edit(id, name))
    } else if str_eq(verb.as_str(), "complete") {
        if args.len() != 3 {
            return Err(Error::SyntaxGoalComplete);
        }
        let mut args = args;
        let id = args.remove(2);
        Ok(GoalCommand::Complete(id))
    } else if str_eq(verb.as_str(), "view") {
        if args.len() != 2 {
            return Err(Error::SyntaxGoal);
        }
        Ok(GoalCommand::View)
    } else {
        Err(Error::SyntaxGoal)
    }
}

} // verus!
