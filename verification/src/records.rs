//! The record data model: goal and kanban records, their spec-level views,
//! and the error taxonomy shared by every operation.

use vstd::prelude::*;

verus! {

/// The column a kanban task sits in.
#[derive(Clone, Copy, PartialEq, Eq, Structural, Debug)]
pub enum KanbanStatus {
    Todo,
    Progress,
    Done,
}

/// The time unit of an `extend` request.
#[derive(Clone, Copy, PartialEq, Eq, Structural, Debug)]
pub enum UnitTime {
    Hour,
    Day,
    Week,
}

/// One error kind per failure path; the caller maps each to a usage hint.
#[derive(Clone, Copy, PartialEq, Eq, Structural, Debug)]
pub enum Error {
    Syntax,
    SyntaxGoal,
    SyntaxGoalAdd,
    SyntaxGoalRemove,
    SyntaxGoalEdit,
    SyntaxGoalComplete,
    SyntaxKanban,
    SyntaxKanbanAdd,
    SyntaxKanbanRemove,
    SyntaxKanbanMove,
    SyntaxKanbanEdit,
    SyntaxKanbanExtend,
    SyntaxKanbanSchedule,
    File,
    Directory,
}

/// A persisted goal: the id doubles as the file name.
#[derive(Debug)]
pub struct GoalObject {
    pub ref_id: String,
    pub display_name: String,
    pub complete: bool,
}

/// Spec-level image of a goal record.
pub ghost struct GoalView {
    pub ref_id: Seq<char>,
    pub display_name: Seq<char>,
    pub complete: bool,
}

impl View for GoalObject {
    type V = GoalView;

    open spec fn view(&self) -> GoalView {
        GoalView {
            ref_id: self.ref_id@,
            display_name: self.display_name@,
            complete: self.complete,
        }
    }
}

/// A persisted kanban task. `year == 0` is the "not scheduled" sentinel;
/// `scheduled` is kept for file-format compatibility but never read.
#[derive(Debug)]
pub struct KanbanObject {
    pub ref_id: String,
    pub display_name: String,
    pub status: KanbanStatus,
    pub scheduled: bool,
    pub year: u32,
    pub month: u8,
    pub day: u32,
    pub hour: u8,
}

/// Spec-level image of a kanban record.
pub ghost struct KanbanView {
    pub ref_id: Seq<char>,
    pub display_name: Seq<char>,
    pub status: KanbanStatus,
    pub scheduled: bool,
    pub year: u32,
    pub month: u8,
    pub day: u32,
    pub hour: u8,
}

impl View for KanbanObject {
    type V = KanbanView;

    open spec fn view(&self) -> KanbanView {
        KanbanView {
            ref_id: self.ref_id@,
            display_name: self.display_name@,
            status: self.status,
            scheduled: self.scheduled,
            year: self.year,
            month: self.month,
            day: self.day,
            hour: self.hour,
        }
    }
}

} // verus!
