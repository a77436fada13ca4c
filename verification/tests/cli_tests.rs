use projection::error::handle;
use projection::goal::{self, GoalCommand};
use projection::init;
use projection::kanban::{self, KanbanCommand};
use projection::parsers::arg_parser;
use projection::program_vars::{apply_options, init_vars};
use projection::records::{Error, KanbanStatus, UnitTime};
use projection::store::{goal_path, kanban_path};

fn strings(words: &[&str]) -> Vec<String> {
    words.iter().map(|w| w.to_string()).collect()
}

#[test]
fn arg_parser_splits_options_and_actions() {
    let args = arg_parser(strings(&["proj", "-v", "goal", "--help", "add"]));
    assert_eq!(args.options, strings(&["-v", "--help"]));
    assert_eq!(args.actions, strings(&["proj", "goal", "add"]));
}

#[test]
fn init_vars_defaults() {
    let vars = init_vars();
    assert!(!vars.debug);
    assert!(!vars.verbose);
    assert!(!vars.help);
    assert_eq!(vars.exe_path, "");
}

#[test]
fn apply_options_sets_flags() {
    let mut vars = init_vars();
    apply_options(&mut vars, &strings(&["-v", "--help"])).expect("applies");
    assert!(vars.verbose);
    assert!(vars.help);
    let mut vars2 = init_vars();
    let r = apply_options(&mut vars2, &strings(&["--bogus"]));
    assert!(matches!(r, Err(Error::Syntax)));
}

#[test]
fn init_checks_arity() {
    assert!(init::init(&strings(&["init"])).is_ok());
    assert!(matches!(init::init(&strings(&["init", "more"])), Err(Error::Syntax)));
}

#[test]
fn goal_dispatch_add() {
    let r = goal::goal(strings(&["goal", "add", "g1", "My goal"])).expect("parses");
    match r {
        GoalCommand::Add(o) => {
            assert_eq!(o.ref_id, "g1");
            assert_eq!(o.display_name, "My goal");
            assert!(!o.complete);
        },
        _ => panic!("expected an add command"),
    }
}

#[test]
fn goal_dispatch_arity_errors() {
    assert!(matches!(goal::goal(strings(&["goal"])), Err(Error::SyntaxGoal)));
    assert!(matches!(goal::goal(strings(&["goal", "add", "g1"])), Err(Error::SyntaxGoalAdd)));
    assert!(matches!(goal::goal(strings(&["goal", "remove"])), Err(Error::SyntaxGoalRemove)));
    assert!(matches!(goal::goal(strings(&["goal", "edit", "g1"])), Err(Error::SyntaxGoalEdit)));
    assert!(matches!(
        goal::goal(strings(&["goal", "complete", "a", "b"])),
        Err(Error::SyntaxGoalComplete)
    ));
    assert!(matches!(goal::goal(strings(&["goal", "view", "x"])), Err(Error::SyntaxGoal)));
    assert!(matches!(goal::goal(strings(&["goal", "bogus"])), Err(Error::SyntaxGoal)));
}

#[test]
fn goal_dispatch_remove_edit_complete_view() {
    assert!(matches!(
        goal::goal(strings(&["goal", "remove", "g1"])),
        Ok(GoalCommand::Remove(id)) if id == "g1"
    ));
    assert!(matches!(
        goal::goal(strings(&["goal", "edit", "g1", "New name"])),
        Ok(GoalCommand::Edit(id, name)) if id == "g1" && name == "New name"
    ));
    assert!(matches!(
        goal::goal(strings(&["goal", "complete", "g1"])),
        Ok(GoalCommand::Complete(id)) if id == "g1"
    ));
    assert!(matches!(goal::goal(strings(&["goal", "view"])), Ok(GoalCommand::View)));
}

#[test]
fn kanban_dispatch_ok_commands() {
    assert!(matches!(
        kanban::kanban(strings(&["kanban", "add", "k1", "Task"])),
        Ok(KanbanCommand::Add(_))
    ));
    assert!(matches!(
        kanban::kanban(strings(&["kanban", "move", "k1", "p"])),
        Ok(KanbanCommand::Move(id, KanbanStatus::Progress)) if id == "k1"
    ));
    assert!(matches!(
        kanban::kanban(strings(&["kanban", "extend", "k1", "w", "3"])),
        Ok(KanbanCommand::Extend(id, UnitTime::Week, 3)) if id == "k1"
    ));
    assert!(matches!(kanban::kanban(strings(&["kanban", "view"])), Ok(KanbanCommand::View)));
}

#[test]
fn kanban_dispatch_schedule_defaults_hour() {
    match kanban::kanban(strings(&["kanban", "schedule", "k1", "2023", "6", "10"])) {
        Ok(KanbanCommand::Schedule(id, y, mo, d, h)) => {
            assert_eq!(id, "k1");
            assert_eq!(y, "2023");
            assert_eq!(mo, "6");
            assert_eq!(d, "10");
            assert_eq!(h, "0");
        },
        _ => panic!("expected a schedule command"),
    }
    match kanban::kanban(strings(&["kanban", "schedule", "k1", "2023", "6", "10", "9"])) {
        Ok(KanbanCommand::Schedule(_, _, _, _, h)) => assert_eq!(h, "9"),
        _ => panic!("expected a schedule command"),
    }
}

#[test]
fn kanban_dispatch_errors() {
    assert!(matches!(kanban::kanban(strings(&["kanban"])), Err(Error::SyntaxKanban)));
    assert!(matches!(
        kanban::kanban(strings(&["kanban", "add", "k1"])),
        Err(Error::SyntaxKanbanAdd)
    ));
    assert!(matches!(
        kanban::kanban(strings(&["kanban", "remove"])),
        Err(Error::SyntaxKanbanRemove)
    ));
    assert!(matches!(
        kanban::kanban(strings(&["kanban", "move", "k1", "backlog"])),
        Err(Error::SyntaxKanbanMove)
    ));
    assert!(matches!(
        kanban::kanban(strings(&["kanban", "edit", "k1"])),
        Err(Error::SyntaxKanbanEdit)
    ));
    assert!(matches!(
        kanban::kanban(strings(&["kanban", "extend", "k1", "month", "3"])),
        Err(Error::SyntaxKanbanExtend)
    ));
    assert!(matches!(
        kanban::kanban(strings(&["kanban", "extend", "k1", "d", "lots"])),
        Err(Error::SyntaxKanbanExtend)
    ));
    assert!(matches!(
        kanban::kanban(strings(&["kanban", "schedule", "k1", "2023"])),
        Err(Error::SyntaxKanbanSchedule)
    ));
    assert!(matches!(kanban::kanban(strings(&["kanban", "bogus"])), Err(Error::SyntaxKanban)));
}

#[test]
fn extend_amount_overflow_is_syntax_error() {
    // 4294967296 does not fit the 32-bit amount: unparseable, syntax error.
    assert!(matches!(
        kanban::kanban(strings(&["kanban", "extend", "k1", "d", "4294967296"])),
        Err(Error::SyntaxKanbanExtend)
    ));
}

#[test]
fn record_paths() {
    assert_eq!(goal_path("g1"), "projection/goal/g1");
    assert_eq!(kanban_path("k1"), "projection/kanban/k1");
}

#[test]
fn handle_composes_messages() {
    assert_eq!(
        handle(Error::Syntax),
        "\u{1F534} Failed! | See proj(1) man page for proper usage. | 'proj [goal, init, kanban] ...'"
    );
    assert_eq!(
        handle(Error::File),
        "\u{1F534} Failed! | See proj(1) man page for proper usage. | Error saving/opening proj file, please run 'proj init' if you haven't already."
    );
    assert_eq!(
        handle(Error::SyntaxKanbanMove),
        "\u{1F534} Failed! | See proj(1) man page for proper usage. | 'proj kanban move (ID) (todo, progress, done)'"
    );
}

#[test]
fn handle_directory_message() {
    assert_eq!(
        handle(Error::Directory),
        "\u{1F534} Failed! | See proj(1) man page for proper usage. | Error creating directory for init function, please check write permissions."
    );
}
