use projection::goal;
use projection::kanban;
use projection::records::{Error, KanbanObject, KanbanStatus, UnitTime};

fn fresh_kanban(id: &str, name: &str) -> KanbanObject {
    kanban::add(id.to_string(), name.to_string())
}

#[test]
fn goal_add_starts_incomplete() {
    let g = goal::add("g1".to_string(), "First goal".to_string());
    assert_eq!(g.ref_id, "g1");
    assert_eq!(g.display_name, "First goal");
    assert!(!g.complete);
}

#[test]
fn goal_edit_changes_only_name() {
    let g = goal::add("g1".to_string(), "Old".to_string());
    let g = goal::edit(g, "New".to_string());
    assert_eq!(g.ref_id, "g1");
    assert_eq!(g.display_name, "New");
    assert!(!g.complete);
}

#[test]
fn complete_is_idempotent() {
    let g = goal::add("g1".to_string(), "Goal".to_string());
    let once = goal::complete(g);
    assert!(once.complete);
    let id_once = once.ref_id.clone();
    let name_once = once.display_name.clone();
    let twice = goal::complete(once);
    assert!(twice.complete);
    assert_eq!(twice.ref_id, id_once);
    assert_eq!(twice.display_name, name_once);
}

#[test]
fn move_recognizes_all_six_tokens() {
    let cases = [
        ("todo", KanbanStatus::Todo),
        ("t", KanbanStatus::Todo),
        ("progress", KanbanStatus::Progress),
        ("p", KanbanStatus::Progress),
        ("done", KanbanStatus::Done),
        ("d", KanbanStatus::Done),
    ];
    for (token, expected) in cases {
        assert_eq!(kanban::parse_status(token), Some(expected));
    }
    assert_eq!(kanban::parse_status("doing"), None);
    assert_eq!(kanban::parse_status(""), None);
}

#[test]
fn move_sets_status_only() {
    let k = fresh_kanban("k1", "Task");
    let k = kanban::move_unit(k, KanbanStatus::Done);
    assert_eq!(k.status, KanbanStatus::Done);
    assert_eq!(k.ref_id, "k1");
    assert_eq!(k.display_name, "Task");
    assert_eq!(k.year, 0);
}

#[test]
fn extend_hour_carries_into_day() {
    // hour 20 + 10 = 30, above 24: 30 % 24 = 6 stays, 30 / 24 = 1 carries.
    let mut k = fresh_kanban("k1", "Task");
    k.hour = 20;
    k.day = 5;
    k.month = 1;
    k.year = 2023;
    let k = kanban::extend(k, UnitTime::Hour, 10).expect("extends");
    assert_eq!(k.hour, 6);
    assert_eq!(k.day, 6);
    assert_eq!(k.month, 1);
    assert_eq!(k.year, 2023);
}

#[test]
fn extend_day_carries_into_month() {
    // day 30 + 5 = 35, above 31: day = 35 % 31 = 4, month = 1 + 35 / 31 = 2.
    let mut k = fresh_kanban("k1", "Task");
    k.day = 30;
    k.month = 1;
    k.year = 2023;
    let k = kanban::extend(k, UnitTime::Day, 5).expect("extends");
    assert_eq!(k.day, 4);
    assert_eq!(k.month, 2);
    assert_eq!(k.year, 2023);
}

#[test]
fn leap_year_february_has_29_days() {
    // 2024 % 4 == 0: 29 days, so day 29 stands without a carry.
    let mut k = fresh_kanban("k1", "Task");
    k.day = 28;
    k.month = 2;
    k.year = 2024;
    let k = kanban::extend(k, UnitTime::Day, 1).expect("extends");
    assert_eq!(k.day, 29);
    assert_eq!(k.month, 2);
}

#[test]
fn common_year_february_has_28_days() {
    // 2023 % 4 != 0: 28 days, so day 29 carries: 29 % 28 = 1, month 3.
    let mut k = fresh_kanban("k1", "Task");
    k.day = 28;
    k.month = 2;
    k.year = 2023;
    let k = kanban::extend(k, UnitTime::Day, 1).expect("extends");
    assert_eq!(k.day, 1);
    assert_eq!(k.month, 3);
}

#[test]
fn extend_week_counts_seven_days() {
    let mut k = fresh_kanban("k1", "Task");
    k.day = 1;
    k.month = 1;
    k.year = 2023;
    let k = kanban::extend(k, UnitTime::Week, 2).expect("extends");
    assert_eq!(k.day, 15);
    assert_eq!(k.month, 1);
}

#[test]
fn extend_month_carries_into_year() {
    // day 20 + 30 = 50, above 30: day = 50 % 30 = 20, month = 11 + 1 = 12;
    // 12 is not above 12, so the year stands.
    let mut k = fresh_kanban("k1", "Task");
    k.day = 20;
    k.month = 11;
    k.year = 2023;
    let k = kanban::extend(k, UnitTime::Day, 30).expect("extends");
    assert_eq!(k.day, 20);
    assert_eq!(k.month, 12);
    assert_eq!(k.year, 2023);
    // From December: day 20 + 30 = 50, above 31: day = 50 % 31 = 19,
    // month = 12 + 1 = 13, above 12: month = 13 % 12 = 1, year 2024.
    let mut k2 = fresh_kanban("k2", "Task");
    k2.day = 20;
    k2.month = 12;
    k2.year = 2023;
    let k2 = kanban::extend(k2, UnitTime::Day, 30).expect("extends");
    assert_eq!(k2.day, 19);
    assert_eq!(k2.month, 1);
    assert_eq!(k2.year, 2024);
}

#[test]
fn december_has_31_days() {
    // Standard Gregorian lengths: day 30 + 1 = 31 stands in December.
    let mut k = fresh_kanban("k1", "Task");
    k.day = 30;
    k.month = 12;
    k.year = 2023;
    let k = kanban::extend(k, UnitTime::Day, 1).expect("extends");
    assert_eq!(k.day, 31);
    assert_eq!(k.month, 12);
    assert_eq!(k.year, 2023);
    // One more day: 32 above 31 carries: day = 32 % 31 = 1, month 13 wraps
    // to January of the next year.
    let mut k2 = fresh_kanban("k2", "Task");
    k2.day = 31;
    k2.month = 12;
    k2.year = 2023;
    let k2 = kanban::extend(k2, UnitTime::Day, 1).expect("extends");
    assert_eq!(k2.day, 1);
    assert_eq!(k2.month, 1);
    assert_eq!(k2.year, 2024);
}

#[test]
fn extend_hour_adds_full_amount() {
    // hour 0 + 256 = 256, above 24: hour = 256 % 24 = 16, and the full
    // 256 / 24 = 10 days carry.
    let mut k = fresh_kanban("k1", "Task");
    k.hour = 0;
    k.day = 1;
    k.month = 1;
    k.year = 2023;
    let k = kanban::extend(k, UnitTime::Hour, 256).expect("extends");
    assert_eq!(k.hour, 16);
    assert_eq!(k.day, 11);
    assert_eq!(k.month, 1);
    assert_eq!(k.year, 2023);
}

#[test]
fn extend_hour_24_stays_unnormalized() {
    // The carry threshold is strictly above 24: an hour of exactly 24 stays.
    let mut k = fresh_kanban("k1", "Task");
    k.hour = 24;
    k.day = 1;
    k.month = 1;
    k.year = 2023;
    let k = kanban::extend(k, UnitTime::Hour, 0).expect("extends");
    assert_eq!(k.hour, 24);
    assert_eq!(k.day, 1);
}

#[test]
fn extend_fresh_record_month_zero_fails() {
    // A fresh record has month 0, outside 1..=12: extend reports its
    // syntax error, as the original does on a month it cannot size.
    let k = fresh_kanban("k1", "Task");
    let r = kanban::extend(k, UnitTime::Day, 1);
    assert!(matches!(r, Err(Error::SyntaxKanbanExtend)));
}

#[test]
fn schedule_is_direct_set() {
    let mut k = fresh_kanban("k1", "Task");
    k.year = 2023;
    k.month = 6;
    k.day = 10;
    k.hour = 9;
    let k = kanban::schedule(
        k,
        &"2025".to_string(),
        &"1".to_string(),
        &"2".to_string(),
        &"3".to_string(),
    )
    .expect("schedules");
    assert_eq!(k.year, 2025);
    assert_eq!(k.month, 1);
    assert_eq!(k.day, 2);
    assert_eq!(k.hour, 3);
}

#[test]
fn schedule_rejects_garbage() {
    let k = fresh_kanban("k1", "Task");
    let r = kanban::schedule(
        k,
        &"soon".to_string(),
        &"1".to_string(),
        &"2".to_string(),
        &"3".to_string(),
    );
    assert!(matches!(r, Err(Error::SyntaxKanbanSchedule)));
}

#[test]
fn schedule_rejects_overflowing_month() {
    let k = fresh_kanban("k1", "Task");
    let r = kanban::schedule(
        k,
        &"2025".to_string(),
        &"256".to_string(),
        &"2".to_string(),
        &"3".to_string(),
    );
    assert!(matches!(r, Err(Error::SyntaxKanbanSchedule)));
}

#[test]
fn schedule_accepts_plus_sign() {
    // The standard parser accepts a leading plus; so does this one.
    let k = fresh_kanban("k1", "Task");
    let k = kanban::schedule(
        k,
        &"+2025".to_string(),
        &"+1".to_string(),
        &"+2".to_string(),
        &"+3".to_string(),
    )
    .expect("schedules");
    assert_eq!(k.year, 2025);
    assert_eq!(k.month, 1);
}

#[test]
fn unscheduled_sentinel_controls_listing() {
    let k = fresh_kanban("k1", "Task");
    assert_eq!(k.year, 0);
    let line = kanban::kanban_line(&k);
    assert_eq!(line, "\u{1F534} k1: Task");
    let k = kanban::schedule(
        k,
        &"2023".to_string(),
        &"6".to_string(),
        &"10".to_string(),
        &"9".to_string(),
    )
    .expect("schedules");
    assert_ne!(k.year, 0);
    let line = kanban::kanban_line(&k);
    assert_eq!(line, "\u{1F534} k1: Task, 2023 6 10 9");
}

#[test]
fn goal_listing_lines() {
    let open_goal = goal::add("g1".to_string(), "Open".to_string());
    let done_goal = goal::complete(goal::add("g2".to_string(), "Done".to_string()));
    let lines = goal::view(&vec![open_goal, done_goal]);
    assert_eq!(lines.len(), 2);
    assert_eq!(lines[0], "\u{1F534} g1: Open");
    assert_eq!(lines[1], "\u{1F7E2} g2: Done");
}

#[test]
fn kanban_listing_glyphs() {
    let mut a = fresh_kanban("a", "A");
    a.status = KanbanStatus::Progress;
    let mut b = fresh_kanban("b", "B");
    b.status = KanbanStatus::Done;
    let lines = kanban::view(&vec![a, b]);
    assert_eq!(lines[0], "\u{1F7E1} a: A");
    assert_eq!(lines[1], "\u{1F7E2} b: B");
}

#[test]
fn listing_renders_zero_hour() {
    let k = fresh_kanban("k1", "Task");
    let k = kanban::schedule(
        k,
        &"2023".to_string(),
        &"6".to_string(),
        &"10".to_string(),
        &"0".to_string(),
    )
    .expect("schedules");
    let line = kanban::kanban_line(&k);
    assert_eq!(line, "\u{1F534} k1: Task, 2023 6 10 0");
}
