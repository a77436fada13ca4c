//! The kanban service: parsing a kanban sub-command, the pure state change
//! of each operation, and the calendar-rollover arithmetic of `extend`.
//! Loading and saving the record file is the caller's part.

use vstd::prelude::*;
use crate::records::{Error, KanbanObject, KanbanStatus, KanbanView, UnitTime};
use crate::text::{str_eq, parse_capped, parse_spec, dec_str};

verus! {

/// A fully parsed kanban sub-command, ready to run against the store.
/// `Schedule` carries the date arguments unparsed: the original parses them
/// only after the record has been loaded, so parse errors come second to
/// storage errors there.
pub enum KanbanCommand {
    Add(KanbanObject),
    Remove(String),
    Move(String, KanbanStatus),
    Edit(String, String),
    Extend(String, UnitTime, u32),
    Schedule(String, String, String, String, String),
    View,
}

/// Builds a fresh kanban record: to-do, unscheduled, every date field zero.
pub fn add(ref_id: String, display_name: String) -> (r: KanbanObject)
    ensures
        r@.ref_id == ref_id@,
        r@.display_name == display_name@,
        r@.status == KanbanStatus::Todo,
        !r@.scheduled,
        r@.year == 0,
        r@.month == 0,
        r@.day == 0,
        r@.hour == 0,
{
    KanbanObject {
        ref_id,
        display_name,
        status: KanbanStatus::Todo,
        scheduled: false,
        year: 0,
        month: 0,
        day: 0,
        hour: 0,
    }
}

/// The status a `move` token designates, if any: exactly the six tokens
/// `todo`/`t`, `progress`/`p`, `done`/`d` are recognized.
pub open spec fn status_of_token(s: Seq<char>) -> Option<KanbanStatus> {
    if s == "todo"@ || s == "t"@ {
        Some(KanbanStatus::Todo)
    } else if s == "progress"@ || s == "p"@ {
        Some(KanbanStatus::Progress)
    } else if s == "done"@ || s == "d"@ {
        Some(KanbanStatus::Done)
    } else {
        None
    }
}

/// Maps a `move` token to its status; `None` on anything but the six
/// recognized tokens.
pub fn parse_status(token: &str) -> (r: Option<KanbanStatus>)
    ensures
        r == status_of_token(token@),
{
    proof {
        reveal_strlit("todo");
        reveal_strlit("t");
        reveal_strlit("progress");
        reveal_strlit("p");
        reveal_strlit("done");
        reveal_strlit("d");
        assert("todo"@.len() == 4);
        assert("t"@.len() == 1);
        assert("progress"@.len() == 8);
        assert("p"@.len() == 1);
        assert("done"@.len() == 4);
        assert("d"@.len() == 1);
        assert("t"@[0] == 't');
        assert("p"@[0] == 'p');
        assert("d"@[0] == 'd');
        assert("todo"@[0] == 't');
        assert("done"@[0] == 'd');
    }
    if str_eq(token, "todo") || str_eq(token, "t") {
        Some(KanbanStatus::Todo)
    } else if str_eq(token, "progress") || str_eq(token, "p") {
        Some(KanbanStatus::Progress)
    } else if str_eq(token, "done") || str_eq(token, "d") {
        Some(KanbanStatus::Done)
    } else {
        None
    }
}

/// The record after a `move`: only the status changes.
pub open spec fn move_spec(v: KanbanView, designation: KanbanStatus) -> KanbanView {
    KanbanView { status: designation, ..v }
}

/// Sets the status, leaving every other field as it was.
pub fn move_unit(obj: KanbanObject, designation: KanbanStatus) -> (r: KanbanObject)
    ensures
        r@ == move_spec(obj@, designation),
{
    let mut obj = obj;
    obj.status = designation;
    obj
}

/// The record after an `edit`: only the display name changes.
pub open spec fn edit_spec(v: KanbanView, name: Seq<char>) -> KanbanView {
    KanbanView { display_name: name, ..v }
}

/// Replaces the display name, leaving every other field as it was.
pub fn edit(obj: KanbanObject, new_disp_name: String) -> (r: KanbanObject)
    ensures
        r@ == edit_spec(obj@, new_disp_name@),
{
    let mut obj = obj;
    obj.display_name = new_disp_name;
    obj
}

/// The time unit an `extend` token designates, if any.
pub open spec fn unit_of_token(s: Seq<char>) -> Option<UnitTime> {
    if s == "hour"@ || s == "h"@ {
        Some(UnitTime::Hour)
    } else if s == "day"@ || s == "d"@ {
        Some(UnitTime::Day)
    } else if s == "week"@ || s == "w"@ {
        Some(UnitTime::Week)
    } else {
        None
    }
}

/// Maps an `extend` unit token to its unit; `None` on anything else.
pub fn parse_unit(token: &str) -> (r: Option<UnitTime>)
    ensures
        r == unit_of_token(token@),
{
    proof {
        reveal_strlit("hour");
        reveal_strlit("h");
        reveal_strlit("day");
        reveal_strlit("d");
        reveal_strlit("week");
        reveal_strlit("w");
        assert("hour"@.len() == 4);
        assert("h"@.len() == 1);
        assert("day"@.len() == 3);
        assert("d"@.len() == 1);
        assert("week"@.len() == 4);
        assert("w"@.len() == 1);
        assert("h"@[0] == 'h');
        assert("d"@[0] == 'd');
        assert("w"@[0] == 'w');
        assert("hour"@[0] == 'h');
        assert("week"@[0] == 'w');
    }
    if str_eq(token, "hour") || str_eq(token, "h") {
        Some(UnitTime::Hour)
    } else if str_eq(token, "day") || str_eq(token, "d") {
        Some(UnitTime::Day)
    } else if str_eq(token, "week") || str_eq(token, "w") {
        Some(UnitTime::Week)
    } else {
        None
    }
}

/// Days of the month: standard Gregorian lengths under the simple
/// four-year leap rule (no century exception); `None` outside months 1
/// through 12.
pub open spec fn days_in_month(month: int, year: int) -> Option<int> {
    if month == 1 || month == 3 || month == 5 || month == 7 || month == 8 || month == 10
        || month == 12 {
        Some(31)
    } else if month == 4 || month == 6 || month == 9 || month == 11 {
        Some(30)
    } else if month == 2 {
        if year % 4 == 0 {
            Some(29)
        } else {
            Some(28)
        }
    } else {
        None
    }
}

/// The hour field right after the raw addition: an `extend` by hours adds
/// the full amount; the sum may transiently exceed the hour byte until
/// normalization carries the excess into days.
pub open spec fn hour_after(v: KanbanView, unit: UnitTime, value: u32) -> int {
    match unit {
        UnitTime::Hour => v.hour + value,
        UnitTime::Day => v.hour as int,
        UnitTime::Week => v.hour as int,
    }
}

/// The day field right after the raw addition: a week counts as seven days.
pub open spec fn day_after(v: KanbanView, unit: UnitTime, value: u32) -> int {
    match unit {
        UnitTime::Hour => v.day as int,
        UnitTime::Day => v.day + value,
        UnitTime::Week => v.day + value * 7,
    }
}

/// The hour field after normalization: hours above 24 carry into days.
/// The boundary is deliberately `> 24`, as the original has it: an hour
/// field of exactly 24 is left as it stands.
pub open spec fn norm_hour(h: int) -> int {
    if h > 24 {
        h % 24
    } else {
        h
    }
}

/// The day field after the hour carry.
pub open spec fn day_carried(h: int, d: int) -> int {
    if h > 24 {
        d + h / 24
    } else {
        d
    }
}

/// The record after an `extend`, or `None` when the stored month lies
/// outside 1 through 12, which surfaces as the extend syntax error. The
/// three carries run unconditionally in this fixed order: hours into days,
/// days into months (by the month's length as it stood before any carry),
/// months into years, each carry the full quotient.
pub open spec fn extend_spec(v: KanbanView, unit: UnitTime, value: u32) -> Option<KanbanView> {
    let h0 = hour_after(v, unit, value);
    let d0 = day_after(v, unit, value);
    let h1 = norm_hour(h0);
    let d1 = day_carried(h0, d0);
    match days_in_month(v.month as int, v.year as int) {
        Some(dm) => {
            let d2 = if d1 > dm {
                d1 % dm
            } else {
                d1
            };
            let m1 = if d1 > dm {
                v.month + d1 / dm
            } else {
                v.month as int
            };
            let m2 = if m1 > 12 {
                m1 % 12
            } else {
                m1
            };
            let y1 = if m1 > 12 {
                v.year + m1 / 12
            } else {
                v.year as int
            };
            Some(
                KanbanView {
                    hour: h1 as u8,
                    day: d2 as u32,
                    month: m2 as u8,
                    year: y1 as u32,
                    ..v
                },
            )
        },
        None => None,
    }
}

/// Whether an `extend` stays in range of the record's fields: the day
/// addition fits its field and each carry lands its target within its
/// field. The hour sum needs no bound of its own: its normalized value
/// always fits the hour byte.
pub open spec fn extend_fits(v: KanbanView, unit: UnitTime, value: u32) -> bool {
    let h0 = hour_after(v, unit, value);
    let d0 = day_after(v, unit, value);
    let d1 = day_carried(h0, d0);
    &&& d0 <= u32::MAX
    &&& d1 <= u32::MAX
    &&& match days_in_month(v.month as int, v.year as int) {
        Some(dm) => {
            let m1 = if d1 > dm {
                v.month + d1 / dm
            } else {
                v.month as int
            };
            m1 <= u8::MAX && (if m1 > 12 {
                v.year + m1 / 12
            } else {
                v.year as int
            }) <= u32::MAX
        },
        None => true,
    }
}

/// Adds the amount to the record's hour or day field (×7 for weeks), then
/// normalizes: hour carries into day past 24, day carries into month past
/// the month's length, month carries into year past 12. A stored month
/// outside 1 through 12 is the extend syntax error.
#[verifier::rlimit(60)]
pub fn extend(obj: KanbanObject, unit: UnitTime, value: u32) -> (r: Result<KanbanObject, Error>)
    requires
        extend_fits(obj@, unit, value),
    ensures
        r matches Ok(o) ==> extend_spec(obj@, unit, value) == Some(o@),
        r matches Err(e) ==> extend_spec(obj@, unit, value) is None && e
            == Error::SyntaxKanbanExtend,
{
    let mut obj = obj;
    let ghost v0 = obj@;
    let hour_sum: u64 = match unit {
        UnitTime::Hour => obj.hour as u64 + value as u64,
        UnitTime::Day => {
            obj.day = obj.day + value;
            obj.hour as u64
        },
        UnitTime::Week => {
            obj.day = obj.day + value * 7;
            obj.hour as u64
        },
    };
    proof {
        assert(hour_sum as int == hour_after(v0, unit, value));
        assert(obj.day as int == day_after(v0, unit, value));
    }
    let ghost h0 = hour_after(v0, unit, value);
    let ghost d0 = day_after(v0, unit, value);
    if hour_sum > 24 {
        obj.day = obj.day + (hour_sum / 24) as u32;
        obj.hour = (hour_sum % 24) as u8;
    } else {
        obj.hour = hour_sum as u8;
    }
    proof {
        assert(obj.hour as int == norm_hour(h0));
        assert(obj.day as int == day_carried(h0, d0));
    }
    let ghost d1 = day_carried(h0, d0);
    let mut day_num: u32 = match obj.month {
        1 | 3 | 5 | 7 | 8 | 10 | 12 => 31,
        4 | 6 | 9 | 11 => 30,
        2 => 28,
        _ => {
            return Err(Error::SyntaxKanbanExtend);
        },
    };
    if day_num == 28 && obj.year % 4 == 0 {
        day_num = 29;
    }
    proof {
        assert(days_in_month(v0.month as int, v0.year as int) == Some(day_num as int));
    }
    if obj.day > day_num {
        let q: u32 = obj.day / day_num;
        proof {
            assert(q as int == d1 / day_num as int);
        }
        obj.month = obj.month + q as u8;
        obj.day = obj.day % day_num;
    }
    if obj.month > 12 {
        obj.year = obj.year + (obj.month / 12) as u32;
        obj.month = obj.month % 12;
    }
    Ok(obj)
}

/// The record after a `schedule` with already parsed fields: a direct set
/// of all four date fields, nothing added, no normalization.
pub open spec fn schedule_set(v: KanbanView, year: u32, month: u8, day: u32, hour: u8) -> KanbanView {
    KanbanView { year, month, day, hour, ..v }
}

/// What a `schedule` with the given tokens does to the record: each token
/// is parsed as an unsigned integer of its field's width, in field order,
/// and the first unparsable token is the schedule syntax error.
pub open spec fn schedule_spec(
    v: KanbanView,
    y: Seq<char>,
    mo: Seq<char>,
    d: Seq<char>,
    h: Seq<char>,
) -> Result<KanbanView, Error> {
    if parse_spec(y, u32::MAX as int) is None {
        Err(Error::SyntaxKanbanSchedule)
    } else if parse_spec(mo, u8::MAX as int) is None {
        Err(Error::SyntaxKanbanSchedule)
    } else if parse_spec(d, u32::MAX as int) is None {
        Err(Error::SyntaxKanbanSchedule)
    } else if parse_spec(h, u8::MAX as int) is None {
        Err(Error::SyntaxKanbanSchedule)
    } else {
        Ok(
            schedule_set(
                v,
                parse_spec(y, u32::MAX as int)->0 as u32,
                parse_spec(mo, u8::MAX as int)->0 as u8,
                parse_spec(d, u32::MAX as int)->0 as u32,
                parse_spec(h, u8::MAX as int)->0 as u8,
            ),
        )
    }
}

/// Parses the four date tokens and sets the schedule fields directly:
/// scheduling overwrites whatever was stored before, it never adds.
pub fn schedule(
    obj: KanbanObject,
    y: &String,
    mo: &String,
    d: &String,
    h: &String,
) -> (r: Result<KanbanObject, Error>)
    ensures
        schedule_spec(obj@, y@, mo@, d@, h@) matches Ok(v) ==> (r matches Ok(o) && o@ == v),
        schedule_spec(obj@, y@, mo@, d@, h@) matches Err(e) ==> r == Err::<KanbanObject, Error>(e),
{
    let mut obj = obj;
    obj.year = match parse_capped(y.as_str(), 0xFFFF_FFFFu64) {
        Some(num) => num as u32,
        None => {
            return Err(Error::SyntaxKanbanSchedule);
        },
    };
    obj.month = match parse_capped(mo.as_str(), 255u64) {
        Some(num) => num as u8,
        None => {
            return Err(Error::SyntaxKanbanSchedule);
        },
    };
    obj.day = match parse_capped(d.as_str(), 0xFFFF_FFFFu64) {
        Some(num) => num as u32,
        None => {
            return Err(Error::SyntaxKanbanSchedule);
        },
    };
    obj.hour = match parse_capped(h.as_str(), 255u64) {
        Some(num) => num as u8,
        None => {
            return Err(Error::SyntaxKanbanSchedule);
        },
    };
    Ok(obj)
}

/// The status glyph that opens a kanban listing line.
pub open spec fn status_glyph(st: KanbanStatus) -> Seq<char> {
    match st {
        KanbanStatus::Todo => "\u{1F534}"@,
        KanbanStatus::Progress => "\u{1F7E1}"@,
        KanbanStatus::Done => "\u{1F7E2}"@,
    }
}

/// The listing line of one kanban record: glyph, id and name always; the
/// date fields only on a scheduled record, `year == 0` being the
/// "not scheduled" sentinel.
pub open spec fn kanban_line_spec(v: KanbanView) -> Seq<char> {
    status_glyph(v.status) + " "@ + v.ref_id + ": "@ + v.display_name + (if v.year != 0 {
        ", "@ + dec_str(v.year as int) + " "@ + dec_str(v.month as int) + " "@ + dec_str(
            v.day as int,
        ) + " "@ + dec_str(v.hour as int)
    } else {
        Seq::<char>::empty()
    })
}

/// A record's listing line carries the date suffix exactly when its year
/// is not the zero sentinel.
pub proof fn lemma_unscheduled_sentinel(v: KanbanView)
    ensures
        v.year == 0 ==> kanban_line_spec(v) == status_glyph(v.status) + " "@ + v.ref_id + ": "@
            + v.display_name,
        v.year != 0 ==> kanban_line_spec(v) == status_glyph(v.status) + " "@ + v.ref_id + ": "@
            + v.display_name + (", "@ + dec_str(v.year as int) + " "@ + dec_str(v.month as int)
            + " "@ + dec_str(v.day as int) + " "@ + dec_str(v.hour as int)),
{
    if v.year == 0 {
        assert(status_glyph(v.status) + " "@ + v.ref_id + ": "@ + v.display_name
            + Seq::<char>::empty() =~= status_glyph(v.status) + " "@ + v.ref_id + ": "@
            + v.display_name);
    }
}

/// Renders the listing line of one kanban record.
pub fn kanban_line(obj: &KanbanObject) -> (r: String)
    ensures
        r@ == kanban_line_spec(obj@),
{
    let mut s = match obj.status {
        KanbanStatus::Todo => String::from_str("\u{1F534}"),
        KanbanStatus::Progress => String::from_str("\u{1F7E1}"),
        KanbanStatus::Done => String::from_str("\u{1F7E2}"),
    };
    s.append(" ");
    s.append(obj.ref_id.as_str());
    s.append(": ");
    s.append(obj.display_name.as_str());
    if obj.year != 0 {
        s.append(", ");
        let y = crate::text::u64_to_string(obj.year as u64);
        s.append(y.as_str());
        s.append(" ");
        let mo = crate::text::u64_to_string(obj.month as u64);
        s.append(mo.as_str());
        s.append(" ");
        let d = crate::text::u64_to_string(obj.day as u64);
        s.append(d.as_str());
        s.append(" ");
        let h = crate::text::u64_to_string(obj.hour as u64);
        s.append(h.as_str());
        proof {
            assert(s@ =~= kanban_line_spec(obj@));
        }
    } else {
        proof {
            assert(s@ =~= kanban_line_spec(obj@));
        }
    }
    s
}

/// Renders the listing: one line per record, in the order given.
pub fn view(objs: &Vec<KanbanObject>) -> (r: Vec<String>)
    ensures
        r@.len() == objs@.len(),
        forall|i: int| 0 <= i < objs@.len() ==> #[trigger] r@[i]@ == kanban_line_spec(objs@[i]@),
{
    let mut lines: Vec<String> = Vec::new();
    let n: usize = objs.len();
    let mut k: usize = 0;
    while k < n
        invariant
            n == objs@.len(),
            0 <= k <= n,
            lines@.len() == k,
            forall|i: int| 0 <= i < k ==> #[trigger] lines@[i]@ == kanban_line_spec(objs@[i]@),
        decreases n - k,
    {
        let line = kanban_line(&objs[k]);
        lines.push(line);
        k = k + 1;
    }
    lines
}

/// Parses a kanban sub-command. `args[0]` is the `kanban` word itself; the
/// sub-action and its arguments follow. Wrong arity, an unknown
/// sub-action, an unrecognized status or unit token, or an unparsable
/// extend amount gives the operation's syntax error; no store access
/// happens here.
pub fn kanban(args: Vec<String>) -> (r: Result<KanbanCommand, Error>)
    requires
        args@.len() >= 1,
    ensures
        ({
            let a = args@;
            match r {
                Ok(cmd) => match cmd {
                    KanbanCommand::Add(o) => a.len() == 4 && a[1]@ == "add"@ && o@.ref_id == a[2]@
                        && o@.display_name == a[3]@ && o@.status == KanbanStatus::Todo
                        && !o@.scheduled && o@.year == 0 && o@.month == 0 && o@.day == 0
                        && o@.hour == 0,
                    KanbanCommand::Remove(id) => a.len() == 3 && a[1]@ == "remove"@ && id@
                        == a[2]@,
                    KanbanCommand::Move(id, st) => a.len() == 4 && a[1]@ == "move"@ && id@ == a[2]@
                        && status_of_token(a[3]@) == Some(st),
                    KanbanCommand::Edit(id, name) => a.len() == 4 && a[1]@ == "edit"@ && id@
                        == a[2]@ && name@ == a[3]@,
                    KanbanCommand::Extend(id, unit, value) => a.len() == 5 && a[1]@ == "extend"@
                        && id@ == a[2]@ && unit_of_token(a[3]@) == Some(unit)
                        && parse_spec(a[4]@, u32::MAX as int) == Some(value as int),
                    KanbanCommand::Schedule(id, y, mo, d, h) => a[1]@ == "schedule"@ && id@
                        == a[2]@ && y@ == a[3]@ && mo@ == a[4]@ && d@ == a[5]@ && ((a.len() == 6
                        && h@ == "0"@) || (a.len() == 7 && h@ == a[6]@)),
                    KanbanCommand::View => a.len() == 2 && a[1]@ == "view"@,
                },
                Err(e) => {
                    &&& (e == Error::SyntaxKanban || e == Error::SyntaxKanbanAdd || e
                        == Error::SyntaxKanbanRemove || e == Error::SyntaxKanbanMove || e
                        == Error::SyntaxKanbanEdit || e == Error::SyntaxKanbanExtend || e
                        == Error::SyntaxKanbanSchedule)
                    &&& (e == Error::SyntaxKanban <==> (a.len() == 1 || (a[1]@ != "add"@ && a[1]@
                        != "remove"@ && a[1]@ != "move"@ && a[1]@ != "edit"@ && a[1]@ != "extend"@
                        && a[1]@ != "schedule"@ && (a[1]@ != "view"@ || a.len() != 2))))
                    &&& (e == Error::SyntaxKanbanAdd <==> (a.len() >= 2 && a[1]@ == "add"@
                        && a.len() != 4))
                    &&& (e == Error::SyntaxKanbanRemove <==> (a.len() >= 2 && a[1]@ == "remove"@
                        && a.len() != 3))
                    &&& (e == Error::SyntaxKanbanMove <==> (a.len() >= 2 && a[1]@ == "move"@
                        && (a.len() != 4 || status_of_token(a[3]@) is None)))
                    &&& (e == Error::SyntaxKanbanEdit <==> (a.len() >= 2 && a[1]@ == "edit"@
                        && a.len() != 4))
                    &&& (e == Error::SyntaxKanbanExtend <==> (a.len() >= 2 && a[1]@ == "extend"@
                        && (a.len() != 5 || unit_of_token(a[3]@) is None || (
                        unit_of_token(a[3]@) is Some && parse_spec(a[4]@, u32::MAX as int) is None))))
                    &&& (e == Error::SyntaxKanbanSchedule <==> (a.len() >= 2 && a[1]@
                        == "schedule"@ && a.len() != 6 && a.len() != 7))
                },
            }
        }),
{
    proof {
        reveal_strlit("add");
        reveal_strlit("remove");
        reveal_strlit("move");
        reveal_strlit("edit");
        reveal_strlit("extend");
        reveal_strlit("view");
        reveal_strlit("schedule");
        reveal_strlit("0");
        assert("add"@.len() == 3);
        assert("remove"@.len() == 6);
        assert("move"@.len() == 4);
        assert("edit"@.len() == 4);
        assert("extend"@.len() == 6);
        assert("view"@.len() == 4);
        assert("schedule"@.len() == 8);
        assert("move"@[0] == 'm');
        assert("edit"@[0] == 'e');
        assert("view"@[0] == 'v');
        assert("remove"@[0] == 'r');
        assert("extend"@[0] == 'e');
    }
    if args.len() == 1 {
        return Err(Error::SyntaxKanban);
    }
    let verb: &String = &args[1];
    if str_eq(verb.as_str(), "add") {
        if args.len() != 4 {
            return Err(Error::SyntaxKanbanAdd);
        }
        let mut args = args;
        let name = args.remove(3);
        let id = args.remove(2);
        Ok(KanbanCommand::Add(crate::kanban::add(id, name)))
    } else if str_eq(verb.as_str(), "remove") {
        if args.len() != 3 {
            return Err(Error::SyntaxKanbanRemove);
        }
        let mut args = args;
        let id = args.remove(2);
        Ok(KanbanCommand::Remove(id))
    } else if str_eq(verb.as_str(), "move") {
        if args.len() != 4 {
            return Err(Error::SyntaxKanbanMove);
        }
        let designation = match parse_status(args[3].as_str()) {
            Some(st) => st,
            None => {
                return Err(Error::SyntaxKanbanMove);
            },
        };
        let mut args = args;
        let id = args.remove(2);
        Ok(KanbanCommand::Move(id, designation))
    } else if str_eq(verb.as_str(), "edit") {
        if args.len() != 4 {
            return Err(Error::SyntaxKanbanEdit);
        }
        let mut args = args;
        let name = args.remove(3);
        let id = args.remove(2);
        Ok(KanbanCommand::Edit(id, name))
    } else if str_eq(verb.as_str(), "extend") {
        if args.len() != 5 {
            return Err(Error::SyntaxKanbanExtend);
        }
        let unit = match parse_unit(args[3].as_str()) {
            Some(u) => u,
            None => {
                return Err(Error::SyntaxKanbanExtend);
            },
        };
        let value: u32 = match parse_capped(args[4].as_str(), 0xFFFF_FFFFu64) {
            Some(num) => num as u32,
            None => {
                return Err(Error::SyntaxKanbanExtend);
            },
        };
        let mut args = args;
        let id = args.remove(2);
        Ok(KanbanCommand::Extend(id, unit, value))
    } else if str_eq(verb.as_str(), "view") {
        if args.len() != 2 {
            return Err(Error::SyntaxKanban);
        }
        Ok(KanbanCommand::View)
    } else if str_eq(verb.as_str(), "schedule") {
        if args.len() == 6 {
            let mut args = args;
            let d = args.remove(5);
            let mo = args.remove(4);
            let y = args.remove(3);
            let id = args.remove(2);
            Ok(KanbanCommand::Schedule(id, y, mo, d, String::from_str("0")))
        } else if args.len() == 7 {
            let mut args = args;
            let h = args.remove(6);
            let d = args.remove(5);
            let mo = args.remove(4);
            let y = args.remove(3);
            let id = args.remove(2);
            Ok(KanbanCommand::Schedule(id, y, mo, d, h))
        } else {
            Err(Error::SyntaxKanbanSchedule)
        }
    } else {
        Err(Error::SyntaxKanban)
    }
}

/// Scheduling is a direct set, not additive: whatever two records held
/// before, scheduling both with the same tokens stores the same four date
/// fields.
pub proof fn lemma_schedule_direct_set(
    v1: KanbanView,
    v2: KanbanView,
    y: Seq<char>,
    mo: Seq<char>,
    d: Seq<char>,
    h: Seq<char>,
)
    ensures
        (schedule_spec(v1, y, mo, d, h) is Ok && schedule_spec(v2, y, mo, d, h) is Ok) ==> ({
            let w1 = schedule_spec(v1, y, mo, d, h)->Ok_0;
            let w2 = schedule_spec(v2, y, mo, d, h)->Ok_0;
            w1.year == w2.year && w1.month == w2.month && w1.day == w2.day && w1.hour == w2.hour
        }),
{
}

/// Tests the machine-range side conditions of an `extend` and runs it:
/// `None` exactly when some carry target would leave its field's range,
/// where the original's unchecked arithmetic would fail.
pub fn extend_checked(obj: KanbanObject, unit: UnitTime, value: u32) -> (r: Option<
    Result<KanbanObject, Error>,
>)
    ensures
        r matches Some(inner) ==> extend_fits(obj@, unit, value) && (match inner {
            Ok(o) => extend_spec(obj@, unit, value) == Some(o@),
            Err(e) => extend_spec(obj@, unit, value) is None && e == Error::SyntaxKanbanExtend,
        }),
        r is None ==> !extend_fits(obj@, unit, value),
{
    let h0: u64 = match unit {
        UnitTime::Hour => obj.hour as u64 + value as u64,
        UnitTime::Day => obj.hour as u64,
        UnitTime::Week => obj.hour as u64,
    };
    let d0: u64 = match unit {
        UnitTime::Hour => obj.day as u64,
        UnitTime::Day => obj.day as u64 + value as u64,
        UnitTime::Week => obj.day as u64 + (value as u64) * 7,
    };
    if d0 > 0xFFFF_FFFFu64 {
        return None;
    }
    let d1: u64 = if h0 > 24 {
        d0 + h0 / 24
    } else {
        d0
    };
    if d1 > 0xFFFF_FFFFu64 {
        return None;
    }
    let dm: u64 = match obj.month {
        1 | 3 | 5 | 7 | 8 | 10 | 12 => 31,
        4 | 6 | 9 | 11 => 30,
        2 => if obj.year % 4 == 0 {
            29
        } else {
            28
        },
        _ => {
            return Some(extend(obj, unit, value));
        },
    };
    let m1: u64 = if d1 > dm {
        obj.month as u64 + d1 / dm
    } else {
        obj.month as u64
    };
    if m1 > 255 {
        return None;
    }
    let y1: u64 = if m1 > 12 {
        obj.year as u64 + m1 / 12
    } else {
        obj.year as u64
    };
    if y1 > 0xFFFF_FFFFu64 {
        return None;
    }
    Some(extend(obj, unit, value))
}

} // verus!