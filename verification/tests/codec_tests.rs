use projection::codec::{decode_goal, decode_kanban, encode_goal, encode_kanban};
use projection::records::{GoalObject, KanbanObject, KanbanStatus};

fn goal(id: &str, name: &str, complete: bool) -> GoalObject {
    GoalObject { ref_id: id.to_string(), display_name: name.to_string(), complete }
}

fn kanban(id: &str, name: &str) -> KanbanObject {
    KanbanObject {
        ref_id: id.to_string(),
        display_name: name.to_string(),
        status: KanbanStatus::Todo,
        scheduled: false,
        year: 0,
        month: 0,
        day: 0,
        hour: 0,
    }
}

#[test]
fn goal_round_trip() {
    let g = goal("pay-rent", "Pay the rent", true);
    let bytes = encode_goal(&g);
    let back = decode_goal(&bytes).expect("decodes");
    assert_eq!(back.ref_id, "pay-rent");
    assert_eq!(back.display_name, "Pay the rent");
    assert!(back.complete);
}

#[test]
fn goal_round_trip_empty_strings() {
    let g = goal("", "", false);
    let bytes = encode_goal(&g);
    let back = decode_goal(&bytes).expect("decodes");
    assert_eq!(back.ref_id, "");
    assert_eq!(back.display_name, "");
    assert!(!back.complete);
}

#[test]
fn goal_round_trip_non_ascii() {
    let g = goal("caf\u{e9}", "\u{1F534} caf\u{e9} \u{2603}", false);
    let bytes = encode_goal(&g);
    let back = decode_goal(&bytes).expect("decodes");
    assert_eq!(back.ref_id, "caf\u{e9}");
    assert_eq!(back.display_name, "\u{1F534} caf\u{e9} \u{2603}");
}

#[test]
fn kanban_round_trip_all_fields() {
    let mut k = kanban("ship", "Ship the release");
    k.status = KanbanStatus::Progress;
    k.scheduled = true;
    k.year = 2023;
    k.month = 12;
    k.day = 31;
    k.hour = 23;
    let bytes = encode_kanban(&k);
    let back = decode_kanban(&bytes).expect("decodes");
    assert_eq!(back.ref_id, "ship");
    assert_eq!(back.display_name, "Ship the release");
    assert_eq!(back.status, KanbanStatus::Progress);
    assert!(back.scheduled);
    assert_eq!(back.year, 2023);
    assert_eq!(back.month, 12);
    assert_eq!(back.day, 31);
    assert_eq!(back.hour, 23);
}

#[test]
fn kanban_round_trip_done() {
    let mut k = kanban("done-item", "All finished");
    k.status = KanbanStatus::Done;
    let bytes = encode_kanban(&k);
    let back = decode_kanban(&bytes).expect("decodes");
    assert_eq!(back.status, KanbanStatus::Done);
}

#[test]
fn decode_rejects_empty() {
    assert!(decode_goal(&Vec::new()).is_none());
    assert!(decode_kanban(&Vec::new()).is_none());
}

#[test]
fn decode_rejects_wrong_tag() {
    let g = goal("a", "b", false);
    let bytes = encode_goal(&g);
    // A goal file is not a kanban file: the kind tag differs.
    assert!(decode_kanban(&bytes).is_none());
    let k = kanban("a", "b");
    let kbytes = encode_kanban(&k);
    assert!(decode_goal(&kbytes).is_none());
}

#[test]
fn decode_rejects_truncated() {
    let g = goal("pay-rent", "Pay the rent", true);
    let mut bytes = encode_goal(&g);
    bytes.pop();
    assert!(decode_goal(&bytes).is_none());
}

#[test]
fn decode_rejects_trailing_garbage() {
    let g = goal("pay-rent", "Pay the rent", true);
    let mut bytes = encode_goal(&g);
    bytes.push(0);
    assert!(decode_goal(&bytes).is_none());
}

#[test]
fn decode_rejects_bad_flag_byte() {
    let g = goal("x", "y", false);
    let mut bytes = encode_goal(&g);
    let last = bytes.len() - 1;
    bytes[last] = 7;
    assert!(decode_goal(&bytes).is_none());
}

#[test]
fn decode_rejects_invalid_code_point() {
    let g = goal("x", "y", false);
    let mut bytes = encode_goal(&g);
    // The first character of the id sits right after the version, the tag
    // and the eight-byte length; 0xD800 is a surrogate, no scalar value.
    bytes[10] = 0x00;
    bytes[11] = 0xD8;
    bytes[12] = 0x00;
    bytes[13] = 0x00;
    assert!(decode_goal(&bytes).is_none());
}
