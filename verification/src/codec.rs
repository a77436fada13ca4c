//! The record codec: a versioned binary format that round-trips every field
//! exactly. Strings are stored as a character count followed by each
//! character's code point, both little-endian; the round-trip is proved.

use vstd::prelude::*;
use vstd::bytes::{
    spec_u32_to_le_bytes, spec_u32_from_le_bytes, spec_u64_to_le_bytes, spec_u64_from_le_bytes,
    u32_to_le_bytes, u32_from_le_bytes, u64_to_le_bytes, u64_from_le_bytes,
    lemma_auto_spec_u32_to_from_le_bytes, lemma_auto_spec_u64_to_from_le_bytes,
};
use vstd::slice::slice_subrange;
use crate::records::{GoalObject, GoalView, KanbanObject, KanbanView, KanbanStatus};

verus! {

/// Whether a code point is a Unicode scalar value, that is, the value of
/// some `char`.
pub open spec fn scalar_ok(v: u32) -> bool {
    v < 0xD800 || (0xE000 <= v && v <= 0x10FFFF)
}

/// Relies on `char::from_u32`: `Some` exactly on Unicode scalar values,
/// and the returned character has the given value.
#[verifier::external_body]
fn char_from_u32(v: u32) -> (r: Option<char>)
    ensures
        r matches Some(c) ==> scalar_ok(v) && c == (v as char) && c as u32 == v,
        r is None ==> !scalar_ok(v),
{
    char::from_u32(v)
}

/// The byte encoding of a string's characters: four little-endian bytes
/// per code point.
pub open spec fn chars_bytes(s: Seq<char>) -> Seq<u8>
    decreases s.len(),
{
    if s.len() == 0 {
        Seq::empty()
    } else {
        spec_u32_to_le_bytes(s[0] as u32) + chars_bytes(s.skip(1))
    }
}

/// The byte encoding of a string: its character count as eight
/// little-endian bytes, then its characters.
pub open spec fn string_bytes(s: Seq<char>) -> Seq<u8> {
    spec_u64_to_le_bytes(s.len() as u64) + chars_bytes(s)
}

/// The discriminant byte of a status.
pub open spec fn status_byte(st: KanbanStatus) -> u8 {
    match st {
        KanbanStatus::Todo => 0,
        KanbanStatus::Progress => 1,
        KanbanStatus::Done => 2,
    }
}

/// The encoding of a boolean.
pub open spec fn bool_byte(b: bool) -> u8 {
    if b {
        1
    } else {
        0
    }
}

/// The byte encoding of a goal record: format version, a goal tag, the two
/// strings, the completion flag.
pub open spec fn goal_bytes(v: GoalView) -> Seq<u8> {
    seq![0u8, 0u8] + string_bytes(v.ref_id) + string_bytes(v.display_name) + seq![
        bool_byte(v.complete),
    ]
}

/// The byte encoding of a kanban record: format version, a kanban tag, the
/// two strings, then status, scheduled flag, year, month, day and hour in
/// fixed widths.
pub open spec fn kanban_bytes(v: KanbanView) -> Seq<u8> {
    seq![0u8, 1u8] + string_bytes(v.ref_id) + string_bytes(v.display_name) + seq![
        status_byte(v.status),
        bool_byte(v.scheduled),
    ] + spec_u32_to_le_bytes(v.year) + seq![v.month] + spec_u32_to_le_bytes(v.day) + seq![v.hour]
}

/// The characters decoded from `n` four-byte groups at position `p`, or
/// `None` where a group is no Unicode scalar value.
pub open spec fn chars_decoded(b: Seq<u8>, p: int, n: nat) -> Option<Seq<char>>
    decreases n,
{
    if n == 0 {
        Some(Seq::empty())
    } else {
        let v = spec_u32_from_le_bytes(b.subrange(p, p + 4));
        if scalar_ok(v) {
            match chars_decoded(b, p + 4, (n - 1) as nat) {
                Some(rest) => Some(seq![(v as char)] + rest),
                None => None,
            }
        } else {
            None
        }
    }
}

/// The string decoded at position `p`, with the position just past it, or
/// `None` where the bytes run short or a code point is invalid.
pub open spec fn string_decoded(b: Seq<u8>, p: int) -> Option<(Seq<char>, int)> {
    if p + 8 > b.len() {
        None
    } else {
        let n = spec_u64_from_le_bytes(b.subrange(p, p + 8)) as nat;
        if p + 8 + 4 * n > b.len() {
            None
        } else {
            match chars_decoded(b, p + 8, n) {
                Some(s) => Some((s, p + 8 + 4 * n)),
                None => None,
            }
        }
    }
}

/// The goal record the bytes encode, or `None` where version, tag, shape
/// or a field value does not fit: a corrupt record.
pub open spec fn goal_decoded(b: Seq<u8>) -> Option<GoalView> {
    if b.len() < 2 || b[0] != 0u8 || b[1] != 0u8 {
        None
    } else {
        match string_decoded(b, 2) {
            Some((id, p)) => match string_decoded(b, p) {
                Some((name, q)) => if q + 1 == b.len() && (b[q] == 0u8 || b[q] == 1u8) {
                    Some(GoalView { ref_id: id, display_name: name, complete: b[q] == 1u8 })
                } else {
                    None
                },
                None => None,
            },
            None => None,
        }
    }
}

/// The kanban record the bytes encode, or `None` where version, tag, shape
/// or a field value does not fit: a corrupt record.
pub open spec fn kanban_decoded(b: Seq<u8>) -> Option<KanbanView> {
    if b.len() < 2 || b[0] != 0u8 || b[1] != 1u8 {
        None
    } else {
        match string_decoded(b, 2) {
            Some((id, p)) => match string_decoded(b, p) {
                Some((name, q)) => if q + 12 == b.len() && b[q] <= 2u8 && (b[q + 1] == 0u8 || b[q
                    + 1] == 1u8) {
                    Some(
                        KanbanView {
                            ref_id: id,
                            display_name: name,
                            status: if b[q] == 0u8 {
                                KanbanStatus::Todo
                            } else if b[q] == 1u8 {
                                KanbanStatus::Progress
                            } else {
                                KanbanStatus::Done
                            },
                            scheduled: b[q + 1] == 1u8,
                            year: spec_u32_from_le_bytes(b.subrange(q + 2, q + 6)),
                            month: b[q + 6],
                            day: spec_u32_from_le_bytes(b.subrange(q + 7, q + 11)),
                            hour: b[q + 11],
                        },
                    )
                } else {
                    None
                },
                None => None,
            },
            None => None,
        }
    }
}

/// Concatenating character sequences concatenates their encodings.
proof fn lemma_chars_bytes_append(a: Seq<char>, b: Seq<char>)
    ensures
        chars_bytes(a + b) == chars_bytes(a) + chars_bytes(b),
    decreases a.len(),
{
    if a.len() == 0 {
        assert(a + b =~= b);
        assert(chars_bytes(a) + chars_bytes(b) =~= chars_bytes(b));
    } else {
        assert((a + b).skip(1) =~= a.skip(1) + b);
        lemma_chars_bytes_append(a.skip(1), b);
        assert(chars_bytes(a + b) =~= chars_bytes(a) + chars_bytes(b));
    }
}

/// The encoding of four bytes per character has four bytes per character.
proof fn lemma_chars_bytes_len(s: Seq<char>)
    ensures
        chars_bytes(s).len() == 4 * s.len(),
    decreases s.len(),
{
    lemma_auto_spec_u32_to_from_le_bytes();
    if s.len() > 0 {
        lemma_chars_bytes_len(s.skip(1));
    }
}

/// Appends the little-endian encoding of `v`.
fn push_u64(out: &mut Vec<u8>, v: u64)
    ensures
        final(out)@ == old(out)@ + spec_u64_to_le_bytes(v),
{
    let mut bytes = u64_to_le_bytes(v);
    out.append(&mut bytes);
}

/// Appends the little-endian encoding of `v`.
fn push_u32(out: &mut Vec<u8>, v: u32)
    ensures
        final(out)@ == old(out)@ + spec_u32_to_le_bytes(v),
{
    let mut bytes = u32_to_le_bytes(v);
    out.append(&mut bytes);
}

/// Appends the encoding of the string: character count, then characters.
fn encode_str(out: &mut Vec<u8>, s: &str)
    ensures
        final(out)@ == old(out)@ + string_bytes(s@),
{
    let n: usize = s.unicode_len();
    push_u64(out, n as u64);
    let ghost base = out@;
    let mut i: usize = 0;
    proof {
        assert(s@.take(0) =~= Seq::<char>::empty());
        assert(out@ =~= base + chars_bytes(s@.take(0)));
    }
    while i < n
        invariant
            n == s@.len(),
            0 <= i <= n,
            out@ == base + chars_bytes(s@.take(i as int)),
        decreases n - i,
    {
        let c: char = s.get_char(i);
        let v: u32 = c as u32;
        push_u32(out, v);
        proof {
            let t = s@.take(i + 1);
            assert(t =~= s@.take(i as int) + seq![c]);
            lemma_chars_bytes_append(s@.take(i as int), seq![c]);
            let single = seq![c];
            assert(single.len() == 1 && single[0] == c);
            assert(single.skip(1) =~= Seq::<char>::empty());
            assert(chars_bytes(single.skip(1)) == Seq::<u8>::empty());
            assert(chars_bytes(single) == spec_u32_to_le_bytes(c as u32) + chars_bytes(
                single.skip(1),
            ));
            assert(chars_bytes(single) =~= spec_u32_to_le_bytes(c as u32));
            assert(out@ =~= base + chars_bytes(t));
        }
        i = i + 1;
    }
    proof {
        assert(s@.take(n as int) =~= s@);
        assert(out@ =~= old(out)@ + string_bytes(s@));
    }
}

/// Reads the eight-byte little-endian integer at `p`.
fn read_u64(b: &Vec<u8>, p: usize) -> (r: u64)
    requires
        p + 8 <= b@.len(),
    ensures
        r == spec_u64_from_le_bytes(b@.subrange(p as int, p + 8)),
{
    let total: usize = b.len();
    proof {
        assert(p + 8 <= total);
    }
    let sl = slice_subrange(b.as_slice(), p, p + 8);
    u64_from_le_bytes(sl)
}

/// Reads the four-byte little-endian integer at `p`.
fn read_u32(b: &Vec<u8>, p: usize) -> (r: u32)
    requires
        p + 4 <= b@.len(),
    ensures
        r == spec_u32_from_le_bytes(b@.subrange(p as int, p + 4)),
{
    let total: usize = b.len();
    proof {
        assert(p + 4 <= total);
    }
    let sl = slice_subrange(b.as_slice(), p, p + 4);
    u32_from_le_bytes(sl)
}

/// Decodes the string at position `p`, returning it with the position
/// just past it.
fn decode_str(b: &Vec<u8>, p: usize) -> (r: Option<(String, usize)>)
    requires
        p <= b@.len(),
    ensures
        r matches Some(sq) ==> string_decoded(b@, p as int) == Some((sq.0@, sq.1 as int))
            && p < sq.1 <= b@.len(),
        r is None ==> string_decoded(b@, p as int) is None,
{
    if b.len() - p < 8 {
        return None;
    }
    let n64: u64 = read_u64(b, p);
    let rem: usize = b.len() - (p + 8);
    proof {
        vstd::arithmetic::div_mod::lemma_fundamental_div_mod(rem as int, 4);
    }
    if n64 > (rem / 4) as u64 {
        return None;
    }
    let n: usize = n64 as usize;
    let ghost p0 = p + 8;
    let mut s = String::new();
    let mut i: usize = 0;
    proof {
        assert(4 * ((rem / 4) as int) <= rem as int);
        assert(p0 + 4 * (n as int) <= b@.len());
        assert(string_decoded(b@, p as int) == (match chars_decoded(b@, p0 as int, n as nat) {
            Some(cs) => Some((cs, p0 + 4 * (n as int))),
            None => None::<(Seq<char>, int)>,
        }));
        match chars_decoded(b@, p0 as int, n as nat) {
            Some(rest) => {
                assert(s@ + rest =~= rest);
            },
            None => {},
        }
    }
    while i < n
        invariant
            p0 == p + 8,
            p0 + 4 * n <= b@.len(),
            b@.len() <= usize::MAX,
            0 <= i <= n,
            string_decoded(b@, p as int) == (match chars_decoded(b@, p0 as int, n as nat) {
                Some(cs) => Some((cs, p0 + 4 * (n as int))),
                None => None::<(Seq<char>, int)>,
            }),
            chars_decoded(b@, p0, n as nat) == (match chars_decoded(
                b@,
                p0 + 4 * i,
                (n - i) as nat,
            ) {
                Some(rest) => Some(s@ + rest),
                None => None::<Seq<char>>,
            }),
        decreases n - i,
    {
        let pos: usize = p + 8 + 4 * i;
        let v: u32 = read_u32(b, pos);
        let c: char = match char_from_u32(v) {
            Some(c) => c,
            None => {
                proof {
                    assert(b@.subrange(pos as int, pos as int + 4) == b@.subrange(
                        p0 + 4 * i,
                        p0 + 4 * i + 4,
                    ));
                    assert(chars_decoded(b@, p0 + 4 * i, (n - i) as nat) is None);
                    assert(chars_decoded(b@, p0 as int, n as nat) is None);
                    assert(string_decoded(b@, p as int) is None);
                }
                return None;
            },
        };
        crate::text::push_char(&mut s, c);
        proof {
            let rest_opt = chars_decoded(b@, p0 + 4 * (i + 1), (n - i - 1) as nat);
            match rest_opt {
                Some(rest) => {
                    assert(s@ + rest =~= s@.drop_last() + (seq![c] + rest));
                },
                None => {},
            }
        }
        i = i + 1;
    }
    proof {
        assert(chars_decoded(b@, p0 + 4 * i, (n - i) as nat) == Some(Seq::<char>::empty()));
        assert(s@ + Seq::<char>::empty() =~= s@);
    }
    Some((s, p + 8 + 4 * n))
}


/// Encodes a goal record.
pub fn encode_goal(obj: &GoalObject) -> (r: Vec<u8>)
    ensures
        r@ == goal_bytes(obj@),
{
    let mut out: Vec<u8> = Vec::new();
    out.push(0u8);
    out.push(0u8);
    encode_str(&mut out, obj.ref_id.as_str());
    encode_str(&mut out, obj.display_name.as_str());
    out.push(if obj.complete { 1u8 } else { 0u8 });
    proof {
        assert(out@ =~= goal_bytes(obj@));
    }
    out
}

/// Encodes a kanban record.
pub fn encode_kanban(obj: &KanbanObject) -> (r: Vec<u8>)
    ensures
        r@ == kanban_bytes(obj@),
{
    let mut out: Vec<u8> = Vec::new();
    out.push(0u8);
    out.push(1u8);
    encode_str(&mut out, obj.ref_id.as_str());
    encode_str(&mut out, obj.display_name.as_str());
    out.push(match obj.status {
        KanbanStatus::Todo => 0u8,
        KanbanStatus::Progress => 1u8,
        KanbanStatus::Done => 2u8,
    });
    out.push(if obj.scheduled { 1u8 } else { 0u8 });
    push_u32(&mut out, obj.year);
    out.push(obj.month);
    push_u32(&mut out, obj.day);
    out.push(obj.hour);
    proof {
        assert(out@ =~= kanban_bytes(obj@));
    }
    out
}

/// Decodes a goal record; `None` on a corrupt file.
pub fn decode_goal(bytes: &Vec<u8>) -> (r: Option<GoalObject>)
    ensures
        r matches Some(o) ==> goal_decoded(bytes@) == Some(o@),
        r is None ==> goal_decoded(bytes@) is None,
{
    if bytes.len() < 2 {
        return None;
    }
    if bytes[0] != 0u8 || bytes[1] != 0u8 {
        return None;
    }
    let (ref_id, p) = match decode_str(bytes, 2) {
        Some(x) => x,
        None => {
            return None;
        },
    };
    let (display_name, q) = match decode_str(bytes, p) {
        Some(x) => x,
        None => {
            return None;
        },
    };
    if bytes.len() - q != 1 {
        return None;
    }
    let cb: u8 = bytes[q];
    if cb == 0u8 || cb == 1u8 {
        Some(GoalObject { ref_id, display_name, complete: cb == 1u8 })
    } else {
        None
    }
}

/// Decodes a kanban record; `None` on a corrupt file.
pub fn decode_kanban(bytes: &Vec<u8>) -> (r: Option<KanbanObject>)
    ensures
        r matches Some(o) ==> kanban_decoded(bytes@) == Some(o@),
        r is None ==> kanban_decoded(bytes@) is None,
{
    if bytes.len() < 2 {
        return None;
    }
    if bytes[0] != 0u8 || bytes[1] != 1u8 {
        return None;
    }
    let (ref_id, p) = match decode_str(bytes, 2) {
        Some(x) => x,
        None => {
            return None;
        },
    };
    let (display_name, q) = match decode_str(bytes, p) {
        Some(x) => x,
        None => {
            return None;
        },
    };
    if bytes.len() - q != 12 {
        return None;
    }
    let sb: u8 = bytes[q];
    if sb > 2u8 {
        return None;
    }
    let status = if sb == 0u8 {
        KanbanStatus::Todo
    } else if sb == 1u8 {
        KanbanStatus::Progress
    } else {
        KanbanStatus::Done
    };
    let schb: u8 = bytes[q + 1];
    if schb > 1u8 {
        return None;
    }
    let scheduled: bool = schb == 1u8;
    let year: u32 = read_u32(bytes, q + 2);
    let month: u8 = bytes[q + 6];
    let day: u32 = read_u32(bytes, q + 7);
    let hour: u8 = bytes[q + 11];
    Some(KanbanObject { ref_id, display_name, status, scheduled, year, month, day, hour })
}

/// Decoding the encoding of any characters gives them back.
proof fn lemma_chars_round(b: Seq<u8>, p: int, s: Seq<char>)
    requires
        0 <= p,
        p + 4 * s.len() <= b.len(),
        b.subrange(p, p + 4 * s.len()) == chars_bytes(s),
    ensures
        chars_decoded(b, p, s.len() as nat) == Some(s),
    decreases s.len(),
{
    lemma_auto_spec_u32_to_from_le_bytes();
    if s.len() == 0 {
    } else {
        let c0 = s[0];
        vstd::utf8::char_is_scalar(c0);
        vstd::utf8::char_u32_cast(c0, c0 as u32);
        let enc = spec_u32_to_le_bytes(c0 as u32);
        let sub = b.subrange(p, p + 4 * s.len());
        lemma_chars_bytes_len(s.skip(1));
        assert(chars_bytes(s) == enc + chars_bytes(s.skip(1)));
        assert(b.subrange(p, p + 4) =~= sub.subrange(0, 4));
        assert(sub.subrange(0, 4) =~= enc);
        assert(spec_u32_from_le_bytes(b.subrange(p, p + 4)) == c0 as u32);
        assert(scalar_ok(c0 as u32));
        assert(((c0 as u32) as char) == c0);
        assert(b.subrange(p + 4, p + 4 + 4 * (s.len() - 1)) =~= sub.subrange(4, 4 * s.len() as int));
        assert(sub.subrange(4, 4 * s.len() as int) =~= chars_bytes(s.skip(1)));
        lemma_chars_round(b, p + 4, s.skip(1));
        assert(seq![c0] + s.skip(1) =~= s);
    }
}

/// Decoding the encoding of any string, wherever it stands in a buffer,
/// gives the string back with the position just past it.
proof fn lemma_string_round(b: Seq<u8>, p: int, s: Seq<char>)
    requires
        0 <= p,
        s.len() <= u64::MAX,
        p + 8 + 4 * s.len() <= b.len(),
        b.subrange(p, p + 8 + 4 * s.len()) == string_bytes(s),
    ensures
        string_decoded(b, p) == Some((s, p + 8 + 4 * s.len())),
{
    lemma_auto_spec_u64_to_from_le_bytes();
    lemma_chars_bytes_len(s);
    let sub = b.subrange(p, p + 8 + 4 * s.len());
    assert(b.subrange(p, p + 8) =~= sub.subrange(0, 8));
    assert(sub.subrange(0, 8) =~= spec_u64_to_le_bytes(s.len() as u64));
    assert(spec_u64_from_le_bytes(b.subrange(p, p + 8)) == s.len() as u64);
    assert(b.subrange(p + 8, p + 8 + 4 * s.len()) =~= sub.subrange(8, 8 + 4 * s.len() as int));
    assert(sub.subrange(8, 8 + 4 * s.len() as int) =~= chars_bytes(s));
    lemma_chars_round(b, p + 8, s);
}

/// Round-trip of the goal codec: decoding the encoding of any goal record
/// gives the record back, field for field.
pub proof fn lemma_goal_round_trip(v: GoalView)
    requires
        v.ref_id.len() <= u64::MAX,
        v.display_name.len() <= u64::MAX,
    ensures
        goal_decoded(goal_bytes(v)) == Some(v),
{
    let b = goal_bytes(v);
    lemma_chars_bytes_len(v.ref_id);
    lemma_chars_bytes_len(v.display_name);
    lemma_auto_spec_u64_to_from_le_bytes();
    let l1: int = 8 + 4 * v.ref_id.len() as int;
    let l2: int = 8 + 4 * v.display_name.len() as int;
    assert(string_bytes(v.ref_id).len() == l1);
    assert(string_bytes(v.display_name).len() == l2);
    assert(b.len() == 2 + l1 + l2 + 1);
    assert(b[0] == 0u8);
    assert(b[1] == 0u8);
    assert(b.subrange(2, 2 + l1) =~= string_bytes(v.ref_id));
    lemma_string_round(b, 2, v.ref_id);
    assert(b.subrange(2 + l1, 2 + l1 + l2) =~= string_bytes(v.display_name));
    lemma_string_round(b, 2 + l1, v.display_name);
    assert(b[2 + l1 + l2] == bool_byte(v.complete));
    assert(goal_decoded(b) == Some(v));
}

/// Round-trip of the kanban codec: decoding the encoding of any kanban
/// record gives the record back, field for field.
pub proof fn lemma_kanban_round_trip(v: KanbanView)
    requires
        v.ref_id.len() <= u64::MAX,
        v.display_name.len() <= u64::MAX,
    ensures
        kanban_decoded(kanban_bytes(v)) == Some(v),
{
    let b = kanban_bytes(v);
    lemma_chars_bytes_len(v.ref_id);
    lemma_chars_bytes_len(v.display_name);
    lemma_auto_spec_u64_to_from_le_bytes();
    lemma_auto_spec_u32_to_from_le_bytes();
    let l1: int = 8 + 4 * v.ref_id.len() as int;
    let l2: int = 8 + 4 * v.display_name.len() as int;
    let q: int = 2 + l1 + l2;
    assert(string_bytes(v.ref_id).len() == l1);
    assert(string_bytes(v.display_name).len() == l2);
    assert(b.len() == q + 12);
    assert(b[0] == 0u8);
    assert(b[1] == 1u8);
    assert(b.subrange(2, 2 + l1) =~= string_bytes(v.ref_id));
    lemma_string_round(b, 2, v.ref_id);
    assert(b.subrange(2 + l1, q) =~= string_bytes(v.display_name));
    lemma_string_round(b, 2 + l1, v.display_name);
    assert(b[q] == status_byte(v.status));
    assert(b[q + 1] == bool_byte(v.scheduled));
    assert(b.subrange(q + 2, q + 6) =~= spec_u32_to_le_bytes(v.year));
    assert(b[q + 6] == v.month);
    assert(b.subrange(q + 7, q + 11) =~= spec_u32_to_le_bytes(v.day));
    assert(b[q + 11] == v.hour);
    assert(kanban_decoded(b) == Some(v));
}

} // verus!
