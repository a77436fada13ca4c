//! Small verified text utilities: string comparison, decimal parsing and
//! decimal rendering, shared by the services and the listing views.

use vstd::prelude::*;

verus! {

/// Character-for-character string equality.
pub fn str_eq(a: &str, b: &str) -> (r: bool)
    ensures
        r == (a@ == b@),
{
    let n: usize = a.unicode_len();
    let m: usize = b.unicode_len();
    if n != m {
        return false;
    }
    let mut i: usize = 0;
    while i < n
        invariant
            n == a@.len(),
            n == b@.len(),
            0 <= i <= n,
            forall|j: int| 0 <= j < i ==> a@[j] == b@[j],
        decreases n - i,
    {
        if a.get_char(i) != b.get_char(i) {
            return false;
        }
        i = i + 1;
    }
    proof {
        assert(a@ =~= b@);
    }
    true
}

/// Whether `c` is a decimal digit.
pub open spec fn is_digit(c: char) -> bool {
    '0' <= c && c <= '9'
}

/// The numeric value of a digit character.
pub open spec fn digit_val(c: char) -> int {
    c as int - '0' as int
}

/// The number a digit sequence denotes, most significant digit first.
pub open spec fn digits_value(s: Seq<char>) -> int
    decreases s.len(),
{
    if s.len() == 0 {
        0
    } else {
        digits_value(s.drop_last()) * 10 + digit_val(s.last())
    }
}

/// Whether every character of `s` is a decimal digit.
pub open spec fn all_digits(s: Seq<char>) -> bool {
    forall|i: int| 0 <= i < s.len() ==> is_digit(#[trigger] s[i])
}

/// The digit part of a decimal token: everything after an optional leading
/// `+` sign.
pub open spec fn digit_part(s: Seq<char>) -> Seq<char> {
    if s.len() > 0 && s[0] == '+' {
        s.skip(1)
    } else {
        s
    }
}

/// Whether `s` is a well-formed non-negative decimal token: an optional `+`
/// sign followed by at least one digit.
pub open spec fn is_dec_token(s: Seq<char>) -> bool {
    digit_part(s).len() > 0 && all_digits(digit_part(s))
}

/// What parsing `s` as an unsigned integer capped at `max` yields: `None` on
/// an ill-formed token or a value above the cap.
pub open spec fn parse_spec(s: Seq<char>, max: int) -> Option<int> {
    if is_dec_token(s) && digits_value(digit_part(s)) <= max {
        Some(digits_value(digit_part(s)))
    } else {
        None
    }
}

proof fn lemma_digits_value_bounds(s: Seq<char>)
    requires
        all_digits(s),
    ensures
        0 <= digits_value(s),
    decreases s.len(),
{
    if s.len() > 0 {
        lemma_digits_value_bounds(s.drop_last());
    }
}

/// Parses `s` as a non-negative decimal integer no greater than `max`,
/// accepting an optional leading `+` as the standard library's integer
/// parser does.
pub fn parse_capped(s: &str, max: u64) -> (r: Option<u64>)
    ensures
        r matches Some(v) ==> parse_spec(s@, max as int) == Some(v as int),
        r is None ==> parse_spec(s@, max as int) is None,
{
    let n: usize = s.unicode_len();
    let mut start: usize = 0;
    if n > 0 && s.get_char(0) == '+' {
        start = 1;
    }
    proof {
        assert(digit_part(s@) =~= s@.skip(start as int));
    }
    if start == n {
        return None;
    }
    let ghost d = digit_part(s@);
    let mut acc: u64 = 0;
    let mut i: usize = start;
    while i < n
        invariant
            n == s@.len(),
            start <= i <= n,
            start < n,
            d == digit_part(s@),
            d =~= s@.skip(start as int),
            all_digits(s@.subrange(start as int, i as int)),
            acc as int == digits_value(s@.subrange(start as int, i as int)),
            acc <= max,
            max <= u64::MAX,
        decreases n - i,
    {
        let c: char = s.get_char(i);
        if !('0' <= c && c <= '9') {
            proof {
                assert(d[i - start] == c);
                assert(!all_digits(d));
            }
            return None;
        }
        let dv: u64 = (c as u64) - ('0' as u64);
        proof {
            assert(s@.subrange(start as int, i + 1).drop_last() =~= s@.subrange(
                start as int,
                i as int,
            ));
            lemma_digits_value_bounds(s@.subrange(start as int, i as int));
            vstd::arithmetic::div_mod::lemma_fundamental_div_mod(max as int, 10);
        }
        if acc > max / 10 || (acc == max / 10 && dv > max % 10) {
            proof {
                let g = s@.subrange(start as int, i + 1);
                assert(g.last() == c);
                assert(digits_value(g) == acc * 10 + dv);
                assert(digits_value(g) > max);
                if all_digits(d) {
                    assert(g =~= d.subrange(0, g.len() as int));
                    lemma_digits_prefix_monotone(d, g);
                    assert(d.subrange(0, d.len() as int) =~= d);
                    assert(digits_value(d) > max);
                }
            }
            return None;
        }
        acc = acc * 10 + dv;
        i = i + 1;
    }
    proof {
        assert(s@.subrange(start as int, n as int) =~= d);
    }
    Some(acc)
}

/// A longer digit string with a prefix denoting more than `max` denotes more
/// than `max` itself.
proof fn lemma_digits_prefix_monotone(d: Seq<char>, g: Seq<char>)
    requires
        all_digits(d),
        g.len() <= d.len(),
        g =~= d.subrange(0, g.len() as int),
        digits_value(g) > 0,
    ensures
        digits_value(d) >= digits_value(g),
    decreases d.len() - g.len(),
{
    if g.len() < d.len() {
        let g2 = d.subrange(0, g.len() as int + 1);
        assert(g2.drop_last() =~= g);
        assert(is_digit(d[g.len() as int]));
        assert(digits_value(g2) == digits_value(g) * 10 + digit_val(g2.last()));
        lemma_digits_prefix_monotone(d, g2);
    } else {
        assert(g =~= d);
    }
}

/// The decimal rendering of `n`, most significant digit first.
pub open spec fn dec_str(n: int) -> Seq<char>
    decreases n,
{
    if n < 10 {
        seq![(('0' as int + n) as char)]
    } else {
        dec_str(n / 10).push((('0' as int + n % 10) as char))
    }
}

/// Renders `n` in decimal.
pub fn u64_to_string(n: u64) -> (r: String)
    ensures
        r@ == dec_str(n as int),
    decreases n,
{
    if n < 10 {
        let mut s = String::new();
        let c: char = (('0' as u8) + (n as u8)) as char;
        push_char(&mut s, c);
        proof {
            assert(s@ =~= seq![(('0' as int + n) as char)]);
        }
        s
    } else {
        let mut s = u64_to_string(n / 10);
        let d: u8 = (n % 10) as u8;
        let c: char = (('0' as u8) + d) as char;
        push_char(&mut s, c);
        s
    }
}

/// Relies on `String::push`: appends the given character to the string.
#[verifier::external_body]
pub fn push_char(s: &mut String, c: char)
    ensures
        final(s)@ == old(s)@.push(c),
{
    s.push(c)
}

} // verus!
