use vstd::prelude::*;

verus! {

/// The value of one decimal digit character, `-1` for anything else.
pub open spec fn digit_value(c: char) -> int {
    if c == '0' {
        0
    } else if c == '1' {
        1
    } else if c == '2' {
        2
    } else if c == '3' {
        3
    } else if c == '4' {
        4
    } else if c == '5' {
        5
    } else if c == '6' {
        6
    } else if c == '7' {
        7
    } else if c == '8' {
        8
    } else if c == '9' {
        9
    } else {
        -1
    }
}

pub open spec fn is_digit_char(c: char) -> bool {
    digit_value(c) >= 0
}

pub open spec fn all_digits(s: Seq<char>) -> bool {
    forall|i: int| 0 <= i < s.len() ==> is_digit_char(#[trigger] s[i])
}

/// The number a run of decimal digits denotes, most significant first.
pub open spec fn digits_value(s: Seq<char>) -> int
    decreases s.len(),
{
    if s.len() == 0 {
        0
    } else {
        digits_value(s.drop_last()) * 10 + digit_value(s.last())
    }
}

/// The digit run of an unsigned decimal rendering: everything after one
/// optional leading plus sign.
pub open spec fn unsigned_body(s: Seq<char>) -> Seq<char> {
    if s.len() > 0 && s[0] == '+' {
        s.drop_first()
    } else {
        s
    }
}

/// Whether `s` is the decimal rendering of an unsigned number no greater
/// than `max`: a non-empty digit run after the optional sign, denoting a
/// value within the bound.
pub open spec fn parses_as_unsigned(s: Seq<char>, max: int) -> bool {
    &&& unsigned_body(s).len() > 0
    &&& all_digits(unsigned_body(s))
    &&& digits_value(unsigned_body(s)) <= max
}

pub proof fn lemma_digits_value_nonneg(s: Seq<char>)
    requires
        all_digits(s),
    ensures
        digits_value(s) >= 0,
    decreases s.len(),
{
    if s.len() > 0 {
        assert(forall|i: int|
            0 <= i < s.drop_last().len() ==> is_digit_char(#[trigger] s.drop_last()[i]));
        lemma_digits_value_nonneg(s.drop_last());
    }
}

/// A digit run denotes at least as much as any of its prefixes.
pub proof fn lemma_digits_prefix_le(s: Seq<char>, i: int)
    requires
        all_digits(s),
        0 <= i <= s.len(),
    ensures
        digits_value(s.take(i)) <= digits_value(s),
    decreases s.len() - i,
{
    if i < s.len() {
        assert(s.take(i + 1).drop_last() =~= s.take(i));
        assert(forall|j: int| 0 <= j < i ==> is_digit_char(#[trigger] s.take(i)[j]));
        lemma_digits_value_nonneg(s.take(i));
        assert(digits_value(s.take(i + 1)) == digits_value(s.take(i)) * 10 + digit_value(s[i]));
        assert(digits_value(s.take(i)) <= digits_value(s.take(i + 1)));
        lemma_digits_prefix_le(s, i + 1);
        assert(s.take(s.len() as int) =~= s);
    } else {
        assert(s.take(i) =~= s);
    }
}

fn digit_of_char(c: char) -> (r: Option<u8>)
    ensures
        r matches Some(d) ==> d == digit_value(c) && is_digit_char(c),
        r is None ==> !is_digit_char(c),
{
    match c {
        '0' => Some(0),
        '1' => Some(1),
        '2' => Some(2),
        '3' => Some(3),
        '4' => Some(4),
        '5' => Some(5),
        '6' => Some(6),
        '7' => Some(7),
        '8' => Some(8),
        '9' => Some(9),
        _ => None,
    }
}

/// Parse an unsigned decimal rendering (optional leading plus sign) into a
/// number, rejecting anything over `max`. `Some` exactly on the renderings
/// `parses_as_unsigned` admits, with the denoted value.
pub fn parse_unsigned(s: &str, max: u64) -> (r: Option<u64>)
    ensures
        r matches Some(v) ==> parses_as_unsigned(s@, max as int) && v == digits_value(
            unsigned_body(s@),
        ) && v <= max,
        r is None ==> !parses_as_unsigned(s@, max as int),
{
    let n = s.unicode_len();
    let start: usize = if n > 0 && s.get_char(0) == '+' {
        1
    } else {
        0
    };
    let ghost t = unsigned_body(s@);
    proof {
        assert(t =~= s@.skip(start as int));
    }
    if n == start {
        return None;
    }
    let mut acc: u64 = 0;
    let mut i: usize = start;
    while i < n
        invariant
            n == s@.len(),
            start <= i <= n,
            start < n,
            t == unsigned_body(s@),
            t == s@.skip(start as int),
            acc == digits_value(t.take(i - start)),
            acc <= max,
            all_digits(t.take(i - start)),
        decreases n - i,
    {
        let ghost j = i - start;
        let c = s.get_char(i);
        proof {
            assert(t[j] == s@[i as int]);
        }
        let d = match digit_of_char(c) {
            Some(d) => d,
            None => {
                proof {
                    assert(!is_digit_char(t[j]));
                    assert(!all_digits(t)) by {
                        if all_digits(t) {
                            assert(is_digit_char(t[j]));
                        }
                    }
                }
                return None;
            },
        };
        proof {
            assert(t.take(j + 1).drop_last() =~= t.take(j));
            assert(t.take(j + 1).last() == t[j]);
            assert(forall|k: int| 0 <= k < j + 1 ==> is_digit_char(#[trigger] t.take(j + 1)[k]));
        }
        let wide = match acc.checked_mul(10) {
            Some(x) => x.checked_add(d as u64),
            None => None,
        };
        let next = match wide {
            Some(x) => x,
            None => {
                proof {
                    assert(digits_value(t.take(j)) * 10 + digit_value(t[j]) > max as int);
                    lemma_digits_overflow(t, j, max as int);
                    assert(!parses_as_unsigned(s@, max as int));
                }
                return None;
            },
        };
        if next > max {
            proof {
                assert(next == digits_value(t.take(j)) * 10 + digit_value(t[j]));
                lemma_digits_overflow(t, j, max as int);
                assert(!parses_as_unsigned(s@, max as int));
            }
            return None;
        }
        acc = next;
        i = i + 1;
    }
    proof {
        assert(t.take(n - start) =~= t);
    }
    Some(acc)
}

/// Once some prefix of the digit run already denotes more than `max`, the
/// whole run does, so the rendering is out of bounds.
proof fn lemma_digits_overflow(t: Seq<char>, j: int, max: int)
    requires
        0 <= j < t.len(),
        all_digits(t.take(j)),
        is_digit_char(t[j]),
        digits_value(t.take(j)) * 10 + digit_value(t[j]) > max,
    ensures
        all_digits(t) ==> digits_value(t) > max,
{
    if all_digits(t) {
        assert(t.take(j + 1).drop_last() =~= t.take(j));
        assert(t.take(j + 1).last() == t[j]);
        assert(digits_value(t.take(j + 1)) == digits_value(t.take(j)) * 10 + digit_value(t[j]));
        lemma_digits_prefix_le(t, j + 1);
    }
}

/// Parse a port number: an unsigned decimal rendering fitting a `u16`.
pub fn parse_u16(s: &str) -> (r: Option<u16>)
    ensures
        r matches Some(v) ==> parses_as_unsigned(s@, u16::MAX as int) && v == digits_value(
            unsigned_body(s@),
        ),
        r is None ==> !parses_as_unsigned(s@, u16::MAX as int),
{
    match parse_unsigned(s, 65535) {
        Some(v) => Some(v as u16),
        None => None,
    }
}

/// Parse a count: an unsigned decimal rendering fitting a `usize`.
pub fn parse_usize(s: &str) -> (r: Option<usize>)
    ensures
        r matches Some(v) ==> parses_as_unsigned(s@, usize::MAX as int) && v == digits_value(
            unsigned_body(s@),
        ),
        r is None ==> !parses_as_unsigned(s@, usize::MAX as int),
{
    match parse_unsigned(s, usize::MAX as u64) {
        Some(v) => Some(v as usize),
        None => None,
    }
}

} // verus!
