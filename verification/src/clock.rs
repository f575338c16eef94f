use vstd::prelude::*;

use chrono::Datelike;
use chrono::Timelike;

verus! {

/// The calendar fields of one UTC instant, second precision: what artifact
/// naming reads of the clock.
#[derive(Clone, Copy, PartialEq, Eq, Structural)]
pub struct DateParts {
    pub year: u16,
    pub month: u8,
    pub day: u8,
    pub hour: u8,
    pub minute: u8,
    pub second: u8,
}

impl DateParts {
    /// The ranges a calendar reading always satisfies.
    pub open spec fn wf(&self) -> bool {
        &&& 1 <= self.month <= 12
        &&& 1 <= self.day <= 31
        &&& self.hour <= 23
        &&& self.minute <= 59
        &&& self.second <= 59
    }
}

/// Relies on chrono's `Utc::now` together with its `Datelike` / `Timelike`
/// accessors, which document month in 1..=12, day in 1..=31, hour below 24,
/// and minute and second below 60. Returns `None` when the current year does
/// not fit a `u16`.
#[verifier::external_body]
pub(crate) fn now_parts() -> (r: Option<DateParts>)
    ensures
        r matches Some(p) ==> p.wf(),
{
    let now = chrono::Utc::now();
    let year = u16::try_from(now.year()).ok()?;
    Some(
        DateParts {
            year,
            month: now.month() as u8,
            day: now.day() as u8,
            hour: now.hour() as u8,
            minute: now.minute() as u8,
            second: now.second() as u8,
        },
    )
}

pub open spec fn digit_char(d: int) -> char {
    if d == 0 {
        '0'
    } else if d == 1 {
        '1'
    } else if d == 2 {
        '2'
    } else if d == 3 {
        '3'
    } else if d == 4 {
        '4'
    } else if d == 5 {
        '5'
    } else if d == 6 {
        '6'
    } else if d == 7 {
        '7'
    } else if d == 8 {
        '8'
    } else {
        '9'
    }
}

/// The decimal digits of a non-negative number, most significant first.
pub open spec fn dec_chars(n: int) -> Seq<char>
    decreases n,
{
    if n < 10 {
        seq![digit_char(n)]
    } else {
        dec_chars(n / 10) + seq![digit_char(n % 10)]
    }
}

/// Decimal digits zero-padded on the left to width two.
pub open spec fn pad2_chars(n: int) -> Seq<char> {
    if n < 10 {
        seq!['0'] + dec_chars(n)
    } else {
        dec_chars(n)
    }
}

/// Decimal digits zero-padded on the left to width four.
pub open spec fn pad4_chars(n: int) -> Seq<char> {
    if n < 10 {
        seq!['0', '0', '0'] + dec_chars(n)
    } else if n < 100 {
        seq!['0', '0'] + dec_chars(n)
    } else if n < 1000 {
        seq!['0'] + dec_chars(n)
    } else {
        dec_chars(n)
    }
}

/// The `YYYYMMDD_HHMMSS` rendering of one calendar reading: four-digit year
/// (more digits only for years past 9999), two digits for every other field,
/// one underscore between date and time.
pub open spec fn timestamp_chars(p: DateParts) -> Seq<char> {
    pad4_chars(p.year as int) + pad2_chars(p.month as int) + pad2_chars(p.day as int) + seq!['_']
        + pad2_chars(p.hour as int) + pad2_chars(p.minute as int) + pad2_chars(p.second as int)
}

fn digit_str(d: u64) -> (r: &'static str)
    requires
        d < 10,
    ensures
        r@ == seq![digit_char(d as int)],
{
    if d == 0 {
        let r = "0";
        proof {
            reveal_strlit("0");
            assert(r@ =~= seq![digit_char(d as int)]);
        }
        r
    } else if d == 1 {
        let r = "1";
        proof {
            reveal_strlit("1");
            assert(r@ =~= seq![digit_char(d as int)]);
        }
        r
    } else if d == 2 {
        let r = "2";
        proof {
            reveal_strlit("2");
            assert(r@ =~= seq![digit_char(d as int)]);
        }
        r
    } else if d == 3 {
        let r = "3";
        proof {
            reveal_strlit("3");
            assert(r@ =~= seq![digit_char(d as int)]);
        }
        r
    } else if d == 4 {
        let r = "4";
        proof {
            reveal_strlit("4");
            assert(r@ =~= seq![digit_char(d as int)]);
        }
        r
    } else if d == 5 {
        let r = "5";
        proof {
            reveal_strlit("5");
            assert(r@ =~= seq![digit_char(d as int)]);
        }
        r
    } else if d == 6 {
        let r = "6";
        proof {
            reveal_strlit("6");
            assert(r@ =~= seq![digit_char(d as int)]);
        }
        r
    } else if d == 7 {
        let r = "7";
        proof {
            reveal_strlit("7");
            assert(r@ =~= seq![digit_char(d as int)]);
        }
        r
    } else if d == 8 {
        let r = "8";
        proof {
            reveal_strlit("8");
            assert(r@ =~= seq![digit_char(d as int)]);
        }
        r
    } else {
        let r = "9";
        proof {
            reveal_strlit("9");
            assert(r@ =~= seq![digit_char(d as int)]);
        }
        r
    }
}

/// The decimal rendering of `n`, no padding.
pub fn u64_dec_string(n: u64) -> (r: String)
    ensures
        r@ == dec_chars(n as int),
    decreases n,
{
    if n < 10 {
        String::from_str(digit_str(n))
    } else {
        let mut s = u64_dec_string(n / 10);
        s.append(digit_str(n % 10));
        s
    }
}

fn pad2_string(n: u64) -> (r: String)
    ensures
        r@ == pad2_chars(n as int),
{
    if n < 10 {
        let mut s = String::from_str("0");
        proof {
            reveal_strlit("0");
        }
        s.append(u64_dec_string(n).as_str());
        proof {
            assert(s@ =~= pad2_chars(n as int));
        }
        s
    } else {
        u64_dec_string(n)
    }
}

fn pad4_string(n: u64) -> (r: String)
    ensures
        r@ == pad4_chars(n as int),
{
    if n < 10 {
        let mut s = String::from_str("000");
        proof {
            reveal_strlit("000");
        }
        s.append(u64_dec_string(n).as_str());
        proof {
            assert(s@ =~= pad4_chars(n as int));
        }
        s
    } else if n < 100 {
        let mut s = String::from_str("00");
        proof {
            reveal_strlit("00");
        }
        s.append(u64_dec_string(n).as_str());
        proof {
            assert(s@ =~= pad4_chars(n as int));
        }
        s
    } else if n < 1000 {
        let mut s = String::from_str("0");
        proof {
            reveal_strlit("0");
        }
        s.append(u64_dec_string(n).as_str());
        proof {
            assert(s@ =~= pad4_chars(n as int));
        }
        s
    } else {
        u64_dec_string(n)
    }
}

/// Render one calendar reading as the `YYYYMMDD_HHMMSS` stamp used in
/// artifact names.
pub fn format_timestamp(p: &DateParts) -> (r: String)
    ensures
        r@ == timestamp_chars(*p),
{
    let mut s = pad4_string(p.year as u64);
    s.append(pad2_string(p.month as u64).as_str());
    s.append(pad2_string(p.day as u64).as_str());
    s.append("_");
    s.append(pad2_string(p.hour as u64).as_str());
    s.append(pad2_string(p.minute as u64).as_str());
    s.append(pad2_string(p.second as u64).as_str());
    proof {
        reveal_strlit("_");
        assert(s@ =~= timestamp_chars(*p));
    }
    s
}

} // verus!
