//! A simple calendar date, rendered and parsed as `YYYY-MM-DD`. No
//! validity check is made beyond the numeric ranges of the fields.

use vstd::prelude::*;
use vstd::string::StringExecFns;
use crate::strings::{spec_decimal, u64_to_string};

verus! {

/// A date as a plain numeric triple.
#[derive(Debug, Clone, Copy, PartialEq, Eq, Structural)]
pub struct Date {
    pub year: u16,
    pub month: u8,
    pub day: u8,
}

impl DeepView for Date {
    type V = Date;

    open spec fn deep_view(&self) -> Date {
        *self
    }
}

impl Date {
    /// Constructs a date. The validity of the triple as a calendar date is
    /// not checked.
    pub fn new(year: u16, month: u8, day: u8) -> (r: Date)
        ensures
            r == (Date { year, month, day }),
    {
        Date { year, month, day }
    }

    pub fn year(&self) -> (r: u16)
        ensures
            r == self.year,
    {
        self.year
    }

    pub fn month(&self) -> (r: u8)
        ensures
            r == self.month,
    {
        self.month
    }

    pub fn day(&self) -> (r: u8)
        ensures
            r == self.day,
    {
        self.day
    }

    /// Renders the date as `Y-MM-DD`: the year without padding, month and
    /// day padded to two digits.
    pub fn render(&self) -> (r: String)
        ensures
            r@ == spec_render_date(*self),
    {
        proof {
            reveal_strlit("-");
        }
        let mut out = u64_to_string(self.year as u64);
        out.append("-");
        let m = two_digits(self.month);
        out.append(m.as_str());
        out.append("-");
        let d = two_digits(self.day);
        out.append(d.as_str());
        out
    }
}

/// The two-digit rendering of `n` when `n` is below one hundred, and the
/// plain decimal rendering otherwise.
pub open spec fn spec_two_digits(n: nat) -> Seq<char> {
    if n < 10 {
        seq!['0'] + spec_decimal(n)
    } else {
        spec_decimal(n)
    }
}

/// The `Y-MM-DD` rendering of a date.
pub open spec fn spec_render_date(d: Date) -> Seq<char> {
    spec_decimal(d.year as nat) + "-"@ + spec_two_digits(d.month as nat) + "-"@ + spec_two_digits(
        d.day as nat,
    )
}

/// Renders `n` padded with a leading zero below ten.
fn two_digits(n: u8) -> (r: String)
    ensures
        r@ == spec_two_digits(n as nat),
{
    proof {
        reveal_strlit("0");
    }
    if n < 10 {
        let mut out = "0".to_owned();
        let d = u64_to_string(n as u64);
        out.append(d.as_str());
        proof {
            assert(out@ =~= seq!['0'] + spec_decimal(n as nat));
            assert("0"@ =~= seq!['0']);
        }
        out
    } else {
        u64_to_string(n as u64)
    }
}

/// Whether `c` is a decimal digit.
pub open spec fn is_digit(c: char) -> bool {
    '0' <= c && c <= '9'
}

/// The numeric value of a digit character.
pub open spec fn digit_val(c: char) -> nat {
    (c as nat - '0' as nat) as nat
}

/// Whether `s` is one or more decimal digits.
pub open spec fn is_digits(s: Seq<char>) -> bool {
    s.len() > 0 && forall|i: int| 0 <= i < s.len() ==> is_digit(#[trigger] s[i])
}

/// The value of a digit string.
pub open spec fn digits_val(s: Seq<char>) -> nat
    decreases s.len(),
{
    if s.len() == 0 {
        0
    } else {
        digits_val(s.drop_last()) * 10 + digit_val(s.last())
    }
}

/// The position of the first `-` in `s`, if any.
pub open spec fn spec_find_dash(s: Seq<char>) -> Option<int>
    decreases s.len(),
{
    if s.len() == 0 {
        None
    } else if s[0] == '-' {
        Some(0)
    } else {
        match spec_find_dash(s.drop_first()) {
            Some(i) => Some(i + 1),
            None => None,
        }
    }
}

/// The result of parsing `s` as `YEAR-MONTH-DAY`: the text must split on
/// `-` into exactly three all-digit parts whose values fit the fields.
pub open spec fn spec_parse_date(s: Seq<char>) -> Option<Date> {
    match spec_find_dash(s) {
        None => None,
        Some(i) => {
            let year = s.take(i);
            let rest = s.skip(i + 1);
            match spec_find_dash(rest) {
                None => None,
                Some(j) => {
                    let month = rest.take(j);
                    let day = rest.skip(j + 1);
                    if spec_find_dash(day) is Some {
                        None
                    } else if is_digits(year) && digits_val(year) <= u16::MAX && is_digits(month)
                        && digits_val(month) <= u8::MAX && is_digits(day) && digits_val(day)
                        <= u8::MAX {
                        Some(
                            Date {
                                year: digits_val(year) as u16,
                                month: digits_val(month) as u8,
                                day: digits_val(day) as u8,
                            },
                        )
                    } else {
                        None
                    }
                },
            }
        },
    }
}

/// The value of a digit string is at least the value of any of its
/// prefixes.
proof fn lemma_digits_val_prefix(s: Seq<char>, i: int)
    requires
        0 <= i <= s.len(),
    ensures
        digits_val(s.take(i)) <= digits_val(s),
    decreases s.len() - i,
{
    if i < s.len() {
        lemma_digits_val_prefix(s, i + 1);
        assert(s.take(i + 1).drop_last() =~= s.take(i));
        assert(digits_val(s.take(i + 1)) == digits_val(s.take(i)) * 10 + digit_val(
            s.take(i + 1).last(),
        ));
    } else {
        assert(s.take(i) =~= s);
    }
}

/// Finds the first `-` at or after position `from`.
fn find_dash_from(s: &str, from: usize) -> (r: Option<usize>)
    requires
        from <= s@.len(),
    ensures
        match r {
            Some(i) => from <= i < s@.len() && spec_find_dash(s@.skip(from as int)) == Some(
                i - from,
            ),
            None => spec_find_dash(s@.skip(from as int)) is None,
        },
{
    let n = s.unicode_len();
    let mut i: usize = from;
    while i < n
        invariant
            from <= i <= n,
            n == s@.len(),
            spec_find_dash(s@.skip(from as int)) == (match spec_find_dash(s@.skip(i as int)) {
                Some(j) => Some(j + (i - from)),
                None => None::<int>,
            }),
        decreases n - i,
    {
        proof {
            assert(s@.skip(i as int)[0] == s@[i as int]);
            assert(s@.skip(i as int).drop_first() =~= s@.skip(i + 1));
        }
        if s.get_char(i) == '-' {
            return Some(i);
        }
        i += 1;
    }
    None
}

/// Parses `s@.subrange(from, to)` as an all-digit number of value at most
/// `max`.
fn parse_bounded_num(s: &str, from: usize, to: usize, max: u64) -> (r: Option<u64>)
    requires
        from <= to <= s@.len(),
        max <= u32::MAX,
    ensures
        ({
            let part = s@.subrange(from as int, to as int);
            match r {
                Some(v) => is_digits(part) && digits_val(part) == v && v <= max,
                None => !(is_digits(part) && digits_val(part) <= max),
            }
        }),
{
    let ghost part = s@.subrange(from as int, to as int);
    if from == to {
        proof {
            assert(part.len() == 0);
        }
        return None;
    }
    let mut acc: u64 = 0;
    let mut i: usize = from;
    while i < to
        invariant
            from <= i <= to <= s@.len(),
            max <= u32::MAX,
            part == s@.subrange(from as int, to as int),
            from < to,
            acc <= max,
            is_digits(part.take(i - from)) || i == from,
            acc == digits_val(part.take(i - from)),
        decreases to - i,
    {
        let c = s.get_char(i);
        proof {
            assert(part[i - from] == s@[i as int]);
            assert(part.take(i + 1 - from).drop_last() =~= part.take(i - from));
            assert(part.take(i + 1 - from).last() == part[i - from]);
        }
        if !('0' <= c && c <= '9') {
            proof {
                assert(!is_digits(part));
            }
            return None;
        }
        let d: u64 = (c as u32 - '0' as u32) as u64;
        proof {
            assert(d == digit_val(c));
        }
        let next = acc * 10 + d;
        if next > max {
            proof {
                assert(is_digits(part.take(i + 1 - from)));
                if is_digits(part) {
                    lemma_digits_val_prefix(part, i + 1 - from);
                }
            }
            return None;
        }
        acc = next;
        i += 1;
    }
    proof {
        assert(part.take(to - from) =~= part);
    }
    Some(acc)
}

/// Parses `YEAR-MONTH-DAY` with all-digit parts; the year must fit sixteen
/// bits, month and day eight.
pub fn parse_date(s: &str) -> (r: Option<Date>)
    ensures
        r == spec_parse_date(s@),
{
    let n = s.unicode_len();
    let i = match find_dash_from(s, 0) {
        Some(i) => i,
        None => {
            proof {
                assert(s@.skip(0) =~= s@);
            }
            return None;
        },
    };
    proof {
        assert(s@.skip(0) =~= s@);
        assert(s@.take(i as int) =~= s@.subrange(0, i as int));
    }
    let ghost rest = s@.skip(i + 1);
    let j = match find_dash_from(s, i + 1) {
        Some(j) => j,
        None => {
            return None;
        },
    };
    proof {
        assert(rest.take(j - i - 1) =~= s@.subrange(i + 1, j as int));
    }
    if let Some(_) = find_dash_from(s, j + 1) {
        proof {
            assert(rest.skip(j - i) =~= s@.skip(j + 1));
        }
        return None;
    }
    proof {
        assert(rest.skip(j - i) =~= s@.skip(j + 1));
        assert(rest.skip(j - i) =~= s@.subrange(j + 1, n as int));
    }
    let year = match parse_bounded_num(s, 0, i, 0xFFFF) {
        Some(v) => v,
        None => {
            return None;
        },
    };
    let month = match parse_bounded_num(s, i + 1, j, 0xFF) {
        Some(v) => v,
        None => {
            return None;
        },
    };
    let day = match parse_bounded_num(s, j + 1, n, 0xFF) {
        Some(v) => v,
        None => {
            return None;
        },
    };
    Some(Date { year: year as u16, month: month as u8, day: day as u8 })
}

} // verus!
