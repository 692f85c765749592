//! Rendering numbers and dates as text.
use vstd::prelude::*;
use vstd::string::StringExecFns;
use crate::calendar::Date;

verus! {

pub open spec fn digit_char(d: int) -> char {
    if d == 0 { '0' } else if d == 1 { '1' } else if d == 2 { '2' } else if d == 3 { '3' }
    else if d == 4 { '4' } else if d == 5 { '5' } else if d == 6 { '6' } else if d == 7 { '7' }
    else if d == 8 { '8' } else { '9' }
}

/// The decimal digits of a natural number, without leading zeros.
pub open spec fn digits_text(n: nat) -> Seq<char>
    decreases n,
{
    if n < 10 {
        seq![digit_char(n as int)]
    } else {
        digits_text((n / 10) as nat) + seq![digit_char((n % 10) as int)]
    }
}

/// The decimal text of an integer, as Rust's `to_string` writes it: a minus sign for
/// a negative number, then the digits.
pub open spec fn decimal_text(n: int) -> Seq<char> {
    if n < 0 { seq!['-'] + digits_text((-n) as nat) } else { digits_text(n as nat) }
}

/// Relies on `i64::to_string` (through `Display`): the decimal text of `n`.
#[verifier::external_body]
pub(crate) fn int_text(n: i64) -> (r: String)
    ensures
        r@ == decimal_text(n as int),
{
    n.to_string()
}

pub open spec fn abs(v: int) -> int {
    if v < 0 { -v } else { v }
}

/// A count of hundredths shown with two decimals: `1234` reads `12.34`, `-5` reads `-0.05`.
pub open spec fn hundredths_text(v: int) -> Seq<char> {
    (if v < 0 { seq!['-'] } else { Seq::empty() })
        + decimal_text(abs(v) / 100) + seq!['.']
        + decimal_text(abs(v) % 100 / 10) + decimal_text(abs(v) % 10)
}

/// A count of hundredths rounded to tenths, a half rounding away from zero, and
/// shown with one decimal: `1234` reads `12.3`, `1235` reads `12.4`, `-5` reads `-0.1`.
/// A negative count keeps its sign even where it rounds to zero (`-4` reads `-0.0`).
pub open spec fn tenths_text(v: int) -> Seq<char> {
    let t = (abs(v) + 5) / 10;
    (if v < 0 { seq!['-'] } else { Seq::empty() })
        + decimal_text(t / 10) + seq!['.'] + decimal_text(t % 10)
}

/// A count of hundredths in its shortest form: the whole part, then a point and the
/// hundredths only where they are not zero, without a trailing zero: `10500` reads
/// `105`, `8750` reads `87.5`, `5` reads `0.05`.
pub open spec fn shortest_text(v: int) -> Seq<char> {
    let a = abs(v);
    (if v < 0 { seq!['-'] } else { Seq::empty() }) + decimal_text(a / 100)
        + if a % 100 == 0 {
            Seq::empty()
        } else if a % 10 == 0 {
            seq!['.'] + decimal_text(a % 100 / 10)
        } else {
            seq!['.'] + decimal_text(a % 100 / 10) + decimal_text(a % 10)
        }
}

/// The digits of `n`, padded with zeros in front to at least four.
pub open spec fn padded4(n: nat) -> Seq<char> {
    let t = digits_text(n);
    if t.len() < 4 { Seq::new((4 - t.len()) as nat, |_i: int| '0') + t } else { t }
}

/// A year as `chrono` writes it: four digits from 0 to 9999, else a sign and at least
/// four digits.
pub open spec fn year_text(y: int) -> Seq<char> {
    if 0 <= y <= 9999 {
        padded4(y as nat)
    } else if y < 0 {
        seq!['-'] + padded4((-y) as nat)
    } else {
        seq!['+'] + padded4(y as nat)
    }
}

/// A month or a day of the month, written with two digits.
pub open spec fn two_digit_text(n: int) -> Seq<char> {
    seq![digit_char(n / 10), digit_char(n % 10)]
}

/// A date written as year-month-day.
pub open spec fn date_text(d: Date) -> Seq<char> {
    year_text(d.year as int) + seq!['-'] + two_digit_text(d.month as int) + seq!['-']
        + two_digit_text(d.day as int)
}

/// Relies on `chrono`'s `Display` for `NaiveDate` (the date made by
/// `NaiveDate::from_ymd_opt`): the date's ISO 8601 text, for every real date in
/// `chrono`'s range.
#[verifier::external_body]
pub(crate) fn chrono_date_text(d: Date) -> (r: Option<String>)
    ensures
        r matches Some(t) ==> t@ == date_text(d),
        d.wf() && d.in_range() ==> r is Some,
{
    match chrono::NaiveDate::from_ymd_opt(d.year, d.month, d.day) {
        Some(x) => Some(x.to_string()),
        None => None,
    }
}

pub fn tenths(v: i64) -> (r: String)
    ensures
        r@ == tenths_text(v as int),
{
    let a: i128 = if v < 0 { -(v as i128) } else { v as i128 };
    let t: i128 = (a + 5) / 10;
    let mut s = if v < 0 {
        let m = String::from_str("-");
        proof { reveal_strlit("-"); }
        m
    } else {
        String::new()
    };
    let whole = int_text((t / 10) as i64);
    s.append(whole.as_str());
    let dot = ".";
    proof { reveal_strlit("."); }
    s.append(dot);
    let units = int_text((t % 10) as i64);
    s.append(units.as_str());
    proof {
        assert(abs(v as int) == a);
    }
    assert(s@ =~= tenths_text(v as int));
    s
}

pub fn shortest(v: i64) -> (r: String)
    ensures
        r@ == shortest_text(v as int),
{
    let a: i128 = if v < 0 { -(v as i128) } else { v as i128 };
    let mut s = if v < 0 {
        let m = String::from_str("-");
        proof { reveal_strlit("-"); }
        m
    } else {
        String::new()
    };
    let whole = int_text((a / 100) as i64);
    s.append(whole.as_str());
    let dot = ".";
    proof { reveal_strlit("."); }
    if a % 100 != 0 {
        s.append(dot);
        let tens = int_text((a % 100 / 10) as i64);
        s.append(tens.as_str());
        if a % 10 != 0 {
            let units = int_text((a % 10) as i64);
            s.append(units.as_str());
        }
    }
    proof {
        assert(abs(v as int) == a);
    }
    assert(s@ =~= shortest_text(v as int));
    s
}

pub fn hundredths(v: i64) -> (r: String)
    ensures
        r@ == hundredths_text(v as int),
{
    let a: i128 = if v < 0 { -(v as i128) } else { v as i128 };
    let mut s = if v < 0 {
        let m = String::from_str("-");
        proof { reveal_strlit("-"); }
        m
    } else {
        String::new()
    };
    let whole = int_text((a / 100) as i64);
    s.append(whole.as_str());
    let dot = ".";
    proof { reveal_strlit("."); }
    s.append(dot);
    let tens = int_text((a % 100 / 10) as i64);
    s.append(tens.as_str());
    let units = int_text((a % 10) as i64);
    s.append(units.as_str());
    proof {
        assert(abs(v as int) == a);
    }
    assert(s@ =~= hundredths_text(v as int));
    s
}

pub fn date_string(d: Date) -> (r: String)
    requires
        d.wf(),
        d.in_range(),
    ensures
        r@ == date_text(d),
{
    match chrono_date_text(d) {
        Some(t) => t,
        None => String::new(),
    }
}

} // verus!
