//! Timestamps as text: the pattern `YYYY-MM-DD HH:MM:SS`, in the local time
//! of an offset that the caller names.
//!
//! The pattern is this library's; the calendar is the `time` crate's.

use vstd::prelude::*;
use vstd::string::StrSliceExecFns;
use vstd::string::StringExecFns;
use crate::model::opt_text;
use crate::digits::{digit_char, digit_str, digit_value, lemma_digit_char};
use crate::number::{is_digit, is_digit_char};

verus! {

/// A date and a time of day, as a calendar shows them at some offset.
#[derive(Debug, Clone, Copy, PartialEq, Eq, Structural)]
pub struct Civil {
    pub year: i32,
    pub month: u8,
    pub day: u8,
    pub hour: u8,
    pub minute: u8,
    pub second: u8,
}

/// The fields of a calendar reading: year, month, day, hour, minute, second.
pub type Fields = (int, int, int, int, int, int);

/// The calendar fields (year, month, day, hour, minute, second) of the
/// instant `unix` seconds after the epoch, at `offset` seconds east of UTC;
/// `None` where the `time` crate has no such offset, instant or local date.
pub uninterp spec fn civil_at(unix: int, offset: int) -> Option<(int, int, int, int, int, int)>;

/// The instant, in seconds after the epoch, at which a calendar at `offset`
/// seconds east of UTC shows the given fields; `None` where the `time` crate
/// has no such date, time of day or offset.
pub uninterp spec fn instant_at(
    year: int,
    month: int,
    day: int,
    hour: int,
    minute: int,
    second: int,
    offset: int,
) -> Option<int>;

impl Civil {
    /// The fields as integers.
    pub open spec fn fields(&self) -> Fields {
        (
            self.year as int,
            self.month as int,
            self.day as int,
            self.hour as int,
            self.minute as int,
            self.second as int,
        )
    }

}

/// The instant at which a calendar at `offset` shows the fields `f`.
pub open spec fn instant_of_fields(f: Fields, offset: int) -> Option<int> {
    instant_at(f.0, f.1, f.2, f.3, f.4, f.5, offset)
}

/// The fields of an optional calendar reading.
pub open spec fn opt_fields(c: Option<Civil>) -> Option<Fields> {
    match c {
        Some(c) => Some(c.fields()),
        None => None,
    }
}

/// The value of an optional instant.
pub open spec fn opt_instant(t: Option<i64>) -> Option<int> {
    match t {
        Some(t) => Some(t as int),
        None => None,
    }
}

/// What the calendar shows at an instant. Calls `UtcOffset::from_whole_seconds`,
/// `OffsetDateTime::from_unix_timestamp` and `OffsetDateTime::checked_to_offset`
/// of the `time` crate and reads the six fields of the result. The contract
/// claims only that the result is a function of the two arguments.
#[verifier::external_body]
fn civil_of(unix: i64, offset: i32) -> (r: Option<Civil>)
    ensures
        opt_fields(r) == civil_at(unix as int, offset as int),
{
    let at = time::UtcOffset::from_whole_seconds(offset).ok()?;
    let t = time::OffsetDateTime::from_unix_timestamp(unix).ok()?.checked_to_offset(at)?;
    Some(
        Civil {
            year: t.year(),
            month: u8::from(t.month()),
            day: t.day(),
            hour: t.hour(),
            minute: t.minute(),
            second: t.second(),
        },
    )
}

/// The instant at which the calendar shows `civil`. Calls
/// `Date::from_calendar_date`, `Time::from_hms`, `UtcOffset::from_whole_seconds`,
/// `OffsetDateTime::new_in_offset` and `OffsetDateTime::unix_timestamp` of the
/// `time` crate. The contract claims only that the result is a function of
/// the arguments.
#[verifier::external_body]
fn instant_of(civil: Civil, offset: i32) -> (r: Option<i64>)
    ensures
        opt_instant(r) == instant_at(
            civil.year as int,
            civil.month as int,
            civil.day as int,
            civil.hour as int,
            civil.minute as int,
            civil.second as int,
            offset as int,
        ),
{
    let month = time::Month::try_from(civil.month).ok()?;
    let date = time::Date::from_calendar_date(civil.year, month, civil.day).ok()?;
    let time = time::Time::from_hms(civil.hour, civil.minute, civil.second).ok()?;
    let at = time::UtcOffset::from_whole_seconds(offset).ok()?;
    Some(time::OffsetDateTime::new_in_offset(date, time, at).unix_timestamp())
}

/// `n` as two digits.
pub open spec fn two_digits(n: int) -> Seq<char> {
    seq![digit_char(n / 10), digit_char(n % 10)]
}

/// `n` as four digits.
pub open spec fn four_digits(n: int) -> Seq<char> {
    seq![
        digit_char(n / 1000),
        digit_char(n / 100 % 10),
        digit_char(n / 10 % 10),
        digit_char(n % 10),
    ]
}

/// Whether the pattern can show the fields: the year has at most four digits
/// and no sign, and every other field at most two digits.
pub open spec fn renderable(f: Fields) -> bool {
    &&& 0 <= f.0 <= 9999
    &&& 0 <= f.1 <= 99
    &&& 0 <= f.2 <= 99
    &&& 0 <= f.3 <= 99
    &&& 0 <= f.4 <= 99
    &&& 0 <= f.5 <= 99
}

/// The fields in the pattern `YYYY-MM-DD HH:MM:SS`.
pub open spec fn stamp_text(f: Fields) -> Seq<char> {
    four_digits(f.0) + seq!['-'] + two_digits(f.1) + seq!['-'] + two_digits(f.2) + seq![' ']
        + two_digits(f.3) + seq![':'] + two_digits(f.4) + seq![':'] + two_digits(f.5)
}

/// Whether `k` is a place of the pattern that holds a digit.
pub open spec fn digit_place(k: int) -> bool {
    0 <= k < 19 && k != 4 && k != 7 && k != 10 && k != 13 && k != 16
}

/// Whether `s` has the shape of the pattern: nineteen characters, digits
/// where the pattern has letters, and the pattern's separators between them.
pub open spec fn stamp_shaped(s: Seq<char>) -> bool {
    &&& s.len() == 19
    &&& forall|k: int| digit_place(k) ==> is_digit(#[trigger] s[k])
    &&& s[4] == '-'
    &&& s[7] == '-'
    &&& s[10] == ' '
    &&& s[13] == ':'
    &&& s[16] == ':'
}

/// The number that the two digits at `i` denote.
pub open spec fn two_at(s: Seq<char>, i: int) -> int {
    digit_value(s[i]) * 10 + digit_value(s[i + 1])
}

/// The fields that a text of the pattern's shape denotes.
pub open spec fn stamp_fields(s: Seq<char>) -> Fields {
    (
        digit_value(s[0]) * 1000 + digit_value(s[1]) * 100 + digit_value(s[2]) * 10 + digit_value(
            s[3],
        ),
        two_at(s, 5),
        two_at(s, 8),
        two_at(s, 11),
        two_at(s, 14),
        two_at(s, 17),
    )
}

/// The fields that `s` denotes, if it has the pattern's shape.
pub open spec fn stamp_of_text(s: Seq<char>) -> Option<Fields> {
    if stamp_shaped(s) {
        Some(stamp_fields(s))
    } else {
        None
    }
}

/// The text of the instant `unix` in the local time of `offset`; `None`
/// where the calendar has no reading for it or the pattern cannot show it.
pub open spec fn timestamp_text(unix: int, offset: int) -> Option<Seq<char>> {
    match civil_at(unix, offset) {
        Some(f) => if renderable(f) {
            Some(stamp_text(f))
        } else {
            None
        },
        None => None,
    }
}

/// The instant that the text `s` denotes in the local time of `offset`;
/// `None` where `s` has not the pattern's shape or the calendar has no such
/// date or time of day.
pub open spec fn timestamp_of_text(s: Seq<char>, offset: int) -> Option<int> {
    match stamp_of_text(s) {
        Some(f) => instant_of_fields(f, offset),
        None => None,
    }
}

/// The characters of the text of the fields, place by place.
pub proof fn lemma_stamp_text_chars(f: Fields)
    ensures
        stamp_text(f).len() == 19,
        stamp_text(f)[0] == digit_char(f.0 / 1000),
        stamp_text(f)[1] == digit_char(f.0 / 100 % 10),
        stamp_text(f)[2] == digit_char(f.0 / 10 % 10),
        stamp_text(f)[3] == digit_char(f.0 % 10),
        stamp_text(f)[4] == '-',
        stamp_text(f)[5] == digit_char(f.1 / 10),
        stamp_text(f)[6] == digit_char(f.1 % 10),
        stamp_text(f)[7] == '-',
        stamp_text(f)[8] == digit_char(f.2 / 10),
        stamp_text(f)[9] == digit_char(f.2 % 10),
        stamp_text(f)[10] == ' ',
        stamp_text(f)[11] == digit_char(f.3 / 10),
        stamp_text(f)[12] == digit_char(f.3 % 10),
        stamp_text(f)[13] == ':',
        stamp_text(f)[14] == digit_char(f.4 / 10),
        stamp_text(f)[15] == digit_char(f.4 % 10),
        stamp_text(f)[16] == ':',
        stamp_text(f)[17] == digit_char(f.5 / 10),
        stamp_text(f)[18] == digit_char(f.5 % 10),
{
}

/// The digits of a number of at most two digits.
proof fn lemma_two(n: int)
    requires
        0 <= n <= 99,
    ensures
        0 <= n / 10 <= 9,
        0 <= n % 10 <= 9,
        (n / 10) * 10 + n % 10 == n,
{
}

/// The digits of a number of at most four digits.
proof fn lemma_four(n: int)
    requires
        0 <= n <= 9999,
    ensures
        0 <= n / 1000 <= 9,
        0 <= n / 100 % 10 <= 9,
        0 <= n / 10 % 10 <= 9,
        0 <= n % 10 <= 9,
        (n / 1000) * 1000 + (n / 100 % 10) * 100 + (n / 10 % 10) * 10 + n % 10 == n,
{
    let m: u32 = n as u32;
    assert(m / 1000 <= 9 && m / 100 % 10 <= 9 && m / 10 % 10 <= 9 && m % 10 <= 9 && (m / 1000)
        * 1000 + (m / 100 % 10) * 100 + (m / 10 % 10) * 10 + m % 10 == m) by (bit_vector)
        requires
            m <= 9999,
    ;
}

/// The digit characters of the text of the fields, and what they stand for.
#[verifier::rlimit(40)]
proof fn lemma_stamp_digits(f: Fields)
    requires
        renderable(f),
    ensures
        is_digit(digit_char(f.0 / 1000)) && digit_value(digit_char(f.0 / 1000)) == f.0 / 1000,
        is_digit(digit_char(f.0 / 100 % 10)) && digit_value(digit_char(f.0 / 100 % 10)) == f.0
            / 100 % 10,
        is_digit(digit_char(f.0 / 10 % 10)) && digit_value(digit_char(f.0 / 10 % 10)) == f.0 / 10
            % 10,
        is_digit(digit_char(f.0 % 10)) && digit_value(digit_char(f.0 % 10)) == f.0 % 10,
        is_digit(digit_char(f.1 / 10)) && digit_value(digit_char(f.1 / 10)) == f.1 / 10,
        is_digit(digit_char(f.1 % 10)) && digit_value(digit_char(f.1 % 10)) == f.1 % 10,
        is_digit(digit_char(f.2 / 10)) && digit_value(digit_char(f.2 / 10)) == f.2 / 10,
        is_digit(digit_char(f.2 % 10)) && digit_value(digit_char(f.2 % 10)) == f.2 % 10,
        is_digit(digit_char(f.3 / 10)) && digit_value(digit_char(f.3 / 10)) == f.3 / 10,
        is_digit(digit_char(f.3 % 10)) && digit_value(digit_char(f.3 % 10)) == f.3 % 10,
        is_digit(digit_char(f.4 / 10)) && digit_value(digit_char(f.4 / 10)) == f.4 / 10,
        is_digit(digit_char(f.4 % 10)) && digit_value(digit_char(f.4 % 10)) == f.4 % 10,
        is_digit(digit_char(f.5 / 10)) && digit_value(digit_char(f.5 / 10)) == f.5 / 10,
        is_digit(digit_char(f.5 % 10)) && digit_value(digit_char(f.5 % 10)) == f.5 % 10,
{
    lemma_four(f.0);
    lemma_two(f.1);
    lemma_two(f.2);
    lemma_two(f.3);
    lemma_two(f.4);
    lemma_two(f.5);
    lemma_digit_char(f.0 / 1000);
    lemma_digit_char(f.0 / 100 % 10);
    lemma_digit_char(f.0 / 10 % 10);
    lemma_digit_char(f.0 % 10);
    lemma_digit_char(f.1 / 10);
    lemma_digit_char(f.1 % 10);
    lemma_digit_char(f.2 / 10);
    lemma_digit_char(f.2 % 10);
    lemma_digit_char(f.3 / 10);
    lemma_digit_char(f.3 % 10);
    lemma_digit_char(f.4 / 10);
    lemma_digit_char(f.4 % 10);
    lemma_digit_char(f.5 / 10);
    lemma_digit_char(f.5 % 10);
}

/// The text of the fields has the pattern's shape, and holds neither a tab
/// nor a line break.
#[verifier::rlimit(40)]
pub proof fn lemma_stamp_text_shape(f: Fields)
    requires
        renderable(f),
    ensures
        stamp_text(f).len() == 19,
        stamp_shaped(stamp_text(f)),
        forall|k: int|
            0 <= k < 19 ==> (#[trigger] stamp_text(f)[k]) != '\t' && stamp_text(f)[k] != '\n',
{
    let s = stamp_text(f);
    lemma_stamp_text_chars(f);
    lemma_stamp_digits(f);
    assert forall|k: int| digit_place(k) implies is_digit(#[trigger] s[k]) by {}
    assert forall|k: int| 0 <= k < 19 implies (#[trigger] s[k]) != '\t' && s[k] != '\n' by {
        if digit_place(k) {
            assert(is_digit(s[k]));
        }
    }
}

/// Reading the text of the fields gives the fields back.
#[verifier::rlimit(40)]
pub proof fn stamp_text_round_trip(f: Fields)
    requires
        renderable(f),
    ensures
        stamp_of_text(stamp_text(f)) == Some(f),
{
    let s = stamp_text(f);
    lemma_stamp_text_shape(f);
    lemma_stamp_text_chars(f);
    lemma_stamp_digits(f);
    lemma_four(f.0);
    lemma_two(f.1);
    lemma_two(f.2);
    lemma_two(f.3);
    lemma_two(f.4);
    lemma_two(f.5);
    let g = stamp_fields(s);
    assert(g.0 == f.0);
    assert(g.1 == f.1);
    assert(g.2 == f.2);
    assert(g.3 == f.3);
    assert(g.4 == f.4);
    assert(g.5 == f.5);
}

/// Appends `n` as two digits.
fn push_two(out: &mut String, n: u8)
    requires
        n <= 99,
    ensures
        final(out)@ == old(out)@ + two_digits(n as int),
{
    out.append(digit_str(n / 10));
    out.append(digit_str(n % 10));
    proof {
        assert(final(out)@ =~= old(out)@ + two_digits(n as int));
    }
}

/// Appends `n` as four digits.
fn push_four(out: &mut String, n: u16)
    requires
        n <= 9999,
    ensures
        final(out)@ == old(out)@ + four_digits(n as int),
{
    let thousands: u8 = (n / 1000) as u8;
    let hundreds: u8 = (n / 100 % 10) as u8;
    let tens: u8 = (n / 10 % 10) as u8;
    let units: u8 = (n % 10) as u8;
    out.append(digit_str(thousands));
    out.append(digit_str(hundreds));
    out.append(digit_str(tens));
    out.append(digit_str(units));
    proof {
        assert(final(out)@ =~= old(out)@ + four_digits(n as int));
    }
}

/// The fields in the pattern `YYYY-MM-DD HH:MM:SS`, or `None` where the
/// pattern cannot show them.
#[verifier::rlimit(40)]
pub fn render_stamp(c: Civil) -> (r: Option<String>)
    ensures
        match r {
            Some(t) => renderable(c.fields()) && t@ == stamp_text(c.fields()),
            None => !renderable(c.fields()),
        },
{
    if c.year < 0 || c.year > 9999 || c.month > 99 || c.day > 99 || c.hour > 99 || c.minute > 99
        || c.second > 99 {
        return None;
    }
    proof {
        reveal_strlit("-");
        reveal_strlit(" ");
        reveal_strlit(":");
        assert("-"@ =~= seq!['-']);
        assert(" "@ =~= seq![' ']);
        assert(":"@ =~= seq![':']);
    }
    let mut out = String::new();
    push_four(&mut out, c.year as u16);
    out.append("-");
    push_two(&mut out, c.month);
    out.append("-");
    push_two(&mut out, c.day);
    out.append(" ");
    push_two(&mut out, c.hour);
    out.append(":");
    push_two(&mut out, c.minute);
    out.append(":");
    push_two(&mut out, c.second);
    proof {
        assert(out@ =~= stamp_text(c.fields()));
    }
    Some(out)
}

/// The digit at `i`.
fn digit_at(s: &str, i: usize) -> (d: u8)
    requires
        i < s@.len(),
        is_digit(s@[i as int]),
    ensures
        d == digit_value(s@[i as int]),
        d <= 9,
{
    let c = s.get_char(i);
    let u: u32 = c as u32;
    (u - 0x30) as u8
}

/// The fields that `s` denotes, if it has the pattern's shape.
#[verifier::rlimit(40)]
pub fn parse_stamp(s: &str) -> (r: Option<Civil>)
    ensures
        opt_fields(r) == stamp_of_text(s@),
{
    let n: usize = s.unicode_len();
    if n != 19 {
        return None;
    }
    let mut k: usize = 0;
    while k < 19
        invariant
            s@.len() == 19,
            0 <= k <= 19,
            forall|q: int| 0 <= q < k && digit_place(q) ==> is_digit(#[trigger] s@[q]),
            k > 4 ==> s@[4] == '-',
            k > 7 ==> s@[7] == '-',
            k > 10 ==> s@[10] == ' ',
            k > 13 ==> s@[13] == ':',
            k > 16 ==> s@[16] == ':',
        decreases 19 - k,
    {
        let c = s.get_char(k);
        let fits = if k == 4 || k == 7 {
            c == '-'
        } else if k == 10 {
            c == ' '
        } else if k == 13 || k == 16 {
            c == ':'
        } else {
            is_digit_char(c)
        };
        if !fits {
            proof {
                if digit_place(k as int) {
                    assert(!is_digit(s@[k as int]));
                }
                assert(!stamp_shaped(s@));
            }
            return None;
        }
        k = k + 1;
    }
    assert(stamp_shaped(s@));
    let y0: i32 = digit_at(s, 0) as i32;
    let y1: i32 = digit_at(s, 1) as i32;
    let y2: i32 = digit_at(s, 2) as i32;
    let y3: i32 = digit_at(s, 3) as i32;
    let year: i32 = y0 * 1000 + y1 * 100 + y2 * 10 + y3;
    let month: u8 = digit_at(s, 5) * 10 + digit_at(s, 6);
    let day: u8 = digit_at(s, 8) * 10 + digit_at(s, 9);
    let hour: u8 = digit_at(s, 11) * 10 + digit_at(s, 12);
    let minute: u8 = digit_at(s, 14) * 10 + digit_at(s, 15);
    let second: u8 = digit_at(s, 17) * 10 + digit_at(s, 18);
    Some(Civil { year, month, day, hour, minute, second })
}

/// The text of the instant `unix` seconds after the epoch, in the local time
/// of `offset` seconds east of UTC and in the pattern `YYYY-MM-DD HH:MM:SS`.
pub fn format_timestamp(unix: i64, offset: i32) -> (r: Option<String>)
    ensures
        opt_text(r) == timestamp_text(unix as int, offset as int),
{
    match civil_of(unix, offset) {
        Some(c) => render_stamp(c),
        None => None,
    }
}

/// The instant that `input` denotes in the local time of `offset` seconds
/// east of UTC, in seconds after the epoch.
pub fn parse_timestamp(input: &str, offset: i32) -> (r: Option<i64>)
    ensures
        opt_instant(r) == timestamp_of_text(input@, offset as int),
{
    match parse_stamp(input) {
        Some(c) => instant_of(c, offset),
        None => None,
    }
}

/// Whether two instants fall on the same day, the first on the calendar of
/// UTC and the second on the calendar at `offset`: both have a reading, and
/// the readings agree in year, month and day.
pub open spec fn same_day(first: int, second: int, offset: int) -> bool {
    match (civil_at(first, 0), civil_at(second, offset)) {
        (Some(a), Some(b)) => a.0 == b.0 && a.1 == b.1 && a.2 == b.2,
        _ => false,
    }
}

/// Whether the last datapoint of a goal, entered at `lastday`, was entered
/// on the day that it is at `now` in the local time of `offset`. The day of
/// the datapoint is read on the calendar of UTC, as the remote store gives it.
pub fn has_entry_today(lastday: i64, now: i64, offset: i32) -> (r: bool)
    ensures
        r == same_day(lastday as int, now as int, offset as int),
{
    match civil_of(lastday, 0) {
        Some(a) => match civil_of(now, offset) {
            Some(b) => a.year == b.year && a.month == b.month && a.day == b.day,
            None => false,
        },
        None => false,
    }
}

/// Whether the calendar has a reading for the instant `unix` seconds after
/// the epoch.
pub fn is_timestamp(unix: i64) -> (r: bool)
    ensures
        r == (civil_at(unix as int, 0) is Some),
{
    civil_of(unix, 0).is_some()
}

} // verus!
