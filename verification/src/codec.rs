//! The text form of a goal's datapoints: a header line, then one line for
//! each datapoint, its fields parted by tabs in the order timestamp, value,
//! comment, identity.
//!
//! Timestamps are written in the local time of an offset that the caller
//! names, and read back in the offset that the caller names then. Tabs and
//! line breaks in a comment are not escaped.

use vstd::prelude::*;
use vstd::string::StrSliceExecFns;
use vstd::string::StringExecFns;
use crate::bulk::{edited_view, EditableDatapoint, EditedView};
use crate::digits::{decimal, decimal_text};
use crate::model::{comment_text, opt_text, records_view, Datapoint, DatapointView, Measurement};
use crate::number::{is_number_char, is_number_text, number_text_chars};
use crate::stamp::{
    civil_at, format_timestamp, instant_of_fields, lemma_stamp_text_shape, parse_timestamp,
    renderable, stamp_text_round_trip, timestamp_of_text, timestamp_text,
};

verus! {

/// The first index at or after `i` that holds `c`, or the length of `s`.
pub open spec fn find_from(s: Seq<char>, c: char, i: int) -> int
    decreases s.len() - i,
{
    if 0 <= i < s.len() && s[i] != c {
        find_from(s, c, i + 1)
    } else {
        i
    }
}

/// The pieces of `s` between the occurrences of `c`: one more than there
/// are occurrences.
pub open spec fn split_on(s: Seq<char>, c: char) -> Seq<Seq<char>>
    decreases s.len(),
{
    let e = find_from(s, c, 0);
    if 0 <= e < s.len() {
        seq![s.take(e)] + split_on(s.skip(e + 1), c)
    } else {
        seq![s]
    }
}

/// `s` without a carriage return at its end.
pub open spec fn without_cr(s: Seq<char>) -> Seq<char> {
    if s.len() > 0 && s.last() == '\r' {
        s.drop_last()
    } else {
        s
    }
}

/// The lines of a text. A line ends with a line feed, or with a carriage
/// return and a line feed, which are no part of it; what follows the last
/// line feed is a line too, unless it is empty.
pub open spec fn lines_of(s: Seq<char>) -> Seq<Seq<char>>
    decreases s.len(),
{
    if s.len() == 0 {
        Seq::<Seq<char>>::empty()
    } else {
        let e = find_from(s, '\n', 0);
        if 0 <= e < s.len() {
            seq![without_cr(s.take(e))] + lines_of(s.skip(e + 1))
        } else {
            seq![s]
        }
    }
}

/// The fields of a line: its pieces between tabs.
pub open spec fn fields_of(line: Seq<char>) -> Seq<Seq<char>> {
    split_on(line, '\t')
}

/// Where [`find_from`] ends.
pub proof fn lemma_find_from(s: Seq<char>, c: char, i: int)
    requires
        0 <= i <= s.len(),
    ensures
        i <= find_from(s, c, i) <= s.len(),
        forall|k: int| i <= k < find_from(s, c, i) ==> #[trigger] s[k] != c,
        find_from(s, c, i) < s.len() ==> s[find_from(s, c, i)] == c,
    decreases s.len() - i,
{
    if i < s.len() && s[i] != c {
        lemma_find_from(s, c, i + 1);
    }
}

/// Searching a text from `i` is searching what is left of it after `i`.
pub proof fn lemma_find_skip(s: Seq<char>, c: char, i: int, k: int)
    requires
        0 <= i,
        0 <= k,
        i + k <= s.len(),
    ensures
        find_from(s.skip(i), c, k) + i == find_from(s, c, i + k),
    decreases s.len() - i - k,
{
    if i + k < s.len() && s[i + k] != c {
        assert(s.skip(i)[k] == s[i + k]);
        lemma_find_skip(s, c, i, k + 1);
    } else if i + k < s.len() {
        assert(s.skip(i)[k] == s[i + k]);
    }
}

/// The first index at or after `from` that holds `c`, or the length of `s`.
fn find_char(s: &str, n: usize, c: char, from: usize) -> (e: usize)
    requires
        n == s@.len(),
        from <= n,
    ensures
        e == find_from(s@, c, from as int),
        from <= e <= n,
{
    let mut e: usize = from;
    while e < n && s.get_char(e) != c
        invariant
            n == s@.len(),
            from <= e <= n,
            find_from(s@, c, from as int) == find_from(s@, c, e as int),
        decreases n - e,
    {
        e = e + 1;
    }
    e
}

/// The views of a sequence of strings.
pub open spec fn texts(v: Seq<String>) -> Seq<Seq<char>> {
    v.map_values(|s: String| s@)
}

/// The pieces of `s` between the occurrences of `c`.
#[verifier::rlimit(40)]
pub fn split_text(s: &str, c: char) -> (pieces: Vec<String>)
    ensures
        texts(pieces@) == split_on(s@, c),
{
    let n: usize = s.unicode_len();
    let mut pieces: Vec<String> = Vec::new();
    let mut i: usize = 0;
    let mut open: bool = true;
    proof {
        assert(s@.skip(0) =~= s@);
        assert(texts(pieces@) + split_on(s@.skip(0), c) =~= split_on(s@, c));
    }
    while open
        invariant
            n == s@.len(),
            0 <= i <= n,
            open ==> texts(pieces@) + split_on(s@.skip(i as int), c) == split_on(s@, c),
            !open ==> texts(pieces@) == split_on(s@, c),
        decreases n - i + if open { 1int } else { 0int },
    {
        let e = find_char(s, n, c, i);
        let ghost rest = s@.skip(i as int);
        let ghost before = pieces@;
        proof {
            lemma_find_skip(s@, c, i as int, 0);
            assert(find_from(rest, c, 0) == e - i);
        }
        pieces.push(String::from_str(s.substring_char(i, e)));
        proof {
            assert(s@.subrange(i as int, e as int) =~= rest.take(e - i));
            assert(texts(pieces@) =~= texts(before).push(rest.take(e - i)));
        }
        if e < n {
            proof {
                assert(rest.skip(e - i + 1) =~= s@.skip(e as int + 1));
                assert(texts(pieces@) + split_on(s@.skip(e as int + 1), c) =~= texts(before)
                    + split_on(rest, c));
            }
            i = e + 1;
        } else {
            proof {
                assert(rest.take(e - i) =~= rest);
                assert(texts(pieces@) =~= texts(before) + split_on(rest, c));
            }
            open = false;
        }
    }
    pieces
}

/// The lines of a text.
#[verifier::rlimit(40)]
pub fn split_lines(s: &str) -> (lines: Vec<String>)
    ensures
        texts(lines@) == lines_of(s@),
{
    let n: usize = s.unicode_len();
    let mut lines: Vec<String> = Vec::new();
    let mut i: usize = 0;
    proof {
        assert(s@.skip(0) =~= s@);
        assert(texts(lines@) + lines_of(s@.skip(0)) =~= lines_of(s@));
    }
    while i < n
        invariant
            n == s@.len(),
            0 <= i <= n,
            texts(lines@) + lines_of(s@.skip(i as int)) == lines_of(s@),
        decreases n - i,
    {
        let e = find_char(s, n, '\n', i);
        let ghost rest = s@.skip(i as int);
        let ghost before = lines@;
        proof {
            lemma_find_skip(s@, '\n', i as int, 0);
            assert(find_from(rest, '\n', 0) == e - i);
            assert(s@.subrange(i as int, e as int) =~= rest.take(e - i));
        }
        if e < n {
            let cut = if e > i && s.get_char(e - 1) == '\r' {
                e - 1
            } else {
                e
            };
            proof {
                if e > i {
                    assert(rest.take(e - i).last() == s@[e as int - 1]);
                }
                assert(s@.subrange(i as int, cut as int) =~= without_cr(rest.take(e - i)));
            }
            lines.push(String::from_str(s.substring_char(i, cut)));
            proof {
                assert(rest.skip(e - i + 1) =~= s@.skip(e as int + 1));
                assert(texts(lines@) =~= texts(before).push(without_cr(rest.take(e - i))));
                assert(texts(lines@) + lines_of(s@.skip(e as int + 1)) =~= texts(before)
                    + lines_of(rest));
            }
            i = e + 1;
        } else {
            lines.push(String::from_str(s.substring_char(i, n)));
            proof {
                assert(rest.take(e - i) =~= rest);
                assert(s@.skip(n as int) =~= Seq::<char>::empty());
                assert(texts(lines@) =~= texts(before).push(rest));
                assert(texts(lines@) + lines_of(s@.skip(n as int)) =~= texts(before) + lines_of(
                    rest,
                ));
            }
            i = n;
        }
    }
    proof {
        assert(s@.skip(n as int) =~= Seq::<char>::empty());
        assert(texts(lines@) + lines_of(s@.skip(n as int)) =~= texts(lines@));
    }
    lines
}

/// Why a line of the text is no datapoint.
#[derive(Debug, Clone, Copy, PartialEq, Eq, Structural)]
pub enum FormatReason {
    /// The line has fewer than the two fields that every line needs.
    MissingValue,
    /// The first field is no timestamp of the pattern `YYYY-MM-DD HH:MM:SS`.
    BadTimestamp,
    /// The second field denotes no number.
    BadValue,
}

/// The first line of a text that is no datapoint.
#[derive(Debug, Clone, Copy, PartialEq, Eq, Structural)]
pub struct FormatError {
    /// The index of the line among the lines of the text; the header is line 0.
    pub line: usize,
    pub reason: FormatReason,
}

/// The notice for a fault.
pub open spec fn reason_text(reason: FormatReason) -> Seq<char> {
    match reason {
        FormatReason::MissingValue => "Missing value"@,
        FormatReason::BadTimestamp => "Invalid timestamp (expected YYYY-MM-DD HH:MM:SS)"@,
        FormatReason::BadValue => "Invalid value"@,
    }
}

impl FormatReason {
    /// The notice for the fault.
    pub fn message(&self) -> (m: &'static str)
        ensures
            m@ == reason_text(*self),
    {
        match self {
            FormatReason::MissingValue => "Missing value",
            FormatReason::BadTimestamp => "Invalid timestamp (expected YYYY-MM-DD HH:MM:SS)",
            FormatReason::BadValue => "Invalid value",
        }
    }
}

impl FormatError {
    /// The notice for the fault: what is wrong, and in which line, counted
    /// from 1 as an editor counts lines.
    pub fn message(&self) -> (m: String)
        ensures
            m@ == reason_text(self.reason) + " in line "@ + decimal_text((self.line + 1) as nat),
    {
        let mut m = String::from_str(self.reason.message());
        m.append(" in line ");
        let number = decimal(self.line as u128 + 1);
        m.append(number.as_str());
        m
    }
}

/// The datapoint that a line denotes. The first two fields are the timestamp
/// and the value; the third is the comment, empty where the line has none;
/// the fourth is the identity, and a line without one, or with an empty one,
/// denotes a datapoint to create. Further fields are ignored.
#[verifier::opaque]
pub open spec fn decoded_line(line: Seq<char>, offset: int) -> Result<EditedView, FormatReason> {
    let f = fields_of(line);
    if f.len() < 2 {
        Err(FormatReason::MissingValue)
    } else {
        match timestamp_of_text(f[0], offset) {
            None => Err(FormatReason::BadTimestamp),
            Some(t) => if !is_number_text(f[1]) {
                Err(FormatReason::BadValue)
            } else {
                Ok(
                    EditedView {
                        id: if f.len() > 3 && f[3].len() > 0 {
                            Some(f[3])
                        } else {
                            None
                        },
                        timestamp: t,
                        value: f[1],
                        comment: Some(
                            if f.len() > 2 {
                                f[2]
                            } else {
                                Seq::<char>::empty()
                            },
                        ),
                        value_moved: true,
                    },
                )
            },
        }
    }
}

/// The datapoints that the lines after the header denote, or the index and
/// the fault of the first line that denotes none.
pub open spec fn decoded_lines(lines: Seq<Seq<char>>, offset: int) -> Result<
    Seq<EditedView>,
    (int, FormatReason),
>
    decreases lines.len(),
{
    if lines.len() <= 1 {
        Ok(Seq::<EditedView>::empty())
    } else {
        match decoded_lines(lines.drop_last(), offset) {
            Err(e) => Err(e),
            Ok(rows) => match decoded_line(lines.last(), offset) {
                Ok(r) => Ok(rows.push(r)),
                Err(reason) => Err((lines.len() - 1, reason)),
            },
        }
    }
}

/// The datapoints that a text denotes: its first line is skipped as the
/// header, whatever it holds.
pub open spec fn decoded_text(text: Seq<char>, offset: int) -> Result<
    Seq<EditedView>,
    (int, FormatReason),
> {
    decoded_lines(lines_of(text), offset)
}

/// A fault in some line is the fault of the whole text.
pub proof fn lemma_fault_persists(lines: Seq<Seq<char>>, offset: int, k: int)
    requires
        0 <= k <= lines.len(),
        decoded_lines(lines.take(k), offset) is Err,
    ensures
        decoded_lines(lines, offset) == decoded_lines(lines.take(k), offset),
    decreases lines.len() - k,
{
    if k == lines.len() {
        assert(lines.take(k) =~= lines);
    } else {
        assert(lines.take(k + 1).drop_last() =~= lines.take(k));
        lemma_fault_persists(lines, offset, k + 1);
    }
}

/// The header line.
pub open spec fn header_line() -> Seq<char> {
    "TIMESTAMP\tVALUE\tCOMMENT\tID\n"@
}

/// The line that a datapoint is written as, or `None` where its timestamp
/// has no text in the local time of `offset`.
pub open spec fn line_of_record(r: DatapointView, offset: int) -> Option<Seq<char>> {
    match timestamp_text(r.timestamp, offset) {
        Some(t) => Some(
            t + seq!['\t'] + r.value + seq!['\t'] + comment_text(r.comment) + seq!['\t'] + r.id
                + seq!['\n'],
        ),
        None => None,
    }
}

/// The lines that the datapoints are written as, one after the other.
pub open spec fn encoded_rows(records: Seq<DatapointView>, offset: int) -> Option<Seq<char>>
    decreases records.len(),
{
    if records.len() == 0 {
        Some(Seq::<char>::empty())
    } else {
        match (encoded_rows(records.drop_last(), offset), line_of_record(records.last(), offset)) {
            (Some(a), Some(b)) => Some(a + b),
            _ => None,
        }
    }
}

/// The text that the datapoints are written as: the header, then their lines.
pub open spec fn encoded_text(records: Seq<DatapointView>, offset: int) -> Option<Seq<char>> {
    match encoded_rows(records, offset) {
        Some(body) => Some(header_line() + body),
        None => None,
    }
}

/// The datapoint that a line denotes, in the local time of `offset` seconds
/// east of UTC.
pub fn decode_line(line: &str, offset: i32) -> (r: Result<EditableDatapoint, FormatReason>)
    ensures
        match r {
            Ok(e) => decoded_line(line@, offset as int) == Ok::<EditedView, FormatReason>(e@),
            Err(x) => decoded_line(line@, offset as int) == Err::<EditedView, FormatReason>(x),
        },
{
    let fields = split_text(line, '\t');
    let ghost f = fields_of(line@);
    proof {
        reveal(decoded_line);
        assert(texts(fields@) == f);
        assert(forall|k: int| 0 <= k < f.len() ==> f[k] == (#[trigger] fields@[k])@);
    }
    if fields.len() < 2 {
        return Err(FormatReason::MissingValue);
    }
    let timestamp = match parse_timestamp(fields[0].as_str(), offset) {
        Some(t) => t,
        None => {
            return Err(FormatReason::BadTimestamp);
        },
    };
    let value = match Measurement::parse(fields[1].as_str()) {
        Some(v) => v,
        None => {
            return Err(FormatReason::BadValue);
        },
    };
    let comment = if fields.len() > 2 {
        fields[2].clone()
    } else {
        String::new()
    };
    let id = if fields.len() > 3 && fields[3].as_str().unicode_len() > 0 {
        Some(fields[3].clone())
    } else {
        None
    };
    Ok(EditableDatapoint { id, timestamp, value, comment: Some(comment), value_moved: true })
}

/// The datapoints that a text denotes, in the local time of `offset` seconds
/// east of UTC. The first line is skipped as the header. A line that denotes
/// no datapoint fails the whole text.
#[verifier::rlimit(40)]
pub fn read_datapoints_tsv(text: &str, offset: i32) -> (r: Result<
    Vec<EditableDatapoint>,
    FormatError,
>)
    ensures
        match r {
            Ok(rows) => decoded_text(text@, offset as int) == Ok::<
                Seq<EditedView>,
                (int, FormatReason),
            >(edited_view(rows@)),
            Err(e) => decoded_text(text@, offset as int) == Err::<
                Seq<EditedView>,
                (int, FormatReason),
            >((e.line as int, e.reason)),
        },
{
    let lines = split_lines(text);
    let ghost all = lines_of(text@);
    let mut rows: Vec<EditableDatapoint> = Vec::new();
    if lines.len() == 0 {
        proof {
            assert(edited_view(rows@) =~= Seq::<EditedView>::empty());
        }
        return Ok(rows);
    }
    let mut i: usize = 1;
    proof {
        assert(all.len() == lines@.len());
        assert(edited_view(rows@) =~= Seq::<EditedView>::empty());
    }
    while i < lines.len()
        invariant
            1 <= i <= lines.len(),
            all == lines_of(text@),
            all == texts(lines@),
            all.len() == lines@.len(),
            decoded_lines(all.take(i as int), offset as int) == Ok::<
                Seq<EditedView>,
                (int, FormatReason),
            >(edited_view(rows@)),
        decreases lines.len() - i,
    {
        let ghost before = rows@;
        proof {
            assert(all.take(i as int + 1).drop_last() =~= all.take(i as int));
            assert(all.take(i as int + 1).last() == lines@[i as int]@);
        }
        match decode_line(lines[i].as_str(), offset) {
            Ok(row) => {
                rows.push(row);
                proof {
                    assert(edited_view(rows@) =~= edited_view(before).push(row@));
                }
            },
            Err(reason) => {
                proof {
                    lemma_fault_persists(all, offset as int, i as int + 1);
                }
                return Err(FormatError { line: i, reason });
            },
        }
        i = i + 1;
    }
    proof {
        assert(all.take(lines.len() as int) =~= all);
    }
    Ok(rows)
}

/// The text that the datapoints are written as, in the local time of
/// `offset` seconds east of UTC: the header line, then one line for each
/// datapoint. `None` where the timestamp of a datapoint has no text.
#[verifier::rlimit(40)]
pub fn write_datapoints_tsv(datapoints: &Vec<Datapoint>, offset: i32) -> (r: Option<String>)
    ensures
        opt_text(r) == encoded_text(records_view(datapoints@), offset as int),
{
    let ghost all = records_view(datapoints@);
    let mut out = String::from_str("TIMESTAMP\tVALUE\tCOMMENT\tID\n");
    let mut i: usize = 0;
    proof {
        reveal_strlit("\t");
        reveal_strlit("\n");
        assert("\t"@ =~= seq!['\t']);
        assert("\n"@ =~= seq!['\n']);
        assert(out@ =~= header_line() + Seq::<char>::empty());
    }
    while i < datapoints.len()
        invariant
            0 <= i <= datapoints.len(),
            all == records_view(datapoints@),
            "\t"@ == seq!['\t'],
            "\n"@ == seq!['\n'],
            encoded_rows(all.take(i as int), offset as int) is Some,
            out@ == header_line() + encoded_rows(all.take(i as int), offset as int)->0,
        decreases datapoints.len() - i,
    {
        let dp = &datapoints[i];
        let ghost before = out@;
        proof {
            assert(all.take(i as int + 1).drop_last() =~= all.take(i as int));
            assert(all.take(i as int + 1).last() == dp@);
        }
        let stamp = match format_timestamp(dp.timestamp, offset) {
            Some(t) => t,
            None => {
                proof {
                    lemma_gap_persists(all, offset as int, i as int + 1);
                }
                return None;
            },
        };
        out.append(stamp.as_str());
        out.append("\t");
        out.append(dp.value.as_str());
        out.append("\t");
        match &dp.comment {
            Some(c) => {
                out.append(c.as_str());
            },
            None => {},
        }
        out.append("\t");
        out.append(dp.id.as_str());
        out.append("\n");
        proof {
            let line = line_of_record(dp@, offset as int)->0;
            assert(out@ =~= before + line);
            assert(out@ =~= header_line() + (encoded_rows(all.take(i as int), offset as int)->0
                + line));
        }
        i = i + 1;
    }
    proof {
        assert(all.take(datapoints.len() as int) =~= all);
    }
    Some(out)
}

/// A datapoint without a text leaves the whole set without one.
pub proof fn lemma_gap_persists(records: Seq<DatapointView>, offset: int, k: int)
    requires
        0 <= k <= records.len(),
        encoded_rows(records.take(k), offset) is None,
    ensures
        encoded_rows(records, offset) is None,
    decreases records.len() - k,
{
    if k == records.len() {
        assert(records.take(k) =~= records);
    } else {
        assert(records.take(k + 1).drop_last() =~= records.take(k));
        lemma_gap_persists(records, offset, k + 1);
    }
}

/// Whether `s` holds no `c`.
pub open spec fn free_of(s: Seq<char>, c: char) -> bool {
    forall|k: int| 0 <= k < s.len() ==> #[trigger] s[k] != c
}

/// Whether a text holds no tab, no line feed and no carriage return.
pub open spec fn plain(s: Seq<char>) -> bool {
    free_of(s, '\t') && free_of(s, '\n') && free_of(s, '\r')
}

/// Whether the calendar and the pattern agree on the instant `t`: the
/// calendar reads a date and a time of day at `t` that the pattern can show,
/// and takes that date and time of day back to `t`.
pub open spec fn calendar_agrees(t: int, offset: int) -> bool {
    match civil_at(t, offset) {
        Some(f) => renderable(f) && instant_of_fields(f, offset) == Some(t),
        None => false,
    }
}

/// Whether a datapoint can be read back from its line: its identity is not
/// empty, its value denotes a number, neither its identity nor its comment
/// holds a tab or a line break, and the calendar and the pattern agree on
/// its timestamp.
pub open spec fn writable(r: DatapointView, offset: int) -> bool {
    &&& r.id.len() > 0
    &&& plain(r.id)
    &&& is_number_text(r.value)
    &&& plain(comment_text(r.comment))
    &&& calendar_agrees(r.timestamp, offset)
}

/// The line that a datapoint is read back as: its fields, with the empty
/// comment where it has none.
pub open spec fn read_back(r: DatapointView) -> EditedView {
    EditedView {
        id: Some(r.id),
        timestamp: r.timestamp,
        value: r.value,
        comment: Some(comment_text(r.comment)),
        value_moved: true,
    }
}

/// The first `c` of a text that starts with a piece free of `c`.
proof fn lemma_find_first(a: Seq<char>, c: char, rest: Seq<char>, i: int)
    requires
        free_of(a, c),
        0 <= i <= a.len(),
    ensures
        find_from(a + seq![c] + rest, c, i) == a.len(),
        find_from(a, c, i) == a.len(),
    decreases a.len() - i,
{
    let s = a + seq![c] + rest;
    if i < a.len() {
        assert(s[i] == a[i]);
        lemma_find_first(a, c, rest, i + 1);
    } else {
        assert(s[i] == c);
    }
}

/// Splitting a text that starts with a piece free of `c`.
proof fn lemma_split_first(a: Seq<char>, c: char, rest: Seq<char>)
    requires
        free_of(a, c),
    ensures
        split_on(a + seq![c] + rest, c) == seq![a] + split_on(rest, c),
        split_on(a, c) == seq![a],
{
    let s = a + seq![c] + rest;
    lemma_find_first(a, c, rest, 0);
    assert(s.take(a.len() as int) =~= a);
    assert(s.skip(a.len() as int + 1) =~= rest);
}

/// The lines of a text that starts with a line.
proof fn lemma_lines_first(a: Seq<char>, rest: Seq<char>)
    requires
        free_of(a, '\n'),
    ensures
        lines_of(a + seq!['\n'] + rest) == seq![without_cr(a)] + lines_of(rest),
{
    let s = a + seq!['\n'] + rest;
    lemma_find_first(a, '\n', rest, 0);
    assert(s.take(a.len() as int) =~= a);
    assert(s.skip(a.len() as int + 1) =~= rest);
}

/// Whether a text is empty or ends with a line feed.
pub open spec fn ends_lines(s: Seq<char>) -> bool {
    s.len() == 0 || s.last() == '\n'
}

/// The first line feed of a text is the first line feed of any text that
/// starts with it.
proof fn lemma_find_prefix(a: Seq<char>, b: Seq<char>, c: char, i: int)
    requires
        0 <= i <= a.len(),
        find_from(a, c, i) < a.len(),
    ensures
        find_from(a + b, c, i) == find_from(a, c, i),
    decreases a.len() - i,
{
    if i < a.len() {
        assert((a + b)[i] == a[i]);
        if a[i] != c {
            lemma_find_prefix(a, b, c, i + 1);
        }
    }
}

/// The lines of two texts, the first of which ends its last line, are the
/// lines of the one and then the lines of the other.
#[verifier::rlimit(40)]
proof fn lemma_lines_concat(a: Seq<char>, b: Seq<char>)
    requires
        ends_lines(a),
    ensures
        lines_of(a + b) == lines_of(a) + lines_of(b),
    decreases a.len(),
{
    if a.len() == 0 {
        assert(a + b =~= b);
        assert(lines_of(a) + lines_of(b) =~= lines_of(b));
    } else {
        lemma_find_from(a, '\n', 0);
        let e = find_from(a, '\n', 0);
        assert(e < a.len()) by {
            if e == a.len() {
                assert(a[a.len() - 1] != '\n');
            }
        }
        lemma_find_prefix(a, b, '\n', 0);
        let tail = a.skip(e + 1);
        assert((a + b).take(e) =~= a.take(e));
        assert((a + b).skip(e + 1) =~= tail + b);
        assert(ends_lines(tail)) by {
            if tail.len() > 0 {
                assert(tail.last() == a.last());
            }
        }
        lemma_lines_concat(tail, b);
        assert(lines_of(a + b) =~= lines_of(a) + lines_of(b));
    }
}

/// A text made of two texts free of `c` is free of `c`.
proof fn lemma_free_concat(a: Seq<char>, b: Seq<char>, c: char)
    requires
        free_of(a, c),
        free_of(b, c),
    ensures
        free_of(a + b, c),
{
    assert forall|k: int| 0 <= k < (a + b).len() implies #[trigger] (a + b)[k] != c by {
        if k < a.len() {
            assert((a + b)[k] == a[k]);
        } else {
            assert((a + b)[k] == b[k - a.len()]);
        }
    }
}

/// Four texts joined by tabs.
pub open spec fn joined(a: Seq<char>, b: Seq<char>, c: Seq<char>, d: Seq<char>) -> Seq<char> {
    a + seq!['\t'] + b + seq!['\t'] + c + seq!['\t'] + d
}

/// Four texts free of line feeds, joined by tabs, are free of line feeds.
#[verifier::rlimit(40)]
proof fn lemma_joined_one_line(a: Seq<char>, b: Seq<char>, c: Seq<char>, d: Seq<char>)
    requires
        free_of(a, '\n'),
        free_of(b, '\n'),
        free_of(c, '\n'),
        free_of(d, '\n'),
    ensures
        free_of(joined(a, b, c, d), '\n'),
        d.len() > 0 ==> joined(a, b, c, d).len() > 0 && joined(a, b, c, d).last() == d.last(),
{
    let tab = seq!['\t'];
    assert(free_of(tab, '\n'));
    lemma_free_concat(a, tab, '\n');
    lemma_free_concat(a + tab, b, '\n');
    lemma_free_concat(a + tab + b, tab, '\n');
    lemma_free_concat(a + tab + b + tab, c, '\n');
    lemma_free_concat(a + tab + b + tab + c, tab, '\n');
    lemma_free_concat(a + tab + b + tab + c + tab, d, '\n');
}

/// The fields of four texts free of tabs, joined by tabs, are the four texts.
#[verifier::rlimit(40)]
proof fn lemma_joined_fields(a: Seq<char>, b: Seq<char>, c: Seq<char>, d: Seq<char>)
    requires
        free_of(a, '\t'),
        free_of(b, '\t'),
        free_of(c, '\t'),
        free_of(d, '\t'),
    ensures
        fields_of(joined(a, b, c, d)) == seq![a, b, c, d],
{
    let tab = seq!['\t'];
    let tail2 = c + tab + d;
    let tail1 = b + tab + tail2;
    assert(joined(a, b, c, d) =~= a + tab + tail1);
    lemma_split_first(a, '\t', tail1);
    lemma_split_first(b, '\t', tail2);
    lemma_split_first(c, '\t', d);
    lemma_split_first(d, '\t', Seq::<char>::empty());
    assert(split_on(tail2, '\t') =~= seq![c, d]);
    assert(split_on(tail1, '\t') =~= seq![b, c, d]);
    assert(split_on(a + tab + tail1, '\t') =~= seq![a, b, c, d]);
}

/// The line of a datapoint without its line feed.
pub open spec fn bare_line(r: DatapointView, offset: int) -> Seq<char> {
    joined(
        timestamp_text(r.timestamp, offset)->0,
        r.value,
        comment_text(r.comment),
        r.id,
    )
}

/// The text of the timestamp of a writable datapoint, and what it reads back as.
proof fn lemma_stamp_round_trip(t: int, offset: int)
    requires
        calendar_agrees(t, offset),
    ensures
        timestamp_text(t, offset) is Some,
        free_of(timestamp_text(t, offset)->0, '\t'),
        free_of(timestamp_text(t, offset)->0, '\n'),
        timestamp_of_text(timestamp_text(t, offset)->0, offset) == Some(t),
{
    let f = civil_at(t, offset)->0;
    lemma_stamp_text_shape(f);
    stamp_text_round_trip(f);
}

/// The line of a writable datapoint is one line, and reads back as the datapoint.
#[verifier::rlimit(40)]
proof fn lemma_line_round_trip(r: DatapointView, offset: int)
    requires
        writable(r, offset),
    ensures
        line_of_record(r, offset) == Some(bare_line(r, offset) + seq!['\n']),
        free_of(bare_line(r, offset), '\n'),
        without_cr(bare_line(r, offset)) == bare_line(r, offset),
        decoded_line(bare_line(r, offset), offset) == Ok::<EditedView, FormatReason>(read_back(r)),
{
    reveal(decoded_line);
    lemma_stamp_round_trip(r.timestamp, offset);
    number_text_chars(r.value);
    assert(free_of(r.value, '\t') && free_of(r.value, '\n')) by {
        assert forall|k: int| 0 <= k < r.value.len() implies #[trigger] r.value[k] != '\t'
            && r.value[k] != '\n' by {
            assert(is_number_char(r.value[k]));
        }
    }
    let stamp = timestamp_text(r.timestamp, offset)->0;
    let comment = comment_text(r.comment);
    let line = bare_line(r, offset);
    lemma_joined_one_line(stamp, r.value, comment, r.id);
    lemma_joined_fields(stamp, r.value, comment, r.id);
    assert(line.last() == r.id.last());
    assert(r.id[r.id.len() - 1] != '\r');
    let fields = fields_of(line);
    assert(fields.len() == 4);
    assert(fields[0] == stamp);
    assert(fields[1] == r.value);
    assert(fields[2] == comment);
    assert(fields[3] == r.id);
}

/// The lines that writable datapoints are read back as.
pub open spec fn read_back_all(records: Seq<DatapointView>) -> Seq<EditedView> {
    records.map_values(|r: DatapointView| read_back(r))
}

/// The bare lines of the datapoints.
pub open spec fn bare_lines(records: Seq<DatapointView>, offset: int) -> Seq<Seq<char>> {
    records.map_values(|r: DatapointView| bare_line(r, offset))
}

/// The lines of one line and its line feed.
proof fn lemma_single_line(line: Seq<char>)
    requires
        free_of(line, '\n'),
        without_cr(line) == line,
    ensures
        lines_of(line + seq!['\n']) == seq![line],
{
    lemma_lines_first(line, Seq::<char>::empty());
    assert(line + seq!['\n'] + Seq::<char>::empty() =~= line + seq!['\n']);
    assert(lines_of(Seq::<char>::empty()) =~= Seq::<Seq<char>>::empty());
    assert(seq![line] + Seq::<Seq<char>>::empty() =~= seq![line]);
}

/// Whether the line of a datapoint is one line: it has a text, which holds
/// no line feed before its end and no carriage return at its end.
pub open spec fn one_line(r: DatapointView, offset: int) -> bool {
    &&& line_of_record(r, offset) == Some(bare_line(r, offset) + seq!['\n'])
    &&& free_of(bare_line(r, offset), '\n')
    &&& without_cr(bare_line(r, offset)) == bare_line(r, offset)
}

/// Whether the bare line of a datapoint reads back as the datapoint.
pub open spec fn reads_back(r: DatapointView, offset: int) -> bool {
    decoded_line(bare_line(r, offset), offset) == Ok::<EditedView, FormatReason>(read_back(r))
}

/// The text of datapoints whose lines are one line each has their bare lines
/// as its lines.
#[verifier::rlimit(40)]
proof fn lemma_rows_lines(records: Seq<DatapointView>, offset: int)
    requires
        forall|i: int| 0 <= i < records.len() ==> one_line(#[trigger] records[i], offset),
    ensures
        encoded_rows(records, offset) is Some,
        ends_lines(encoded_rows(records, offset)->0),
        lines_of(encoded_rows(records, offset)->0) == bare_lines(records, offset),
    decreases records.len(),
{
    if records.len() == 0 {
        assert(bare_lines(records, offset) =~= Seq::<Seq<char>>::empty());
    } else {
        let front = records.drop_last();
        let r = records.last();
        assert forall|i: int| 0 <= i < front.len() implies one_line(
            #[trigger] front[i],
            offset,
        ) by {
            assert(front[i] == records[i]);
        }
        lemma_rows_lines(front, offset);
        assert(one_line(records[records.len() - 1], offset));
        let before = encoded_rows(front, offset)->0;
        let line = bare_line(r, offset);
        lemma_lines_concat(before, line + seq!['\n']);
        lemma_single_line(line);
        assert(bare_lines(records, offset) =~= bare_lines(front, offset) + seq![line]);
    }
}

/// Bare lines that read back as their datapoints, after a header, read back
/// as the datapoints.
#[verifier::rlimit(40)]
proof fn lemma_lines_read_back(records: Seq<DatapointView>, offset: int, head: Seq<char>)
    requires
        forall|i: int| 0 <= i < records.len() ==> reads_back(#[trigger] records[i], offset),
    ensures
        decoded_lines(seq![head] + bare_lines(records, offset), offset) == Ok::<
            Seq<EditedView>,
            (int, FormatReason),
        >(read_back_all(records)),
    decreases records.len(),
{
    let all = seq![head] + bare_lines(records, offset);
    if records.len() == 0 {
        assert(read_back_all(records) =~= Seq::<EditedView>::empty());
        assert(all.len() == 1);
    } else {
        let front = records.drop_last();
        let r = records.last();
        assert forall|i: int| 0 <= i < front.len() implies reads_back(
            #[trigger] front[i],
            offset,
        ) by {
            assert(front[i] == records[i]);
        }
        lemma_lines_read_back(front, offset, head);
        assert(reads_back(records[records.len() - 1], offset));
        assert(all.drop_last() =~= seq![head] + bare_lines(front, offset));
        assert(all.last() == bare_line(r, offset));
        assert(read_back_all(records) =~= read_back_all(front).push(read_back(r)));
    }
}

/// Writing datapoints and reading the text back, in the local time of the
/// same offset, gives the datapoints back: each line carries the identity,
/// the timestamp, the value and the comment of its datapoint, where no
/// comment reads back as the empty comment. This holds of datapoints that
/// have an identity, a value that denotes a number, no tab and no line break
/// in identity and comment, and a timestamp on which the calendar and the
/// pattern agree.
#[verifier::rlimit(40)]
pub proof fn written_text_reads_back(records: Seq<DatapointView>, offset: int)
    ensures
        (forall|i: int| 0 <= i < records.len() ==> writable(#[trigger] records[i], offset)) ==> {
            &&& encoded_text(records, offset) is Some
            &&& decoded_text(encoded_text(records, offset)->0, offset) == Ok::<
                Seq<EditedView>,
                (int, FormatReason),
            >(read_back_all(records))
        },
{
    if forall|i: int| 0 <= i < records.len() ==> writable(#[trigger] records[i], offset) {
        let title = "TIMESTAMP\tVALUE\tCOMMENT\tID"@;
        reveal_strlit("TIMESTAMP\tVALUE\tCOMMENT\tID");
        reveal_strlit("TIMESTAMP\tVALUE\tCOMMENT\tID\n");
        assert(header_line() =~= title + seq!['\n']);
        assert(free_of(title, '\n'));
        assert(title.len() > 0 && title.last() != '\r');
        assert forall|i: int| 0 <= i < records.len() implies one_line(
            #[trigger] records[i],
            offset,
        ) && reads_back(records[i], offset) by {
            lemma_line_round_trip(records[i], offset);
        }
        lemma_rows_lines(records, offset);
        lemma_lines_read_back(records, offset, title);
        let body = encoded_rows(records, offset)->0;
        lemma_lines_first(title, body);
        assert(header_line() + body =~= title + seq!['\n'] + body);
    }
}

} // verus!
