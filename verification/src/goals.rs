//! The list of goals: what is shown of a goal, in which order, and how the
//! text of a datapoint typed beside a goal is read.

use vstd::prelude::*;
use vstd::string::StrSliceExecFns;
use vstd::string::StringExecFns;
use crate::model::{opt_text, Measurement};
use crate::number::is_number_text;
use crate::text::{is_blank, is_space, is_space_char, trim, trimmed};

verus! {

/// What the list shows of a goal.
#[derive(Debug, PartialEq, Eq)]
pub struct GoalSummary {
    /// The last part of the goal's address, by which it is named.
    pub slug: String,
    pub title: String,
    pub goal_type: String,
    /// What is to be done by when, such as `+2 within 1 day`.
    pub limsum: String,
    pub svg_url: String,
    pub graph_url: String,
    pub thumb_url: String,
    /// When the goal derails if nothing is entered, in seconds since the Unix epoch.
    pub losedate: i64,
    pub goaldate: Option<i64>,
    pub goalval: Option<Measurement>,
    pub rate: Option<Measurement>,
    pub updated_at: i64,
    /// Whether the graph is being redrawn.
    pub queued: bool,
    /// The days left until the goal derails.
    pub safebuf: i32,
    /// When the last datapoint was entered, in seconds since the Unix epoch.
    pub lastday: i64,
    /// The amount pledged on the goal, where the remote store names one.
    pub pledge: Option<Measurement>,
}

/// The colour in which a goal is listed.
#[derive(Debug, Clone, Copy, PartialEq, Eq, Structural)]
pub enum GoalColor {
    Red,
    Yellow,
    Blue,
    Green,
    White,
}

/// The colour for a goal with `safebuf` days left: red on the last day,
/// yellow and blue on the two before, green up to a week, white beyond.
pub open spec fn color_of(safebuf: i32) -> GoalColor {
    if safebuf == 0 {
        GoalColor::Red
    } else if safebuf == 1 {
        GoalColor::Yellow
    } else if safebuf == 2 {
        GoalColor::Blue
    } else if 3 <= safebuf <= 6 {
        GoalColor::Green
    } else {
        GoalColor::White
    }
}

/// The colour for a goal with `safebuf` days left.
pub fn goal_color(safebuf: i32) -> (c: GoalColor)
    ensures
        c == color_of(safebuf),
{
    if safebuf == 0 {
        GoalColor::Red
    } else if safebuf == 1 {
        GoalColor::Yellow
    } else if safebuf == 2 {
        GoalColor::Blue
    } else if 3 <= safebuf && safebuf <= 6 {
        GoalColor::Green
    } else {
        GoalColor::White
    }
}

/// Whether a goal comes before another in the list: goals without a
/// datapoint today come before those with one, and among goals alike in
/// that, those with fewer days left come first.
pub open spec fn comes_before(today: bool, safebuf: i32, other_today: bool, other_safebuf: i32)
    -> bool {
    (!today && other_today) || (today == other_today && safebuf < other_safebuf)
}

/// Whether a goal comes before another in the list.
pub fn goal_precedes(today: bool, safebuf: i32, other_today: bool, other_safebuf: i32) -> (r: bool)
    ensures
        r == comes_before(today, safebuf, other_today, other_safebuf),
{
    (!today && other_today) || (today == other_today && safebuf < other_safebuf)
}

/// Whether exactly two of three settings are given.
pub fn exactly_two(first: bool, second: bool, third: bool) -> (r: bool)
    ensures
        r == ((first && second && !third) || (first && !second && third) || (!first && second
            && third)),
{
    (first && second && !third) || (first && !second && third) || (!first && second && third)
}

/// `n` spaces.
pub open spec fn spaces(n: nat) -> Seq<char> {
    Seq::new(n, |i: int| ' ')
}

/// `s` followed by as many spaces as bring it to `width` characters; `s`
/// itself where it is as long or longer.
pub open spec fn padded(s: Seq<char>, width: nat) -> Seq<char> {
    if s.len() >= width {
        s
    } else {
        s + spaces((width - s.len()) as nat)
    }
}

/// `s` followed by as many spaces as bring it to `width` characters.
pub fn pad_right(s: &str, width: usize) -> (r: String)
    ensures
        r@ == padded(s@, width as nat),
{
    let n: usize = s.unicode_len();
    let mut out = String::from_str(s);
    let mut k: usize = n;
    proof {
        assert(out@ =~= s@ + spaces(0));
    }
    while k < width
        invariant
            n == s@.len(),
            n <= k,
            n < width ==> k <= width,
            n >= width ==> k == n,
            out@ == s@ + spaces((k - n) as nat),
        decreases width - k,
    {
        out.push(' ');
        proof {
            assert(out@ =~= s@ + spaces((k + 1 - n) as nat));
        }
        k = k + 1;
    }
    proof {
        if n >= width {
            assert(s@ + spaces(0) =~= s@);
        }
    }
    out
}

/// The line of a goal in the plain list: a check mark where the goal has a
/// datapoint today, the slug in a column of twenty characters, and what is
/// to be done by when in brackets.
pub open spec fn goal_line(today: bool, slug: Seq<char>, limsum: Seq<char>) -> Seq<char> {
    (if today {
        seq!['\u{2713}']
    } else {
        seq![' ']
    }) + seq![' '] + padded(slug, 20) + seq![' ', '['] + limsum + seq![']']
}

/// The line of a goal in the plain list.
pub fn format_goal(today: bool, slug: &str, limsum: &str) -> (r: String)
    ensures
        r@ == goal_line(today, slug@, limsum@),
{
    let mut out = String::new();
    out.push(if today {
        '\u{2713}'
    } else {
        ' '
    });
    out.push(' ');
    let slug_padded = pad_right(slug, 20);
    out.append(slug_padded.as_str());
    out.push(' ');
    out.push('[');
    out.append(limsum);
    out.push(']');
    proof {
        assert(out@ =~= goal_line(today, slug@, limsum@));
    }
    out
}

/// The first index at or after `i` that holds white space, or the length of `s`.
pub open spec fn word_end(s: Seq<char>, i: int) -> int
    decreases s.len() - i,
{
    if 0 <= i < s.len() && !is_space(s[i]) {
        word_end(s, i + 1)
    } else {
        i
    }
}

/// Why the text typed beside a goal is no datapoint.
#[derive(Debug, Clone, Copy, PartialEq, Eq, Structural)]
pub enum InlineAddError {
    /// Nothing was typed.
    EnterValue,
    /// The first word denotes no number.
    InvalidValue,
}

/// The value and the comment that a text typed beside a goal denotes: the
/// first word is the value, and what follows it, without the white space
/// around it, is the comment, if anything is left.
pub open spec fn value_and_comment(input: Seq<char>) -> Result<
    (Seq<char>, Option<Seq<char>>),
    InlineAddError,
> {
    let t = trimmed(input);
    if t.len() == 0 {
        Err(InlineAddError::EnterValue)
    } else {
        let e = word_end(t, 0);
        let word = t.take(e);
        if !is_number_text(word) {
            Err(InlineAddError::InvalidValue)
        } else if e < t.len() && !is_blank(t.skip(e + 1)) {
            Ok((word, Some(trimmed(t.skip(e + 1)))))
        } else {
            Ok((word, None))
        }
    }
}

/// The value of what [`parse_value_and_comment`] returns.
pub open spec fn parsed_view(r: Result<(Measurement, Option<String>), InlineAddError>) -> Result<
    (Seq<char>, Option<Seq<char>>),
    InlineAddError,
> {
    match r {
        Ok((v, c)) => Ok((v@, opt_text(c))),
        Err(e) => Err(e),
    }
}

impl InlineAddError {
    /// The notice for the fault.
    pub fn message(&self) -> (m: &'static str)
        ensures
            m@ == match self {
                InlineAddError::EnterValue => "Enter a value"@,
                InlineAddError::InvalidValue => "Invalid value"@,
            },
    {
        match self {
            InlineAddError::EnterValue => "Enter a value",
            InlineAddError::InvalidValue => "Invalid value",
        }
    }
}

/// Reads a text of the form `value [comment]`.
pub fn parse_value_and_comment(input: &str) -> (r: Result<
    (Measurement, Option<String>),
    InlineAddError,
>)
    ensures
        parsed_view(r) == value_and_comment(input@),
{
    let t = trim(input);
    let t = t.as_str();
    let n: usize = t.unicode_len();
    if n == 0 {
        return Err(InlineAddError::EnterValue);
    }
    let mut e: usize = 0;
    while e < n && !is_space_char(t.get_char(e))
        invariant
            n == t@.len(),
            0 <= e <= n,
            word_end(t@, 0) == word_end(t@, e as int),
        decreases n - e,
    {
        e = e + 1;
    }
    proof {
        assert(t@.subrange(0, e as int) =~= t@.take(e as int));
    }
    let value = match Measurement::parse(t.substring_char(0, e)) {
        Some(v) => v,
        None => {
            return Err(InlineAddError::InvalidValue);
        },
    };
    if e < n {
        proof {
            assert(t@.subrange(e as int + 1, n as int) =~= t@.skip(e as int + 1));
        }
        let rest = trim(t.substring_char(e + 1, n));
        if rest.as_str().unicode_len() > 0 {
            return Ok((value, Some(rest)));
        }
    }
    Ok((value, None))
}

} // verus!
