//! The faults of the remote store, and how they are told to the user.
//!
//! The body of a refusal is JSON more often than not. It is read with
//! `serde_json`; what is made of it is decided here.

use vstd::prelude::*;
use vstd::string::StrSliceExecFns;
use vstd::string::StringExecFns;
use crate::digits::{decimal, decimal_text};
use crate::text::{blank, is_blank, replace_char, replaced};

verus! {

/// A JSON value of `serde_json`.
#[verifier::external_type_specification]
#[verifier::external_body]
pub struct ExJsonValue(serde_json::Value);

/// The value that a text denotes as JSON, if it denotes one.
pub uninterp spec fn json_parsed(text: Seq<char>) -> Option<serde_json::Value>;

/// The member `key` of a value, if the value is an object that has one.
pub uninterp spec fn json_member(v: serde_json::Value, key: Seq<char>) -> Option<
    serde_json::Value,
>;

/// The members of a value, in the order in which the value holds them, if
/// the value is an object.
pub uninterp spec fn json_entries(v: serde_json::Value) -> Option<
    Seq<(Seq<char>, serde_json::Value)>,
>;

/// The items of a value, if the value is an array.
pub uninterp spec fn json_items(v: serde_json::Value) -> Option<Seq<serde_json::Value>>;

/// The text of a value, if the value is a string.
pub uninterp spec fn json_string(v: serde_json::Value) -> Option<Seq<char>>;

/// A value written as JSON on one line.
pub uninterp spec fn json_compact(v: serde_json::Value) -> Seq<char>;

/// A value written as JSON over several lines, indented.
pub uninterp spec fn json_pretty(v: serde_json::Value) -> Option<Seq<char>>;

/// The values of members.
pub open spec fn entries_view(e: Seq<(String, serde_json::Value)>) -> Seq<
    (Seq<char>, serde_json::Value),
> {
    e.map_values(|p: (String, serde_json::Value)| (p.0@, p.1))
}

/// The value of optional members.
pub open spec fn opt_entries(e: Option<Vec<(String, serde_json::Value)>>) -> Option<
    Seq<(Seq<char>, serde_json::Value)>,
> {
    match e {
        Some(v) => Some(entries_view(v@)),
        None => None,
    }
}

/// The value of optional items.
pub open spec fn opt_items(e: Option<Vec<serde_json::Value>>) -> Option<Seq<serde_json::Value>> {
    match e {
        Some(v) => Some(v@),
        None => None,
    }
}

/// The value of an optional text.
pub open spec fn opt_string(s: Option<String>) -> Option<Seq<char>> {
    match s {
        Some(t) => Some(t@),
        None => None,
    }
}

/// Calls `serde_json::from_str` for a `Value`. The contract claims only that
/// the result is a function of the text.
#[verifier::external_body]
fn parse_json(text: &str) -> (r: Option<serde_json::Value>)
    ensures
        r == json_parsed(text@),
{
    serde_json::from_str(text).ok()
}

/// Calls `Value::get` of `serde_json` with a key, and copies what it finds.
#[verifier::external_body]
fn member(v: &serde_json::Value, key: &str) -> (r: Option<serde_json::Value>)
    ensures
        r == json_member(*v, key@),
{
    v.get(key).cloned()
}

/// Calls `Value::as_object` of `serde_json`, and copies the members in the
/// order in which the object gives them.
#[verifier::external_body]
fn entries(v: &serde_json::Value) -> (r: Option<Vec<(String, serde_json::Value)>>)
    ensures
        opt_entries(r) == json_entries(*v),
{
    v.as_object().map(|m| m.iter().map(|(k, x)| (k.clone(), x.clone())).collect())
}

/// Calls `Value::as_array` of `serde_json`, and copies the items.
#[verifier::external_body]
fn items(v: &serde_json::Value) -> (r: Option<Vec<serde_json::Value>>)
    ensures
        opt_items(r) == json_items(*v),
{
    v.as_array().cloned()
}

/// Calls `Value::as_str` of `serde_json`, and copies the text.
#[verifier::external_body]
fn string_of(v: &serde_json::Value) -> (r: Option<String>)
    ensures
        opt_string(r) == json_string(*v),
{
    v.as_str().map(|s| s.to_string())
}

/// Writes a value as `serde_json` displays it: as JSON on one line.
#[verifier::external_body]
fn compact(v: &serde_json::Value) -> (r: String)
    ensures
        r@ == json_compact(*v),
{
    v.to_string()
}

/// Calls `serde_json::to_string_pretty`.
#[verifier::external_body]
fn pretty(v: &serde_json::Value) -> (r: Option<String>)
    ensures
        opt_string(r) == json_pretty(*v),
{
    serde_json::to_string_pretty(v).ok()
}

/// A fault of the remote store.
#[derive(Debug, PartialEq, Eq)]
pub enum Error {
    /// The request did not get through; the text says why.
    Http(String),
    /// The remote store refused the request.
    HttpStatus { status: u16, reason: String, body: String },
    /// The answer could not be read; the text says why.
    Json(String),
}

/// What is shown of a value in a line: a string without its line breaks,
/// anything else as JSON.
pub open spec fn item_text(v: serde_json::Value) -> Seq<char> {
    match json_string(v) {
        Some(t) => replaced(t, '\n', ' '),
        None => json_compact(v),
    }
}

/// The lines for the items of a member that is an array: one for each item.
pub open spec fn item_lines(key: Seq<char>, items: Seq<serde_json::Value>) -> Seq<Seq<char>>
    decreases items.len(),
{
    if items.len() == 0 {
        Seq::<Seq<char>>::empty()
    } else {
        item_lines(key, items.drop_last()).push(key + ": "@ + item_text(items.last()))
    }
}

/// The lines for one member: one for each item where it is an array, one
/// for the member otherwise.
pub open spec fn member_lines(key: Seq<char>, v: serde_json::Value) -> Seq<Seq<char>> {
    match json_items(v) {
        Some(items) => item_lines(key, items),
        None => seq![key + ": "@ + item_text(v)],
    }
}

/// The lines for the members of the object of faults.
pub open spec fn fault_lines(members: Seq<(Seq<char>, serde_json::Value)>) -> Seq<Seq<char>>
    decreases members.len(),
{
    if members.len() == 0 {
        Seq::<Seq<char>>::empty()
    } else {
        fault_lines(members.drop_last()) + member_lines(members.last().0, members.last().1)
    }
}

/// The lines as a list: each after a dash, on a line of its own.
pub open spec fn listed(lines: Seq<Seq<char>>) -> Seq<char>
    decreases lines.len(),
{
    if lines.len() == 0 {
        Seq::<char>::empty()
    } else {
        listed(lines.drop_last()) + "  - "@ + lines.last() + "\n"@
    }
}

/// The lines that the body of a refusal holds: those of its member
/// `errors`, where the body is an object with such a member that is an
/// object.
pub open spec fn body_lines(v: serde_json::Value) -> Seq<Seq<char>> {
    match json_member(v, "errors"@) {
        Some(e) => match json_entries(e) {
            Some(members) => fault_lines(members),
            None => Seq::<Seq<char>>::empty(),
        },
        None => Seq::<Seq<char>>::empty(),
    }
}

/// The first line of the notice for a refusal.
pub open spec fn refusal_head(status: u16, reason: Seq<char>) -> Seq<char> {
    "Beeminder API error ("@ + decimal_text(status as nat) + " "@ + (if reason.len() == 0 {
        "HTTP error"@
    } else {
        reason
    }) + "):"@
}

/// The notice with the body as it came: nothing is added for a blank body.
pub open spec fn with_raw_body(head: Seq<char>, body: Seq<char>) -> Seq<char> {
    if is_blank(body) {
        head
    } else {
        head + "\n"@ + body
    }
}

/// The notice for a refusal. Where the body is JSON and names faults, they
/// are listed; where it is JSON otherwise, it is shown indented; any other
/// body is shown as it came.
pub open spec fn refusal_text(status: u16, reason: Seq<char>, body: Seq<char>) -> Seq<char> {
    let head = refusal_head(status, reason);
    match json_parsed(body) {
        Some(v) => {
            let lines = body_lines(v);
            if lines.len() > 0 {
                head + "\n"@ + listed(lines)
            } else {
                match json_pretty(v) {
                    Some(p) => head + "\n"@ + p,
                    None => with_raw_body(head, body),
                }
            }
        },
        None => with_raw_body(head, body),
    }
}

/// The notice for a fault of the remote store.
pub open spec fn fault_notice(e: Error) -> Seq<char> {
    match e {
        Error::Http(inner) => "HTTP error: "@ + inner@,
        Error::HttpStatus { status, reason, body } => refusal_text(status, reason@, body@),
        Error::Json(inner) => "JSON error: "@ + inner@,
    }
}

/// What is shown of a value in a line.
fn text_of_item(v: &serde_json::Value) -> (r: String)
    ensures
        r@ == item_text(*v),
{
    match string_of(v) {
        Some(t) => replace_char(t.as_str(), '\n', ' '),
        None => compact(v),
    }
}

/// The line for a key and a value.
fn line_for(key: &str, v: &serde_json::Value) -> (r: String)
    ensures
        r@ == key@ + ": "@ + item_text(*v),
{
    let mut line = String::from_str(key);
    line.append(": ");
    let shown = text_of_item(v);
    line.append(shown.as_str());
    line
}

/// Appends the lines for one member.
#[verifier::rlimit(40)]
fn push_member_lines(lines: &mut Vec<String>, key: &str, v: &serde_json::Value)
    ensures
        final(lines)@.map_values(|s: String| s@) == old(lines)@.map_values(|s: String| s@)
            + member_lines(key@, *v),
{
    let ghost before = lines@.map_values(|s: String| s@);
    match items(v) {
        Some(list) => {
            let mut i: usize = 0;
            proof {
                assert(before + item_lines(key@, list@.take(0)) =~= before);
            }
            while i < list.len()
                invariant
                    0 <= i <= list.len(),
                    lines@.map_values(|s: String| s@) == before + item_lines(
                        key@,
                        list@.take(i as int),
                    ),
                decreases list.len() - i,
            {
                let ghost sofar = lines@.map_values(|s: String| s@);
                let line = line_for(key, &list[i]);
                lines.push(line);
                proof {
                    assert(list@.take(i as int + 1).drop_last() =~= list@.take(i as int));
                    assert(lines@.map_values(|s: String| s@) =~= sofar.push(line@));
                    assert(lines@.map_values(|s: String| s@) =~= before + item_lines(
                        key@,
                        list@.take(i as int + 1),
                    ));
                }
                i = i + 1;
            }
            proof {
                assert(list@.take(list.len() as int) =~= list@);
            }
        },
        None => {
            let line = line_for(key, v);
            lines.push(line);
            proof {
                assert(lines@.map_values(|s: String| s@) =~= before + seq![line@]);
            }
        },
    }
}

/// The lines that the body of a refusal holds.
fn lines_of_body(v: &serde_json::Value) -> (lines: Vec<String>)
    ensures
        lines@.map_values(|s: String| s@) == body_lines(*v),
{
    let mut lines: Vec<String> = Vec::new();
    let faults = match member(v, "errors") {
        Some(e) => e,
        None => {
            proof {
                assert(lines@.map_values(|s: String| s@) =~= Seq::<Seq<char>>::empty());
            }
            return lines;
        },
    };
    let members = match entries(&faults) {
        Some(m) => m,
        None => {
            proof {
                assert(lines@.map_values(|s: String| s@) =~= Seq::<Seq<char>>::empty());
            }
            return lines;
        },
    };
    let ghost all = entries_view(members@);
    let mut i: usize = 0;
    proof {
        assert(lines@.map_values(|s: String| s@) =~= fault_lines(all.take(0)));
    }
    while i < members.len()
        invariant
            0 <= i <= members.len(),
            all == entries_view(members@),
            lines@.map_values(|s: String| s@) == fault_lines(all.take(i as int)),
        decreases members.len() - i,
    {
        proof {
            assert(all.take(i as int + 1).drop_last() =~= all.take(i as int));
            assert(all.take(i as int + 1).last() == (members@[i as int].0@, members@[i as int].1));
        }
        push_member_lines(&mut lines, members[i].0.as_str(), &members[i].1);
        i = i + 1;
    }
    proof {
        assert(all.take(members.len() as int) =~= all);
    }
    lines
}

/// The lines as a list.
fn list_lines(lines: &Vec<String>) -> (r: String)
    ensures
        r@ == listed(lines@.map_values(|s: String| s@)),
{
    let ghost all = lines@.map_values(|s: String| s@);
    let mut out = String::new();
    let mut i: usize = 0;
    proof {
        assert(out@ =~= listed(all.take(0)));
    }
    while i < lines.len()
        invariant
            0 <= i <= lines.len(),
            all == lines@.map_values(|s: String| s@),
            out@ == listed(all.take(i as int)),
        decreases lines.len() - i,
    {
        proof {
            assert(all.take(i as int + 1).drop_last() =~= all.take(i as int));
            assert(all.take(i as int + 1).last() == lines@[i as int]@);
        }
        out.append("  - ");
        out.append(lines[i].as_str());
        out.append("\n");
        i = i + 1;
    }
    proof {
        assert(all.take(lines.len() as int) =~= all);
    }
    out
}

/// The notice for a refusal of the remote store.
#[verifier::rlimit(40)]
pub fn format_http_error(status: u16, reason: &str, body: &str) -> (r: String)
    ensures
        r@ == refusal_text(status, reason@, body@),
{
    let mut out = String::from_str("Beeminder API error (");
    let code = decimal(status as u128);
    out.append(code.as_str());
    out.append(" ");
    if reason.unicode_len() == 0 {
        out.append("HTTP error");
    } else {
        out.append(reason);
    }
    out.append("):");
    proof {
        assert(out@ =~= refusal_head(status, reason@));
    }
    match parse_json(body) {
        Some(v) => {
            let lines = lines_of_body(&v);
            if lines.len() > 0 {
                out.append("\n");
                let list = list_lines(&lines);
                out.append(list.as_str());
                return out;
            }
            match pretty(&v) {
                Some(p) => {
                    out.append("\n");
                    out.append(p.as_str());
                    return out;
                },
                None => {},
            }
        },
        None => {},
    }
    if !blank(body) {
        out.append("\n");
        out.append(body);
    }
    out
}

/// The notice for a fault of the remote store.
pub fn format_beeminder_error(err: &Error) -> (r: String)
    ensures
        r@ == fault_notice(*err),
{
    match err {
        Error::HttpStatus { status, reason, body } => format_http_error(
            *status,
            reason.as_str(),
            body.as_str(),
        ),
        Error::Http(inner) => {
            let mut out = String::from_str("HTTP error: ");
            out.append(inner.as_str());
            out
        },
        Error::Json(inner) => {
            let mut out = String::from_str("JSON error: ");
            out.append(inner.as_str());
            out
        },
    }
}

/// The fault in one line.
pub open spec fn fault_line(e: Error) -> Seq<char> {
    match e {
        Error::Http(inner) => "HTTP error: "@ + inner@,
        Error::HttpStatus { status, reason, body } => "HTTP status "@ + decimal_text(
            status as nat,
        ) + " "@ + reason@ + ": "@ + body@,
        Error::Json(inner) => "JSON error: "@ + inner@,
    }
}

impl Error {
    /// The fault in one line.
    pub fn message(&self) -> (m: String)
        ensures
            m@ == fault_line(*self),
    {
        match self {
            Error::Http(inner) => {
                let mut m = String::from_str("HTTP error: ");
                m.append(inner.as_str());
                m
            },
            Error::HttpStatus { status, reason, body } => {
                let mut m = String::from_str("HTTP status ");
                let code = decimal(*status as u128);
                m.append(code.as_str());
                m.append(" ");
                m.append(reason.as_str());
                m.append(": ");
                m.append(body.as_str());
                m
            },
            Error::Json(inner) => {
                let mut m = String::from_str("JSON error: ");
                m.append(inner.as_str());
                m
            },
        }
    }
}

} // verus!
