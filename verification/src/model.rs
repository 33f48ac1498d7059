//! Records as fetched, rows as edited, and the plan that reconciles them.

use vstd::prelude::*;
use vstd::string::StringExecFns;

verus! {

/// A measurement, held as the decimal text that denotes it.
///
/// This library performs no numeric arithmetic on measurements: it compares
/// their text, and takes from its caller the judgement whether two different
/// texts denote numbers further apart than the tolerance.
#[derive(Debug, PartialEq, Eq)]
pub struct Measurement {
    pub text: String,
}

impl View for Measurement {
    type V = Seq<char>;

    open spec fn view(&self) -> Seq<char> {
        self.text@
    }
}

impl Clone for Measurement {
    fn clone(&self) -> (r: Self)
        ensures
            r@ == self@,
    {
        Measurement { text: self.text.clone() }
    }
}

/// A record of the remote store, as it was when fetched.
#[derive(Debug, PartialEq, Eq)]
pub struct Datapoint {
    /// The identity that the remote store gave the record.
    pub id: String,
    pub value: Measurement,
    /// Seconds since the Unix epoch.
    pub timestamp: i64,
    /// The day that the record counts for, such as `20150831`.
    pub daystamp: String,
    /// `None` and the empty text both mean "no comment".
    pub comment: Option<String>,
    /// When the record was last changed, in seconds since the Unix epoch.
    pub updated_at: i64,
    /// The request identity given when the record was created, if any.
    pub requestid: Option<String>,
}

/// The mathematical value of a [`Datapoint`].
pub struct DatapointView {
    pub id: Seq<char>,
    pub value: Seq<char>,
    pub timestamp: int,
    pub daystamp: Seq<char>,
    pub comment: Option<Seq<char>>,
    pub updated_at: int,
    pub requestid: Option<Seq<char>>,
}

/// The text of an optional string.
pub open spec fn opt_text(s: Option<String>) -> Option<Seq<char>> {
    match s {
        Some(t) => Some(t@),
        None => None,
    }
}

/// The comment that an optional comment stands for: none is the empty text.
pub open spec fn comment_text(c: Option<Seq<char>>) -> Seq<char> {
    match c {
        Some(t) => t,
        None => Seq::<char>::empty(),
    }
}

impl View for Datapoint {
    type V = DatapointView;

    open spec fn view(&self) -> DatapointView {
        DatapointView {
            id: self.id@,
            value: self.value@,
            timestamp: self.timestamp as int,
            daystamp: self.daystamp@,
            comment: opt_text(self.comment),
            updated_at: self.updated_at as int,
            requestid: opt_text(self.requestid),
        }
    }
}

/// What a row held when it was fetched.
#[derive(Debug, PartialEq, Eq)]
pub struct RowSnapshot {
    pub timestamp: i64,
    pub value: Measurement,
    pub comment: String,
}

/// The mathematical value of a [`RowSnapshot`].
pub struct RowSnapshotView {
    pub timestamp: int,
    pub value: Seq<char>,
    pub comment: Seq<char>,
}

impl View for RowSnapshot {
    type V = RowSnapshotView;

    open spec fn view(&self) -> RowSnapshotView {
        RowSnapshotView {
            timestamp: self.timestamp as int,
            value: self.value@,
            comment: self.comment@,
        }
    }
}

impl Clone for RowSnapshot {
    fn clone(&self) -> (r: Self)
        ensures
            r@ == self@,
    {
        RowSnapshot {
            timestamp: self.timestamp,
            value: self.value.clone(),
            comment: self.comment.clone(),
        }
    }
}

/// A row of the local, editable set.
#[derive(Debug, PartialEq, Eq)]
pub struct EditorRow {
    /// `None` until the remote store has created the record.
    pub id: Option<String>,
    pub timestamp: i64,
    pub value: Measurement,
    pub comment: String,
    /// The fetched state; present exactly when `id` is.
    pub original: Option<RowSnapshot>,
    /// Marked for deletion, but still part of the set.
    pub is_deleted: bool,
    /// Whether a value whose text differs from the fetched one counts as
    /// changed. It is `false` only where the caller has judged the two numbers
    /// to lie within the tolerance, and is not consulted while the texts agree.
    pub value_moved: bool,
}

/// The mathematical value of an [`EditorRow`].
pub struct RowView {
    pub id: Option<Seq<char>>,
    pub timestamp: int,
    pub value: Seq<char>,
    pub comment: Seq<char>,
    pub original: Option<RowSnapshotView>,
    pub is_deleted: bool,
    pub value_moved: bool,
}

/// The value of an optional snapshot.
pub open spec fn opt_snapshot(s: Option<RowSnapshot>) -> Option<RowSnapshotView> {
    match s {
        Some(t) => Some(t@),
        None => None,
    }
}

impl View for EditorRow {
    type V = RowView;

    open spec fn view(&self) -> RowView {
        RowView {
            id: opt_text(self.id),
            timestamp: self.timestamp as int,
            value: self.value@,
            comment: self.comment@,
            original: opt_snapshot(self.original),
            is_deleted: self.is_deleted,
            value_moved: self.value_moved,
        }
    }
}

/// The invariant of a row: identity and snapshot come together.
pub open spec fn row_ok(r: RowView) -> bool {
    r.id is Some <==> r.original is Some
}

/// The row that a fetched record starts as.
pub open spec fn row_of_record(r: DatapointView) -> RowView {
    RowView {
        id: Some(r.id),
        timestamp: r.timestamp,
        value: r.value,
        comment: comment_text(r.comment),
        original: Some(
            RowSnapshotView {
                timestamp: r.timestamp,
                value: r.value,
                comment: comment_text(r.comment),
            },
        ),
        is_deleted: false,
        value_moved: true,
    }
}

/// The row that is inserted for a record not yet on the remote store: no
/// identity, no snapshot, the measurement zero and no comment.
pub open spec fn fresh_row(timestamp: int) -> RowView {
    RowView {
        id: None,
        timestamp,
        value: seq!['0'],
        comment: Seq::<char>::empty(),
        original: None,
        is_deleted: false,
        value_moved: true,
    }
}

/// The views of a sequence of rows.
pub open spec fn rows_view(rows: Seq<EditorRow>) -> Seq<RowView> {
    rows.map_values(|r: EditorRow| r@)
}

/// The views of a sequence of records.
pub open spec fn records_view(records: Seq<Datapoint>) -> Seq<DatapointView> {
    records.map_values(|r: Datapoint| r@)
}

impl EditorRow {
    /// Whether the row satisfies its invariant.
    pub open spec fn wf(&self) -> bool {
        row_ok(self@)
    }

    /// The row for a fetched record: its fields, and a snapshot of them.
    pub fn from_datapoint(dp: &Datapoint) -> (row: EditorRow)
        ensures
            row@ == row_of_record(dp@),
            row.wf(),
    {
        let comment = match &dp.comment {
            Some(c) => c.clone(),
            None => String::new(),
        };
        EditorRow {
            id: Some(dp.id.clone()),
            timestamp: dp.timestamp,
            value: dp.value.clone(),
            comment: comment.clone(),
            original: Some(
                RowSnapshot { timestamp: dp.timestamp, value: dp.value.clone(), comment },
            ),
            is_deleted: false,
            value_moved: true,
        }
    }

    /// A new row at `timestamp`, to be created on the remote store.
    pub fn new(timestamp: i64) -> (row: EditorRow)
        ensures
            row@ == fresh_row(timestamp as int),
            row.wf(),
    {
        proof {
            reveal_strlit("0");
            assert("0"@ =~= seq!['0']);
        }
        EditorRow {
            id: None,
            timestamp,
            value: Measurement { text: String::from_str("0") },
            comment: String::new(),
            original: None,
            is_deleted: false,
            value_moved: true,
        }
    }
}

} // verus!
