//! Reconciliation for the text-file surface: the edited lines carry no
//! tombstones, so a fetched datapoint that no line mentions is deleted.

use vstd::prelude::*;
use crate::model::{
    comment_text, opt_text, records_view, rows_view, Datapoint, DatapointView, EditorRow,
    Measurement, RowSnapshot, RowSnapshotView, RowView,
};
use crate::plan::{
    creates_of, empty_plan, lemma_filter_push, lemma_plan_push, modified, plan_for_rows, updates_of,
    Plan, PlanView,
};
use crate::requests::{CreateView, UpdateView};

verus! {

/// One line of the edited text: a datapoint as the user left it.
#[derive(Debug, PartialEq, Eq)]
pub struct EditableDatapoint {
    /// `None` for a line without an identity: a datapoint to create.
    pub id: Option<String>,
    pub timestamp: i64,
    pub value: Measurement,
    /// `None` and the empty text both mean "no comment".
    pub comment: Option<String>,
    /// Whether a value whose text differs from the fetched one counts as
    /// changed; see [`EditorRow::value_moved`].
    pub value_moved: bool,
}

/// The mathematical value of an [`EditableDatapoint`].
pub struct EditedView {
    pub id: Option<Seq<char>>,
    pub timestamp: int,
    pub value: Seq<char>,
    pub comment: Option<Seq<char>>,
    pub value_moved: bool,
}

impl View for EditableDatapoint {
    type V = EditedView;

    open spec fn view(&self) -> EditedView {
        EditedView {
            id: opt_text(self.id),
            timestamp: self.timestamp as int,
            value: self.value@,
            comment: opt_text(self.comment),
            value_moved: self.value_moved,
        }
    }
}

/// The views of a sequence of edited lines.
pub open spec fn edited_view(edited: Seq<EditableDatapoint>) -> Seq<EditedView> {
    edited.map_values(|e: EditableDatapoint| e@)
}

/// The line that a fetched datapoint is written as.
pub open spec fn edited_of_record(d: DatapointView) -> EditedView {
    EditedView {
        id: Some(d.id),
        timestamp: d.timestamp,
        value: d.value,
        comment: d.comment,
        value_moved: true,
    }
}

/// Whether a fetched datapoint has the identity `x`.
pub open spec fn known(original: Seq<DatapointView>, x: Seq<char>) -> bool {
    exists|k: int| 0 <= k < original.len() && (#[trigger] original[k]).id == x
}

/// Whether an edited line carries the identity `x`.
pub open spec fn mentions(edited: Seq<EditedView>, x: Seq<char>) -> bool {
    exists|j: int| 0 <= j < edited.len() && (#[trigger] edited[j]).id == Some(x)
}

/// The index of the last fetched datapoint of identity `x`.
pub open spec fn last_with_id(original: Seq<DatapointView>, x: Seq<char>) -> Option<int>
    decreases original.len(),
{
    if original.len() == 0 {
        None
    } else if original.last().id == x {
        Some(original.len() - 1)
    } else {
        last_with_id(original.drop_last(), x)
    }
}

/// What [`last_with_id`] finds.
pub proof fn lemma_last_with_id(original: Seq<DatapointView>, x: Seq<char>)
    ensures
        match last_with_id(original, x) {
            Some(k) => {
                &&& 0 <= k < original.len()
                &&& original[k].id == x
                &&& forall|j: int| k < j < original.len() ==> (#[trigger] original[j]).id != x
            },
            None => !known(original, x),
        },
        last_with_id(original, x) is Some <==> known(original, x),
    decreases original.len(),
{
    if original.len() > 0 {
        let rest = original.drop_last();
        lemma_last_with_id(rest, x);
        if original.last().id == x {
            assert(original[original.len() - 1].id == x);
        } else {
            match last_with_id(rest, x) {
                Some(k) => {
                    assert(rest[k] == original[k]);
                    assert forall|j: int| k < j < original.len() implies (
                    #[trigger] original[j]).id != x by {
                        if j < rest.len() {
                            assert(rest[j] == original[j]);
                        }
                    }
                },
                None => {
                    assert forall|k: int| 0 <= k < original.len() implies (
                    #[trigger] original[k]).id != x by {
                        if k < rest.len() {
                            assert(rest[k] == original[k]);
                        }
                    }
                },
            }
        }
    }
}

/// The row that an edited line of a known identity stands for: the line's
/// fields, with the fetched datapoint as its snapshot.
pub open spec fn matched_row(d: DatapointView, e: EditedView) -> RowView {
    RowView {
        id: e.id,
        timestamp: e.timestamp,
        value: e.value,
        comment: comment_text(e.comment),
        original: Some(
            RowSnapshotView {
                timestamp: d.timestamp,
                value: d.value,
                comment: comment_text(d.comment),
            },
        ),
        is_deleted: false,
        value_moved: e.value_moved,
    }
}

/// The row that an edited line without an identity stands for.
pub open spec fn new_row(e: EditedView) -> RowView {
    RowView {
        id: None,
        timestamp: e.timestamp,
        value: e.value,
        comment: comment_text(e.comment),
        original: None,
        is_deleted: false,
        value_moved: e.value_moved,
    }
}

/// Whether an edited line takes part in reconciliation: it does unless it
/// carries an identity that was not fetched.
pub open spec fn takes_part(original: Seq<DatapointView>, e: EditedView) -> bool {
    e.id is Some ==> known(original, e.id->0)
}

/// Whether an edited line carries an identity that was not fetched.
pub open spec fn is_unmatched(original: Seq<DatapointView>, e: EditedView) -> bool {
    e.id is Some && !known(original, e.id->0)
}

/// The row that an edited line stands for.
pub open spec fn row_of_edited(original: Seq<DatapointView>, e: EditedView) -> RowView {
    match e.id {
        None => new_row(e),
        Some(x) => match last_with_id(original, x) {
            Some(k) => matched_row(original[k], e),
            None => new_row(e),
        },
    }
}

/// The rows that the edited lines stand for, in line order; lines of an
/// identity that was not fetched are left out.
pub open spec fn paired_rows(original: Seq<DatapointView>, edited: Seq<EditedView>) -> Seq<
    RowView,
> {
    edited.filter(|e: EditedView| takes_part(original, e)).map_values(
        |e: EditedView| row_of_edited(original, e),
    )
}

/// The identities on edited lines that were not fetched, in line order.
pub open spec fn unmatched_of(original: Seq<DatapointView>, edited: Seq<EditedView>) -> Seq<
    Seq<char>,
> {
    edited.filter(|e: EditedView| is_unmatched(original, e)).map_values(|e: EditedView| e.id->0)
}

/// The identities that were fetched and that no edited line mentions, each
/// once, in the order in which they were fetched.
pub open spec fn omitted_of(original: Seq<DatapointView>, edited: Seq<EditedView>) -> Seq<
    Seq<char>,
>
    decreases original.len(),
{
    if original.len() == 0 {
        Seq::<Seq<char>>::empty()
    } else {
        let rest = omitted_of(original.drop_last(), edited);
        let x = original.last().id;
        if mentions(edited, x) || rest.contains(x) {
            rest
        } else {
            rest.push(x)
        }
    }
}

/// The plan for edited lines: the creates and updates of the rows that the
/// lines stand for, and the delete of every fetched datapoint that no line
/// mentions.
pub open spec fn bulk_plan_of(original: Seq<DatapointView>, edited: Seq<EditedView>) -> PlanView {
    PlanView {
        creates: creates_of(paired_rows(original, edited)),
        updates: updates_of(paired_rows(original, edited)),
        deletes: omitted_of(original, edited),
    }
}

/// What [`omitted_of`] holds: every identity that was fetched and that no
/// edited line mentions, and nothing else, each once.
#[verifier::rlimit(40)]
pub proof fn lemma_omitted(original: Seq<DatapointView>, edited: Seq<EditedView>)
    ensures
        forall|x: Seq<char>| #[trigger]
            omitted_of(original, edited).contains(x) <==> known(original, x) && !mentions(
                edited,
                x,
            ),
        omitted_of(original, edited).no_duplicates(),
    decreases original.len(),
{
    let out = omitted_of(original, edited);
    if original.len() == 0 {
        assert forall|x: Seq<char>| #[trigger]
            out.contains(x) <==> known(original, x) && !mentions(edited, x) by {}
    } else {
        let front = original.drop_last();
        let rest = omitted_of(front, edited);
        let y = original.last().id;
        lemma_omitted(front, edited);
        assert forall|x: Seq<char>| #[trigger]
            out.contains(x) <==> known(original, x) && !mentions(edited, x) by {
            if known(original, x) {
                let k = choose|k: int| 0 <= k < original.len() && (#[trigger] original[k]).id == x;
                if k < front.len() {
                    assert(front[k] == original[k]);
                    assert(known(front, x));
                }
            }
            if known(front, x) {
                let k = choose|k: int| 0 <= k < front.len() && (#[trigger] front[k]).id == x;
                assert(original[k] == front[k]);
            }
            assert(original[original.len() - 1].id == y);
            if mentions(edited, y) || rest.contains(y) {
                assert(rest.contains(x) <==> known(front, x) && !mentions(edited, x));
            } else {
                if out.contains(x) {
                    let j = choose|j: int| 0 <= j < out.len() && out[j] == x;
                    if j < rest.len() {
                        assert(rest[j] == x);
                        assert(rest.contains(x));
                    }
                }
                if rest.contains(x) {
                    let j = choose|j: int| 0 <= j < rest.len() && rest[j] == x;
                    assert(out[j] == x);
                }
                if x == y {
                    assert(out[out.len() - 1] == x);
                }
            }
        }
    }
}

/// In the plan for edited lines, a datapoint is deleted exactly when it was
/// fetched and no edited line mentions it; no delete is issued twice.
pub proof fn omission_means_delete(
    original: Seq<DatapointView>,
    edited: Seq<EditedView>,
    x: Seq<char>,
)
    ensures
        bulk_plan_of(original, edited).deletes.contains(x) <==> known(original, x) && !mentions(
            edited,
            x,
        ),
        bulk_plan_of(original, edited).deletes.no_duplicates(),
{
    lemma_omitted(original, edited);
    assert(omitted_of(original, edited).contains(x) <==> known(original, x) && !mentions(
        edited,
        x,
    ));
}

/// Whether no two fetched datapoints share an identity.
pub open spec fn distinct_ids(original: Seq<DatapointView>) -> bool {
    forall|i: int, j: int|
        0 <= i < j < original.len() ==> (#[trigger] original[i]).id != (#[trigger] original[j]).id
}

/// Whether the edited lines are the fetched datapoints with nothing changed:
/// line by line the same identity, timestamp, value and comment, where no
/// comment and the empty comment count as the same.
pub open spec fn lines_unedited(original: Seq<DatapointView>, edited: Seq<EditedView>) -> bool {
    &&& edited.len() == original.len()
    &&& forall|i: int|
        0 <= i < original.len() ==> {
            &&& (#[trigger] edited[i]).id == Some(original[i].id)
            &&& edited[i].timestamp == original[i].timestamp
            &&& edited[i].value == original[i].value
            &&& comment_text(edited[i].comment) == comment_text(original[i].comment)
        }
}

#[verifier::rlimit(40)]
proof fn lemma_unedited_prefix(original: Seq<DatapointView>, edited: Seq<EditedView>, n: int)
    requires
        distinct_ids(original),
        lines_unedited(original, edited),
        0 <= n <= edited.len(),
    ensures
        creates_of(paired_rows(original, edited.take(n))) == Seq::<CreateView>::empty(),
        updates_of(paired_rows(original, edited.take(n))) == Seq::<UpdateView>::empty(),
        unmatched_of(original, edited.take(n)) == Seq::<Seq<char>>::empty(),
        omitted_of(original.take(n), edited) == Seq::<Seq<char>>::empty(),
    decreases n,
{
    reveal(Seq::filter);
    if n == 0 {
        assert(edited.take(0) =~= Seq::<EditedView>::empty());
        assert(paired_rows(original, edited.take(0)) =~= Seq::<RowView>::empty());
        assert(creates_of(Seq::<RowView>::empty()) =~= Seq::<CreateView>::empty());
        assert(updates_of(Seq::<RowView>::empty()) =~= Seq::<UpdateView>::empty());
        assert(unmatched_of(original, edited.take(0)) =~= Seq::<Seq<char>>::empty());
        assert(omitted_of(original.take(0), edited) =~= Seq::<Seq<char>>::empty());
    } else {
        lemma_unedited_prefix(original, edited, n - 1);
        let e = edited[n - 1];
        let d = original[n - 1];
        let x = d.id;
        assert(edited.take(n) =~= edited.take(n - 1).push(e));
        lemma_filter_push(edited.take(n - 1), e, |e: EditedView| takes_part(original, e));
        lemma_filter_push(edited.take(n - 1), e, |e: EditedView| is_unmatched(original, e));
        lemma_last_with_id(original, x);
        assert(known(original, x));
        let k = last_with_id(original, x)->0;
        assert(k == n - 1) by {
            if k < n - 1 {
                assert(original[k].id != original[n - 1].id);
            } else if k > n - 1 {
                assert(original[n - 1].id != original[k].id);
            }
        }
        let row = row_of_edited(original, e);
        assert(row == matched_row(d, e));
        assert(!modified(row));
        assert(paired_rows(original, edited.take(n)) =~= paired_rows(
            original,
            edited.take(n - 1),
        ).push(row));
        lemma_plan_push(paired_rows(original, edited.take(n - 1)), row);
        assert(unmatched_of(original, edited.take(n)) =~= unmatched_of(
            original,
            edited.take(n - 1),
        ));
        assert(original.take(n).drop_last() =~= original.take(n - 1));
        assert(original.take(n).last() == d);
        assert(edited[n - 1].id == Some(x));
        assert(mentions(edited, x));
    }
}

/// Reconciling lines that were written from the fetched datapoints and not
/// edited yields the empty plan, and reports no line.
pub proof fn unedited_lines_give_empty_plan(
    original: Seq<DatapointView>,
    edited: Seq<EditedView>,
)
    requires
        distinct_ids(original),
        lines_unedited(original, edited),
    ensures
        bulk_plan_of(original, edited) == empty_plan(),
        unmatched_of(original, edited) == Seq::<Seq<char>>::empty(),
{
    lemma_unedited_prefix(original, edited, edited.len() as int);
    assert(edited.take(edited.len() as int) =~= edited);
    assert(original.take(original.len() as int) =~= original);
}

/// What reconciling edited lines yields: the plan, and the identities on
/// edited lines that were not fetched. Such a line is reported and otherwise
/// ignored: it is neither created nor updated, and causes no delete.
#[derive(Debug, PartialEq, Eq)]
pub struct BulkDiff {
    pub plan: Plan,
    pub unmatched: Vec<String>,
}

/// The index of the last fetched datapoint of identity `id`, if there is one.
pub fn find_datapoint(original: &Vec<Datapoint>, id: &String) -> (r: Option<usize>)
    ensures
        match r {
            Some(k) => last_with_id(records_view(original@), id@) == Some(k as int),
            None => last_with_id(records_view(original@), id@) is None,
        },
{
    let ghost all = records_view(original@);
    let mut i: usize = original.len();
    proof {
        assert(all.take(i as int) =~= all);
    }
    while i > 0
        invariant
            0 <= i <= original.len(),
            all == records_view(original@),
            last_with_id(all, id@) == last_with_id(all.take(i as int), id@),
        decreases i,
    {
        proof {
            assert(all.take(i as int).drop_last() =~= all.take(i as int - 1));
            assert(all.take(i as int).last() == original@[i as int - 1]@);
        }
        if original[i - 1].id == *id {
            return Some(i - 1);
        }
        i = i - 1;
    }
    None
}

/// Whether an edited line carries the identity `id`.
pub fn is_mentioned(edited: &Vec<EditableDatapoint>, id: &String) -> (r: bool)
    ensures
        r == mentions(edited_view(edited@), id@),
{
    let mut j: usize = 0;
    while j < edited.len()
        invariant
            0 <= j <= edited.len(),
            forall|k: int| 0 <= k < j ==> (#[trigger] edited_view(edited@)[k]).id != Some(id@),
        decreases edited.len() - j,
    {
        let hit = match &edited[j].id {
            Some(x) => *x == *id,
            None => false,
        };
        if hit {
            proof {
                assert(edited_view(edited@)[j as int].id == Some(id@));
            }
            return true;
        }
        j = j + 1;
    }
    false
}

/// Whether `ids` holds `id`.
fn holds_id(ids: &Vec<String>, id: &String) -> (r: bool)
    ensures
        r == ids@.map_values(|s: String| s@).contains(id@),
{
    let ghost texts = ids@.map_values(|s: String| s@);
    let mut j: usize = 0;
    while j < ids.len()
        invariant
            0 <= j <= ids.len(),
            texts == ids@.map_values(|s: String| s@),
            forall|k: int| 0 <= k < j ==> #[trigger] texts[k] != id@,
        decreases ids.len() - j,
    {
        if ids[j] == *id {
            proof {
                assert(texts[j as int] == id@);
            }
            return true;
        }
        j = j + 1;
    }
    false
}

impl EditableDatapoint {
    /// The line that a fetched datapoint is written as.
    pub fn from_datapoint(dp: &Datapoint) -> (e: EditableDatapoint)
        ensures
            e@ == edited_of_record(dp@),
    {
        let comment = match &dp.comment {
            Some(c) => Some(c.clone()),
            None => None,
        };
        EditableDatapoint {
            id: Some(dp.id.clone()),
            timestamp: dp.timestamp,
            value: dp.value.clone(),
            comment,
            value_moved: true,
        }
    }

    /// The row that the line stands for, or `None` where the line carries an
    /// identity that was not fetched.
    pub fn to_row(&self, original: &Vec<Datapoint>) -> (r: Option<EditorRow>)
        ensures
            match r {
                Some(row) => {
                    &&& takes_part(records_view(original@), self@)
                    &&& row@ == row_of_edited(records_view(original@), self@)
                    &&& row.wf()
                },
                None => is_unmatched(records_view(original@), self@),
            },
    {
        let comment = match &self.comment {
            Some(c) => c.clone(),
            None => String::new(),
        };
        match &self.id {
            None => Some(
                EditorRow {
                    id: None,
                    timestamp: self.timestamp,
                    value: self.value.clone(),
                    comment,
                    original: None,
                    is_deleted: false,
                    value_moved: self.value_moved,
                },
            ),
            Some(id) => {
                proof {
                    lemma_last_with_id(records_view(original@), id@);
                }
                match find_datapoint(original, id) {
                    None => None,
                    Some(k) => {
                        let d = &original[k];
                        let snapshot_comment = match &d.comment {
                            Some(c) => c.clone(),
                            None => String::new(),
                        };
                        Some(
                            EditorRow {
                                id: Some(id.clone()),
                                timestamp: self.timestamp,
                                value: self.value.clone(),
                                comment,
                                original: Some(
                                    RowSnapshot {
                                        timestamp: d.timestamp,
                                        value: d.value.clone(),
                                        comment: snapshot_comment,
                                    },
                                ),
                                is_deleted: false,
                                value_moved: self.value_moved,
                            },
                        )
                    },
                }
            },
        }
    }
}

/// The rows that the edited lines stand for, and the identities on edited
/// lines that were not fetched.
#[verifier::rlimit(40)]
pub fn pair_rows(original: &Vec<Datapoint>, edited: &Vec<EditableDatapoint>) -> (r: (
    Vec<EditorRow>,
    Vec<String>,
))
    ensures
        rows_view(r.0@) == paired_rows(records_view(original@), edited_view(edited@)),
        r.1@.map_values(|s: String| s@) == unmatched_of(
            records_view(original@),
            edited_view(edited@),
        ),
        forall|k: int| 0 <= k < r.0@.len() ==> !(#[trigger] r.0@[k]).is_deleted,
{
    let ghost all = records_view(original@);
    let ghost lines = edited_view(edited@);
    let mut rows: Vec<EditorRow> = Vec::new();
    let mut unmatched: Vec<String> = Vec::new();
    let mut i: usize = 0;
    proof {
        reveal(Seq::filter);
        assert(lines.take(0) =~= Seq::<EditedView>::empty());
        assert(rows_view(rows@) =~= paired_rows(all, lines.take(0)));
        assert(unmatched@.map_values(|s: String| s@) =~= unmatched_of(all, lines.take(0)));
    }
    while i < edited.len()
        invariant
            0 <= i <= edited.len(),
            all == records_view(original@),
            lines == edited_view(edited@),
            rows_view(rows@) == paired_rows(all, lines.take(i as int)),
            unmatched@.map_values(|s: String| s@) == unmatched_of(all, lines.take(i as int)),
            forall|k: int| 0 <= k < rows@.len() ==> !(#[trigger] rows@[k]).is_deleted,
        decreases edited.len() - i,
    {
        let e = &edited[i];
        let ghost rows_before = rows@;
        let ghost unmatched_before = unmatched@;
        proof {
            assert(lines.take(i as int + 1) =~= lines.take(i as int).push(e@));
            lemma_filter_push(lines.take(i as int), e@, |e: EditedView| takes_part(all, e));
            lemma_filter_push(lines.take(i as int), e@, |e: EditedView| is_unmatched(all, e));
        }
        match e.to_row(original) {
            Some(row) => {
                rows.push(row);
                proof {
                    assert(rows_view(rows@) =~= rows_view(rows_before).push(row@));
                    assert(paired_rows(all, lines.take(i as int + 1)) =~= paired_rows(
                        all,
                        lines.take(i as int),
                    ).push(row_of_edited(all, e@)));
                    assert(unmatched_of(all, lines.take(i as int + 1)) =~= unmatched_of(
                        all,
                        lines.take(i as int),
                    ));
                }
            },
            None => {
                let id = match &e.id {
                    Some(id) => id.clone(),
                    None => String::new(),
                };
                unmatched.push(id);
                proof {
                    assert(unmatched@.map_values(|s: String| s@) =~= unmatched_before.map_values(
                        |s: String| s@,
                    ).push(e@.id->0));
                    assert(unmatched_of(all, lines.take(i as int + 1)) =~= unmatched_of(
                        all,
                        lines.take(i as int),
                    ).push(e@.id->0));
                    assert(paired_rows(all, lines.take(i as int + 1)) =~= paired_rows(
                        all,
                        lines.take(i as int),
                    ));
                }
            },
        }
        i = i + 1;
    }
    proof {
        assert(lines.take(edited.len() as int) =~= lines);
    }
    (rows, unmatched)
}

/// The identities that were fetched and that no edited line mentions, each
/// once, in the order in which they were fetched.
#[verifier::rlimit(40)]
pub fn omitted_ids(original: &Vec<Datapoint>, edited: &Vec<EditableDatapoint>) -> (ids: Vec<
    String,
>)
    ensures
        ids@.map_values(|s: String| s@) == omitted_of(
            records_view(original@),
            edited_view(edited@),
        ),
{
    let ghost all = records_view(original@);
    let ghost lines = edited_view(edited@);
    let mut ids: Vec<String> = Vec::new();
    let mut i: usize = 0;
    proof {
        assert(ids@.map_values(|s: String| s@) =~= omitted_of(all.take(0), lines));
    }
    while i < original.len()
        invariant
            0 <= i <= original.len(),
            all == records_view(original@),
            lines == edited_view(edited@),
            ids@.map_values(|s: String| s@) == omitted_of(all.take(i as int), lines),
        decreases original.len() - i,
    {
        let id = &original[i].id;
        let ghost before = ids@;
        proof {
            assert(all.take(i as int + 1).drop_last() =~= all.take(i as int));
            assert(all.take(i as int + 1).last() == original@[i as int]@);
        }
        let skip = is_mentioned(edited, id) || holds_id(&ids, id);
        if !skip {
            ids.push(id.clone());
            proof {
                assert(ids@.map_values(|s: String| s@) =~= before.map_values(|s: String| s@).push(
                    id@,
                ));
            }
        }
        i = i + 1;
    }
    proof {
        assert(all.take(original.len() as int) =~= all);
    }
    ids
}

/// Reconciles the edited lines of a text file with the datapoints that were
/// fetched before the edit.
pub fn diff_datapoints(original: &Vec<Datapoint>, edited: &Vec<EditableDatapoint>) -> (d: BulkDiff)
    ensures
        d.plan@ == bulk_plan_of(records_view(original@), edited_view(edited@)),
        d.unmatched@.map_values(|s: String| s@) == unmatched_of(
            records_view(original@),
            edited_view(edited@),
        ),
{
    let (rows, unmatched) = pair_rows(original, edited);
    let plan = plan_for_rows(&rows);
    let deletes = omitted_ids(original, edited);
    BulkDiff { plan: Plan { creates: plan.creates, updates: plan.updates, deletes }, unmatched }
}

} // verus!
