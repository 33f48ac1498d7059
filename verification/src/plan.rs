//! The change detector, the rule that sorts every row into one disposition,
//! and the plan that the rows of an editing session amount to.

use vstd::prelude::*;
use crate::model::{
    row_of_record, row_ok, rows_view, DatapointView, EditorRow, RowView,
};
use crate::requests::{CreateDatapoint, CreateView, UpdateDatapoint, UpdateView};
use crate::text::{blank, is_blank};

verus! {

/// What reconciliation does with one row.
#[derive(Debug, Clone, Copy, PartialEq, Eq, Structural)]
pub enum Disposition {
    Create,
    Update,
    Unchanged,
    Delete,
}

/// Whether a row differs from what was fetched. A row without a snapshot
/// always does. Otherwise the timestamps are compared exactly, the comments
/// as text, and the measurements by their text and, where the texts differ,
/// by the caller's judgement on the tolerance.
pub open spec fn modified(r: RowView) -> bool {
    match r.original {
        None => true,
        Some(o) => {
            ||| r.timestamp != o.timestamp
            ||| (r.value != o.value && r.value_moved)
            ||| r.comment != o.comment
        },
    }
}

/// A row that the remote store does not know and that is not marked for deletion.
pub open spec fn is_create(r: RowView) -> bool {
    r.id is None && !r.is_deleted
}

/// A known row, not marked for deletion, that differs from what was fetched.
pub open spec fn is_update(r: RowView) -> bool {
    r.id is Some && !r.is_deleted && modified(r)
}

/// A known row marked for deletion.
pub open spec fn is_delete(r: RowView) -> bool {
    r.id is Some && r.is_deleted
}

/// A known row left as it was fetched, or an unknown row that was marked for
/// deletion before it was ever created: nothing is sent for either.
pub open spec fn is_unchanged(r: RowView) -> bool {
    ||| r.id is Some && !r.is_deleted && !modified(r)
    ||| r.id is None && r.is_deleted
}

/// The disposition of a row.
pub open spec fn disposition_of(r: RowView) -> Disposition {
    if r.id is None {
        if r.is_deleted {
            Disposition::Unchanged
        } else {
            Disposition::Create
        }
    } else if r.is_deleted {
        Disposition::Delete
    } else if modified(r) {
        Disposition::Update
    } else {
        Disposition::Unchanged
    }
}

/// The operations that bring the remote store in line with the local rows.
#[derive(Debug, PartialEq, Eq)]
pub struct Plan {
    pub creates: Vec<CreateDatapoint>,
    pub updates: Vec<UpdateDatapoint>,
    pub deletes: Vec<String>,
}

/// The mathematical value of a [`Plan`].
pub struct PlanView {
    pub creates: Seq<CreateView>,
    pub updates: Seq<UpdateView>,
    pub deletes: Seq<Seq<char>>,
}

impl View for Plan {
    type V = PlanView;

    open spec fn view(&self) -> PlanView {
        PlanView {
            creates: self.creates@.map_values(|p: CreateDatapoint| p@),
            updates: self.updates@.map_values(|u: UpdateDatapoint| u@),
            deletes: self.deletes@.map_values(|s: String| s@),
        }
    }
}

/// The plan that holds no operation.
pub open spec fn empty_plan() -> PlanView {
    PlanView {
        creates: Seq::<CreateView>::empty(),
        updates: Seq::<UpdateView>::empty(),
        deletes: Seq::<Seq<char>>::empty(),
    }
}

/// The comment that is sent for a row: a blank comment counts as none.
pub open spec fn sent_comment(c: Seq<char>) -> Seq<char> {
    if is_blank(c) {
        Seq::<char>::empty()
    } else {
        c
    }
}

/// The create that an unknown row amounts to: its current fields, and no
/// comment where the comment is blank.
pub open spec fn create_of(r: RowView) -> CreateView {
    CreateView {
        value: r.value,
        timestamp: Some(r.timestamp),
        daystamp: None,
        comment: if is_blank(r.comment) {
            None
        } else {
            Some(r.comment)
        },
        requestid: None,
    }
}

/// The update that a known row amounts to: its identity and its current
/// fields, with the empty comment where the comment is blank, so that the
/// remote store clears it.
pub open spec fn update_of(r: RowView) -> UpdateView {
    UpdateView {
        id: r.id->0,
        timestamp: Some(r.timestamp),
        value: Some(r.value),
        comment: Some(sent_comment(r.comment)),
    }
}

/// The creates of a row set: one for each of its rows to create, in row order.
pub open spec fn creates_of(rows: Seq<RowView>) -> Seq<CreateView> {
    rows.filter(|r: RowView| is_create(r)).map_values(|r: RowView| create_of(r))
}

/// The updates of a row set, in row order.
pub open spec fn updates_of(rows: Seq<RowView>) -> Seq<UpdateView> {
    rows.filter(|r: RowView| is_update(r)).map_values(|r: RowView| update_of(r))
}

/// The deletes of a row set: the identities of its is_deleted rows, in row order.
pub open spec fn deletes_of(rows: Seq<RowView>) -> Seq<Seq<char>> {
    rows.filter(|r: RowView| is_delete(r)).map_values(|r: RowView| r.id->0)
}

/// The plan of a row set whose deletions are explicit.
pub open spec fn plan_of(rows: Seq<RowView>) -> PlanView {
    PlanView { creates: creates_of(rows), updates: updates_of(rows), deletes: deletes_of(rows) }
}

/// Filtering a sequence that grew by one element.
pub proof fn lemma_filter_push<A>(s: Seq<A>, x: A, p: spec_fn(A) -> bool)
    ensures
        s.push(x).filter(p) == if p(x) {
            s.filter(p).push(x)
        } else {
            s.filter(p)
        },
{
    reveal(Seq::filter);
    assert(s.push(x).drop_last() =~= s);
}

/// The plan of a row set that grew by one row.
pub proof fn lemma_plan_push(rows: Seq<RowView>, r: RowView)
    ensures
        creates_of(rows.push(r)) == if is_create(r) {
            creates_of(rows).push(create_of(r))
        } else {
            creates_of(rows)
        },
        updates_of(rows.push(r)) == if is_update(r) {
            updates_of(rows).push(update_of(r))
        } else {
            updates_of(rows)
        },
        deletes_of(rows.push(r)) == if is_delete(r) {
            deletes_of(rows).push(r.id->0)
        } else {
            deletes_of(rows)
        },
{
    lemma_filter_push(rows, r, |r: RowView| is_create(r));
    lemma_filter_push(rows, r, |r: RowView| is_update(r));
    lemma_filter_push(rows, r, |r: RowView| is_delete(r));
    if is_create(r) {
        assert(creates_of(rows.push(r)) =~= creates_of(rows).push(create_of(r)));
    }
    if is_update(r) {
        assert(updates_of(rows.push(r)) =~= updates_of(rows).push(update_of(r)));
    }
    if is_delete(r) {
        assert(deletes_of(rows.push(r)) =~= deletes_of(rows).push(r.id->0));
    }
}

/// Every row has exactly one disposition: it is created, updated, left
/// alone or deleted, and never two of these.
pub proof fn one_disposition_per_row(r: RowView)
    ensures
        is_create(r) || is_update(r) || is_unchanged(r) || is_delete(r),
        !(is_create(r) && is_update(r)),
        !(is_create(r) && is_unchanged(r)),
        !(is_create(r) && is_delete(r)),
        !(is_update(r) && is_unchanged(r)),
        !(is_update(r) && is_delete(r)),
        !(is_unchanged(r) && is_delete(r)),
        is_create(r) <==> disposition_of(r) == Disposition::Create,
        is_update(r) <==> disposition_of(r) == Disposition::Update,
        is_unchanged(r) <==> disposition_of(r) == Disposition::Unchanged,
        is_delete(r) <==> disposition_of(r) == Disposition::Delete,
{
}

/// A row as fetched, with nothing edited, is left alone.
pub proof fn fetched_row_is_unchanged(r: DatapointView)
    ensures
        row_ok(row_of_record(r)),
        !modified(row_of_record(r)),
        disposition_of(row_of_record(r)) == Disposition::Unchanged,
{
}

/// The rows that a fetch starts an editing session with.
pub open spec fn rows_of_records(records: Seq<DatapointView>) -> Seq<RowView> {
    records.map_values(|r: DatapointView| row_of_record(r))
}

/// Reconciling rows that were fetched and never edited yields the empty plan.
pub proof fn unedited_rows_give_empty_plan(records: Seq<DatapointView>)
    ensures
        plan_of(rows_of_records(records)) == empty_plan(),
    decreases records.len(),
{
    reveal(Seq::filter);
    if records.len() == 0 {
        assert(rows_of_records(records) =~= Seq::<RowView>::empty());
        assert(creates_of(Seq::<RowView>::empty()) =~= Seq::<CreateView>::empty());
        assert(updates_of(Seq::<RowView>::empty()) =~= Seq::<UpdateView>::empty());
        assert(deletes_of(Seq::<RowView>::empty()) =~= Seq::<Seq<char>>::empty());
    } else {
        let rest = records.drop_last();
        unedited_rows_give_empty_plan(rest);
        let last = row_of_record(records.last());
        assert(rows_of_records(records) =~= rows_of_records(rest).push(last));
        lemma_plan_push(rows_of_records(rest), last);
    }
}

/// A plan that holds only what rows without a tombstone ask for has no delete.
pub proof fn no_tombstone_no_delete(rows: Seq<RowView>)
    requires
        forall|j: int| 0 <= j < rows.len() ==> !(#[trigger] rows[j]).is_deleted,
    ensures
        deletes_of(rows) == Seq::<Seq<char>>::empty(),
    decreases rows.len(),
{
    reveal(Seq::filter);
    if rows.len() == 0 {
        assert(deletes_of(rows) =~= Seq::<Seq<char>>::empty());
    } else {
        let rest = rows.drop_last();
        assert forall|j: int| 0 <= j < rest.len() implies !(#[trigger] rest[j]).is_deleted by {
            assert(rest[j] == rows[j]);
        }
        no_tombstone_no_delete(rest);
        assert(rows =~= rest.push(rows.last()));
        lemma_plan_push(rest, rows.last());
    }
}

/// A is_deleted row of identity `x` is deleted and nothing else: the plan
/// holds the delete of `x`, and its creates and updates are those of the
/// other rows, whatever was edited in the row before it was is_deleted.
/// Where no other row is is_deleted, the delete of `x` is the only delete.
#[verifier::rlimit(40)]
pub proof fn tombstone_means_delete(rows: Seq<RowView>, i: int)
    requires
        0 <= i < rows.len(),
        rows[i].id is Some,
        rows[i].is_deleted,
    ensures
        plan_of(rows).deletes.contains(rows[i].id->0),
        plan_of(rows).creates == plan_of(rows.remove(i)).creates,
        plan_of(rows).updates == plan_of(rows.remove(i)).updates,
        (forall|j: int| 0 <= j < rows.len() && j != i ==> !(#[trigger] rows[j]).is_deleted)
            ==> plan_of(rows).deletes == seq![rows[i].id->0],
    decreases rows.len(),
{
    let rest = rows.drop_last();
    let last = rows.last();
    assert(rows =~= rest.push(last));
    lemma_plan_push(rest, last);
    if i == rows.len() - 1 {
        assert(rows.remove(i) =~= rest);
        assert(deletes_of(rows).last() == rows[i].id->0);
        if forall|j: int| 0 <= j < rows.len() && j != i ==> !(#[trigger] rows[j]).is_deleted {
            assert forall|j: int| 0 <= j < rest.len() implies !(#[trigger] rest[j]).is_deleted by {
                assert(rest[j] == rows[j]);
            }
            no_tombstone_no_delete(rest);
            assert(deletes_of(rows) =~= seq![rows[i].id->0]);
        }
    } else {
        tombstone_means_delete(rest, i);
        assert(rest[i] == rows[i]);
        assert(rows.remove(i) =~= rest.remove(i).push(last));
        lemma_plan_push(rest.remove(i), last);
        let k = choose|k: int| 0 <= k < deletes_of(rest).len() && deletes_of(rest)[k] == rows[i].id->0;
        assert(deletes_of(rows)[k] == rows[i].id->0);
        if forall|j: int| 0 <= j < rows.len() && j != i ==> !(#[trigger] rows[j]).is_deleted {
            assert forall|j: int| 0 <= j < rest.len() && j != i implies !(#[trigger] rest[j]).is_deleted by {
                assert(rest[j] == rows[j]);
            }
            assert(!rows[rows.len() - 1].is_deleted);
        }
    }
}

impl EditorRow {
    /// Whether the row differs from what was fetched.
    pub fn is_modified(&self) -> (r: bool)
        ensures
            r == modified(self@),
    {
        match &self.original {
            None => true,
            Some(o) => {
                self.timestamp != o.timestamp || (self.value.text != o.value.text
                    && self.value_moved) || self.comment != o.comment
            },
        }
    }

    /// The disposition of the row.
    pub fn classify(&self) -> (d: Disposition)
        ensures
            d == disposition_of(self@),
    {
        if self.id.is_none() {
            if self.is_deleted {
                Disposition::Unchanged
            } else {
                Disposition::Create
            }
        } else if self.is_deleted {
            Disposition::Delete
        } else if self.is_modified() {
            Disposition::Update
        } else {
            Disposition::Unchanged
        }
    }

    /// The marker shown beside the row: `+` for a row to create, `*` for a
    /// known row that differs from what was fetched, a blank otherwise.
    pub fn marker(&self) -> (m: &'static str)
        ensures
            m@ == if self@.id is None {
                "+"@
            } else if modified(self@) {
                "*"@
            } else {
                " "@
            },
    {
        if self.id.is_none() {
            "+"
        } else if self.is_modified() {
            "*"
        } else {
            " "
        }
    }

    /// The create that the row amounts to.
    pub fn to_create(&self) -> (c: CreateDatapoint)
        ensures
            c@ == create_of(self@),
    {
        let dp = CreateDatapoint::new(self.value.clone()).with_timestamp(self.timestamp);
        if blank(self.comment.as_str()) {
            dp
        } else {
            dp.with_comment(self.comment.as_str())
        }
    }

    /// The update that the row amounts to.
    pub fn to_update(&self) -> (u: UpdateDatapoint)
        requires
            self.id is Some,
        ensures
            u@ == update_of(self@),
    {
        let id = match &self.id {
            Some(id) => id.clone(),
            None => String::new(),
        };
        let up = UpdateDatapoint::new(id).with_timestamp(self.timestamp).with_value(
            self.value.clone(),
        );
        if blank(self.comment.as_str()) {
            proof {
                reveal_strlit("");
                assert(""@ =~= Seq::<char>::empty());
            }
            up.with_comment("")
        } else {
            up.with_comment(self.comment.as_str())
        }
    }
}

/// The plan for a row set whose deletions are explicit tombstones: what the
/// table editor saves.
#[verifier::rlimit(40)]
pub fn plan_for_rows(rows: &Vec<EditorRow>) -> (plan: Plan)
    ensures
        plan@ == plan_of(rows_view(rows@)),
{
    let mut creates: Vec<CreateDatapoint> = Vec::new();
    let mut updates: Vec<UpdateDatapoint> = Vec::new();
    let mut deletes: Vec<String> = Vec::new();
    let mut i: usize = 0;
    proof {
        assert(rows_view(rows@).take(0) =~= Seq::<RowView>::empty());
        reveal(Seq::filter);
        assert(creates@.map_values(|p: CreateDatapoint| p@) =~= creates_of(Seq::<RowView>::empty()));
        assert(updates@.map_values(|u: UpdateDatapoint| u@) =~= updates_of(Seq::<RowView>::empty()));
        assert(deletes@.map_values(|s: String| s@) =~= deletes_of(Seq::<RowView>::empty()));
    }
    while i < rows.len()
        invariant
            0 <= i <= rows.len(),
            creates@.map_values(|p: CreateDatapoint| p@) == creates_of(rows_view(rows@).take(i as int)),
            updates@.map_values(|u: UpdateDatapoint| u@) == updates_of(rows_view(rows@).take(i as int)),
            deletes@.map_values(|s: String| s@) == deletes_of(rows_view(rows@).take(i as int)),
        decreases rows.len() - i,
    {
        let row = &rows[i];
        let ghost before_c = creates@;
        let ghost before_u = updates@;
        let ghost before_d = deletes@;
        proof {
            let all = rows_view(rows@);
            assert(all.take(i as int + 1) =~= all.take(i as int).push(row@));
            lemma_plan_push(all.take(i as int), row@);
        }
        match row.classify() {
            Disposition::Create => {
                let p = row.to_create();
                creates.push(p);
                proof {
                    assert(creates@.map_values(|p: CreateDatapoint| p@) =~= before_c.map_values(
                        |p: CreateDatapoint| p@,
                    ).push(create_of(row@)));
                }
            },
            Disposition::Update => {
                let u = row.to_update();
                updates.push(u);
                proof {
                    assert(updates@.map_values(|u: UpdateDatapoint| u@) =~= before_u.map_values(
                        |u: UpdateDatapoint| u@,
                    ).push(update_of(row@)));
                }
            },
            Disposition::Delete => {
                let id = match &row.id {
                    Some(id) => id.clone(),
                    None => String::new(),
                };
                deletes.push(id);
                proof {
                    assert(deletes@.map_values(|s: String| s@) =~= before_d.map_values(
                        |s: String| s@,
                    ).push(row@.id->0));
                }
            },
            Disposition::Unchanged => {},
        }
        i = i + 1;
    }
    proof {
        assert(rows_view(rows@).take(rows.len() as int) =~= rows_view(rows@));
    }
    Plan { creates, updates, deletes }
}

impl Plan {
    /// Whether the plan holds no operation.
    pub fn is_empty(&self) -> (r: bool)
        ensures
            r == (self@ == empty_plan()),
    {
        let r = self.creates.len() == 0 && self.updates.len() == 0 && self.deletes.len() == 0;
        proof {
            if r {
                assert(self@.creates =~= empty_plan().creates);
                assert(self@.updates =~= empty_plan().updates);
                assert(self@.deletes =~= empty_plan().deletes);
            } else {
                assert(self@.creates.len() == self.creates@.len());
                assert(self@.updates.len() == self.updates@.len());
                assert(self@.deletes.len() == self.deletes@.len());
            }
        }
        r
    }
}

} // verus!
