//! The state of the table editor: the rows, the cursor over them, and the
//! text of the cell that is being edited.

use vstd::prelude::*;
use vstd::string::StrSliceExecFns;
use vstd::string::StringExecFns;
use crate::model::{
    fresh_row, records_view, row_of_record, row_ok, rows_view, Datapoint, DatapointView, EditorRow,
    RowView,
};
use crate::plan::rows_of_records;

verus! {

/// How long a notice is shown, in milliseconds.
pub const STATUS_TTL: u64 = 4000;

/// How long the program waits for a key before it looks at its notices, in milliseconds.
pub const TICK_RATE: u64 = 200;

/// What is on the screen.
#[derive(Debug, PartialEq, Eq)]
pub enum Screen {
    /// The list of goals.
    Main,
    /// The table editor over the datapoints of one goal.
    Detail(DetailState),
}

/// What the keys of the goal list are taken for.
#[derive(Debug, PartialEq, Eq)]
pub enum MainInput {
    /// Commands.
    Normal,
    /// The text of a datapoint to add to the goal under the cursor.
    InlineAdd { buffer: String },
    /// The text that the goals shown must hold.
    Filter { buffer: String },
}

/// The weight of a notice.
#[derive(Debug, Clone, Copy, PartialEq, Eq, Structural)]
pub enum StatusKind {
    Info,
    Success,
    Error,
}

/// A notice, and when it was put up.
#[derive(Debug, PartialEq, Eq)]
pub struct StatusMessage {
    pub kind: StatusKind,
    pub text: String,
    /// When the notice was put up, in milliseconds on the caller's clock.
    pub created: u64,
}

impl StatusMessage {
    /// A notice put up at `now`.
    pub fn new(kind: StatusKind, text: String, now: u64) -> (m: StatusMessage)
        ensures
            m.kind == kind,
            m.text@ == text@,
            m.created == now,
    {
        StatusMessage { kind, text, created: now }
    }

    /// Whether the notice has been up for longer than notices are shown. A
    /// clock that reads less than when the notice was put up has not run.
    pub open spec fn expired_at(&self, now: u64) -> bool {
        now > self.created && now - self.created > STATUS_TTL
    }

    /// Whether the notice has been up for longer than notices are shown.
    pub fn is_expired(&self, now: u64) -> (r: bool)
        ensures
            r == self.expired_at(now),
    {
        now > self.created && now - self.created > STATUS_TTL
    }
}

/// The columns of the table that can be edited.
#[derive(Debug, Clone, Copy, PartialEq, Eq, Structural)]
pub enum EditorCol {
    Timestamp,
    Value,
    Comment,
}

impl EditorCol {
    /// The heading of the column.
    pub fn label(self) -> (r: &'static str)
        ensures
            r@ == match self {
                EditorCol::Timestamp => "TIMESTAMP"@,
                EditorCol::Value => "VALUE"@,
                EditorCol::Comment => "COMMENT"@,
            },
    {
        match self {
            EditorCol::Timestamp => "TIMESTAMP",
            EditorCol::Value => "VALUE",
            EditorCol::Comment => "COMMENT",
        }
    }

    /// The place of the column, counted from the left and from 0.
    pub open spec fn position(self) -> int {
        match self {
            EditorCol::Timestamp => 0,
            EditorCol::Value => 1,
            EditorCol::Comment => 2,
        }
    }

    /// The place of the column, counted from the left and from 0.
    pub fn index(self) -> (i: usize)
        ensures
            i == self.position(),
    {
        match self {
            EditorCol::Timestamp => 0,
            EditorCol::Value => 1,
            EditorCol::Comment => 2,
        }
    }

    /// The column at a place.
    pub fn from_index(i: usize) -> (col: EditorCol)
        requires
            i <= 2,
        ensures
            col == col_at(i as int),
            col.position() == i,
    {
        if i == 0 {
            EditorCol::Timestamp
        } else if i == 1 {
            EditorCol::Value
        } else {
            EditorCol::Comment
        }
    }
}

/// The column at the place `p`; the last column for any place beyond it.
pub open spec fn col_at(p: int) -> EditorCol {
    if p <= 0 {
        EditorCol::Timestamp
    } else if p == 1 {
        EditorCol::Value
    } else {
        EditorCol::Comment
    }
}

/// An index as a cursor sees it: one too large to be a signed offset counts as 0.
pub open spec fn cursor_index(i: usize) -> int {
    if i <= isize::MAX {
        i as int
    } else {
        0
    }
}

/// `current` moved by `delta` and kept between 0 and `max`.
pub open spec fn clamped(current: usize, delta: i32, max: usize) -> int {
    let next = cursor_index(current) + delta;
    if next < 0 {
        0
    } else if next > cursor_index(max) {
        cursor_index(max)
    } else {
        next
    }
}

/// Moves an index by `delta` and keeps it between 0 and `max`.
pub fn clamp_index(current: usize, delta: i32, max: usize) -> (next: usize)
    ensures
        next == clamped(current, delta, max),
{
    let top: usize = isize::MAX as usize;
    let from: i128 = if current <= top {
        current as i128
    } else {
        0
    };
    let limit: i128 = if max <= top {
        max as i128
    } else {
        0
    };
    let next: i128 = from + (delta as i128);
    if next < 0 {
        0
    } else if next > limit {
        limit as usize
    } else {
        next as usize
    }
}

/// The width, in terminal columns, at which a text is displayed.
pub uninterp spec fn width_of(s: Seq<char>) -> nat;

/// Calls `UnicodeWidthStr::width` of the `unicode-width` crate. The contract
/// claims only that the width is a function of the text.
#[verifier::external_body]
fn display_width(s: &str) -> (w: usize)
    ensures
        w == width_of(s@),
{
    unicode_width::UnicodeWidthStr::width(s)
}

/// The text of a cell while it is edited, and the place of the cursor in it.
#[derive(Debug, PartialEq, Eq)]
pub struct EditInput {
    pub buffer: String,
    /// The number of characters before the cursor.
    pub cursor: usize,
}

impl EditInput {
    /// Whether the cursor lies within the text or at its end.
    pub open spec fn wf(&self) -> bool {
        self.cursor <= self.buffer@.len()
    }

    /// Whether the cursor lies within the text or at its end.
    pub fn check(&self) -> (r: bool)
        ensures
            r == self.wf(),
    {
        self.cursor <= self.buffer.as_str().unicode_len()
    }

    /// The text of a cell taken up for editing, the cursor at its end.
    pub fn new(buffer: String) -> (input: EditInput)
        ensures
            input.buffer@ == buffer@,
            input.cursor == buffer@.len(),
            input.wf(),
    {
        let cursor = buffer.as_str().unicode_len();
        EditInput { buffer, cursor }
    }

    /// Inserts a character at the cursor, and moves the cursor behind it.
    pub fn insert(&mut self, c: char)
        requires
            old(self).wf(),
            old(self).buffer@.len() < usize::MAX,
        ensures
            final(self).buffer@ == old(self).buffer@.insert(old(self).cursor as int, c),
            final(self).cursor == old(self).cursor + 1,
            final(self).wf(),
    {
        let n: usize = self.buffer.as_str().unicode_len();
        let mut text = String::from_str(self.buffer.as_str().substring_char(0, self.cursor));
        text.push(c);
        text.append(self.buffer.as_str().substring_char(self.cursor, n));
        proof {
            assert(text@ =~= self.buffer@.insert(self.cursor as int, c));
        }
        self.buffer = text;
        self.cursor = self.cursor + 1;
    }

    /// Removes the character before the cursor, if there is one.
    pub fn backspace(&mut self)
        requires
            old(self).wf(),
        ensures
            old(self).cursor > 0 ==> final(self).buffer@ == old(self).buffer@.remove(
                old(self).cursor - 1,
            ) && final(self).cursor == old(self).cursor - 1,
            old(self).cursor == 0 ==> final(self).buffer@ == old(self).buffer@ && final(self).cursor
                == 0,
            final(self).wf(),
    {
        if self.cursor > 0 {
            let n: usize = self.buffer.as_str().unicode_len();
            let mut text = String::from_str(
                self.buffer.as_str().substring_char(0, self.cursor - 1),
            );
            text.append(self.buffer.as_str().substring_char(self.cursor, n));
            proof {
                assert(text@ =~= self.buffer@.remove(self.cursor - 1));
            }
            self.buffer = text;
            self.cursor = self.cursor - 1;
        }
    }

    /// Removes the character at the cursor, if there is one.
    pub fn delete(&mut self)
        requires
            old(self).wf(),
        ensures
            old(self).cursor < old(self).buffer@.len() ==> final(self).buffer@ == old(
                self,
            ).buffer@.remove(old(self).cursor as int),
            old(self).cursor == old(self).buffer@.len() ==> final(self).buffer@ == old(
                self,
            ).buffer@,
            final(self).cursor == old(self).cursor,
            final(self).wf(),
    {
        let n: usize = self.buffer.as_str().unicode_len();
        if self.cursor < n {
            let mut text = String::from_str(self.buffer.as_str().substring_char(0, self.cursor));
            text.append(self.buffer.as_str().substring_char(self.cursor + 1, n));
            proof {
                assert(text@ =~= self.buffer@.remove(self.cursor as int));
            }
            self.buffer = text;
        }
    }

    /// Moves the cursor one character to the left, unless it is at the start.
    pub fn move_left(&mut self)
        requires
            old(self).wf(),
        ensures
            final(self).buffer@ == old(self).buffer@,
            final(self).cursor == if old(self).cursor > 0 {
                old(self).cursor - 1
            } else {
                0
            },
            final(self).wf(),
    {
        if self.cursor > 0 {
            self.cursor = self.cursor - 1;
        }
    }

    /// Moves the cursor one character to the right, unless it is at the end.
    pub fn move_right(&mut self)
        requires
            old(self).wf(),
        ensures
            final(self).buffer@ == old(self).buffer@,
            final(self).cursor == if old(self).cursor < old(self).buffer@.len() {
                old(self).cursor + 1
            } else {
                old(self).cursor as int
            },
            final(self).wf(),
    {
        let n: usize = self.buffer.as_str().unicode_len();
        if self.cursor < n {
            self.cursor = self.cursor + 1;
        }
    }

    /// Moves the cursor to the start.
    pub fn move_home(&mut self)
        ensures
            final(self).buffer@ == old(self).buffer@,
            final(self).cursor == 0,
            final(self).wf(),
    {
        self.cursor = 0;
    }

    /// Moves the cursor to the end.
    pub fn move_end(&mut self)
        ensures
            final(self).buffer@ == old(self).buffer@,
            final(self).cursor == old(self).buffer@.len(),
            final(self).wf(),
    {
        self.cursor = self.buffer.as_str().unicode_len();
    }

    /// The width, in terminal columns, of the text before the cursor.
    pub fn cursor_display_width(&self) -> (w: usize)
        requires
            self.wf(),
        ensures
            w == width_of(self.buffer@.take(self.cursor as int)),
    {
        proof {
            assert(self.buffer@.subrange(0, self.cursor as int) =~= self.buffer@.take(
                self.cursor as int,
            ));
        }
        display_width(self.buffer.as_str().substring_char(0, self.cursor))
    }
}

/// The table editor over the datapoints of one goal.
#[derive(Debug, PartialEq, Eq)]
pub struct DetailState {
    pub goal_slug: String,
    pub goal_title: String,
    pub rows: Vec<EditorRow>,
    /// The index of the row under the cursor, if any.
    pub selected: Option<usize>,
    pub selected_col: EditorCol,
    /// The cell editor, while a cell is being edited.
    pub input: Option<EditInput>,
    /// Whether a row was inserted, changed or tombstoned since the rows were fetched.
    pub dirty: bool,
    /// Whether leaving with unsaved changes has been asked for once.
    pub confirm_discard: bool,
}

/// The mathematical value of an [`EditInput`].
pub struct InputView {
    pub buffer: Seq<char>,
    pub cursor: int,
}

/// The mathematical value of a [`DetailState`].
pub struct DetailView {
    pub goal_slug: Seq<char>,
    pub goal_title: Seq<char>,
    pub rows: Seq<RowView>,
    pub selected: Option<int>,
    pub selected_col: EditorCol,
    pub input: Option<InputView>,
    pub dirty: bool,
    pub confirm_discard: bool,
}

impl View for EditInput {
    type V = InputView;

    open spec fn view(&self) -> InputView {
        InputView { buffer: self.buffer@, cursor: self.cursor as int }
    }
}

/// The value of an optional cell editor.
pub open spec fn opt_input(i: Option<EditInput>) -> Option<InputView> {
    match i {
        Some(x) => Some(x@),
        None => None,
    }
}

/// The value of an optional index.
pub open spec fn opt_index(i: Option<usize>) -> Option<int> {
    match i {
        Some(x) => Some(x as int),
        None => None,
    }
}

impl View for DetailState {
    type V = DetailView;

    open spec fn view(&self) -> DetailView {
        DetailView {
            goal_slug: self.goal_slug@,
            goal_title: self.goal_title@,
            rows: rows_view(self.rows@),
            selected: opt_index(self.selected),
            selected_col: self.selected_col,
            input: opt_input(self.input),
            dirty: self.dirty,
            confirm_discard: self.confirm_discard,
        }
    }
}

/// Whether the cursor of a table is on one of its rows exactly when it has
/// rows, every row has its invariant, and the cursor of an open cell editor
/// lies within its text.
pub open spec fn detail_ok(d: DetailView) -> bool {
    &&& d.selected is Some <==> d.rows.len() > 0
    &&& d.selected is Some ==> 0 <= d.selected->0 < d.rows.len()
    &&& forall|k: int| 0 <= k < d.rows.len() ==> row_ok(#[trigger] d.rows[k])
    &&& d.input is Some ==> 0 <= d.input->0.cursor <= d.input->0.buffer.len()
}

/// The row under the cursor, if the cursor is on a row.
pub open spec fn selected_row(d: DetailView) -> Option<int> {
    match d.selected {
        Some(i) => if 0 <= i < d.rows.len() {
            Some(i)
        } else {
            None
        },
        None => None,
    }
}

/// The state with unsaved changes noted.
pub open spec fn dirtied(d: DetailView) -> DetailView {
    DetailView { dirty: true, confirm_discard: false, ..d }
}

/// The table as it is opened on fetched datapoints: their rows in the order
/// fetched, the cursor on the first row and the first column, nothing edited.
pub open spec fn opened(slug: Seq<char>, title: Seq<char>, records: Seq<DatapointView>)
    -> DetailView {
    DetailView {
        goal_slug: slug,
        goal_title: title,
        rows: rows_of_records(records),
        selected: if records.len() > 0 {
            Some(0)
        } else {
            None
        },
        selected_col: EditorCol::Timestamp,
        input: None,
        dirty: false,
        confirm_discard: false,
    }
}

/// The state after the cursor moved by `delta` rows.
pub open spec fn row_moved(d: DetailView, delta: i32) -> DetailView {
    if d.rows.len() == 0 {
        d
    } else {
        let from = match d.selected {
            Some(i) => i,
            None => 0,
        };
        DetailView {
            selected: Some(clamped(from as usize, delta, (d.rows.len() - 1) as usize)),
            ..d
        }
    }
}

/// The state after the cursor moved by `delta` columns.
pub open spec fn col_moved(d: DetailView, delta: i32) -> DetailView {
    DetailView {
        selected_col: col_at(clamped(d.selected_col.position() as usize, delta, 2)),
        ..d
    }
}

/// The row with its tombstone flipped.
pub open spec fn toggled_row(r: RowView) -> RowView {
    RowView { is_deleted: !r.is_deleted, ..r }
}

/// The state after the tombstone of the row under the cursor was flipped.
pub open spec fn delete_toggled(d: DetailView) -> DetailView {
    match selected_row(d) {
        Some(i) => dirtied(DetailView { rows: d.rows.update(i, toggled_row(d.rows[i])), ..d }),
        None => d,
    }
}

/// The state after a new row was put before all others, the cursor on it.
pub open spec fn row_added(d: DetailView, now: int) -> DetailView {
    dirtied(DetailView { rows: seq![fresh_row(now)] + d.rows, selected: Some(0), ..d })
}

impl DetailState {
    /// Whether the state satisfies its invariant.
    pub open spec fn wf(&self) -> bool {
        detail_ok(self@)
    }

    /// Opens the table on the datapoints fetched for a goal.
    pub fn from_datapoints(goal_slug: String, goal_title: String, datapoints: &Vec<Datapoint>) -> (d:
        DetailState)
        ensures
            d@ == opened(goal_slug@, goal_title@, records_view(datapoints@)),
            d.wf(),
    {
        let ghost all = records_view(datapoints@);
        let mut rows: Vec<EditorRow> = Vec::new();
        let mut i: usize = 0;
        proof {
            assert(rows_view(rows@) =~= rows_of_records(all.take(0)));
        }
        while i < datapoints.len()
            invariant
                0 <= i <= datapoints.len(),
                all == records_view(datapoints@),
                rows_view(rows@) == rows_of_records(all.take(i as int)),
            decreases datapoints.len() - i,
        {
            let ghost before = rows@;
            let row = EditorRow::from_datapoint(&datapoints[i]);
            rows.push(row);
            proof {
                assert(rows_view(rows@) =~= rows_view(before).push(row@));
                assert(rows_of_records(all.take(i as int + 1)) =~= rows_of_records(
                    all.take(i as int),
                ).push(row_of_record(all[i as int])));
            }
            i = i + 1;
        }
        proof {
            assert(all.take(datapoints.len() as int) =~= all);
        }
        let selected = if rows.len() > 0 {
            Some(0)
        } else {
            None
        };
        DetailState {
            goal_slug,
            goal_title,
            rows,
            selected,
            selected_col: EditorCol::Timestamp,
            input: None,
            dirty: false,
            confirm_discard: false,
        }
    }

    /// The index of the row under the cursor, if any.
    pub fn selected_row_index(&self) -> (i: Option<usize>)
        ensures
            i == self.selected,
    {
        self.selected
    }

    /// The row under the cursor, to be changed in place.
    pub fn selected_row_mut(&mut self) -> (r: Option<&mut EditorRow>)
        ensures
            match r {
                Some(row) => {
                    &&& old(self).selected is Some
                    &&& old(self).selected->0 < old(self).rows@.len()
                    &&& *row == old(self).rows@[old(self).selected->0 as int]
                    &&& final(self).rows@ == old(self).rows@.update(
                        old(self).selected->0 as int,
                        *final(row),
                    )
                    &&& final(self).selected == old(self).selected
                    &&& final(self).selected_col == old(self).selected_col
                    &&& final(self).input == old(self).input
                    &&& final(self).dirty == old(self).dirty
                    &&& final(self).confirm_discard == old(self).confirm_discard
                    &&& final(self).goal_slug == old(self).goal_slug
                    &&& final(self).goal_title == old(self).goal_title
                },
                None => selected_row(old(self)@) is None && *final(self) == *old(self),
            },
    {
        match self.selected {
            Some(i) => {
                if i < self.rows.len() {
                    Some(&mut self.rows[i])
                } else {
                    None
                }
            },
            None => None,
        }
    }

    /// Notes that there are unsaved changes.
    pub fn mark_dirty(&mut self)
        ensures
            final(self)@ == dirtied(old(self)@),
    {
        self.dirty = true;
        self.confirm_discard = false;
    }

    /// Moves the cursor by `delta` rows, and keeps it on the table.
    pub fn move_row(&mut self, delta: i32)
        ensures
            final(self)@ == row_moved(old(self)@, delta),
            old(self).wf() ==> final(self).wf(),
    {
        if self.rows.len() == 0 {
            return ;
        }
        let from = match self.selected {
            Some(i) => i,
            None => 0,
        };
        let next = clamp_index(from, delta, self.rows.len() - 1);
        self.selected = Some(next);
    }

    /// Moves the cursor by `delta` columns, and keeps it on the table.
    pub fn move_col(&mut self, delta: i32)
        ensures
            final(self)@ == col_moved(old(self)@, delta),
            old(self).wf() ==> final(self).wf(),
    {
        let next = clamp_index(self.selected_col.index(), delta, 2);
        self.selected_col = EditorCol::from_index(next);
    }

    /// Flips the tombstone of the row under the cursor, and notes the change.
    pub fn toggle_delete(&mut self)
        ensures
            final(self)@ == delete_toggled(old(self)@),
            old(self).wf() ==> final(self).wf(),
    {
        match self.selected {
            Some(i) => {
                if i < self.rows.len() {
                    let mut row = self.rows.remove(i);
                    row.is_deleted = !row.is_deleted;
                    self.rows.insert(i, row);
                    proof {
                        assert(rows_view(self.rows@) =~= old(self)@.rows.update(
                            i as int,
                            toggled_row(old(self)@.rows[i as int]),
                        ));
                    }
                    self.mark_dirty();
                }
            },
            None => {},
        }
    }

    /// Puts a new row at `now` before all others, sets the cursor on it, and
    /// notes the change.
    pub fn add_new_row(&mut self, now: i64)
        requires
            old(self).rows@.len() < usize::MAX,
        ensures
            final(self)@ == row_added(old(self)@, now as int),
            old(self).wf() ==> final(self).wf(),
    {
        let row = EditorRow::new(now);
        self.rows.insert(0, row);
        proof {
            assert(rows_view(self.rows@) =~= seq![fresh_row(now as int)] + old(self)@.rows);
        }
        self.selected = Some(0);
        self.mark_dirty();
    }
}

/// The first row to show so that the row under the cursor is among the
/// `height` rows on the screen: the offset as it is where that row is
/// among them already, and else the least change that brings it there.
pub open spec fn offset_for(selected: Option<usize>, offset: usize, height: usize) -> int {
    match selected {
        Some(s) => if height == 0 {
            offset as int
        } else if s < offset {
            s as int
        } else if s >= offset + height {
            s - (height - 1)
        } else {
            offset as int
        },
        None => offset as int,
    }
}

/// The first row to show so that the row under the cursor is on the screen.
pub fn visible_offset(selected: Option<usize>, offset: usize, height: usize) -> (r: usize)
    ensures
        r == offset_for(selected, offset, height),
{
    match selected {
        Some(s) => {
            if height == 0 {
                offset
            } else if s < offset {
                s
            } else if s - offset >= height {
                s - (height - 1)
            } else {
                offset
            }
        },
        None => offset,
    }
}

} // verus!
