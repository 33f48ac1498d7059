//! What a key does to the table editor.
//!
//! The terminal and the remote store are the caller's. The caller hands over
//! each key with what it knows of the moment, and acts on the outcome: it
//! shows a notice, leaves the table, or applies the plan that a save yields.

use vstd::prelude::*;
use vstd::string::StrSliceExecFns;
use vstd::string::StringExecFns;
use crate::goals::{parse_value_and_comment, value_and_comment, GoalSummary, InlineAddError};
use crate::list::{
    cursor_goal, filter_applied, filter_cancelled, filter_entered, filter_typed,
    inline_add_started, noticed, selection_moved, slug_selected, App, InputModeView, ListView,
};
use crate::model::{records_view, rows_view, Datapoint, Measurement, RowView};
use crate::requests::{CreateDatapoint, CreateView};
use crate::state::{opened, MainInput, Screen, StatusKind};
use crate::number::is_number_text;
use crate::plan::{empty_plan, modified, plan_for_rows, plan_of, tombstone_means_delete, Plan, PlanView};
use crate::stamp::{format_timestamp, parse_timestamp, timestamp_of_text, timestamp_text};
use crate::state::{
    col_moved, delete_toggled, detail_ok, dirtied, row_added, row_moved, selected_row, toggled_row,
    DetailState, DetailView, EditInput, EditorCol, InputView,
};
use crate::text::{trim, trimmed};

verus! {

/// A key, as the program tells keys apart.
#[derive(Debug, Clone, Copy, PartialEq, Eq, Structural)]
pub enum Key {
    Esc,
    Enter,
    Backspace,
    Up,
    Down,
    Left,
    Right,
    /// A character key, and whether the control key was held with it.
    Char { c: char, control: bool },
    Other,
}

/// Why the text of a cell was not taken.
#[derive(Debug, Clone, Copy, PartialEq, Eq, Structural)]
pub enum ValidationError {
    InvalidTimestamp,
    InvalidValue,
}

/// What the caller knows when a key arrives.
#[derive(Debug, Clone, Copy, PartialEq, Eq, Structural)]
pub struct EditContext {
    /// The present, in seconds since the Unix epoch.
    pub now: i64,
    /// The local offset, in seconds east of UTC.
    pub offset: i32,
    /// The caller's judgement on the text in the cell editor, consulted when
    /// a value is committed: whether it denotes a number outside the
    /// tolerance around the fetched one.
    pub value_moved: bool,
}

/// What the caller is to do after a key.
#[derive(Debug, PartialEq, Eq)]
pub enum DetailOutcome {
    /// Nothing: the table stays open.
    Stay,
    /// Leave the table.
    Exit,
    /// There are unsaved changes: say that the same key once more discards them.
    ConfirmDiscard,
    /// The text of the cell was not taken: say why. The cell editor stays open.
    Invalid(ValidationError),
    /// A save was asked for and there is nothing to save: say so.
    NoChanges,
    /// A save was asked for: apply the plan.
    Save(Plan),
}

/// The mathematical value of a [`DetailOutcome`].
pub enum OutcomeView {
    Stay,
    Exit,
    ConfirmDiscard,
    Invalid(ValidationError),
    NoChanges,
    Save(PlanView),
}

impl View for DetailOutcome {
    type V = OutcomeView;

    open spec fn view(&self) -> OutcomeView {
        match self {
            DetailOutcome::Stay => OutcomeView::Stay,
            DetailOutcome::Exit => OutcomeView::Exit,
            DetailOutcome::ConfirmDiscard => OutcomeView::ConfirmDiscard,
            DetailOutcome::Invalid(e) => OutcomeView::Invalid(*e),
            DetailOutcome::NoChanges => OutcomeView::NoChanges,
            DetailOutcome::Save(p) => OutcomeView::Save(p@),
        }
    }
}

/// The text of a cell: the timestamp in the local time of `offset`, or the
/// empty text where it has none; the value; the comment.
pub open spec fn cell_text(r: RowView, col: EditorCol, offset: int) -> Seq<char> {
    match col {
        EditorCol::Timestamp => match timestamp_text(r.timestamp, offset) {
            Some(t) => t,
            None => Seq::<char>::empty(),
        },
        EditorCol::Value => r.value,
        EditorCol::Comment => r.comment,
    }
}

/// The state after the cell under the cursor was taken up for editing: the
/// cell editor holds the text of the cell, its cursor at the end.
pub open spec fn edit_started(d: DetailView, offset: int) -> DetailView {
    match selected_row(d) {
        Some(i) => {
            let text = cell_text(d.rows[i], d.selected_col, offset);
            DetailView {
                input: Some(InputView { buffer: text, cursor: text.len() as int }),
                ..d
            }
        },
        None => d,
    }
}

/// The row after `text` was committed to its cell in the column `col`.
/// White space around the text is dropped. A timestamp is read in the local
/// time of the context's offset, a value must denote a number, and a comment
/// is taken as it is.
pub open spec fn committed_row(r: RowView, col: EditorCol, text: Seq<char>, ctx: EditContext)
    -> Result<RowView, ValidationError> {
    let t = trimmed(text);
    match col {
        EditorCol::Timestamp => match timestamp_of_text(t, ctx.offset as int) {
            Some(at) => Ok(RowView { timestamp: at, ..r }),
            None => Err(ValidationError::InvalidTimestamp),
        },
        EditorCol::Value => if is_number_text(t) {
            Ok(RowView { value: t, value_moved: ctx.value_moved, ..r })
        } else {
            Err(ValidationError::InvalidValue)
        },
        EditorCol::Comment => Ok(RowView { comment: t, ..r }),
    }
}

/// The state after `text` was committed to the cell under the cursor. A row
/// that then differs from what was fetched makes the state dirty. Where the
/// text is not taken, nothing changes.
pub open spec fn edit_applied(d: DetailView, text: Seq<char>, ctx: EditContext) -> Result<
    DetailView,
    ValidationError,
> {
    match selected_row(d) {
        None => Ok(d),
        Some(i) => match committed_row(d.rows[i], d.selected_col, text, ctx) {
            Err(e) => Err(e),
            Ok(r) => {
                let next = DetailView { rows: d.rows.update(i, r), ..d };
                Ok(
                    if modified(r) {
                        dirtied(next)
                    } else {
                        next
                    },
                )
            },
        },
    }
}

/// The cell editor after a character was typed at the cursor.
pub open spec fn typed(i: InputView, c: char) -> InputView {
    if 0 <= i.cursor <= i.buffer.len() < usize::MAX {
        InputView { buffer: i.buffer.insert(i.cursor, c), cursor: i.cursor + 1 }
    } else {
        i
    }
}

/// The cell editor after the character before the cursor was rubbed out.
pub open spec fn rubbed(i: InputView) -> InputView {
    if 0 < i.cursor <= i.buffer.len() {
        InputView { buffer: i.buffer.remove(i.cursor - 1), cursor: i.cursor - 1 }
    } else {
        i
    }
}

/// What a key does while a cell is being edited.
pub open spec fn editing_step(d: DetailView, input: InputView, key: Key, ctx: EditContext)
    -> (DetailView, OutcomeView) {
    match key {
        Key::Esc => (DetailView { input: None, ..d }, OutcomeView::Stay),
        Key::Enter => match edit_applied(
            DetailView { input: None, ..d },
            input.buffer,
            ctx,
        ) {
            Ok(next) => (next, OutcomeView::Stay),
            Err(e) => (d, OutcomeView::Invalid(e)),
        },
        Key::Backspace => (
            DetailView { input: Some(rubbed(input)), ..d },
            OutcomeView::Stay,
        ),
        Key::Char { c, control } => if control {
            (d, OutcomeView::Stay)
        } else {
            (DetailView { input: Some(typed(input, c)), ..d }, OutcomeView::Stay)
        },
        _ => (d, OutcomeView::Stay),
    }
}

/// What a save does: it asks for the plan of the rows, unless that is empty.
pub open spec fn save_step(d: DetailView) -> (DetailView, OutcomeView) {
    if plan_of(d.rows) == empty_plan() {
        (d, OutcomeView::NoChanges)
    } else {
        (d, OutcomeView::Save(plan_of(d.rows)))
    }
}

/// What leaving does: with unsaved changes it takes two keys, the first of
/// which asks for the second.
pub open spec fn leave_step(d: DetailView) -> (DetailView, OutcomeView) {
    if d.dirty && !d.confirm_discard {
        (DetailView { confirm_discard: true, ..d }, OutcomeView::ConfirmDiscard)
    } else {
        (d, OutcomeView::Exit)
    }
}

/// What a key does while no cell is being edited.
pub open spec fn viewing_step(d: DetailView, key: Key, ctx: EditContext) -> (
    DetailView,
    OutcomeView,
) {
    match key {
        Key::Esc => leave_step(d),
        Key::Down => (row_moved(d, 1), OutcomeView::Stay),
        Key::Up => (row_moved(d, -1i32), OutcomeView::Stay),
        Key::Left => (col_moved(d, -1i32), OutcomeView::Stay),
        Key::Right => (col_moved(d, 1), OutcomeView::Stay),
        Key::Enter => (edit_started(d, ctx.offset as int), OutcomeView::Stay),
        Key::Char { c, control } => if c == 'j' {
            (row_moved(d, 1), OutcomeView::Stay)
        } else if c == 'k' {
            (row_moved(d, -1i32), OutcomeView::Stay)
        } else if c == 'h' {
            (col_moved(d, -1i32), OutcomeView::Stay)
        } else if c == 'l' {
            (col_moved(d, 1), OutcomeView::Stay)
        } else if c == 'n' {
            if d.rows.len() < usize::MAX {
                (row_added(d, ctx.now as int), OutcomeView::Stay)
            } else {
                (d, OutcomeView::Stay)
            }
        } else if c == 'd' {
            (delete_toggled(d), OutcomeView::Stay)
        } else if c == 's' {
            save_step(d)
        } else {
            (d, OutcomeView::Stay)
        },
        _ => (d, OutcomeView::Stay),
    }
}

/// What a key does to the table editor, and what the caller is to do then.
pub open spec fn key_step(d: DetailView, key: Key, ctx: EditContext) -> (
    DetailView,
    OutcomeView,
) {
    match d.input {
        Some(input) => editing_step(d, input, key, ctx),
        None => viewing_step(d, key, ctx),
    }
}

/// Tombstoning the row under the cursor and then saving asks for a plan that
/// deletes that row and, where no other row is tombstoned, nothing else; the
/// creates and updates of the plan are those of the other rows, so that what
/// was edited in the tombstoned row is not sent.
#[verifier::rlimit(40)]
pub proof fn tombstone_then_save_deletes(d: DetailView, ctx: EditContext)
    requires
        detail_ok(d),
        d.input is None,
        d.selected is Some,
        d.rows[d.selected->0].id is Some,
        forall|j: int| 0 <= j < d.rows.len() ==> !(#[trigger] d.rows[j]).is_deleted,
    ensures
        ({
            let i = d.selected->0;
            let marked = key_step(d, Key::Char { c: 'd', control: false }, ctx).0;
            let saved = key_step(marked, Key::Char { c: 's', control: false }, ctx);
            &&& marked.dirty
            &&& saved.0 == marked
            &&& saved.1 is Save
            &&& saved.1->Save_0.deletes == seq![d.rows[i].id->0]
            &&& saved.1->Save_0.creates == plan_of(d.rows.remove(i)).creates
            &&& saved.1->Save_0.updates == plan_of(d.rows.remove(i)).updates
        }),
{
    let i = d.selected->0;
    let marked = key_step(d, Key::Char { c: 'd', control: false }, ctx).0;
    assert(marked.rows == d.rows.update(i, toggled_row(d.rows[i])));
    assert(marked.rows.remove(i) =~= d.rows.remove(i));
    tombstone_means_delete(marked.rows, i);
    assert(plan_of(marked.rows).deletes.len() == 1);
}

/// A text that is not taken changes nothing: the row keeps what it held,
/// and the cell editor stays open on the text as it was typed.
pub proof fn refused_text_changes_nothing(d: DetailView, ctx: EditContext)
    requires
        d.input is Some,
    ensures
        key_step(d, Key::Enter, ctx).1 is Invalid ==> key_step(d, Key::Enter, ctx).0 == d,
        key_step(d, Key::Enter, ctx).1 is Invalid || key_step(d, Key::Enter, ctx).1 is Stay,
        key_step(d, Key::Enter, ctx).1 is Stay ==> key_step(d, Key::Enter, ctx).0.input is None,
{
}

/// Giving up an edit leaves every row as it was, and closes the cell editor.
pub proof fn cancelled_edit_changes_no_row(d: DetailView, ctx: EditContext)
    requires
        d.input is Some,
    ensures
        key_step(d, Key::Esc, ctx) == (DetailView { input: None, ..d }, OutcomeView::Stay),
{
}

/// A table with unsaved changes is not left at the first asking: the first
/// key asks for a second, and any change in between asks anew.
pub proof fn unsaved_changes_need_two_keys(d: DetailView, ctx: EditContext)
    requires
        d.input is None,
        d.dirty,
    ensures
        !d.confirm_discard ==> key_step(d, Key::Esc, ctx).1 is ConfirmDiscard,
        !d.confirm_discard ==> key_step(key_step(d, Key::Esc, ctx).0, Key::Esc, ctx).1 is Exit,
        d.confirm_discard ==> key_step(d, Key::Esc, ctx).1 is Exit,
        !dirtied(d).confirm_discard,
{
}

/// A table without unsaved changes is left at the first asking.
pub proof fn clean_table_is_left_at_once(d: DetailView, ctx: EditContext)
    requires
        d.input is None,
        !d.dirty,
    ensures
        key_step(d, Key::Esc, ctx) == (d, OutcomeView::Exit),
{
}

impl ValidationError {
    /// The notice for the fault.
    pub fn message(&self) -> (m: &'static str)
        ensures
            m@ == match self {
                ValidationError::InvalidTimestamp => "Invalid timestamp (expected YYYY-MM-DD HH:MM:SS)"@,
                ValidationError::InvalidValue => "Invalid value"@,
            },
    {
        match self {
            ValidationError::InvalidTimestamp => "Invalid timestamp (expected YYYY-MM-DD HH:MM:SS)",
            ValidationError::InvalidValue => "Invalid value",
        }
    }
}

/// Takes up the cell under the cursor for editing.
pub fn start_detail_edit(detail: &mut DetailState, offset: i32)
    ensures
        final(detail)@ == edit_started(old(detail)@, offset as int),
        old(detail).wf() ==> final(detail).wf(),
{
    match detail.selected {
        Some(i) => {
            if i < detail.rows.len() {
                let row = &detail.rows[i];
                let buffer = match detail.selected_col {
                    EditorCol::Timestamp => match format_timestamp(row.timestamp, offset) {
                        Some(t) => t,
                        None => String::new(),
                    },
                    EditorCol::Value => row.value.text.clone(),
                    EditorCol::Comment => row.comment.clone(),
                };
                detail.input = Some(EditInput::new(buffer));
            }
        },
        None => {},
    }
}

/// Commits `input` to the cell under the cursor.
#[verifier::rlimit(40)]
pub fn apply_detail_edit(detail: &mut DetailState, input: &str, ctx: &EditContext) -> (r: Result<
    (),
    ValidationError,
>)
    ensures
        match r {
            Ok(_) => edit_applied(old(detail)@, input@, *ctx) == Ok::<DetailView, ValidationError>(
                final(detail)@,
            ),
            Err(e) => edit_applied(old(detail)@, input@, *ctx) == Err::<
                DetailView,
                ValidationError,
            >(e) && final(detail)@ == old(detail)@,
        },
        old(detail).wf() ==> final(detail).wf(),
{
    let i = match detail.selected {
        Some(i) => i,
        None => {
            return Ok(());
        },
    };
    if i >= detail.rows.len() {
        return Ok(());
    }
    let text = trim(input);
    let ghost before = detail@;
    let modified: bool;
    match detail.selected_col {
        EditorCol::Timestamp => {
            let at = match parse_timestamp(text.as_str(), ctx.offset) {
                Some(at) => at,
                None => {
                    return Err(ValidationError::InvalidTimestamp);
                },
            };
            let mut row = detail.rows.remove(i);
            row.timestamp = at;
            modified = row.is_modified();
            detail.rows.insert(i, row);
        },
        EditorCol::Value => {
            let value = match Measurement::parse(text.as_str()) {
                Some(v) => v,
                None => {
                    return Err(ValidationError::InvalidValue);
                },
            };
            let mut row = detail.rows.remove(i);
            row.value = value;
            row.value_moved = ctx.value_moved;
            modified = row.is_modified();
            detail.rows.insert(i, row);
        },
        EditorCol::Comment => {
            let mut row = detail.rows.remove(i);
            row.comment = text;
            modified = row.is_modified();
            detail.rows.insert(i, row);
        },
    }
    proof {
        let r = committed_row(before.rows[i as int], before.selected_col, input@, *ctx)->Ok_0;
        assert(rows_view(detail.rows@) =~= before.rows.update(i as int, r));
    }
    if modified {
        detail.mark_dirty();
    }
    Ok(())
}

/// Handles one key, and says what the caller is to do.
#[verifier::rlimit(40)]
pub fn handle_detail_key(detail: &mut DetailState, key: Key, ctx: &EditContext) -> (out:
    DetailOutcome)
    ensures
        (final(detail)@, out@) == key_step(old(detail)@, key, *ctx),
        old(detail).wf() ==> final(detail).wf(),
{
    match detail.input.take() {
        Some(input) => {
            let mut input = input;
            match key {
                Key::Esc => DetailOutcome::Stay,
                Key::Enter => {
                    match apply_detail_edit(detail, input.buffer.as_str(), ctx) {
                        Ok(_) => DetailOutcome::Stay,
                        Err(e) => {
                            detail.input = Some(input);
                            DetailOutcome::Invalid(e)
                        },
                    }
                },
                Key::Backspace => {
                    if input.cursor <= input.buffer.as_str().unicode_len() {
                        input.backspace();
                    }
                    detail.input = Some(input);
                    DetailOutcome::Stay
                },
                Key::Char { c, control } => {
                    if !control {
                        let n = input.buffer.as_str().unicode_len();
                        if input.cursor <= n && n < usize::MAX {
                            input.insert(c);
                        }
                    }
                    detail.input = Some(input);
                    DetailOutcome::Stay
                },
                _ => {
                    detail.input = Some(input);
                    DetailOutcome::Stay
                },
            }
        },
        None => handle_viewing_key(detail, key, ctx),
    }
}

/// Handles one key while no cell is being edited.
fn handle_viewing_key(detail: &mut DetailState, key: Key, ctx: &EditContext) -> (out:
    DetailOutcome)
    requires
        old(detail).input is None,
    ensures
        (final(detail)@, out@) == viewing_step(old(detail)@, key, *ctx),
        old(detail).wf() ==> final(detail).wf(),
{
    match key {
        Key::Esc => {
            if detail.dirty && !detail.confirm_discard {
                detail.confirm_discard = true;
                DetailOutcome::ConfirmDiscard
            } else {
                DetailOutcome::Exit
            }
        },
        Key::Down => {
            detail.move_row(1);
            DetailOutcome::Stay
        },
        Key::Up => {
            detail.move_row(-1);
            DetailOutcome::Stay
        },
        Key::Left => {
            detail.move_col(-1);
            DetailOutcome::Stay
        },
        Key::Right => {
            detail.move_col(1);
            DetailOutcome::Stay
        },
        Key::Enter => {
            start_detail_edit(detail, ctx.offset);
            DetailOutcome::Stay
        },
        Key::Char { c, control } => {
            if c == 'j' {
                detail.move_row(1);
                DetailOutcome::Stay
            } else if c == 'k' {
                detail.move_row(-1);
                DetailOutcome::Stay
            } else if c == 'h' {
                detail.move_col(-1);
                DetailOutcome::Stay
            } else if c == 'l' {
                detail.move_col(1);
                DetailOutcome::Stay
            } else if c == 'n' {
                if detail.rows.len() < usize::MAX {
                    detail.add_new_row(ctx.now);
                }
                DetailOutcome::Stay
            } else if c == 'd' {
                detail.toggle_delete();
                DetailOutcome::Stay
            } else if c == 's' {
                save_detail_changes(detail)
            } else {
                DetailOutcome::Stay
            }
        },
        _ => DetailOutcome::Stay,
    }
}

/// The outcome of a save: the plan of the rows, or the notice that there is
/// nothing to save.
pub fn save_detail_changes(detail: &DetailState) -> (out: DetailOutcome)
    ensures
        (detail@, out@) == save_step(detail@),
{
    let plan = plan_for_rows(&detail.rows);
    if plan.is_empty() {
        DetailOutcome::NoChanges
    } else {
        DetailOutcome::Save(plan)
    }
}

/// What the caller is to do after a key.
#[derive(Debug, PartialEq, Eq)]
pub enum KeyAction {
    /// Nothing.
    Nothing,
    /// End the program.
    Quit,
    /// Fetch the goals, and hand them to [`App::refresh_goals`].
    Refresh,
    /// Add the datapoint to the goal, and say how it went with
    /// [`datapoint_added`] or [`App::set_status`].
    AddDatapoint { slug: String, datapoint: CreateDatapoint },
    /// Fetch the last `count` datapoints of the goal, and hand them to [`show_detail`].
    OpenDetail { slug: String, count: usize },
    /// Apply the plan to the goal.
    Save { slug: String, plan: Plan },
}

/// The mathematical value of a [`KeyAction`].
pub enum ActionView {
    Nothing,
    Quit,
    Refresh,
    AddDatapoint { slug: Seq<char>, datapoint: CreateView },
    OpenDetail { slug: Seq<char>, count: usize },
    Save { slug: Seq<char>, plan: PlanView },
}

impl View for KeyAction {
    type V = ActionView;

    open spec fn view(&self) -> ActionView {
        match self {
            KeyAction::Nothing => ActionView::Nothing,
            KeyAction::Quit => ActionView::Quit,
            KeyAction::Refresh => ActionView::Refresh,
            KeyAction::AddDatapoint { slug, datapoint } => ActionView::AddDatapoint {
                slug: slug@,
                datapoint: datapoint@,
            },
            KeyAction::OpenDetail { slug, count } => ActionView::OpenDetail {
                slug: slug@,
                count: *count,
            },
            KeyAction::Save { slug, plan } => ActionView::Save { slug: slug@, plan: plan@ },
        }
    }
}

/// The datapoint that a value and a comment typed beside a goal ask for.
pub open spec fn inline_datapoint(value: Seq<char>, comment: Option<Seq<char>>) -> CreateView {
    CreateView { value, timestamp: None, daystamp: None, comment, requestid: None }
}

/// What committing the text typed beside a goal does: without a goal under
/// the cursor, or with a text that is no datapoint, a notice says so;
/// otherwise the datapoint is to be added to the goal.
pub open spec fn inline_add_submitted(
    goals: Seq<GoalSummary>,
    l: ListView,
    buffer: Seq<char>,
    now: u64,
) -> (ListView, ActionView) {
    match cursor_goal(goals, l) {
        None => (noticed(l, StatusKind::Info, "No goal selected"@, now), ActionView::Nothing),
        Some(i) => match value_and_comment(buffer) {
            Err(InlineAddError::EnterValue) => (
                noticed(l, StatusKind::Error, "Enter a value"@, now),
                ActionView::Nothing,
            ),
            Err(InlineAddError::InvalidValue) => (
                noticed(l, StatusKind::Error, "Invalid value"@, now),
                ActionView::Nothing,
            ),
            Ok((value, comment)) => (
                l,
                ActionView::AddDatapoint {
                    slug: goals[i as int].slug@,
                    datapoint: inline_datapoint(value, comment),
                },
            ),
        },
    }
}

/// What asking for the table of the goal under the cursor does.
pub open spec fn detail_asked(goals: Seq<GoalSummary>, l: ListView, count: usize, now: u64) -> (
    ListView,
    ActionView,
) {
    match cursor_goal(goals, l) {
        None => (noticed(l, StatusKind::Info, "No goal selected"@, now), ActionView::Nothing),
        Some(i) => (l, ActionView::OpenDetail { slug: goals[i as int].slug@, count }),
    }
}

/// A text without its last character.
pub open spec fn popped(s: Seq<char>) -> Seq<char> {
    if s.len() > 0 {
        s.drop_last()
    } else {
        s
    }
}

/// What a key does over the goal list while commands are taken.
pub open spec fn command_step(
    goals: Seq<GoalSummary>,
    l: ListView,
    count: usize,
    key: Key,
    now: u64,
) -> (ListView, ActionView) {
    match key {
        Key::Down => (selection_moved(l, 1), ActionView::Nothing),
        Key::Up => (selection_moved(l, -1i32), ActionView::Nothing),
        Key::Enter => (inline_add_started(goals, l, now), ActionView::Nothing),
        Key::Char { c, control } => if c == 'q' {
            (l, ActionView::Quit)
        } else if c == 'r' {
            (l, ActionView::Refresh)
        } else if c == 'j' {
            (selection_moved(l, 1), ActionView::Nothing)
        } else if c == 'k' {
            (selection_moved(l, -1i32), ActionView::Nothing)
        } else if c == 'e' {
            detail_asked(goals, l, count, now)
        } else if c == '/' {
            (filter_entered(l), ActionView::Nothing)
        } else {
            (l, ActionView::Nothing)
        },
        _ => (l, ActionView::Nothing),
    }
}

/// What a key does while a datapoint is typed beside a goal.
pub open spec fn inline_add_step(
    goals: Seq<GoalSummary>,
    l: ListView,
    buffer: Seq<char>,
    key: Key,
    now: u64,
) -> (ListView, ActionView) {
    match key {
        Key::Esc => (ListView { input: InputModeView::Normal, ..l }, ActionView::Nothing),
        Key::Enter => inline_add_submitted(goals, l, buffer, now),
        Key::Backspace => (
            ListView { input: InputModeView::InlineAdd(popped(buffer)), ..l },
            ActionView::Nothing,
        ),
        Key::Char { c, control } => if control {
            (l, ActionView::Nothing)
        } else {
            (ListView { input: InputModeView::InlineAdd(buffer.push(c)), ..l }, ActionView::Nothing)
        },
        _ => (l, ActionView::Nothing),
    }
}

/// What a key does while the filter is typed.
pub open spec fn filter_step(goals: Seq<GoalSummary>, l: ListView, buffer: Seq<char>, key: Key)
    -> (ListView, ActionView) {
    match key {
        Key::Esc => (filter_cancelled(goals, l), ActionView::Nothing),
        Key::Enter => (filter_applied(goals, l, buffer), ActionView::Nothing),
        Key::Backspace => (filter_typed(goals, l, popped(buffer)), ActionView::Nothing),
        Key::Char { c, control } => if control {
            (l, ActionView::Nothing)
        } else {
            (filter_typed(goals, l, buffer.push(c)), ActionView::Nothing)
        },
        _ => (l, ActionView::Nothing),
    }
}

/// What a key does over the goal list.
pub open spec fn main_step(
    goals: Seq<GoalSummary>,
    l: ListView,
    count: usize,
    key: Key,
    now: u64,
) -> (ListView, ActionView) {
    match l.input {
        InputModeView::Normal => command_step(goals, l, count, key, now),
        InputModeView::InlineAdd(buffer) => inline_add_step(goals, l, buffer, key, now),
        InputModeView::Filter(buffer) => filter_step(goals, l, buffer, key),
    }
}

/// A text without its last character.
pub fn pop_char(s: &str) -> (r: String)
    ensures
        r@ == popped(s@),
{
    let n: usize = s.unicode_len();
    if n == 0 {
        String::new()
    } else {
        proof {
            assert(s@.subrange(0, n - 1) =~= s@.drop_last());
        }
        String::from_str(s.substring_char(0, n - 1))
    }
}

/// A text with one more character.
pub fn push_char(s: &str, c: char) -> (r: String)
    ensures
        r@ == s@.push(c),
{
    let mut r = String::from_str(s);
    r.push(c);
    r
}

impl App {
    /// Commits the text typed beside the goal under the cursor.
    pub fn submit_inline_add(&mut self, buffer: &str, now: u64) -> (action: KeyAction)
        ensures
            (final(self).list(), action@) == inline_add_submitted(
                old(self).goals@,
                old(self).list(),
                buffer@,
                now,
            ),
            final(self).same_rest(old(self)),
    {
        let i = match self.selected_goal_index() {
            Some(i) => i,
            None => {
                self.set_status(StatusKind::Info, String::from_str("No goal selected"), now);
                return KeyAction::Nothing;
            },
        };
        match parse_value_and_comment(buffer) {
            Err(e) => {
                self.set_status(StatusKind::Error, String::from_str(e.message()), now);
                KeyAction::Nothing
            },
            Ok((value, comment)) => {
                let datapoint = match comment {
                    Some(c) => CreateDatapoint::new(value).with_comment(c.as_str()),
                    None => CreateDatapoint::new(value),
                };
                KeyAction::AddDatapoint { slug: self.goals[i].slug.clone(), datapoint }
            },
        }
    }

    /// Asks for the table of the goal under the cursor.
    pub fn open_detail(&mut self, now: u64) -> (action: KeyAction)
        ensures
            (final(self).list(), action@) == detail_asked(
                old(self).goals@,
                old(self).list(),
                old(self).config.display.datapoints_limit,
                now,
            ),
            final(self).same_rest(old(self)),
    {
        match self.selected_goal_index() {
            Some(i) => KeyAction::OpenDetail {
                slug: self.goals[i].slug.clone(),
                count: self.config.display.datapoints_limit,
            },
            None => {
                self.set_status(StatusKind::Info, String::from_str("No goal selected"), now);
                KeyAction::Nothing
            },
        }
    }
}

/// Handles one key over the goal list, and says what the caller is to do.
#[verifier::rlimit(40)]
pub fn handle_main_key(app: &mut App, key: Key, now: u64) -> (action: KeyAction)
    ensures
        (final(app).list(), action@) == main_step(
            old(app).goals@,
            old(app).list(),
            old(app).config.display.datapoints_limit,
            key,
            now,
        ),
        final(app).same_rest(old(app)),
{
    let mut mode = MainInput::Normal;
    core::mem::swap(&mut app.main_input, &mut mode);
    match mode {
        MainInput::Normal => {
            match key {
                Key::Down => {
                    app.move_main_selection(1);
                    KeyAction::Nothing
                },
                Key::Up => {
                    app.move_main_selection(-1);
                    KeyAction::Nothing
                },
                Key::Enter => {
                    app.start_inline_add(now);
                    KeyAction::Nothing
                },
                Key::Char { c, control } => {
                    if c == 'q' {
                        KeyAction::Quit
                    } else if c == 'r' {
                        KeyAction::Refresh
                    } else if c == 'j' {
                        app.move_main_selection(1);
                        KeyAction::Nothing
                    } else if c == 'k' {
                        app.move_main_selection(-1);
                        KeyAction::Nothing
                    } else if c == 'e' {
                        app.open_detail(now)
                    } else if c == '/' {
                        app.enter_filter_mode();
                        KeyAction::Nothing
                    } else {
                        KeyAction::Nothing
                    }
                },
                _ => KeyAction::Nothing,
            }
        },
        MainInput::InlineAdd { buffer } => {
            match key {
                Key::Esc => KeyAction::Nothing,
                Key::Enter => {
                    app.main_input = MainInput::InlineAdd { buffer: buffer.clone() };
                    app.submit_inline_add(buffer.as_str(), now)
                },
                Key::Backspace => {
                    app.main_input = MainInput::InlineAdd { buffer: pop_char(buffer.as_str()) };
                    KeyAction::Nothing
                },
                Key::Char { c, control } => {
                    if control {
                        app.main_input = MainInput::InlineAdd { buffer };
                    } else {
                        app.main_input = MainInput::InlineAdd {
                            buffer: push_char(buffer.as_str(), c),
                        };
                    }
                    KeyAction::Nothing
                },
                _ => {
                    app.main_input = MainInput::InlineAdd { buffer };
                    KeyAction::Nothing
                },
            }
        },
        MainInput::Filter { buffer } => {
            match key {
                Key::Esc => {
                    app.cancel_filter_mode();
                    KeyAction::Nothing
                },
                Key::Enter => {
                    app.apply_filter(buffer);
                    KeyAction::Nothing
                },
                Key::Backspace => {
                    let next = pop_char(buffer.as_str());
                    app.filter = next.clone();
                    app.refresh_filtered();
                    app.main_input = MainInput::Filter { buffer: next };
                    KeyAction::Nothing
                },
                Key::Char { c, control } => {
                    if control {
                        app.main_input = MainInput::Filter { buffer };
                    } else {
                        let next = push_char(buffer.as_str(), c);
                        app.filter = next.clone();
                        app.refresh_filtered();
                        app.main_input = MainInput::Filter { buffer: next };
                    }
                    KeyAction::Nothing
                },
                _ => {
                    app.main_input = MainInput::Filter { buffer };
                    KeyAction::Nothing
                },
            }
        },
    }
}

/// The table editor on the screen, if it is.
pub open spec fn screen_view(s: Screen) -> Option<DetailView> {
    match s {
        Screen::Main => None,
        Screen::Detail(d) => Some(d@),
    }
}

/// The notice for a fault in the text of a cell.
pub open spec fn fault_text(e: ValidationError) -> Seq<char> {
    match e {
        ValidationError::InvalidTimestamp => "Invalid timestamp (expected YYYY-MM-DD HH:MM:SS)"@,
        ValidationError::InvalidValue => "Invalid value"@,
    }
}

/// What the outcome of a key in the table editor does to the program: the
/// table is left or stays, a notice is put up, or a plan is to be applied.
pub open spec fn outcome_step(l: ListView, d: DetailView, out: OutcomeView, now: u64) -> (
    ListView,
    Option<DetailView>,
    ActionView,
) {
    match out {
        OutcomeView::Stay => (l, Some(d), ActionView::Nothing),
        OutcomeView::Exit => (l, None, ActionView::Nothing),
        OutcomeView::ConfirmDiscard => (
            noticed(l, StatusKind::Info, "Unsaved changes. Press Esc again to discard."@, now),
            Some(d),
            ActionView::Nothing,
        ),
        OutcomeView::Invalid(e) => (
            noticed(l, StatusKind::Error, fault_text(e), now),
            Some(d),
            ActionView::Nothing,
        ),
        OutcomeView::NoChanges => (
            noticed(l, StatusKind::Info, "No changes to save"@, now),
            Some(d),
            ActionView::Nothing,
        ),
        OutcomeView::Save(plan) => (l, Some(d), ActionView::Save { slug: d.goal_slug, plan }),
    }
}

/// What a key does to the program: it goes to the table editor where that is
/// on the screen, and to the goal list otherwise.
pub open spec fn program_step(
    goals: Seq<GoalSummary>,
    l: ListView,
    screen: Option<DetailView>,
    count: usize,
    key: Key,
    ctx: EditContext,
    now: u64,
) -> (ListView, Option<DetailView>, ActionView) {
    match screen {
        None => {
            let (next, action) = main_step(goals, l, count, key, now);
            (next, None, action)
        },
        Some(d) => {
            let (next, out) = key_step(d, key, ctx);
            outcome_step(l, next, out, now)
        },
    }
}

/// Handles one key, and says what the caller is to do. `now` is the reading
/// of the clock by which notices expire.
#[verifier::rlimit(40)]
pub fn handle_key(app: &mut App, key: Key, ctx: &EditContext, now: u64) -> (action: KeyAction)
    ensures
        (final(app).list(), screen_view(final(app).screen), action@) == program_step(
            old(app).goals@,
            old(app).list(),
            screen_view(old(app).screen),
            old(app).config.display.datapoints_limit,
            key,
            *ctx,
            now,
        ),
        final(app).config == old(app).config,
        final(app).goals == old(app).goals,
        final(app).last_success_goal == old(app).last_success_goal,
{
    let mut screen = Screen::Main;
    core::mem::swap(&mut app.screen, &mut screen);
    match screen {
        Screen::Main => handle_main_key(app, key, now),
        Screen::Detail(detail) => {
            let mut detail = detail;
            let out = handle_detail_key(&mut detail, key, ctx);
            match out {
                DetailOutcome::Stay => {
                    app.screen = Screen::Detail(detail);
                    KeyAction::Nothing
                },
                DetailOutcome::Exit => KeyAction::Nothing,
                DetailOutcome::ConfirmDiscard => {
                    app.set_status(
                        StatusKind::Info,
                        String::from_str("Unsaved changes. Press Esc again to discard."),
                        now,
                    );
                    app.screen = Screen::Detail(detail);
                    KeyAction::Nothing
                },
                DetailOutcome::Invalid(e) => {
                    app.set_status(StatusKind::Error, String::from_str(e.message()), now);
                    app.screen = Screen::Detail(detail);
                    KeyAction::Nothing
                },
                DetailOutcome::NoChanges => {
                    app.set_status(StatusKind::Info, String::from_str("No changes to save"), now);
                    app.screen = Screen::Detail(detail);
                    KeyAction::Nothing
                },
                DetailOutcome::Save(plan) => {
                    let slug = detail.goal_slug.clone();
                    app.screen = Screen::Detail(detail);
                    KeyAction::Save { slug, plan }
                },
            }
        },
    }
}

/// Notes that a datapoint was added to the goal named `slug` and the goals
/// were fetched anew: a notice says so, the cursor goes to the goal, and
/// commands are taken again.
pub fn datapoint_added(app: &mut App, slug: &str, now: u64)
    ensures
        final(app).list() == (ListView {
            input: InputModeView::Normal,
            ..slug_selected(
                old(app).goals@,
                noticed(old(app).list(), StatusKind::Success, "Added datapoint to "@ + slug@, now),
                slug@,
            )
        }),
        match final(app).last_success_goal {
            Some(last) => last.0@ == slug@ && last.1 == now,
            None => false,
        },
        final(app).config == old(app).config,
        final(app).goals == old(app).goals,
        final(app).screen == old(app).screen,
{
    let mut text = String::from_str("Added datapoint to ");
    text.append(slug);
    app.set_status(StatusKind::Success, text, now);
    app.last_success_goal = Some((String::from_str(slug), now));
    app.select_goal_by_slug(slug);
    app.main_input = MainInput::Normal;
}

/// Notes that a datapoint was added to the goal named `slug` and the goals
/// could not be fetched anew: a notice says so, and commands are taken again.
pub fn datapoint_added_unrefreshed(app: &mut App, slug: &str, fault: &str, now: u64)
    ensures
        final(app).list() == (ListView {
            input: InputModeView::Normal,
            ..noticed(
                old(app).list(),
                StatusKind::Error,
                "Added datapoint to "@ + slug@ + ", but refresh failed: "@ + fault@,
                now,
            )
        }),
        final(app).same_rest(old(app)),
{
    let mut text = String::from_str("Added datapoint to ");
    text.append(slug);
    text.append(", but refresh failed: ");
    text.append(fault);
    app.set_status(StatusKind::Error, text, now);
    app.main_input = MainInput::Normal;
}

/// Opens the table editor on the datapoints fetched for the goal under the
/// cursor. Without such a goal nothing changes.
pub fn show_detail(app: &mut App, datapoints: &Vec<Datapoint>)
    ensures
        screen_view(final(app).screen) == match cursor_goal(old(app).goals@, old(app).list()) {
            Some(i) => Some(
                opened(
                    old(app).goals@[i as int].slug@,
                    old(app).goals@[i as int].title@,
                    records_view(datapoints@),
                ),
            ),
            None => screen_view(old(app).screen),
        },
        final(app).list() == old(app).list(),
        final(app).config == old(app).config,
        final(app).goals == old(app).goals,
        final(app).last_success_goal == old(app).last_success_goal,
{
    match app.selected_goal_index() {
        Some(i) => {
            let detail = DetailState::from_datapoints(
                app.goals[i].slug.clone(),
                app.goals[i].title.clone(),
                datapoints,
            );
            app.screen = Screen::Detail(detail);
        },
        None => {},
    }
}

/// Notes that a plan was applied in full: the table editor is left, and a
/// notice says that the changes were saved, or, where the goals could not be
/// fetched anew, why not.
pub fn save_succeeded(app: &mut App, refresh_fault: Option<&str>, now: u64)
    ensures
        final(app).screen is Main,
        final(app).list() == noticed(
            old(app).list(),
            match refresh_fault {
                Some(_) => StatusKind::Error,
                None => StatusKind::Success,
            },
            match refresh_fault {
                Some(f) => f@,
                None => "Saved changes"@,
            },
            now,
        ),
        final(app).config == old(app).config,
        final(app).goals == old(app).goals,
        final(app).last_success_goal == old(app).last_success_goal,
{
    match refresh_fault {
        Some(f) => {
            app.set_status(StatusKind::Error, String::from_str(f), now);
        },
        None => {
            app.set_status(StatusKind::Success, String::from_str("Saved changes"), now);
        },
    }
    app.screen = Screen::Main;
}

} // verus!
