//! What the screen shows of the state: texts and styles, not yet drawn.

use vstd::prelude::*;
use vstd::string::StrSliceExecFns;
use vstd::string::StringExecFns;
use crate::model::{EditorRow, RowView};
use crate::plan::modified;
use crate::state::{DetailState, MainInput};

verus! {

/// How a row of the table editor is set off.
#[derive(Debug, Clone, Copy, PartialEq, Eq, Structural)]
pub enum RowStyle {
    /// Marked for deletion.
    Deleted,
    /// Not yet on the remote store.
    New,
    /// Different from what was fetched.
    Modified,
    /// As it was fetched.
    Plain,
}

/// How a row is set off: a tombstone counts before anything else, then
/// whether the row is new, then whether it was changed.
pub open spec fn style_of(r: RowView) -> RowStyle {
    if r.is_deleted {
        RowStyle::Deleted
    } else if r.id is None {
        RowStyle::New
    } else if modified(r) {
        RowStyle::Modified
    } else {
        RowStyle::Plain
    }
}

/// The comment as the table shows it: a tombstoned row says so.
pub open spec fn shown_comment(r: RowView) -> Seq<char> {
    if !r.is_deleted {
        r.comment
    } else if r.comment.len() == 0 {
        "[DEL]"@
    } else {
        r.comment + " [DEL]"@
    }
}

impl EditorRow {
    /// How the row is set off.
    pub fn style(&self) -> (s: RowStyle)
        ensures
            s == style_of(self@),
    {
        if self.is_deleted {
            RowStyle::Deleted
        } else if self.id.is_none() {
            RowStyle::New
        } else if self.is_modified() {
            RowStyle::Modified
        } else {
            RowStyle::Plain
        }
    }

    /// The comment as the table shows it.
    pub fn comment_cell(&self) -> (c: String)
        ensures
            c@ == shown_comment(self@),
    {
        if !self.is_deleted {
            self.comment.clone()
        } else if self.comment.as_str().unicode_len() == 0 {
            String::from_str("[DEL]")
        } else {
            let mut c = self.comment.clone();
            c.append(" [DEL]");
            c
        }
    }
}

/// The heading of the table editor: the title of the goal, or its slug
/// where it has no title, and what the table is for.
pub fn detail_title(detail: &DetailState) -> (t: String)
    ensures
        t@ == (if detail.goal_title@.len() == 0 {
            detail.goal_slug@
        } else {
            detail.goal_title@
        }) + " - Edit Datapoints"@,
{
    let mut t = if detail.goal_title.as_str().unicode_len() == 0 {
        detail.goal_slug.clone()
    } else {
        detail.goal_title.clone()
    };
    t.append(" - Edit Datapoints");
    t
}

/// The text before the cursor in the line under the goal list, while
/// something is typed there.
pub fn prompt_text(input: &MainInput) -> (p: Option<String>)
    ensures
        match p {
            Some(t) => match input {
                MainInput::InlineAdd { buffer } => t@ == "Add datapoint: "@ + buffer@,
                MainInput::Filter { buffer } => t@ == "Filter: "@ + buffer@,
                MainInput::Normal => false,
            },
            None => *input is Normal,
        },
{
    match input {
        MainInput::InlineAdd { buffer } => {
            let mut t = String::from_str("Add datapoint: ");
            t.append(buffer.as_str());
            Some(t)
        },
        MainInput::Filter { buffer } => {
            let mut t = String::from_str("Filter: ");
            t.append(buffer.as_str());
            Some(t)
        },
        MainInput::Normal => None,
    }
}

/// The slug of the goal under the cursor while a datapoint is typed beside it.
pub fn inline_slug(slug: &str, buffer: &str) -> (t: String)
    ensures
        t@ == slug@ + ": "@ + buffer@,
{
    let mut t = String::from_str(slug);
    t.append(": ");
    t.append(buffer);
    t
}

/// Whether a goal that a datapoint was added to at `at` is still set off at
/// `now`: it is for two seconds. Both are readings of the caller's clock in
/// milliseconds.
pub fn is_highlighted(at: u64, now: u64) -> (r: bool)
    ensures
        r == (now < at || now - at < 2000),
{
    now < at || now - at < 2000
}

/// The column of the screen for a cursor `width_before` columns into an
/// area that starts at column `x` and is `width` columns wide: the cursor
/// stays within the area.
pub open spec fn column_for(x: u16, width: u16, width_before: usize) -> int {
    let wanted = x + width_before;
    let last = x + width - 1;
    if wanted < last {
        wanted
    } else {
        last
    }
}

/// The column of the screen for a cursor in an area.
pub fn cursor_column(x: u16, width: u16, width_before: usize) -> (c: u16)
    requires
        width > 0,
        x + width - 1 <= u16::MAX,
    ensures
        c == column_for(x, width, width_before),
{
    let last: u16 = x + (width - 1);
    let room: u16 = u16::MAX - x;
    let wanted: u16 = if width_before > room as usize {
        u16::MAX
    } else {
        x + (width_before as u16)
    };
    if wanted < last {
        wanted
    } else {
        last
    }
}

} // verus!
