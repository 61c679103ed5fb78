//! The rows of the table in which a list is shown.

use crate::text::{can_truncate, truncate, truncated};
use crate::todo::Todo;
use vstd::prelude::*;

verus! {

/// The widest title that a row shows, in bytes.
pub const TITLE_WIDTH: usize = 27;

/// The widest description that a row shows, in bytes.
pub const DESCRIPTION_WIDTH: usize = 47;

/// What one line of the table shows of a record.
#[derive(Debug)]
pub struct Row {
    pub id: usize,
    pub title: String,
    pub description: String,
    pub status: &'static str,
}

/// The word that stands for a record's completion flag.
pub open spec fn status_label(completed: bool) -> Seq<char> {
    if completed {
        "Completed"@
    } else {
        "Pending"@
    }
}

/// The record's texts can be cut to the widths of their columns.
pub open spec fn fits_row(todo: Todo) -> bool {
    &&& can_truncate(todo.title@, TITLE_WIDTH as int)
    &&& can_truncate(todo.description@, DESCRIPTION_WIDTH as int)
}

/// The row for a record: its id, its title and description cut to the
/// widths of their columns, and its status in a word.
pub fn row(todo: &Todo) -> (row: Row)
    requires
        fits_row(*todo),
    ensures
        row.id == todo.id,
        row.title@ == truncated(todo.title@, TITLE_WIDTH as int),
        row.description@ == truncated(todo.description@, DESCRIPTION_WIDTH as int),
        row.status@ == status_label(todo.completed),
{
    let status = if todo.completed {
        "Completed"
    } else {
        "Pending"
    };
    Row {
        id: todo.id,
        title: truncate(todo.title.as_str(), TITLE_WIDTH),
        description: truncate(todo.description.as_str(), DESCRIPTION_WIDTH),
        status,
    }
}

} // verus!
