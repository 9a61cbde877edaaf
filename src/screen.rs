//! What one frame shows, projected from the file list and the session.

use vstd::prelude::*;

use crate::file_list::{FileList, ListItem, rows_of};
use crate::session::{Focus, Session};

verus! {

/// The content of one frame: the list panel's rows and highlighted row, the
/// panel whose border is marked as focused, and where the diff panel starts.
#[derive(Debug)]
pub struct Screen {
    pub rows: Vec<ListItem>,
    pub highlighted: usize,
    pub list_focused: bool,
    pub diff_focused: bool,
    pub diff_offset: u16,
}

/// Projects the state into a frame; nothing is changed.
pub fn compose(files: &FileList, session: &Session) -> (r: Screen)
    ensures
        r.rows@.map_values(|it: ListItem| (it.label@ + it.text@, it.color)) == rows_of(files@),
        r.highlighted == (match session.selected {
            Some(i) => i,
            None => 0,
        }),
        r.list_focused == (session.focus == Focus::List),
        r.diff_focused == (session.focus == Focus::Diff),
        r.diff_offset == session.diff_scroll,
        session.wf() && session.n_files == files@.len() ==> r.highlighted < r.rows@.len(),
{
    let rows = files.items();
    let highlighted = match session.selected {
        Some(i) => i,
        None => 0,
    };
    let list_focused = match session.focus {
        Focus::List => true,
        Focus::Diff => false,
    };
    proof {
        if session.wf() && session.n_files == files@.len() {
            assert(rows@.len() == rows_of(files@).len());
        }
    }
    Screen {
        rows,
        highlighted,
        list_focused,
        diff_focused: !list_focused,
        diff_offset: session.diff_scroll,
    }
}

} // verus!
