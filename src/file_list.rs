//! The ordered list of changed files shown in the left panel.

use vstd::prelude::*;

use crate::category::{Category, Color, StatusFlags, category_of, classify, color_of, label_of};

verus! {

/// One entry of the repository's status, as enumerated: its path (absent
/// when the path is not valid text) and its flags.
#[derive(Clone, Debug)]
pub struct StatusEntry {
    pub path: Option<String>,
    pub flags: StatusFlags,
}

/// A listed, selectable change.
#[derive(Clone, Debug)]
pub struct ChangeEntry {
    pub path: String,
    pub category: Category,
}

/// One row of the list panel: its text, and the colour of its leading word.
#[derive(Clone, Debug)]
pub struct ListItem {
    pub label: String,
    pub text: String,
    pub color: Option<Color>,
}

/// The listed changes, in enumeration order.
#[derive(Clone, Debug)]
pub struct FileList {
    pub entries: Vec<ChangeEntry>,
}

impl View for ChangeEntry {
    type V = (Seq<char>, Category);

    open spec fn view(&self) -> (Seq<char>, Category) {
        (self.path@, self.category)
    }
}

impl View for FileList {
    type V = Seq<(Seq<char>, Category)>;

    open spec fn view(&self) -> Seq<(Seq<char>, Category)> {
        self.entries@.map_values(|e: ChangeEntry| e@)
    }
}

/// What a status enumeration lists: the entries that have a path and a
/// category, in their order.
pub open spec fn listed(raw: Seq<StatusEntry>) -> Seq<(Seq<char>, Category)>
    decreases raw.len(),
{
    if raw.len() == 0 {
        seq![]
    } else {
        let prev = listed(raw.drop_last());
        let e = raw.last();
        if e.path is Some && category_of(e.flags) is Some {
            prev.push((e.path->0@, category_of(e.flags)->0))
        } else {
            prev
        }
    }
}

/// The text of the placeholder row of a clean working tree.
pub open spec fn clean_text() -> Seq<char> {
    "Working tree clean"@
}

/// The rows of the list panel for a list of changes: `Label | path` for each
/// change, or the single clean placeholder when there is none.
pub open spec fn rows_of(files: Seq<(Seq<char>, Category)>) -> Seq<(Seq<char>, Option<Color>)> {
    if files.len() == 0 {
        seq![(clean_text(), None)]
    } else {
        files.map_values(
            |e: (Seq<char>, Category)| (label_of(e.1) + " | "@ + e.0, Some(color_of(e.1))),
        )
    }
}

/// Builds the list of changes from a status enumeration, keeping the order.
pub fn collect_changes(raw: &Vec<StatusEntry>) -> (r: FileList)
    ensures
        r@ == listed(raw@),
{
    let mut entries: Vec<ChangeEntry> = Vec::new();
    let n = raw.len();
    let mut i: usize = 0;
    while i < n
        invariant
            n == raw@.len(),
            i <= n,
            entries@.map_values(|e: ChangeEntry| e@) == listed(raw@.subrange(0, i as int)),
        decreases n - i,
    {
        let ghost before = entries@;
        proof {
            assert(raw@.subrange(0, i + 1).drop_last() == raw@.subrange(0, i as int));
        }
        let e = &raw[i];
        match &e.path {
            Some(p) => match classify(&e.flags) {
                Some(c) => {
                    entries.push(ChangeEntry { path: p.clone(), category: c });
                    proof {
                        assert(entries@.map_values(|e: ChangeEntry| e@) =~= before.map_values(
                            |e: ChangeEntry| e@,
                        ).push((p@, c)));
                    }
                },
                None => {},
            },
            None => {},
        }
        i += 1;
    }
    proof {
        assert(raw@.subrange(0, n as int) == raw@);
    }
    FileList { entries }
}

impl FileList {
    /// The number of selectable changes.
    pub fn len(&self) -> (r: usize)
        ensures
            r == self@.len(),
    {
        self.entries.len()
    }

    /// Whether there is nothing to list: the working tree is clean.
    pub fn is_clean(&self) -> (r: bool)
        ensures
            r == (self@.len() == 0),
    {
        self.entries.len() == 0
    }

    /// The path of the change at `i`, for diff lookups.
    pub fn path(&self, i: usize) -> (r: Option<&str>)
        ensures
            i < self@.len() ==> r is Some && r->0@ == self@[i as int].0,
            i >= self@.len() ==> r is None,
    {
        if i < self.entries.len() {
            Some(self.entries[i].path.as_str())
        } else {
            None
        }
    }

    /// The rows of the list panel; never empty.
    pub fn items(&self) -> (r: Vec<ListItem>)
        ensures
            r@.map_values(|it: ListItem| (it.label@ + it.text@, it.color)) == rows_of(self@),
            r@.len() >= 1,
    {
        let mut out: Vec<ListItem> = Vec::new();
        if self.entries.len() == 0 {
            out.push(ListItem { label: String::new(), text: String::from_str("Working tree clean"), color: None });
            proof {
                reveal_strlit("Working tree clean");
                assert(out@.map_values(|it: ListItem| (it.label@ + it.text@, it.color)) =~= rows_of(self@));
            }
            return out;
        }
        let n = self.entries.len();
        let mut i: usize = 0;
        while i < n
            invariant
                n == self.entries@.len(),
                i <= n,
                out@.len() == i,
                forall|k: int| 0 <= k < i ==> (#[trigger] out@[k]).label@ + out@[k].text@
                    == label_of(self.entries@[k].category) + " | "@ + self.entries@[k].path@
                    && out@[k].color == Some(color_of(self.entries@[k].category)),
            decreases n - i,
        {
            let e = &self.entries[i];
            let label = String::from_str(e.category.label());
            let text = String::from_str(" | ").concat(e.path.as_str());
            out.push(ListItem { label, text, color: Some(e.category.color()) });
            proof {
                assert(label_of(e.category) + " | "@ + e.path@ == label_of(e.category) + (" | "@ + e.path@));
            }
            i += 1;
        }
        proof {
            assert(out@.map_values(|it: ListItem| (it.label@ + it.text@, it.color)) =~= rows_of(self@));
        }
        out
    }
}

/// With no listed change there is exactly one row, the clean placeholder,
/// and nothing selectable.
pub proof fn lemma_clean_placeholder(files: Seq<(Seq<char>, Category)>)
    requires
        files.len() == 0,
    ensures
        rows_of(files).len() == 1,
        rows_of(files)[0] == (clean_text(), None::<Color>),
{
}

} // verus!
