//! Classification of a status entry into a display category.

use vstd::prelude::*;

verus! {

/// The status bits of one entry that classification looks at.
#[derive(Clone, Copy, Debug, PartialEq, Eq)]
pub struct StatusFlags {
    /// Untracked: new in the working tree.
    pub wt_new: bool,
    /// Modified in the working tree.
    pub wt_modified: bool,
    /// The file's type changed in the working tree.
    pub wt_typechange: bool,
    /// Added to the index.
    pub index_new: bool,
    /// Renamed in the working tree.
    pub wt_renamed: bool,
    /// Modified in the index.
    pub index_modified: bool,
}

/// The category under which a changed path is listed.
#[derive(Clone, Copy, Debug, PartialEq, Eq)]
pub enum Category {
    New,
    Modified,
    TypeChange,
    Added,
}

/// Colours used by the screen.
#[derive(Clone, Copy, Debug, PartialEq, Eq)]
pub enum Color {
    Red,
    Yellow,
    Green,
    Orange,
    Blue,
}

/// The category of an entry: the first rule that matches wins, and an entry
/// that matches none is not listed.
pub open spec fn category_of(f: StatusFlags) -> Option<Category> {
    if f.wt_new {
        Some(Category::New)
    } else if f.wt_modified {
        Some(Category::Modified)
    } else if f.wt_typechange {
        Some(Category::TypeChange)
    } else if f.index_new || f.wt_renamed || f.index_modified {
        Some(Category::Added)
    } else {
        None
    }
}

pub open spec fn color_of(c: Category) -> Color {
    match c {
        Category::New => Color::Red,
        Category::Modified => Color::Yellow,
        Category::TypeChange => Color::Orange,
        Category::Added => Color::Green,
    }
}

pub open spec fn label_of(c: Category) -> Seq<char> {
    match c {
        Category::New => "New"@,
        Category::Modified => "Modified"@,
        Category::TypeChange => "TypeChange"@,
        Category::Added => "Added"@,
    }
}

/// Classifies one entry; `None` means the entry is left out of the list.
pub fn classify(f: &StatusFlags) -> (r: Option<Category>)
    ensures
        r == category_of(*f),
{
    if f.wt_new {
        Some(Category::New)
    } else if f.wt_modified {
        Some(Category::Modified)
    } else if f.wt_typechange {
        Some(Category::TypeChange)
    } else if f.index_new || f.wt_renamed || f.index_modified {
        Some(Category::Added)
    } else {
        None
    }
}

impl Category {
    /// The fixed colour of the category.
    pub fn color(&self) -> (r: Color)
        ensures
            r == color_of(*self),
    {
        match self {
            Category::New => Color::Red,
            Category::Modified => Color::Yellow,
            Category::TypeChange => Color::Orange,
            Category::Added => Color::Green,
        }
    }

    /// The word shown in front of the path.
    pub fn label(&self) -> (r: &'static str)
        ensures
            r@ == label_of(*self),
    {
        match self {
            Category::New => "New",
            Category::Modified => "Modified",
            Category::TypeChange => "TypeChange",
            Category::Added => "Added",
        }
    }
}

/// Classification depends on the flags alone; each category is reached by
/// exactly its own group of flags, earlier groups taking precedence, and an
/// entry is left out exactly when it carries none of the listed flags.
pub proof fn lemma_classification(f: StatusFlags, g: StatusFlags)
    requires
        f == g,
    ensures
        category_of(f) == category_of(g),
        category_of(f) is None <==> !(f.wt_new || f.wt_modified || f.wt_typechange || f.index_new
            || f.wt_renamed || f.index_modified),
        category_of(f) == Some(Category::New) <==> f.wt_new,
        category_of(f) == Some(Category::Modified) <==> !f.wt_new && f.wt_modified,
        category_of(f) == Some(Category::TypeChange) <==> !f.wt_new && !f.wt_modified
            && f.wt_typechange,
        category_of(f) == Some(Category::Added) <==> !f.wt_new && !f.wt_modified
            && !f.wt_typechange && (f.index_new || f.wt_renamed || f.index_modified),
{
}

/// Distinct categories have distinct colours.
pub proof fn lemma_colors_distinct(a: Category, b: Category)
    ensures
        color_of(a) == color_of(b) <==> a == b,
{
}

} // verus!
