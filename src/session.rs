//! The interactive session: selection, focus, scrolling and the cached diff
//! of the selected file, with the key-to-transition rules.

use vstd::prelude::*;

use crate::diff::DiffLine;

verus! {

/// The panel that navigation keys act on.
#[derive(Clone, Copy, Debug, PartialEq, Eq)]
pub enum Focus {
    List,
    Diff,
}

/// An input event, as the session distinguishes them.
#[derive(Clone, Copy, Debug, PartialEq, Eq)]
pub enum Key {
    /// `q` or escape.
    Quit,
    Tab,
    /// Up arrow or `k`.
    Up,
    /// Down arrow or `j`.
    Down,
    /// Home or `g`.
    Home,
    /// End or `G`.
    End,
    Other,
}

/// What the loop does after an event.
#[derive(Clone, Copy, Debug, PartialEq, Eq)]
pub enum Action {
    Continue,
    Quit,
}

/// The state of one session over a list of `n_files` selectable changes.
#[derive(Debug)]
pub struct Session {
    pub n_files: usize,
    pub selected: Option<usize>,
    pub focus: Focus,
    pub diff_scroll: u16,
    /// The selection that `diff` was computed for.
    pub last_computed: Option<usize>,
    pub diff: Vec<DiffLine>,
}

impl Session {
    /// A selection exists exactly when there is something to select, and
    /// every index held is in range.
    pub open spec fn wf(&self) -> bool {
        &&& (self.selected is None <==> self.n_files == 0)
        &&& (self.selected is Some ==> self.selected->0 < self.n_files)
        &&& (self.last_computed is Some ==> self.last_computed->0 < self.n_files)
    }
}

/// Whether the diff must be computed before the next redraw.
pub open spec fn needs_diff(s: Session) -> bool {
    s.selected is Some && s.selected != s.last_computed
}

pub open spec fn next_selection(s: Session, key: Key) -> Option<usize> {
    match s.selected {
        None => None,
        Some(i) => match key {
            Key::Up => if s.focus == Focus::List && i > 0 {
                Some((i - 1) as usize)
            } else {
                Some(i)
            },
            Key::Down => if s.focus == Focus::List && i + 1 < s.n_files {
                Some((i + 1) as usize)
            } else {
                Some(i)
            },
            Key::Home => if s.n_files > 0 {
                Some(0)
            } else {
                Some(i)
            },
            Key::End => if s.n_files > 0 {
                Some((s.n_files - 1) as usize)
            } else {
                Some(i)
            },
            _ => Some(i),
        },
    }
}

pub open spec fn next_focus(s: Session, key: Key) -> Focus {
    if key == Key::Tab {
        if s.focus == Focus::List {
            Focus::Diff
        } else {
            Focus::List
        }
    } else {
        s.focus
    }
}

/// Scrolling saturates at both ends of `u16`.
pub open spec fn next_scroll(s: Session, key: Key) -> u16 {
    if s.focus == Focus::Diff && key == Key::Up {
        if s.diff_scroll > 0 {
            (s.diff_scroll - 1) as u16
        } else {
            0
        }
    } else if s.focus == Focus::Diff && key == Key::Down {
        if s.diff_scroll < u16::MAX {
            (s.diff_scroll + 1) as u16
        } else {
            u16::MAX
        }
    } else {
        s.diff_scroll
    }
}

/// The state after one input event.
pub open spec fn step(s: Session, key: Key) -> Session {
    Session {
        selected: next_selection(s, key),
        focus: next_focus(s, key),
        diff_scroll: next_scroll(s, key),
        ..s
    }
}

/// The state after the diff for the current selection has been installed.
pub open spec fn installed(s: Session, lines: Vec<DiffLine>) -> Session {
    Session { diff: lines, diff_scroll: 0, last_computed: s.selected, ..s }
}

impl Session {
    /// A fresh session: the first change selected if there is one, the list
    /// focused, and no diff computed yet.
    pub fn new(n_files: usize) -> (r: Session)
        ensures
            r.wf(),
            r.n_files == n_files,
            r.selected == (if n_files > 0 {
                Some(0usize)
            } else {
                None
            }),
            r.focus == Focus::List,
            r.diff_scroll == 0,
            r.last_computed is None,
            r.diff@.len() == 0,
    {
        let selected = if n_files > 0 {
            Some(0)
        } else {
            None
        };
        Session {
            n_files,
            selected,
            focus: Focus::List,
            diff_scroll: 0,
            last_computed: None,
            diff: Vec::new(),
        }
    }

    /// Applies one input event and says whether the loop goes on.
    pub fn handle_key(&mut self, key: Key) -> (a: Action)
        ensures
            *final(self) == step(*old(self), key),
            a == (if key == Key::Quit {
                Action::Quit
            } else {
                Action::Continue
            }),
    {
        match key {
            Key::Quit => {
                return Action::Quit;
            },
            Key::Tab => {
                self.focus = match self.focus {
                    Focus::List => Focus::Diff,
                    Focus::Diff => Focus::List,
                };
            },
            Key::Up => match self.focus {
                Focus::List => {
                    if let Some(i) = self.selected {
                        if i > 0 {
                            self.selected = Some(i - 1);
                        }
                    }
                },
                Focus::Diff => {
                    self.diff_scroll = self.diff_scroll.saturating_sub(1);
                },
            },
            Key::Down => match self.focus {
                Focus::List => {
                    if let Some(i) = self.selected {
                        if self.n_files > 0 && i < self.n_files - 1 {
                            self.selected = Some(i + 1);
                        }
                    }
                },
                Focus::Diff => {
                    self.diff_scroll = self.diff_scroll.saturating_add(1);
                },
            },
            Key::Home => {
                if self.selected.is_some() && self.n_files > 0 {
                    self.selected = Some(0);
                }
            },
            Key::End => {
                if self.selected.is_some() && self.n_files > 0 {
                    self.selected = Some(self.n_files - 1);
                }
            },
            Key::Other => {},
        }
        Action::Continue
    }

    /// The index whose diff must be computed before the next redraw: the
    /// selection, when it differs from the one the cached diff was made for.
    pub fn pending_diff(&self) -> (r: Option<usize>)
        ensures
            r == (if needs_diff(*self) {
                self.selected
            } else {
                None
            }),
    {
        match self.selected {
            Some(i) => match self.last_computed {
                Some(j) => if i == j {
                    None
                } else {
                    Some(i)
                },
                None => Some(i),
            },
            None => None,
        }
    }

    /// Installs the diff computed for the current selection and scrolls it
    /// back to the top.
    pub fn install_diff(&mut self, lines: Vec<DiffLine>)
        ensures
            *final(self) == installed(*old(self), lines),
    {
        self.diff = lines;
        self.diff_scroll = 0;
        self.last_computed = self.selected;
    }
}

/// The state after the step that precedes each redraw: when the selection
/// has changed, a diff is computed for it (its lines aside) and the scroll
/// is reset.
pub open spec fn refreshed(s: Session) -> Session {
    if needs_diff(s) {
        Session { diff_scroll: 0, last_computed: s.selected, ..s }
    } else {
        s
    }
}

/// How many diffs the loop computes when it starts in `s` and reads `keys`:
/// one before a redraw exactly when the selection differs from the one the
/// cached diff was made for.
pub open spec fn computations(s: Session, keys: Seq<Key>) -> nat
    decreases keys.len(),
{
    let c: nat = if needs_diff(s) {
        1
    } else {
        0
    };
    if keys.len() == 0 {
        c
    } else {
        c + computations(step(refreshed(s), keys[0]), keys.drop_first())
    }
}

/// How many of `keys` move the selection, on the same run of the loop.
pub open spec fn selection_moves(s: Session, keys: Seq<Key>) -> nat
    decreases keys.len(),
{
    if keys.len() == 0 {
        0
    } else {
        let r = refreshed(s);
        let t = step(r, keys[0]);
        let m: nat = if t.selected != r.selected {
            1
        } else {
            0
        };
        m + selection_moves(t, keys.drop_first())
    }
}

/// The state after pressing `key` `n` times.
pub open spec fn presses(s: Session, key: Key, n: nat) -> Session
    decreases n,
{
    if n == 0 {
        s
    } else {
        step(presses(s, key, (n - 1) as nat), key)
    }
}

/// Every event, and installing a diff, keeps the session well formed.
pub proof fn lemma_wf_kept(s: Session, key: Key, lines: Vec<DiffLine>)
    requires
        s.wf(),
    ensures
        step(s, key).wf(),
        installed(s, lines).wf(),
        refreshed(s).wf(),
{
}

/// Once the diff for the selection is computed, an event that leaves the
/// selection where it is asks for no second computation.
pub proof fn lemma_no_recompute_without_move(s: Session, key: Key, lines: Vec<DiffLine>)
    requires
        step(installed(s, lines), key).selected == s.selected,
    ensures
        !needs_diff(installed(s, lines)),
        !needs_diff(step(installed(s, lines), key)),
{
}

/// Over any run of the loop, diffs are computed at most once per move of the
/// selection, plus once for the starting selection: redraws alone never
/// cause a computation.
pub proof fn lemma_computations_bounded(s: Session, keys: Seq<Key>)
    ensures
        computations(s, keys) <= selection_moves(s, keys) + (if needs_diff(s) {
            1nat
        } else {
            0nat
        }),
    decreases keys.len(),
{
    if keys.len() > 0 {
        let r = refreshed(s);
        let t = step(r, keys[0]);
        lemma_computations_bounded(t, keys.drop_first());
        assert(!needs_diff(r));
        assert(needs_diff(t) ==> t.selected != r.selected);
    }
}

/// Moving up from the first change and down from the last leave the
/// selection where it is.
pub proof fn lemma_selection_edges(s: Session)
    requires
        s.wf(),
        s.focus == Focus::List,
    ensures
        s.selected == Some(0usize) ==> step(s, Key::Up).selected == Some(0usize),
        s.n_files > 0 && s.selected == Some((s.n_files - 1) as usize) ==> step(s, Key::Down).selected
            == Some((s.n_files - 1) as usize),
        s.selected is Some && s.selected->0 > 0 ==> step(s, Key::Up).selected == Some(
            (s.selected->0 - 1) as usize,
        ),
        s.selected is Some && s.selected->0 + 1 < s.n_files ==> step(s, Key::Down).selected == Some(
            (s.selected->0 + 1) as usize,
        ),
{
}

/// With the diff focused, `n` presses of up scroll to `max(0, offset - n)`
/// and `n` presses of down to `min(u16::MAX, offset + n)`: never below zero,
/// never wrapping, and one line further per press until the end of `u16`.
pub proof fn lemma_scroll_saturates(s: Session, n: nat)
    requires
        s.focus == Focus::Diff,
    ensures
        presses(s, Key::Up, n).diff_scroll == (if s.diff_scroll >= n {
            s.diff_scroll - n
        } else {
            0
        }),
        presses(s, Key::Down, n).diff_scroll == (if s.diff_scroll + n <= u16::MAX {
            s.diff_scroll + n
        } else {
            u16::MAX as int
        }),
        presses(s, Key::Up, n).focus == Focus::Diff,
        presses(s, Key::Down, n).focus == Focus::Diff,
        presses(s, Key::Up, n).selected == s.selected,
        presses(s, Key::Down, n).selected == s.selected,
    decreases n,
{
    if n > 0 {
        lemma_scroll_saturates(s, (n - 1) as nat);
    }
}

/// With nothing to select, no event selects anything and no diff is ever
/// asked for.
pub proof fn lemma_empty_list_inert(s: Session, key: Key)
    requires
        s.wf(),
        s.n_files == 0,
    ensures
        s.selected is None,
        step(s, key).selected is None,
        !needs_diff(s),
        !needs_diff(step(s, key)),
        refreshed(s) == s,
{
}

} // verus!
