//! Turning a file's change into the styled lines of the diff panel.

use vstd::prelude::*;

use crate::category::Color;

verus! {

/// What a line of the diff panel stands for.
#[derive(Clone, Copy, Debug, PartialEq, Eq)]
pub enum Role {
    Added,
    Removed,
    Header,
    Plain,
}

/// One line of the diff panel.
#[derive(Clone, Debug)]
pub struct DiffLine {
    pub text: String,
    pub role: Role,
}

/// One line emitted by the diff engine: its origin marker and its text.
#[derive(Clone, Debug)]
pub struct PatchLine {
    pub origin: char,
    pub content: String,
}

/// What is known of the change of one path when its diff is drawn.
#[derive(Clone, Debug)]
pub enum DiffSource {
    /// The path is untracked; this is its whole current content.
    Untracked(String),
    /// The lines of the unified diff against the head tree, in emission order.
    Patch(Vec<PatchLine>),
    /// Looking the change up failed, with this message.
    Failed(String),
}

impl View for DiffLine {
    type V = (Seq<char>, Role);

    open spec fn view(&self) -> (Seq<char>, Role) {
        (self.text@, self.role)
    }
}

/// The lines of a text, as `str::lines` splits it: at each `\n`, dropping a
/// `\r` just before it, with the final line ending optional.
pub open spec fn text_lines(s: Seq<char>) -> Seq<Seq<char>> {
    lines_from(s, seq![])
}

/// The lines of `cur + s`, where `cur` holds no line ending.
pub open spec fn lines_from(s: Seq<char>, cur: Seq<char>) -> Seq<Seq<char>>
    decreases s.len(),
{
    if s.len() == 0 {
        if cur.len() == 0 {
            seq![]
        } else {
            seq![cur]
        }
    } else if s[0] == '\n' {
        let line = if cur.len() > 0 && cur.last() == '\r' {
            cur.drop_last()
        } else {
            cur
        };
        seq![line] + lines_from(s.drop_first(), seq![])
    } else {
        lines_from(s.drop_first(), cur.push(s[0]))
    }
}

pub open spec fn role_of(origin: char) -> Role {
    if origin == '+' {
        Role::Added
    } else if origin == '-' {
        Role::Removed
    } else if origin == 'F' {
        Role::Header
    } else {
        Role::Plain
    }
}

pub open spec fn role_color(r: Role) -> Option<Color> {
    match r {
        Role::Added => Some(Color::Green),
        Role::Removed => Some(Color::Red),
        Role::Header => Some(Color::Blue),
        Role::Plain => None,
    }
}

/// A header naming the new file, then each of its lines as an addition.
pub open spec fn untracked_diff(path: Seq<char>, content: Seq<char>) -> Seq<(Seq<char>, Role)> {
    seq![("New file: "@ + path, Role::Header)] + text_lines(content).map_values(
        |l: Seq<char>| ("+"@ + l, Role::Added),
    )
}

/// The diff panel's lines for `path`: a header and one added line per line
/// of an untracked file; the engine's lines in order, each with the role of
/// its origin marker, or "No changes" when there is none; or one diagnostic
/// line when the lookup failed.
pub open spec fn diff_of(path: Seq<char>, src: DiffSource) -> Seq<(Seq<char>, Role)> {
    match src {
        DiffSource::Untracked(content) => untracked_diff(path, content@),
        DiffSource::Patch(lines) => if lines@.len() == 0 {
            seq![("No changes"@, Role::Plain)]
        } else {
            lines@.map_values(|p: PatchLine| (p.content@, role_of(p.origin)))
        },
        DiffSource::Failed(msg) => seq![("Error: "@ + msg@, Role::Plain)],
    }
}

/// Relies on str::lines, to split a file's content into lines, each copied
/// into a `String`.
#[verifier::external_body]
fn split_lines(s: &str) -> (r: Vec<String>)
    ensures
        r@.map_values(|l: String| l@) == text_lines(s@),
{
    s.lines().map(String::from).collect()
}

/// The role of a line of the diff engine, by its origin marker.
pub fn origin_role(origin: char) -> (r: Role)
    ensures
        r == role_of(origin),
{
    if origin == '+' {
        Role::Added
    } else if origin == '-' {
        Role::Removed
    } else if origin == 'F' {
        Role::Header
    } else {
        Role::Plain
    }
}

impl Role {
    /// The colour of a line of this role; plain lines keep the default.
    pub fn color(&self) -> (r: Option<Color>)
        ensures
            r == role_color(*self),
    {
        match self {
            Role::Added => Some(Color::Green),
            Role::Removed => Some(Color::Red),
            Role::Header => Some(Color::Blue),
            Role::Plain => None,
        }
    }
}

fn new_file_lines(path: &str, content: &str) -> (r: Vec<DiffLine>)
    ensures
        r@.map_values(|d: DiffLine| d@) == untracked_diff(path@, content@),
{
    let lines = split_lines(content);
    let mut out: Vec<DiffLine> = Vec::new();
    out.push(DiffLine { text: String::from_str("New file: ").concat(path), role: Role::Header });
    let n = lines.len();
    let mut i: usize = 0;
    while i < n
        invariant
            n == lines@.len(),
            i <= n,
            out@.len() == i + 1,
            out@[0]@ == ("New file: "@ + path@, Role::Header),
            forall|k: int| 0 <= k < i ==> (#[trigger] out@[k + 1])@ == ("+"@ + lines@[k]@, Role::Added),
        decreases n - i,
    {
        let text = String::from_str("+").concat(lines[i].as_str());
        out.push(DiffLine { text, role: Role::Added });
        i += 1;
    }
    proof {
        let ls = lines@.map_values(|l: String| l@);
        assert(ls == text_lines(content@));
        let expect = seq![("New file: "@ + path@, Role::Header)] + ls.map_values(
            |l: Seq<char>| ("+"@ + l, Role::Added),
        );
        assert forall|k: int| 1 <= k < out@.len() implies (#[trigger] out@[k])@ == expect[k] by {
            assert(out@[(k - 1) + 1] == out@[k]);
        }
        assert(out@.map_values(|d: DiffLine| d@) =~= seq![("New file: "@ + path@, Role::Header)]
            + ls.map_values(|l: Seq<char>| ("+"@ + l, Role::Added)));
    }
    out
}

/// The lines of the diff panel for `path`, given what the repository says of
/// its change.
pub fn show_file_diff(path: &str, source: &DiffSource) -> (r: Vec<DiffLine>)
    ensures
        r@.map_values(|d: DiffLine| d@) == diff_of(path@, *source),
{
    match source {
        DiffSource::Untracked(content) => new_file_lines(path, content.as_str()),
        DiffSource::Patch(lines) => {
            let mut out: Vec<DiffLine> = Vec::new();
            if lines.len() == 0 {
                out.push(DiffLine { text: String::from_str("No changes"), role: Role::Plain });
                proof {
                    assert(out@.map_values(|d: DiffLine| d@) =~= diff_of(path@, *source));
                }
                return out;
            }
            let n = lines.len();
            let mut i: usize = 0;
            while i < n
                invariant
                    n == lines@.len(),
                    i <= n,
                    out@.len() == i,
                    forall|k: int| 0 <= k < i ==> (#[trigger] out@[k])@ == (lines@[k].content@,
                        role_of(lines@[k].origin)),
                decreases n - i,
            {
                let text = lines[i].content.clone();
                out.push(DiffLine { text, role: origin_role(lines[i].origin) });
                i += 1;
            }
            proof {
                assert(out@.map_values(|d: DiffLine| d@) =~= diff_of(path@, *source));
            }
            out
        },
        DiffSource::Failed(msg) => {
            let mut out: Vec<DiffLine> = Vec::new();
            out.push(DiffLine { text: String::from_str("Error: ").concat(msg.as_str()), role: Role::Plain });
            proof {
                assert(out@.map_values(|d: DiffLine| d@) =~= diff_of(path@, *source));
            }
            out
        },
    }
}

} // verus!
