use gitview::category::{Color, StatusFlags};
use gitview::file_list::{collect_changes, StatusEntry};
use gitview::screen::compose;
use gitview::session::{Key, Session};

fn untracked(path: &str) -> StatusEntry {
    StatusEntry {
        path: Some(path.to_string()),
        flags: StatusFlags {
            wt_new: true,
            wt_modified: false,
            wt_typechange: false,
            index_new: false,
            wt_renamed: false,
            index_modified: false,
        },
    }
}

#[test]
fn frame_follows_selection_and_focus() {
    let files = collect_changes(&vec![untracked("a.txt"), untracked("b.txt")]);
    let mut s = Session::new(files.len());
    s.handle_key(Key::Down);
    let screen = compose(&files, &s);
    assert_eq!(screen.rows.len(), 2);
    assert_eq!(screen.rows[1].label, "New");
    assert_eq!(screen.rows[1].text, " | b.txt");
    assert_eq!(screen.rows[1].color, Some(Color::Red));
    assert_eq!(screen.highlighted, 1);
    assert!(screen.list_focused && !screen.diff_focused);
    s.handle_key(Key::Tab);
    s.handle_key(Key::Down);
    let screen = compose(&files, &s);
    assert!(!screen.list_focused && screen.diff_focused);
    assert_eq!(screen.diff_offset, 1);
    assert_eq!(screen.highlighted, 1);
}

#[test]
fn clean_frame_highlights_placeholder() {
    let files = collect_changes(&Vec::new());
    let s = Session::new(0);
    let screen = compose(&files, &s);
    assert_eq!(screen.rows.len(), 1);
    assert_eq!(screen.highlighted, 0);
}
