use gitview::category::{classify, Category, Color, StatusFlags};
use gitview::file_list::{collect_changes, StatusEntry};

fn flags() -> StatusFlags {
    StatusFlags {
        wt_new: false,
        wt_modified: false,
        wt_typechange: false,
        index_new: false,
        wt_renamed: false,
        index_modified: false,
    }
}

#[test]
fn untracked_is_new_before_anything_else() {
    let f = StatusFlags { wt_new: true, wt_modified: true, index_new: true, ..flags() };
    assert_eq!(classify(&f), Some(Category::New));
}

#[test]
fn modified_wins_over_typechange_and_index() {
    let f = StatusFlags { wt_modified: true, wt_typechange: true, index_modified: true, ..flags() };
    assert_eq!(classify(&f), Some(Category::Modified));
}

#[test]
fn typechange_wins_over_index_flags() {
    let f = StatusFlags { wt_typechange: true, index_new: true, ..flags() };
    assert_eq!(classify(&f), Some(Category::TypeChange));
}

#[test]
fn index_flags_give_added() {
    for f in [
        StatusFlags { index_new: true, ..flags() },
        StatusFlags { wt_renamed: true, ..flags() },
        StatusFlags { index_modified: true, ..flags() },
    ] {
        assert_eq!(classify(&f), Some(Category::Added));
    }
}

#[test]
fn unmatched_flags_are_skipped() {
    assert_eq!(classify(&flags()), None);
}

#[test]
fn classification_is_deterministic_over_all_combinations() {
    for bits in 0u32..64 {
        let f = StatusFlags {
            wt_new: bits & 1 != 0,
            wt_modified: bits & 2 != 0,
            wt_typechange: bits & 4 != 0,
            index_new: bits & 8 != 0,
            wt_renamed: bits & 16 != 0,
            index_modified: bits & 32 != 0,
        };
        let a = classify(&f);
        let b = classify(&f.clone());
        assert_eq!(a, b);
        assert_eq!(a.is_none(), bits == 0);
    }
}

#[test]
fn colors_and_labels_are_fixed() {
    assert_eq!(Category::New.color(), Color::Red);
    assert_eq!(Category::Modified.color(), Color::Yellow);
    assert_eq!(Category::Added.color(), Color::Green);
    assert_eq!(Category::TypeChange.color(), Color::Orange);
    assert_eq!(Category::New.label(), "New");
    assert_eq!(Category::Modified.label(), "Modified");
    assert_eq!(Category::Added.label(), "Added");
    assert_eq!(Category::TypeChange.label(), "TypeChange");
}

#[test]
fn collect_keeps_order_and_skips() {
    let raw = vec![
        StatusEntry { path: Some("b.txt".to_string()), flags: StatusFlags { wt_modified: true, ..flags() } },
        StatusEntry { path: Some("gone.txt".to_string()), flags: flags() },
        StatusEntry { path: None, flags: StatusFlags { wt_new: true, ..flags() } },
        StatusEntry { path: Some("a.txt".to_string()), flags: StatusFlags { wt_new: true, ..flags() } },
        StatusEntry { path: Some("c.txt".to_string()), flags: StatusFlags { index_new: true, ..flags() } },
    ];
    let files = collect_changes(&raw);
    assert_eq!(files.len(), 3);
    assert!(!files.is_clean());
    assert_eq!(files.path(0), Some("b.txt"));
    assert_eq!(files.path(1), Some("a.txt"));
    assert_eq!(files.path(2), Some("c.txt"));
    assert_eq!(files.path(3), None);
    assert_eq!(files.entries[1].category, Category::New);
    let items = files.items();
    assert_eq!(items.len(), 3);
    assert_eq!(items[0].label, "Modified");
    assert_eq!(items[0].text, " | b.txt");
    assert_eq!(items[0].color, Some(Color::Yellow));
    assert_eq!(items[2].label, "Added");
    assert_eq!(items[2].text, " | c.txt");
    assert_eq!(items[2].color, Some(Color::Green));
}

#[test]
fn empty_change_set_shows_one_placeholder() {
    let files = collect_changes(&Vec::new());
    assert!(files.is_clean());
    assert_eq!(files.len(), 0);
    let items = files.items();
    assert_eq!(items.len(), 1);
    assert_eq!(format!("{}{}", items[0].label, items[0].text), "Working tree clean");
    assert_eq!(items[0].color, None);
}

#[test]
fn only_skipped_entries_give_placeholder() {
    let raw = vec![StatusEntry { path: Some("deleted.txt".to_string()), flags: flags() }];
    let files = collect_changes(&raw);
    assert!(files.is_clean());
    assert_eq!(files.items().len(), 1);
}
