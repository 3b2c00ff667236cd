use image_builder::source::{regular_files, EntryKind, SourceEntry, SourceFile};

fn entry(name: &str, kind: EntryKind) -> SourceEntry {
    SourceEntry { name: name.to_string(), path: format!("src/{}", name), kind }
}

fn file(name: &str) -> SourceFile {
    SourceFile { name: name.to_string(), path: format!("src/{}", name) }
}

#[test]
fn empty_listing_has_no_files() {
    assert_eq!(regular_files(&Vec::new()), Vec::<SourceFile>::new());
}

#[test]
fn only_regular_files_are_kept() {
    let listing = vec![
        entry("bin", EntryKind::Directory),
        entry("a.txt", EntryKind::File),
        entry("link", EntryKind::Symlink),
        entry("b.bin", EntryKind::File),
        entry("tty", EntryKind::Other),
    ];
    assert_eq!(regular_files(&listing), vec![file("a.txt"), file("b.bin")]);
}

#[test]
fn listing_order_is_kept() {
    let listing = vec![
        entry("z", EntryKind::File),
        entry("a", EntryKind::File),
        entry("m", EntryKind::File),
    ];
    assert_eq!(regular_files(&listing), vec![file("z"), file("a"), file("m")]);
}

#[test]
fn equal_names_are_not_merged() {
    let listing = vec![entry("a", EntryKind::File), entry("a", EntryKind::File)];
    assert_eq!(regular_files(&listing), vec![file("a"), file("a")]);
}

#[test]
fn listing_without_files_gives_none() {
    let listing = vec![entry("d", EntryKind::Directory), entry("l", EntryKind::Symlink)];
    assert_eq!(regular_files(&listing).len(), 0);
}

#[test]
fn name_and_path_are_carried_over() {
    let listing = vec![SourceEntry {
        name: "init".to_string(),
        path: "/srv/images/init".to_string(),
        kind: EntryKind::File,
    }];
    let files = regular_files(&listing);
    assert_eq!(files.len(), 1);
    assert_eq!(files[0].name, "init");
    assert_eq!(files[0].path, "/srv/images/init");
}
