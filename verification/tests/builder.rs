use image_builder::builder::Builder;
use image_builder::device::image_byte_size;
use image_builder::model::Phase;
use image_builder::protocol::{
    Action, BuildConfig, BuildError, EntryFlags, Event, Violation, IABC, MAX_IMAGE_BLOCKS,
};
use image_builder::report::{loaded_line, valid_line};
use image_builder::source::{EntryKind, SourceEntry};

/// A host and an engine held in memory, which carry out what they are asked.
struct World {
    target: String,
    listing: Vec<SourceEntry>,
    contents: Vec<Vec<u8>>,
    image: Vec<(String, EntryFlags, Vec<u8>)>,
    laid_out: Option<(u32, u8)>,
    cursor: usize,
    chunk: Vec<u8>,
    lines: Vec<String>,
    actions: Vec<Action>,
}

fn world(target: &str, dir: &str, files: &[(&str, &[u8])]) -> World {
    let mut listing = Vec::new();
    let mut contents = Vec::new();
    for (name, data) in files {
        listing.push(SourceEntry {
            name: name.to_string(),
            path: format!("{}/{}", dir, name),
            kind: EntryKind::File,
        });
        contents.push(data.to_vec());
    }
    World {
        target: target.to_string(),
        listing,
        contents,
        image: Vec::new(),
        laid_out: None,
        cursor: 0,
        chunk: Vec::new(),
        lines: Vec::new(),
        actions: Vec::new(),
    }
}

fn perform(w: &mut World, b: &Builder, action: Action) -> Event {
    match action {
        Action::CheckPaths => Event::Paths { source_is_dir: true, target_parent_is_dir: true },
        Action::OpenTarget | Action::Mount | Action::OpenImage => Event::Done,
        Action::ListSource => Event::Listing(w.listing.clone()),
        Action::Initialize { total_blocks, iabc } => {
            w.image.clear();
            w.laid_out = Some((total_blocks, iabc));
            Event::Done
        }
        Action::OpenSource { .. } => {
            w.cursor = 0;
            Event::Done
        }
        Action::CreateEntry { index, flags } => {
            let name = b.file(index).unwrap().name.clone();
            w.image.push((name, flags, Vec::new()));
            Event::Done
        }
        Action::QuerySize { index } => Event::Size(w.contents[index].len() as u64),
        Action::SetSize { index, size } => {
            w.image[index].2.resize(size as usize, 0);
            Event::Done
        }
        Action::ReadChunk { index, max } => {
            let data = &w.contents[index];
            let end = if data.len() - w.cursor < max { data.len() } else { w.cursor + max };
            w.chunk = data[w.cursor..end].to_vec();
            w.cursor = end;
            Event::Count(w.chunk.len())
        }
        Action::WriteChunk { index, offset, len } => {
            let at = offset as usize;
            let entry = &mut w.image[index].2;
            if at + len > entry.len() {
                return Event::Failed;
            }
            entry[at..at + len].copy_from_slice(&w.chunk[..len]);
            Event::Count(len)
        }
        Action::ReportLoaded { index, bytes } => {
            let f = b.file(index).unwrap();
            w.lines.push(loaded_line(&f.name, &f.path, bytes));
            Event::Done
        }
        Action::Lookup { index } => {
            let name = &b.file(index).unwrap().name;
            if w.image.iter().any(|e| &e.0 == name) {
                Event::Done
            } else {
                Event::Missing
            }
        }
        Action::ReadImage { index } => {
            let name = &b.file(index).unwrap().name;
            let entry = w.image.iter().find(|e| &e.0 == name).unwrap();
            Event::Count(entry.2.len())
        }
        Action::ReadSource { index } => Event::Count(w.contents[index].len()),
        Action::ReportValid => {
            w.lines.push(valid_line(&w.target));
            Event::Done
        }
        Action::Finish | Action::Abort(_) => unreachable!(),
    }
}

fn build(w: &mut World, config: BuildConfig) -> Builder {
    let mut b = Builder::new(config);
    let mut action = b.pending();
    loop {
        w.actions.push(action);
        match action {
            Action::Finish | Action::Abort(_) => return b,
            _ => {
                let event = perform(w, &b, action);
                action = b.step(event);
            }
        }
    }
}

/// A builder that has been led to the first action of file 0.
fn at_first_file(check: bool, chunk_size: usize, names: &[&str]) -> Builder {
    let mut b = Builder::new(BuildConfig::new(check, chunk_size));
    assert_eq!(b.pending(), Action::CheckPaths);
    assert_eq!(
        b.step(Event::Paths { source_is_dir: true, target_parent_is_dir: true }),
        Action::OpenTarget
    );
    assert_eq!(b.step(Event::Done), Action::Mount);
    assert_eq!(b.step(Event::Done), Action::ListSource);
    let listing = names
        .iter()
        .map(|n| SourceEntry { name: n.to_string(), path: n.to_string(), kind: EntryKind::File })
        .collect();
    assert_eq!(
        b.step(Event::Listing(listing)),
        Action::Initialize { total_blocks: 1024, iabc: 4 }
    );
    b.step(Event::Done);
    b
}

/// A builder that waits for the first chunk of file 0, declared with `len`.
fn at_first_read(check: bool, chunk_size: usize, len: u64) -> Builder {
    let mut b = at_first_file(check, chunk_size, &["f"]);
    assert_eq!(b.pending(), Action::OpenSource { index: 0 });
    assert_eq!(b.step(Event::Done), Action::CreateEntry { index: 0, flags: EntryFlags::Rwx });
    assert_eq!(b.step(Event::Done), Action::QuerySize { index: 0 });
    assert_eq!(b.step(Event::Size(len)), Action::SetSize { index: 0, size: len });
    assert_eq!(b.step(Event::Done), Action::ReadChunk { index: 0, max: chunk_size });
    b
}

/// A builder that waits for the image to be reopened, after one empty file.
fn at_verification() -> Builder {
    let mut b = at_first_read(true, 512, 0);
    assert_eq!(b.step(Event::Count(0)), Action::ReportLoaded { index: 0, bytes: 0 });
    assert_eq!(b.step(Event::Done), Action::OpenImage);
    b
}

#[test]
fn test_main() {
    let source_dir = "../frontier_user/target/riscv64gc-unknown-none-elf/release/images";
    let target_path = "../frontier_user/target/riscv64gc-unknown-none-elf/release/user-fs.img";
    let files: [(&str, &[u8]); 2] = [("initproc", &[7; 3000]), ("user_shell", &[9; 512])];
    let mut w = world(target_path, source_dir, &files);
    let b = build(&mut w, BuildConfig::new(true, 512));
    assert!(b.is_finished());
    assert_eq!(b.error(), None);
    assert_eq!(w.actions.last(), Some(&Action::Finish));
    assert_eq!(
        w.lines,
        vec![
            format!("loaded initproc file from {}/initproc(3000 bytes)", source_dir),
            format!("loaded user_shell file from {}/user_shell(512 bytes)", source_dir),
            format!("block file {} is valid!", target_path),
        ]
    );
    assert_eq!(w.image[0].2, vec![7; 3000]);
    assert_eq!(w.image[1].2, vec![9; 512]);
}

#[test]
fn hello_world_and_empty_file_with_check() {
    let files: [(&str, &[u8]); 2] = [("a.txt", b"hello world"), ("b.bin", b"")];
    let mut w = world("out/fs.img", "in", &files);
    let b = build(&mut w, BuildConfig::new(true, 512));
    assert!(b.is_finished());
    assert_eq!(
        w.actions,
        vec![
            Action::CheckPaths,
            Action::OpenTarget,
            Action::Mount,
            Action::ListSource,
            Action::Initialize { total_blocks: 1024, iabc: 4 },
            Action::OpenSource { index: 0 },
            Action::CreateEntry { index: 0, flags: EntryFlags::Rwx },
            Action::QuerySize { index: 0 },
            Action::SetSize { index: 0, size: 11 },
            Action::ReadChunk { index: 0, max: 512 },
            Action::WriteChunk { index: 0, offset: 0, len: 11 },
            Action::ReadChunk { index: 0, max: 512 },
            Action::ReportLoaded { index: 0, bytes: 11 },
            Action::OpenSource { index: 1 },
            Action::CreateEntry { index: 1, flags: EntryFlags::Rwx },
            Action::QuerySize { index: 1 },
            Action::SetSize { index: 1, size: 0 },
            Action::ReadChunk { index: 1, max: 512 },
            Action::ReportLoaded { index: 1, bytes: 0 },
            Action::OpenImage,
            Action::OpenSource { index: 0 },
            Action::Lookup { index: 0 },
            Action::ReadImage { index: 0 },
            Action::ReadSource { index: 0 },
            Action::OpenSource { index: 1 },
            Action::Lookup { index: 1 },
            Action::ReadImage { index: 1 },
            Action::ReadSource { index: 1 },
            Action::ReportValid,
            Action::Finish,
        ]
    );
    assert_eq!(
        w.lines,
        vec![
            "loaded a.txt file from in/a.txt(11 bytes)".to_string(),
            "loaded b.bin file from in/b.bin(0 bytes)".to_string(),
            "block file out/fs.img is valid!".to_string(),
        ]
    );
    assert_eq!(w.image[0].2, b"hello world".to_vec());
    assert_eq!(w.image[1].2, Vec::<u8>::new());
    let (total_blocks, iabc) = w.laid_out.unwrap();
    assert_eq!((total_blocks, iabc), (MAX_IMAGE_BLOCKS, IABC));
    assert_eq!(image_byte_size(total_blocks, 512), Some(524_288));
}

#[test]
fn build_without_check_ends_after_population() {
    let files: [(&str, &[u8]); 2] = [("a.txt", b"hello world"), ("b.bin", b"")];
    let mut w = world("out/fs.img", "in", &files);
    let b = build(&mut w, BuildConfig::new(false, 512));
    assert!(b.is_finished());
    assert_eq!(w.lines.len(), 2);
    assert!(!w.actions.contains(&Action::OpenImage));
    assert!(!w.actions.contains(&Action::ReportValid));
    assert!(!w.actions.iter().any(|a| matches!(a, Action::Lookup { .. })));
    assert_eq!(w.actions[w.actions.len() - 2], Action::ReportLoaded { index: 1, bytes: 0 });
}

#[test]
fn every_file_is_read_back_at_its_length() {
    let sizes = [0usize, 1, 511, 512, 513, 1024, 1025, 4000];
    let data: Vec<Vec<u8>> = sizes.iter().map(|n| vec![3u8; *n]).collect();
    let names: Vec<String> = sizes.iter().map(|n| format!("f{}", n)).collect();
    let files: Vec<(&str, &[u8])> =
        names.iter().zip(data.iter()).map(|(n, d)| (n.as_str(), d.as_slice())).collect();
    let mut w = world("t.img", "d", &files);
    let b = build(&mut w, BuildConfig::new(true, 512));
    assert!(b.is_finished());
    assert_eq!(b.file_count(), sizes.len());
    for (i, n) in sizes.iter().enumerate() {
        assert_eq!(w.image[i].0, names[i]);
        assert_eq!(w.image[i].2.len(), *n);
        assert!(w.actions.contains(&Action::Lookup { index: i }));
        assert!(w.actions.contains(&Action::ReadImage { index: i }));
        assert!(w.actions.contains(&Action::ReportLoaded { index: i, bytes: *n as u64 }));
    }
}

#[test]
fn last_chunk_may_be_shorter() {
    let data = vec![1u8; 1025];
    let files: [(&str, &[u8]); 1] = [("big", &data)];
    let mut w = world("t.img", "d", &files);
    let b = build(&mut w, BuildConfig::new(false, 512));
    assert!(b.is_finished());
    let writes: Vec<Action> =
        w.actions.iter().copied().filter(|a| matches!(a, Action::WriteChunk { .. })).collect();
    assert_eq!(
        writes,
        vec![
            Action::WriteChunk { index: 0, offset: 0, len: 512 },
            Action::WriteChunk { index: 0, offset: 512, len: 512 },
            Action::WriteChunk { index: 0, offset: 1024, len: 1 },
        ]
    );
    assert!(w.actions.contains(&Action::ReportLoaded { index: 0, bytes: 1025 }));
    assert_eq!(w.image[0].2, data);
}

#[test]
fn whole_chunks_need_no_short_write() {
    let data = vec![1u8; 1024];
    let files: [(&str, &[u8]); 1] = [("even", &data)];
    let mut w = world("t.img", "d", &files);
    let b = build(&mut w, BuildConfig::new(false, 512));
    assert!(b.is_finished());
    let writes: Vec<Action> =
        w.actions.iter().copied().filter(|a| matches!(a, Action::WriteChunk { .. })).collect();
    assert_eq!(
        writes,
        vec![
            Action::WriteChunk { index: 0, offset: 0, len: 512 },
            Action::WriteChunk { index: 0, offset: 512, len: 512 },
        ]
    );
}

#[test]
fn short_reads_are_written_where_they_belong() {
    let mut b = at_first_read(false, 512, 700);
    assert_eq!(b.step(Event::Count(100)), Action::WriteChunk { index: 0, offset: 0, len: 100 });
    assert_eq!(b.step(Event::Count(100)), Action::ReadChunk { index: 0, max: 512 });
    assert_eq!(b.step(Event::Count(512)), Action::WriteChunk { index: 0, offset: 100, len: 512 });
    assert_eq!(b.step(Event::Count(512)), Action::ReadChunk { index: 0, max: 512 });
    assert_eq!(b.step(Event::Count(88)), Action::WriteChunk { index: 0, offset: 612, len: 88 });
    assert_eq!(b.step(Event::Count(88)), Action::ReadChunk { index: 0, max: 512 });
    assert_eq!(b.step(Event::Count(0)), Action::ReportLoaded { index: 0, bytes: 700 });
    assert_eq!(b.step(Event::Done), Action::Finish);
}

#[test]
fn empty_file_is_created_without_a_write() {
    let files: [(&str, &[u8]); 1] = [("empty", b"")];
    let mut w = world("t.img", "d", &files);
    let b = build(&mut w, BuildConfig::new(true, 512));
    assert!(b.is_finished());
    assert!(!w.actions.iter().any(|a| matches!(a, Action::WriteChunk { .. })));
    assert!(w.actions.contains(&Action::CreateEntry { index: 0, flags: EntryFlags::Rwx }));
    assert!(w.actions.contains(&Action::SetSize { index: 0, size: 0 }));
    assert_eq!(w.image.len(), 1);
    assert_eq!(w.image[0].2.len(), 0);
}

#[test]
fn empty_directory_builds_an_empty_image() {
    let mut w = world("t.img", "d", &[]);
    let b = build(&mut w, BuildConfig::new(true, 512));
    assert!(b.is_finished());
    assert_eq!(b.file_count(), 0);
    assert_eq!(
        w.actions,
        vec![
            Action::CheckPaths,
            Action::OpenTarget,
            Action::Mount,
            Action::ListSource,
            Action::Initialize { total_blocks: 1024, iabc: 4 },
            Action::OpenImage,
            Action::ReportValid,
            Action::Finish,
        ]
    );
    assert_eq!(w.lines, vec!["block file t.img is valid!".to_string()]);
}

#[test]
fn directories_and_links_are_left_out() {
    let files: [(&str, &[u8]); 1] = [("a", b"abc")];
    let mut w = world("t.img", "d", &files);
    w.listing.insert(
        0,
        SourceEntry { name: "sub".to_string(), path: "d/sub".to_string(), kind: EntryKind::Directory },
    );
    w.listing.push(SourceEntry {
        name: "ln".to_string(),
        path: "d/ln".to_string(),
        kind: EntryKind::Symlink,
    });
    let b = build(&mut w, BuildConfig::new(true, 512));
    assert!(b.is_finished());
    assert_eq!(b.file_count(), 1);
    assert_eq!(b.file(0).unwrap().name, "a");
    assert!(b.file(1).is_none());
    assert_eq!(w.image.len(), 1);
}

#[test]
fn reopened_image_holds_exactly_the_source_names() {
    let files: [(&str, &[u8]); 3] = [("x", b"1"), ("y", b"22"), ("z", b"")];
    let mut w = world("t.img", "d", &files);
    let b = build(&mut w, BuildConfig::new(true, 512));
    assert!(b.is_finished());
    let names: Vec<&str> = w.image.iter().map(|e| e.0.as_str()).collect();
    assert_eq!(names, vec!["x", "y", "z"]);
    let lens: Vec<usize> = w.image.iter().map(|e| e.2.len()).collect();
    assert_eq!(lens, vec![1, 2, 0]);
    assert!(w.image.iter().all(|e| e.1 == EntryFlags::Rwx));
}

#[test]
fn new_builder_waits_for_the_paths() {
    let config = BuildConfig::new(true, 512);
    assert_eq!(config.total_blocks, 1024);
    assert_eq!(config.iabc, 4);
    assert_eq!(config.flags, EntryFlags::Rwx);
    assert_eq!(config.chunk_size, 512);
    assert!(config.check);
    let b = Builder::new(config);
    assert_eq!(b.config(), config);
    assert_eq!(b.phase(), Phase::CheckPaths);
    assert_eq!(b.pending(), Action::CheckPaths);
    assert_eq!(b.file_count(), 0);
    assert!(b.file(0).is_none());
    assert!(!b.is_finished());
    assert_eq!(b.error(), None);
}

#[test]
fn source_that_is_no_directory_is_rejected() {
    let mut b = Builder::new(BuildConfig::new(false, 512));
    let a = b.step(Event::Paths { source_is_dir: false, target_parent_is_dir: true });
    assert_eq!(a, Action::Abort(BuildError::SourceNotDirectory));
    assert_eq!(b.error(), Some(BuildError::SourceNotDirectory));
    let mut b = Builder::new(BuildConfig::new(false, 512));
    let a = b.step(Event::Paths { source_is_dir: false, target_parent_is_dir: false });
    assert_eq!(a, Action::Abort(BuildError::SourceNotDirectory));
}

#[test]
fn target_without_parent_directory_is_rejected() {
    let mut b = Builder::new(BuildConfig::new(false, 512));
    let a = b.step(Event::Paths { source_is_dir: true, target_parent_is_dir: false });
    assert_eq!(a, Action::Abort(BuildError::TargetParentNotDirectory));
}

#[test]
fn host_failures_abort_the_build() {
    let mut b = Builder::new(BuildConfig::new(false, 512));
    assert_eq!(b.step(Event::Failed), Action::Abort(BuildError::Host));

    let mut b = Builder::new(BuildConfig::new(false, 512));
    b.step(Event::Paths { source_is_dir: true, target_parent_is_dir: true });
    assert_eq!(b.step(Event::Failed), Action::Abort(BuildError::Host));

    let mut b = Builder::new(BuildConfig::new(false, 512));
    b.step(Event::Paths { source_is_dir: true, target_parent_is_dir: true });
    b.step(Event::Done);
    b.step(Event::Done);
    assert_eq!(b.step(Event::Failed), Action::Abort(BuildError::Host));

    let mut b = at_first_file(false, 512, &["f"]);
    assert_eq!(b.step(Event::Failed), Action::Abort(BuildError::Host));

    let mut b = at_first_file(false, 512, &["f"]);
    b.step(Event::Done);
    b.step(Event::Done);
    assert_eq!(b.step(Event::Failed), Action::Abort(BuildError::Host));

    let mut b = at_first_read(false, 512, 5);
    assert_eq!(b.step(Event::Failed), Action::Abort(BuildError::Host));
}

#[test]
fn mount_failure_is_a_device_fault() {
    let mut b = Builder::new(BuildConfig::new(false, 512));
    b.step(Event::Paths { source_is_dir: true, target_parent_is_dir: true });
    assert_eq!(b.step(Event::Done), Action::Mount);
    assert_eq!(b.step(Event::Failed), Action::Abort(BuildError::Device));
}

#[test]
fn refused_layout_is_a_layout_fault() {
    let mut b = Builder::new(BuildConfig::new(false, 512));
    b.step(Event::Paths { source_is_dir: true, target_parent_is_dir: true });
    b.step(Event::Done);
    b.step(Event::Done);
    b.step(Event::Listing(Vec::new()));
    assert_eq!(b.step(Event::Failed), Action::Abort(BuildError::Layout));

    let mut b = at_verification();
    assert_eq!(b.step(Event::Failed), Action::Abort(BuildError::Layout));
}

#[test]
fn engine_failures_in_population_are_allocation_faults() {
    let mut b = at_first_file(false, 512, &["f"]);
    b.step(Event::Done);
    assert_eq!(b.step(Event::Failed), Action::Abort(BuildError::Allocation));

    let mut b = at_first_file(false, 512, &["f"]);
    b.step(Event::Done);
    b.step(Event::Done);
    b.step(Event::Size(9));
    assert_eq!(b.step(Event::Failed), Action::Abort(BuildError::Allocation));

    let mut b = at_first_read(false, 512, 9);
    b.step(Event::Count(9));
    assert_eq!(b.step(Event::Failed), Action::Abort(BuildError::Allocation));
}

#[test]
fn engine_failures_in_verification_are_retrieval_faults() {
    let mut b = at_verification();
    assert_eq!(b.step(Event::Done), Action::OpenSource { index: 0 });
    assert_eq!(b.step(Event::Done), Action::Lookup { index: 0 });
    assert_eq!(b.step(Event::Failed), Action::Abort(BuildError::Retrieval));

    let mut b = at_verification();
    b.step(Event::Done);
    b.step(Event::Done);
    assert_eq!(b.step(Event::Done), Action::ReadImage { index: 0 });
    assert_eq!(b.step(Event::Failed), Action::Abort(BuildError::Retrieval));
}

#[test]
fn short_write_is_a_violation() {
    let mut b = at_first_read(false, 512, 100);
    assert_eq!(b.step(Event::Count(100)), Action::WriteChunk { index: 0, offset: 0, len: 100 });
    assert_eq!(
        b.step(Event::Count(99)),
        Action::Abort(BuildError::Invariant(Violation::WriteSizeMismatch))
    );
    let mut b = at_first_read(false, 512, 100);
    b.step(Event::Count(100));
    assert_eq!(
        b.step(Event::Count(101)),
        Action::Abort(BuildError::Invariant(Violation::WriteSizeMismatch))
    );
}

#[test]
fn copied_length_must_be_the_declared_one() {
    let mut b = at_first_read(false, 512, 100);
    assert_eq!(
        b.step(Event::Count(0)),
        Action::Abort(BuildError::Invariant(Violation::CopiedLengthMismatch))
    );
    let mut b = at_first_read(false, 512, 100);
    b.step(Event::Count(101));
    b.step(Event::Count(101));
    assert_eq!(
        b.step(Event::Count(0)),
        Action::Abort(BuildError::Invariant(Violation::CopiedLengthMismatch))
    );
}

#[test]
fn offset_beyond_64_bits_is_a_violation() {
    if usize::BITS == 64 {
        let mut b = at_first_read(false, usize::MAX, u64::MAX);
        let a = b.step(Event::Count(usize::MAX));
        assert_eq!(a, Action::WriteChunk { index: 0, offset: 0, len: usize::MAX });
        assert_eq!(b.step(Event::Count(usize::MAX)), Action::ReadChunk { index: 0, max: usize::MAX });
        let a = b.step(Event::Count(1));
        assert_eq!(a, Action::WriteChunk { index: 0, offset: u64::MAX, len: 1 });
        assert_eq!(
            b.step(Event::Count(1)),
            Action::Abort(BuildError::Invariant(Violation::OffsetOverflow))
        );
    }
}

#[test]
fn missing_entry_is_a_violation() {
    let mut b = at_verification();
    b.step(Event::Done);
    b.step(Event::Done);
    assert_eq!(
        b.step(Event::Missing),
        Action::Abort(BuildError::Invariant(Violation::MissingEntry))
    );
}

#[test]
fn read_back_of_another_length_is_a_violation() {
    let mut b = at_verification();
    b.step(Event::Done);
    b.step(Event::Done);
    b.step(Event::Done);
    assert_eq!(b.step(Event::Count(4)), Action::ReadSource { index: 0 });
    assert_eq!(
        b.step(Event::Count(5)),
        Action::Abort(BuildError::Invariant(Violation::ReadBackLengthMismatch))
    );
}

#[test]
fn read_back_of_equal_length_confirms_the_image() {
    let mut b = at_verification();
    b.step(Event::Done);
    b.step(Event::Done);
    b.step(Event::Done);
    b.step(Event::Count(0));
    assert_eq!(b.step(Event::Count(0)), Action::ReportValid);
    assert_eq!(b.step(Event::Done), Action::Finish);
    assert!(b.is_finished());
}

#[test]
fn unexpected_answers_break_the_protocol() {
    let mut b = Builder::new(BuildConfig::new(false, 512));
    assert_eq!(b.step(Event::Done), Action::Abort(BuildError::Protocol));

    let mut b = Builder::new(BuildConfig::new(false, 512));
    b.step(Event::Paths { source_is_dir: true, target_parent_is_dir: true });
    assert_eq!(b.step(Event::Count(3)), Action::Abort(BuildError::Protocol));

    let mut b = at_first_read(false, 512, 100);
    assert_eq!(b.step(Event::Done), Action::Abort(BuildError::Protocol));

    let mut b = at_first_read(false, 512, 100);
    assert_eq!(b.step(Event::Missing), Action::Abort(BuildError::Protocol));
}

#[test]
fn chunk_longer_than_the_buffer_breaks_the_protocol() {
    let mut b = at_first_read(false, 512, 1000);
    assert_eq!(b.step(Event::Count(513)), Action::Abort(BuildError::Protocol));
    let mut b = at_first_read(false, 512, 1000);
    assert_eq!(b.step(Event::Count(512)), Action::WriteChunk { index: 0, offset: 0, len: 512 });
}

#[test]
fn ended_build_stays_as_it_is() {
    let mut b = at_first_file(false, 512, &[]);
    assert_eq!(b.pending(), Action::Finish);
    assert_eq!(b.step(Event::Done), Action::Finish);
    assert_eq!(b.step(Event::Failed), Action::Finish);
    assert_eq!(b.step(Event::Count(1)), Action::Finish);
    assert!(b.is_finished());

    let mut b = Builder::new(BuildConfig::new(false, 512));
    b.step(Event::Failed);
    assert_eq!(b.step(Event::Done), Action::Abort(BuildError::Host));
    assert_eq!(b.step(Event::Listing(Vec::new())), Action::Abort(BuildError::Host));
    assert_eq!(b.error(), Some(BuildError::Host));
    assert!(!b.is_finished());
}

#[test]
fn files_are_populated_one_after_the_other() {
    let files: [(&str, &[u8]); 2] = [("one", &[1; 600]), ("two", &[2; 600])];
    let mut w = world("t.img", "d", &files);
    let b = build(&mut w, BuildConfig::new(false, 512));
    assert!(b.is_finished());
    let writes: Vec<Action> =
        w.actions.iter().copied().filter(|a| matches!(a, Action::WriteChunk { .. })).collect();
    assert_eq!(
        writes,
        vec![
            Action::WriteChunk { index: 0, offset: 0, len: 512 },
            Action::WriteChunk { index: 0, offset: 512, len: 88 },
            Action::WriteChunk { index: 1, offset: 0, len: 512 },
            Action::WriteChunk { index: 1, offset: 512, len: 88 },
        ]
    );
}

#[test]
fn zero_chunk_size_copies_only_empty_files() {
    let files: [(&str, &[u8]); 1] = [("e", b"")];
    let mut w = world("t.img", "d", &files);
    assert!(build(&mut w, BuildConfig::new(false, 0)).is_finished());

    let files: [(&str, &[u8]); 1] = [("n", b"x")];
    let mut w = world("t.img", "d", &files);
    let b = build(&mut w, BuildConfig::new(false, 0));
    assert_eq!(b.error(), Some(BuildError::Invariant(Violation::CopiedLengthMismatch)));
}
