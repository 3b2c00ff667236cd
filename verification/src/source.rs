//! The source file set: the regular files that lie directly under the source
//! directory, in the order in which the host lists them.

use vstd::prelude::*;

verus! {

/// What the host says an entry of the source directory is.
#[derive(Clone, Copy, Debug, PartialEq, Eq, Structural)]
pub enum EntryKind {
    /// A regular file.
    File,
    /// A directory.
    Directory,
    /// A symbolic link, whatever it points to.
    Symlink,
    /// A device, socket, pipe or anything else.
    Other,
}

/// One entry of the source directory as the host lists it.
#[derive(Clone, Debug, PartialEq, Eq)]
pub struct SourceEntry {
    /// The base name of the entry.
    pub name: String,
    /// The path by which the host opens the entry.
    pub path: String,
    /// What the entry is.
    pub kind: EntryKind,
}

/// A file that goes into the image. Its name is the name of its entry under
/// the image's root.
#[derive(Clone, Debug, PartialEq, Eq)]
pub struct SourceFile {
    /// The base name of the file.
    pub name: String,
    /// The path by which the host opens the file.
    pub path: String,
}

/// The mathematical value of a `SourceEntry`.
pub ghost struct SourceEntryView {
    pub name: Seq<char>,
    pub path: Seq<char>,
    pub kind: EntryKind,
}

/// The mathematical value of a `SourceFile`.
pub ghost struct SourceFileView {
    pub name: Seq<char>,
    pub path: Seq<char>,
}

impl View for SourceEntry {
    type V = SourceEntryView;

    open spec fn view(&self) -> SourceEntryView {
        SourceEntryView { name: self.name@, path: self.path@, kind: self.kind }
    }
}

impl View for SourceFile {
    type V = SourceFileView;

    open spec fn view(&self) -> SourceFileView {
        SourceFileView { name: self.name@, path: self.path@ }
    }
}

/// The values of a list of entries, in order.
pub open spec fn entry_views(entries: Seq<SourceEntry>) -> Seq<SourceEntryView> {
    entries.map_values(|e: SourceEntry| e@)
}

/// The values of a list of files, in order.
pub open spec fn file_views(files: Seq<SourceFile>) -> Seq<SourceFileView> {
    files.map_values(|f: SourceFile| f@)
}

/// The file that an entry stands for, if it is a regular file.
pub open spec fn spec_as_file(entry: SourceEntryView) -> Option<SourceFileView> {
    if entry.kind == EntryKind::File {
        Some(SourceFileView { name: entry.name, path: entry.path })
    } else {
        None
    }
}

/// The source file set of a listing: its regular files, each once, in the
/// order of the listing.
pub open spec fn spec_regular_files(entries: Seq<SourceEntryView>) -> Seq<SourceFileView> {
    entries.filter_map(|e: SourceEntryView| spec_as_file(e))
}

/// Keeps the regular files of a listing and drops directories, symbolic links
/// and special files. The order of the listing is kept; nothing is sorted and
/// equal names are not merged.
pub fn regular_files(entries: &Vec<SourceEntry>) -> (files: Vec<SourceFile>)
    ensures
        file_views(files@) == spec_regular_files(entry_views(entries@)),
{
    let mut files: Vec<SourceFile> = Vec::new();
    let mut i: usize = 0;
    let ghost all = entry_views(entries@);
    let ghost pick = |e: SourceEntryView| spec_as_file(e);
    assert(file_views(files@) =~= all.take(0).filter_map(pick));
    while i < entries.len()
        invariant
            i <= entries.len(),
            all == entry_views(entries@),
            pick == (|e: SourceEntryView| spec_as_file(e)),
            file_views(files@) == all.take(i as int).filter_map(pick),
        decreases entries.len() - i,
    {
        let entry = &entries[i];
        proof {
            all.lemma_filter_map_take_succ(pick, i as int);
            assert(all[i as int] == entry@);
        }
        let ghost before = files@;
        match entry.kind {
            EntryKind::File => {
                let file = SourceFile { name: entry.name.clone(), path: entry.path.clone() };
                files.push(file);
                assert(file_views(files@) =~= file_views(before) + seq![file@]);
            },
            _ => {},
        }
        i += 1;
    }
    assert(all.take(i as int) =~= all);
    files
}

} // verus!
