//! The vocabulary between the builder and whoever drives it: the actions that
//! the builder asks for, the events that answer them, and the ways in which a
//! build ends badly.

use vstd::prelude::*;
use crate::source::{entry_views, SourceEntry, SourceEntryView};

verus! {

/// The inode-area sizing parameter that every image is laid out with.
pub const IABC: u8 = 4;

/// The number of blocks of every image.
pub const MAX_IMAGE_BLOCKS: u32 = 1024;

/// The permission and validity flags of a created entry.
#[derive(Clone, Copy, Debug, PartialEq, Eq, Structural)]
pub enum EntryFlags {
    /// Valid, readable, writable and executable.
    Rwx,
}

/// The inputs of a build that do not change while it runs.
#[derive(Clone, Copy, Debug, PartialEq, Eq, Structural)]
pub struct BuildConfig {
    /// Whether the image is opened again and read back after population.
    pub check: bool,
    /// The size of the engine's transfer buffer: no chunk is longer.
    pub chunk_size: usize,
    /// The number of blocks that the image is laid out with.
    pub total_blocks: u32,
    /// The inode-area sizing parameter that the image is laid out with.
    pub iabc: u8,
    /// The flags of every entry that is created.
    pub flags: EntryFlags,
}

impl BuildConfig {
    /// The configuration of a standard image: `MAX_IMAGE_BLOCKS` blocks, the
    /// sizing parameter `IABC`, every entry created with `EntryFlags::Rwx`.
    pub fn new(check: bool, chunk_size: usize) -> (config: BuildConfig)
        ensures
            config == (BuildConfig {
                check,
                chunk_size,
                total_blocks: MAX_IMAGE_BLOCKS,
                iabc: IABC,
                flags: EntryFlags::Rwx,
            }),
    {
        BuildConfig {
            check,
            chunk_size,
            total_blocks: MAX_IMAGE_BLOCKS,
            iabc: IABC,
            flags: EntryFlags::Rwx,
        }
    }
}

/// A broken invariant of the build: the image is known to be inconsistent.
#[derive(Clone, Copy, Debug, PartialEq, Eq, Structural)]
pub enum Violation {
    /// The engine reported another byte count than the chunk it was given.
    WriteSizeMismatch,
    /// The bytes written to an entry do not add up to its declared length.
    CopiedLengthMismatch,
    /// The byte offset within an entry left the range of 64 bits.
    OffsetOverflow,
    /// An entry that was created is not found under the root.
    MissingEntry,
    /// An entry read back has another length than its source file.
    ReadBackLengthMismatch,
}

/// Why a build was given up.
#[derive(Clone, Copy, Debug, PartialEq, Eq, Structural)]
pub enum BuildError {
    /// The source path does not name an existing directory.
    SourceNotDirectory,
    /// The parent of the target path is not an existing directory.
    TargetParentNotDirectory,
    /// The host failed to open, list, measure, read or print.
    Host,
    /// The device could not be mounted.
    Device,
    /// The engine refused to lay out or to open the image.
    Layout,
    /// The engine failed to create an entry, to size it or to write to it.
    Allocation,
    /// The engine failed to look an entry up or to read it.
    Retrieval,
    /// An invariant of the build is broken.
    Invariant(Violation),
    /// The event handed in does not answer the pending action.
    Protocol,
}

/// What the driver of a build is asked to do next. An index counts the files
/// of the source file set from zero.
#[derive(Clone, Copy, Debug, PartialEq, Eq, Structural)]
pub enum Action {
    /// Say whether the source path is a directory and whether the parent of
    /// the target path is one.
    CheckPaths,
    /// Open the target file for reading and writing, creating it if needed.
    OpenTarget,
    /// Wrap the target file as a block device and mount it.
    Mount,
    /// List the entries directly under the source directory.
    ListSource,
    /// Lay out a fresh filesystem on the mounted device.
    Initialize { total_blocks: u32, iabc: u8 },
    /// Open the source file for reading.
    OpenSource { index: usize },
    /// Create the entry of the file under the root, by its name.
    CreateEntry { index: usize, flags: EntryFlags },
    /// Read the byte length of the open source file from the host.
    QuerySize { index: usize },
    /// Set the byte length of the entry.
    SetSize { index: usize, size: u64 },
    /// Read up to `max` bytes from the open source file.
    ReadChunk { index: usize, max: usize },
    /// Write the first `len` bytes of the chunk to the entry at `offset`.
    WriteChunk { index: usize, offset: u64, len: usize },
    /// Print the progress line of the file, with the bytes copied.
    ReportLoaded { index: usize, bytes: u64 },
    /// Open the filesystem on the mounted device, without laying it out.
    OpenImage,
    /// Look the entry of the file up under the root, by its name.
    Lookup { index: usize },
    /// Read the whole entry and say how many bytes came.
    ReadImage { index: usize },
    /// Read the whole open source file and say how many bytes came.
    ReadSource { index: usize },
    /// Print the line that confirms the image.
    ReportValid,
    /// Nothing is left to do: the build succeeded.
    Finish,
    /// Nothing more can be done: the build failed.
    Abort(BuildError),
}

/// The answer to an action.
#[derive(Clone, Debug, PartialEq, Eq)]
pub enum Event {
    /// The action was carried out and has nothing to report.
    Done,
    /// The host or the engine reported an error.
    Failed,
    /// The answer to `CheckPaths`.
    Paths { source_is_dir: bool, target_parent_is_dir: bool },
    /// The answer to `ListSource`.
    Listing(Vec<SourceEntry>),
    /// A byte length that the host reported.
    Size(u64),
    /// A number of bytes that were read or written.
    Count(usize),
    /// The engine knows no entry of that name.
    Missing,
}

/// The mathematical value of an `Event`.
pub ghost enum EventView {
    Done,
    Failed,
    Paths { source_is_dir: bool, target_parent_is_dir: bool },
    Listing(Seq<SourceEntryView>),
    Size(u64),
    Count(usize),
    Missing,
}

impl EventView {
    /// Whether an event of this value can be handed over on a machine: a
    /// listing has no more entries than a machine can count.
    pub open spec fn fits(self) -> bool {
        match self {
            EventView::Listing(entries) => entries.len() <= usize::MAX,
            _ => true,
        }
    }
}

impl View for Event {
    type V = EventView;

    open spec fn view(&self) -> EventView {
        match *self {
            Event::Done => EventView::Done,
            Event::Failed => EventView::Failed,
            Event::Paths { source_is_dir, target_parent_is_dir } => EventView::Paths {
                source_is_dir,
                target_parent_is_dir,
            },
            Event::Listing(entries) => EventView::Listing(entry_views(entries@)),
            Event::Size(n) => EventView::Size(n),
            Event::Count(n) => EventView::Count(n),
            Event::Missing => EventView::Missing,
        }
    }
}

/// Every event that is handed over fits.
pub proof fn lemma_event_fits(event: Event)
    ensures
        event@.fits(),
{
    match event {
        Event::Listing(entries) => {
            assert(entries@.len() == entries.len());
            assert(entry_views(entries@).len() == entries@.len());
        },
        _ => {},
    }
}

} // verus!
