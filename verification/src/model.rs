//! The build as a state machine over mathematical values: its state, the
//! transition that an event causes, the action that a state waits for, and the
//! invariant that every reachable state meets.

use vstd::prelude::*;
use crate::protocol::{Action, BuildConfig, BuildError, EventView, Violation};
use crate::source::{spec_regular_files, SourceFileView};

verus! {

/// Where a build stands. Each phase but the last two waits for the answer to
/// one action.
#[derive(Clone, Copy, Debug, PartialEq, Eq, Structural)]
pub enum Phase {
    /// Waiting for the kinds of the two paths.
    CheckPaths,
    /// Waiting for the target file to be opened.
    OpenTarget,
    /// Waiting for the device to be mounted.
    Mount,
    /// Waiting for the listing of the source directory.
    ListSource,
    /// Waiting for the fresh layout.
    Initialize,
    /// Population: waiting for the source file to be opened.
    OpenSource { index: usize },
    /// Population: waiting for the entry to be created.
    CreateEntry { index: usize },
    /// Population: waiting for the length of the source file.
    QuerySize { index: usize },
    /// Population: waiting for the entry to take its declared length.
    SetSize { index: usize, declared: u64 },
    /// Population: waiting for the next chunk of the source file; `offset`
    /// bytes are written.
    ReadChunk { index: usize, declared: u64, offset: u64 },
    /// Population: waiting for the engine to write a chunk of `len` bytes at
    /// `offset`.
    WriteChunk { index: usize, declared: u64, offset: u64, len: usize },
    /// Population: waiting for the progress line to be printed.
    ReportLoaded { index: usize, bytes: u64 },
    /// Verification: waiting for the image to be opened again.
    OpenImage,
    /// Verification: waiting for the source file to be opened.
    ReopenSource { index: usize },
    /// Verification: waiting for the entry to be looked up.
    Lookup { index: usize },
    /// Verification: waiting for the entry to be read back.
    ReadImage { index: usize },
    /// Verification: waiting for the source file to be read; the entry gave
    /// `image_len` bytes.
    ReadSource { index: usize, image_len: usize },
    /// Verification: waiting for the confirmation line to be printed.
    ReportValid,
    /// The build succeeded.
    Finished,
    /// The build failed.
    Aborted(BuildError),
}

/// The record of one populated file.
pub ghost struct Loaded {
    /// The length that the entry was given before the first write.
    pub declared: nat,
    /// The sizes of the chunks that the engine wrote in full, in order.
    pub chunks: Seq<nat>,
}

/// The record of one verified file.
pub ghost struct Checked {
    /// The number of bytes that the entry gave when read back.
    pub image: nat,
    /// The number of bytes that the source file gave.
    pub source: nat,
}

/// What a build has achieved so far. Position `i` of `loaded` and of `checked`
/// speaks of file `i` of the source file set.
pub ghost struct History {
    /// The files whose population is complete.
    pub loaded: Seq<Loaded>,
    /// The chunks written so far to the file under population.
    pub writing: Seq<nat>,
    /// The files whose read-back is complete.
    pub checked: Seq<Checked>,
}

/// The state of a build.
pub ghost struct Model {
    pub config: BuildConfig,
    /// The source file set; empty until the listing has come.
    pub files: Seq<SourceFileView>,
    pub phase: Phase,
    pub history: History,
}

/// The sum of the sizes of some chunks.
pub open spec fn total(chunks: Seq<nat>) -> nat
    decreases chunks.len(),
{
    if chunks.len() == 0 {
        0
    } else {
        total(chunks.drop_last()) + chunks.last()
    }
}

/// The state in which every build starts.
pub open spec fn initial(config: BuildConfig) -> Model {
    Model {
        config,
        files: Seq::empty(),
        phase: Phase::CheckPaths,
        history: History { loaded: Seq::empty(), writing: Seq::empty(), checked: Seq::empty() },
    }
}

/// The state `m` in another phase.
pub open spec fn moved(m: Model, phase: Phase) -> Model {
    Model { phase, ..m }
}

/// The state `m` given up for `error`.
pub open spec fn aborted(m: Model, error: BuildError) -> Model {
    Model { phase: Phase::Aborted(error), ..m }
}

/// The answer to an action that reports nothing: on `Done` the build goes on
/// in `next`, on `Failed` it ends with `error`, on anything else with
/// `Protocol`.
pub open spec fn plain_answer(m: Model, e: EventView, error: BuildError, next: Phase) -> Model {
    match e {
        EventView::Done => moved(m, next),
        EventView::Failed => aborted(m, error),
        _ => aborted(m, BuildError::Protocol),
    }
}

/// The phase that follows population.
pub open spec fn phase_after_population(m: Model) -> Phase {
    if m.config.check {
        Phase::OpenImage
    } else {
        Phase::Finished
    }
}

/// The phase in which file `index` is taken up, or what follows population
/// where there is no such file.
pub open spec fn phase_at_file(m: Model, index: int) -> Phase {
    if 0 <= index < m.files.len() && index <= usize::MAX {
        Phase::OpenSource { index: index as usize }
    } else {
        phase_after_population(m)
    }
}

/// The phase in which the read-back of file `index` starts, or the phase of
/// the confirmation line where there is no such file.
pub open spec fn phase_at_check(m: Model, index: int) -> Phase {
    if 0 <= index < m.files.len() && index <= usize::MAX {
        Phase::ReopenSource { index: index as usize }
    } else {
        Phase::ReportValid
    }
}

/// The answer to a chunk read of `n` bytes while `offset` bytes of the
/// `declared` ones are written. No byte ends the file: then the bytes written
/// must be the declared ones.
pub open spec fn after_read(m: Model, index: usize, declared: u64, offset: u64, n: usize) -> Model {
    if n == 0 {
        if offset == declared {
            Model {
                phase: Phase::ReportLoaded { index, bytes: offset },
                history: History {
                    loaded: m.history.loaded.push(
                        Loaded { declared: declared as nat, chunks: m.history.writing },
                    ),
                    writing: Seq::empty(),
                    ..m.history
                },
                ..m
            }
        } else {
            aborted(m, BuildError::Invariant(Violation::CopiedLengthMismatch))
        }
    } else if n > m.config.chunk_size {
        aborted(m, BuildError::Protocol)
    } else {
        moved(m, Phase::WriteChunk { index, declared, offset, len: n })
    }
}

/// The answer to a chunk write of which the engine reports `written` bytes.
pub open spec fn after_write(
    m: Model,
    index: usize,
    declared: u64,
    offset: u64,
    len: usize,
    written: usize,
) -> Model {
    if written != len {
        aborted(m, BuildError::Invariant(Violation::WriteSizeMismatch))
    } else if offset + len > u64::MAX {
        aborted(m, BuildError::Invariant(Violation::OffsetOverflow))
    } else {
        Model {
            phase: Phase::ReadChunk { index, declared, offset: (offset + len) as u64 },
            history: History { writing: m.history.writing.push(len as nat), ..m.history },
            ..m
        }
    }
}

/// The answer to the read of a source file that gave `source_len` bytes while
/// its entry gave `image_len`.
pub open spec fn after_read_back(m: Model, index: usize, image_len: usize, source_len: usize) -> Model {
    if image_len == source_len {
        Model {
            phase: phase_at_check(m, index + 1),
            history: History {
                checked: m.history.checked.push(
                    Checked { image: image_len as nat, source: source_len as nat },
                ),
                ..m.history
            },
            ..m
        }
    } else {
        aborted(m, BuildError::Invariant(Violation::ReadBackLengthMismatch))
    }
}

/// The state that follows `m` when the pending action is answered by `e`.
pub open spec fn spec_step(m: Model, e: EventView) -> Model {
    match m.phase {
        Phase::CheckPaths => match e {
            EventView::Paths { source_is_dir, target_parent_is_dir } => {
                if !source_is_dir {
                    aborted(m, BuildError::SourceNotDirectory)
                } else if !target_parent_is_dir {
                    aborted(m, BuildError::TargetParentNotDirectory)
                } else {
                    moved(m, Phase::OpenTarget)
                }
            },
            EventView::Failed => aborted(m, BuildError::Host),
            _ => aborted(m, BuildError::Protocol),
        },
        Phase::OpenTarget => plain_answer(m, e, BuildError::Host, Phase::Mount),
        Phase::Mount => plain_answer(m, e, BuildError::Device, Phase::ListSource),
        Phase::ListSource => match e {
            EventView::Listing(entries) => Model {
                files: spec_regular_files(entries),
                phase: Phase::Initialize,
                ..m
            },
            EventView::Failed => aborted(m, BuildError::Host),
            _ => aborted(m, BuildError::Protocol),
        },
        Phase::Initialize => plain_answer(m, e, BuildError::Layout, phase_at_file(m, 0)),
        Phase::OpenSource { index } => plain_answer(
            m,
            e,
            BuildError::Host,
            Phase::CreateEntry { index },
        ),
        Phase::CreateEntry { index } => plain_answer(
            m,
            e,
            BuildError::Allocation,
            Phase::QuerySize { index },
        ),
        Phase::QuerySize { index } => match e {
            EventView::Size(n) => moved(m, Phase::SetSize { index, declared: n }),
            EventView::Failed => aborted(m, BuildError::Host),
            _ => aborted(m, BuildError::Protocol),
        },
        Phase::SetSize { index, declared } => plain_answer(
            m,
            e,
            BuildError::Allocation,
            Phase::ReadChunk { index, declared, offset: 0 },
        ),
        Phase::ReadChunk { index, declared, offset } => match e {
            EventView::Count(n) => after_read(m, index, declared, offset, n),
            EventView::Failed => aborted(m, BuildError::Host),
            _ => aborted(m, BuildError::Protocol),
        },
        Phase::WriteChunk { index, declared, offset, len } => match e {
            EventView::Count(written) => after_write(m, index, declared, offset, len, written),
            EventView::Failed => aborted(m, BuildError::Allocation),
            _ => aborted(m, BuildError::Protocol),
        },
        Phase::ReportLoaded { index, bytes } => plain_answer(
            m,
            e,
            BuildError::Host,
            phase_at_file(m, index + 1),
        ),
        Phase::OpenImage => plain_answer(m, e, BuildError::Layout, phase_at_check(m, 0)),
        Phase::ReopenSource { index } => plain_answer(
            m,
            e,
            BuildError::Host,
            Phase::Lookup { index },
        ),
        Phase::Lookup { index } => match e {
            EventView::Done => moved(m, Phase::ReadImage { index }),
            EventView::Missing => aborted(m, BuildError::Invariant(Violation::MissingEntry)),
            EventView::Failed => aborted(m, BuildError::Retrieval),
            _ => aborted(m, BuildError::Protocol),
        },
        Phase::ReadImage { index } => match e {
            EventView::Count(n) => moved(m, Phase::ReadSource { index, image_len: n }),
            EventView::Failed => aborted(m, BuildError::Retrieval),
            _ => aborted(m, BuildError::Protocol),
        },
        Phase::ReadSource { index, image_len } => match e {
            EventView::Count(n) => after_read_back(m, index, image_len, n),
            EventView::Failed => aborted(m, BuildError::Host),
            _ => aborted(m, BuildError::Protocol),
        },
        Phase::ReportValid => plain_answer(m, e, BuildError::Host, Phase::Finished),
        Phase::Finished => m,
        Phase::Aborted(_) => m,
    }
}

/// The action that a state waits for.
pub open spec fn spec_action(m: Model) -> Action {
    match m.phase {
        Phase::CheckPaths => Action::CheckPaths,
        Phase::OpenTarget => Action::OpenTarget,
        Phase::Mount => Action::Mount,
        Phase::ListSource => Action::ListSource,
        Phase::Initialize => Action::Initialize {
            total_blocks: m.config.total_blocks,
            iabc: m.config.iabc,
        },
        Phase::OpenSource { index } => Action::OpenSource { index },
        Phase::CreateEntry { index } => Action::CreateEntry { index, flags: m.config.flags },
        Phase::QuerySize { index } => Action::QuerySize { index },
        Phase::SetSize { index, declared } => Action::SetSize { index, size: declared },
        Phase::ReadChunk { index, .. } => Action::ReadChunk { index, max: m.config.chunk_size },
        Phase::WriteChunk { index, offset, len, .. } => Action::WriteChunk { index, offset, len },
        Phase::ReportLoaded { index, bytes } => Action::ReportLoaded { index, bytes },
        Phase::OpenImage => Action::OpenImage,
        Phase::ReopenSource { index } => Action::OpenSource { index },
        Phase::Lookup { index } => Action::Lookup { index },
        Phase::ReadImage { index } => Action::ReadImage { index },
        Phase::ReadSource { index, .. } => Action::ReadSource { index },
        Phase::ReportValid => Action::ReportValid,
        Phase::Finished => Action::Finish,
        Phase::Aborted(error) => Action::Abort(error),
    }
}

/// Every chunk holds at least one byte and at most `chunk_size`.
pub open spec fn chunks_fit(chunks: Seq<nat>, chunk_size: nat) -> bool {
    forall|k: int| 0 <= k < chunks.len() ==> 0 < #[trigger] chunks[k] <= chunk_size
}

/// The chunks written to a file add up to its declared length.
pub open spec fn loaded_in_full(record: Loaded, chunk_size: nat) -> bool {
    total(record.chunks) == record.declared && chunks_fit(record.chunks, chunk_size)
}

/// The entry read back was as long as its source file.
pub open spec fn checked_equal(record: Checked) -> bool {
    record.image == record.source
}

/// What holds of a history at every time: each populated file was written in
/// full, each verified file was read back at its length.
pub open spec fn history_sound(h: History, chunk_size: nat) -> bool {
    &&& forall|i: int| 0 <= i < h.loaded.len() ==> loaded_in_full(#[trigger] h.loaded[i], chunk_size)
    &&& forall|i: int| 0 <= i < h.checked.len() ==> checked_equal(#[trigger] h.checked[i])
    &&& chunks_fit(h.writing, chunk_size)
}

/// File `index` is under population: the files before it are populated, none
/// is verified, and `offset` bytes are written to it.
pub open spec fn populating(m: Model, index: usize, offset: nat) -> bool {
    &&& index < m.files.len()
    &&& m.history.loaded.len() == index
    &&& m.history.checked.len() == 0
    &&& total(m.history.writing) == offset
}

/// File `index` is under verification: every file is populated and the files
/// before it are verified.
pub open spec fn checking(m: Model, index: int) -> bool {
    &&& m.config.check
    &&& 0 <= index <= m.files.len()
    &&& m.history.loaded.len() == m.files.len()
    &&& m.history.writing.len() == 0
    &&& m.history.checked.len() == index
}

/// The invariant of the build: what holds of every state that a build can
/// reach.
pub open spec fn inv(m: Model) -> bool {
    &&& m.files.len() <= usize::MAX
    &&& history_sound(m.history, m.config.chunk_size as nat)
    &&& match m.phase {
        Phase::CheckPaths | Phase::OpenTarget | Phase::Mount | Phase::ListSource => {
            m.files.len() == 0 && m.history == initial(m.config).history
        },
        Phase::Initialize => m.history == initial(m.config).history,
        Phase::OpenSource { index } | Phase::CreateEntry { index } | Phase::QuerySize { index } => {
            populating(m, index, 0) && m.history.writing.len() == 0
        },
        Phase::SetSize { index, .. } => populating(m, index, 0) && m.history.writing.len() == 0,
        Phase::ReadChunk { index, offset, .. } => populating(m, index, offset as nat),
        Phase::WriteChunk { index, offset, len, .. } => {
            populating(m, index, offset as nat) && 0 < len <= m.config.chunk_size
        },
        Phase::ReportLoaded { index, bytes } => {
            &&& index < m.files.len()
            &&& m.history.loaded.len() == index + 1
            &&& m.history.loaded[index as int].declared == bytes
            &&& m.history.writing.len() == 0
            &&& m.history.checked.len() == 0
        },
        Phase::OpenImage => checking(m, 0),
        Phase::ReopenSource { index } | Phase::Lookup { index } | Phase::ReadImage { index } => {
            checking(m, index as int) && index < m.files.len()
        },
        Phase::ReadSource { index, .. } => checking(m, index as int) && index < m.files.len(),
        Phase::ReportValid => checking(m, m.files.len() as int),
        Phase::Finished => {
            &&& m.history.loaded.len() == m.files.len()
            &&& m.history.writing.len() == 0
            &&& m.history.checked.len() == if m.config.check {
                m.files.len()
            } else {
                0
            }
        },
        Phase::Aborted(_) => true,
    }
}

} // verus!
