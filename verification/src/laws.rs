//! What holds of every build, proved of the state machine.

use vstd::prelude::*;
use crate::model::{
    checked_equal, initial, inv, loaded_in_full, spec_action, spec_step, total, Model, Phase,
};
use crate::protocol::{Action, BuildConfig, EventView};
use crate::source::{spec_regular_files, SourceEntryView};

verus! {

/// One more chunk adds its size to the sum.
pub proof fn lemma_total_push(chunks: Seq<nat>, size: nat)
    ensures
        total(chunks.push(size)) == total(chunks) + size,
{
    assert(chunks.push(size).drop_last() =~= chunks);
}

/// The source file set is no longer than the listing it is taken from.
pub proof fn lemma_regular_files_len(entries: Seq<SourceEntryView>)
    ensures
        spec_regular_files(entries).len() <= entries.len(),
    decreases entries.len(),
{
    if entries.len() > 0 {
        lemma_regular_files_len(entries.drop_last());
    }
}

/// A build starts in a state that meets the invariant.
pub proof fn lemma_initial_inv(config: BuildConfig)
    ensures
        inv(initial(config)),
{
}

/// No event leads out of the invariant.
pub proof fn lemma_step_keeps_inv(m: Model, e: EventView)
    requires
        inv(m),
        e.fits(),
    ensures
        inv(spec_step(m, e)),
{
    let next = spec_step(m, e);
    let size = m.config.chunk_size as nat;
    match m.phase {
        Phase::ListSource => {
            if let EventView::Listing(entries) = e {
                lemma_regular_files_len(entries);
            }
        },
        Phase::ReadChunk { index, declared, offset } => {
            if next.phase is ReportLoaded {
                assert forall|i: int| 0 <= i < next.history.loaded.len() implies loaded_in_full(
                    #[trigger] next.history.loaded[i],
                    size,
                ) by {
                    if i < m.history.loaded.len() {
                        assert(next.history.loaded[i] == m.history.loaded[i]);
                    }
                }
            }
        },
        Phase::WriteChunk { index, declared, offset, len } => {
            if next.phase is ReadChunk {
                lemma_total_push(m.history.writing, len as nat);
                assert forall|k: int| 0 <= k < next.history.writing.len() implies 0
                    < #[trigger] next.history.writing[k] <= size by {
                    if k < m.history.writing.len() {
                        assert(next.history.writing[k] == m.history.writing[k]);
                    }
                }
            }
        },
        Phase::ReadSource { index, image_len } => {
            if !(next.phase is Aborted) {
                assert forall|i: int| 0 <= i < next.history.checked.len() implies checked_equal(
                    #[trigger] next.history.checked[i],
                ) by {
                    if i < m.history.checked.len() {
                        assert(next.history.checked[i] == m.history.checked[i]);
                    }
                }
            }
        },
        _ => {},
    }
}

/// The state that a build reaches from `m` when its actions are answered by
/// `events`, one after the other.
pub open spec fn run(m: Model, events: Seq<EventView>) -> Model
    decreases events.len(),
{
    if events.len() == 0 {
        m
    } else {
        run(spec_step(m, events.first()), events.drop_first())
    }
}

/// Every event of the sequence can be handed over on a machine.
pub open spec fn all_fit(events: Seq<EventView>) -> bool {
    forall|k: int| 0 <= k < events.len() ==> (#[trigger] events[k]).fits()
}

/// Answering with one sequence of events and then with another is answering
/// with the two in a row.
pub proof fn lemma_run_concat(m: Model, first: Seq<EventView>, second: Seq<EventView>)
    ensures
        run(m, first + second) == run(run(m, first), second),
    decreases first.len(),
{
    if first.len() == 0 {
        assert(first + second =~= second);
    } else {
        assert((first + second).first() == first.first());
        assert((first + second).drop_first() =~= first.drop_first() + second);
        lemma_run_concat(spec_step(m, first.first()), first.drop_first(), second);
    }
}

/// Whatever the answers are, a build never leaves the invariant.
pub proof fn lemma_run_keeps_inv(m: Model, events: Seq<EventView>)
    requires
        inv(m),
        all_fit(events),
    ensures
        inv(run(m, events)),
    decreases events.len(),
{
    if events.len() > 0 {
        assert(events.first().fits());
        lemma_step_keeps_inv(m, events.first());
        assert forall|k: int| 0 <= k < events.drop_first().len() implies (
        #[trigger] events.drop_first()[k]).fits() by {
            assert(events.drop_first()[k] == events[k + 1]);
        }
        lemma_run_keeps_inv(spec_step(m, events.first()), events.drop_first());
    }
}

/// Every file of the source file set has a record in `loaded`, and the chunks
/// written to each add up to the length declared for it.
pub open spec fn all_loaded(m: Model) -> bool {
    &&& m.history.loaded.len() == m.files.len()
    &&& forall|i: int|
        0 <= i < m.files.len() ==> total((#[trigger] m.history.loaded[i]).chunks)
            == m.history.loaded[i].declared
}

/// Every file of the source file set has a record in `checked`, and each was
/// read back from the image with the length that its source file had.
pub open spec fn all_checked(m: Model) -> bool {
    &&& m.history.checked.len() == m.files.len()
    &&& forall|i: int|
        0 <= i < m.files.len() ==> (#[trigger] m.history.checked[i]).image
            == m.history.checked[i].source
}

/// A build that has succeeded has written every file of the source file set
/// in full and, where verification was asked for, has found every file under
/// the root of the reopened image and read it back at the length of its
/// source.
pub proof fn lemma_finished_is_complete(m: Model)
    requires
        inv(m),
        m.phase == Phase::Finished,
    ensures
        all_loaded(m),
        m.config.check ==> all_checked(m),
{
    assert forall|i: int| 0 <= i < m.files.len() implies total(
        (#[trigger] m.history.loaded[i]).chunks,
    ) == m.history.loaded[i].declared by {
        assert(loaded_in_full(m.history.loaded[i], m.config.chunk_size as nat));
    }
    if m.config.check {
        assert forall|i: int| 0 <= i < m.files.len() implies (#[trigger] m.history.checked[i]).image
            == m.history.checked[i].source by {
            assert(checked_equal(m.history.checked[i]));
        }
    }
}

/// Whatever the host and the engine answer: if the build ends in success,
/// every file was written in full and, where verification was asked for, read
/// back at the length of its source.
pub proof fn lemma_successful_build_is_complete(config: BuildConfig, events: Seq<EventView>)
    requires
        all_fit(events),
        run(initial(config), events).phase == Phase::Finished,
    ensures
        all_loaded(run(initial(config), events)),
        config.check ==> all_checked(run(initial(config), events)),
{
    lemma_initial_inv(config);
    lemma_run_keeps_inv(initial(config), events);
    lemma_run_config(initial(config), events);
    lemma_finished_is_complete(run(initial(config), events));
}

/// No event changes the configuration.
pub proof fn lemma_run_config(m: Model, events: Seq<EventView>)
    ensures
        run(m, events).config == m.config,
    decreases events.len(),
{
    if events.len() > 0 {
        lemma_run_config(spec_step(m, events.first()), events.drop_first());
    }
}

/// A build that has ended stays as it is, whatever is handed to it.
pub proof fn lemma_ended_build_stays(m: Model, e: EventView)
    requires
        m.phase is Finished || m.phase is Aborted,
    ensures
        spec_step(m, e) == m,
{
}

/// Verification is entered only where it was asked for: without it a build
/// never waits for the image to be reopened, looked up or read back.
pub proof fn lemma_no_check_no_read_back(m: Model)
    requires
        inv(m),
        !m.config.check,
    ensures
        !(m.phase is OpenImage),
        !(m.phase is ReopenSource),
        !(m.phase is Lookup),
        !(m.phase is ReadImage),
        !(m.phase is ReadSource),
        !(m.phase is ReportValid),
{
}

/// While a file is under population the offset of the next write is the sum
/// of the chunks written to it so far: the writes of one file follow each
/// other without gap or overlap.
pub proof fn lemma_offset_is_bytes_written(m: Model)
    requires
        inv(m),
    ensures
        match m.phase {
            Phase::ReadChunk { offset, .. } => total(m.history.writing) == offset,
            Phase::WriteChunk { offset, .. } => total(m.history.writing) == offset,
            _ => true,
        },
{
}

/// Files are populated one after the other, in the order of the source file
/// set: while file `index` is under population, exactly the files before it
/// are complete and nothing is verified yet.
pub proof fn lemma_population_in_order(m: Model)
    requires
        inv(m),
    ensures
        match m.phase {
            Phase::OpenSource { index }
            | Phase::CreateEntry { index }
            | Phase::QuerySize { index }
            | Phase::SetSize { index, .. }
            | Phase::ReadChunk { index, .. }
            | Phase::WriteChunk { index, .. } => {
                &&& index < m.files.len()
                &&& m.history.loaded.len() == index
                &&& m.history.checked.len() == 0
            },
            _ => true,
        },
{
}

/// Whether the layout of the image has been written.
pub open spec fn past_layout(phase: Phase) -> bool {
    !(phase is CheckPaths || phase is OpenTarget || phase is Mount || phase is ListSource
        || phase is Initialize)
}

/// The image is laid out once: after the layout no answer leads back to it,
/// so verification reads the image that population wrote.
pub proof fn lemma_layout_written_once(m: Model, e: EventView)
    requires
        past_layout(m.phase),
    ensures
        past_layout(spec_step(m, e).phase),
        !(spec_action(spec_step(m, e)) is Initialize),
{
}

/// Every entry is created with the flags of the configuration, which no
/// event changes.
pub proof fn lemma_entries_share_flags(m: Model, e: EventView)
    ensures
        spec_step(m, e).config == m.config,
        match spec_action(m) {
            Action::CreateEntry { flags, .. } => flags == m.config.flags,
            _ => true,
        },
{
}

/// A write is asked for only after a read that gave bytes, with exactly the
/// bytes read and within the transfer buffer.
pub proof fn lemma_write_follows_read(m: Model, e: EventView)
    requires
        spec_action(spec_step(m, e)) is WriteChunk,
    ensures
        match (m.phase, e, spec_action(spec_step(m, e))) {
            (
                Phase::ReadChunk { index, offset, .. },
                EventView::Count(n),
                Action::WriteChunk { index: to, offset: at, len },
            ) => to == index && at == offset && len == n && 0 < n <= m.config.chunk_size,
            _ => false,
        },
{
}

} // verus!
