//! A build among collaborators that keep their word: a host that reads every
//! source file to its end in chunks as full as the buffer allows, and an
//! engine that carries out whatever it is asked. Such a build succeeds, and
//! this module says with which writes.

use vstd::prelude::*;
use crate::laws::{lemma_regular_files_len, lemma_run_concat, run};
use crate::model::{
    initial, phase_after_population, phase_at_check, phase_at_file, spec_step, total, Checked,
    History, Loaded, Model, Phase,
};
use crate::protocol::{BuildConfig, EventView};
use crate::source::{spec_regular_files, SourceEntryView};

verus! {

/// The size of the next chunk when `remaining` bytes of a file are unread.
pub open spec fn next_chunk(remaining: nat, chunk_size: nat) -> nat {
    if remaining < chunk_size {
        remaining
    } else {
        chunk_size
    }
}

/// The sizes of the chunks in which `remaining` bytes are copied: full chunks
/// as long as the bytes last, then the rest, if there is one.
pub open spec fn fair_chunks(remaining: nat, chunk_size: nat) -> Seq<nat>
    decreases remaining,
{
    if remaining == 0 || chunk_size == 0 {
        Seq::empty()
    } else {
        seq![next_chunk(remaining, chunk_size)] + fair_chunks(
            (remaining - next_chunk(remaining, chunk_size)) as nat,
            chunk_size,
        )
    }
}

/// The answers to the reads and writes by which `remaining` bytes are copied:
/// each chunk read is written whole, and the read after the last byte gives
/// nothing.
pub open spec fn copy_events(remaining: nat, chunk_size: nat) -> Seq<EventView>
    decreases remaining,
{
    if remaining == 0 || chunk_size == 0 {
        seq![EventView::Count(0)]
    } else {
        let n = next_chunk(remaining, chunk_size);
        seq![EventView::Count(n as usize), EventView::Count(n as usize)] + copy_events(
            (remaining - n) as nat,
            chunk_size,
        )
    }
}

/// A chunk in front adds its size to the sum.
pub proof fn lemma_total_prepend(size: nat, chunks: Seq<nat>)
    ensures
        total(seq![size] + chunks) == size + total(chunks),
    decreases chunks.len(),
{
    if chunks.len() == 0 {
        assert(seq![size] + chunks =~= seq![size]);
        assert(seq![size].drop_last() =~= Seq::<nat>::empty());
        assert(total(seq![size]) == total(seq![size].drop_last()) + seq![size].last());
    } else {
        assert((seq![size] + chunks).drop_last() =~= seq![size] + chunks.drop_last());
        lemma_total_prepend(size, chunks.drop_last());
    }
}

/// The chunks of a fair copy add up to the bytes copied, whether or not the
/// chunk size divides them.
pub proof fn lemma_fair_chunks_total(remaining: nat, chunk_size: nat)
    requires
        chunk_size > 0,
    ensures
        total(fair_chunks(remaining, chunk_size)) == remaining,
    decreases remaining,
{
    if remaining > 0 {
        let n = next_chunk(remaining, chunk_size);
        lemma_fair_chunks_total((remaining - n) as nat, chunk_size);
        lemma_total_prepend(n, fair_chunks((remaining - n) as nat, chunk_size));
    }
}

/// The shape of a fair copy: as many chunks as the bytes need, every chunk but
/// the last one full, and the last one holding what the full ones leave.
pub proof fn lemma_fair_chunks_shape(remaining: nat, chunk_size: nat)
    requires
        chunk_size > 0,
    ensures
        fair_chunks(remaining, chunk_size).len() == (remaining + chunk_size - 1) / (
        chunk_size as int),
        forall|k: int|
            0 <= k < fair_chunks(remaining, chunk_size).len() - 1 ==> #[trigger] fair_chunks(
                remaining,
                chunk_size,
            )[k] == chunk_size,
        remaining > 0 ==> fair_chunks(remaining, chunk_size).last() == remaining - (fair_chunks(
            remaining,
            chunk_size,
        ).len() - 1) * chunk_size,
        remaining > 0 ==> 0 < fair_chunks(remaining, chunk_size).last() <= chunk_size,
    decreases remaining,
{
    let chunks = fair_chunks(remaining, chunk_size);
    if remaining == 0 {
        assert((remaining + chunk_size - 1) / (chunk_size as int) == 0) by (nonlinear_arith)
            requires
                remaining == 0,
                chunk_size > 0,
        ;
    } else if remaining <= chunk_size {
        assert(fair_chunks(0, chunk_size) =~= Seq::<nat>::empty());
        assert(chunks =~= seq![remaining]);
        assert((remaining + chunk_size - 1) / (chunk_size as int) == 1) by (nonlinear_arith)
            requires
                0 < remaining <= chunk_size,
        ;
        assert(chunks.last() == remaining - (chunks.len() - 1) * chunk_size) by {
            assert((chunks.len() - 1) * chunk_size == 0) by (nonlinear_arith)
                requires
                    chunks.len() == 1,
            ;
        }
    } else {
        let rest = (remaining - chunk_size) as nat;
        let tail = fair_chunks(rest, chunk_size);
        lemma_fair_chunks_shape(rest, chunk_size);
        assert(chunks =~= seq![chunk_size] + tail);
        assert((remaining + chunk_size - 1) / (chunk_size as int) == (rest + chunk_size - 1) / (
        chunk_size as int) + 1) by (nonlinear_arith)
            requires
                rest == remaining - chunk_size,
                chunk_size > 0,
        ;
        assert(chunks.len() == tail.len() + 1);
        assert(tail.len() >= 1);
        assert(chunks.last() == tail.last());
        assert((tail.len() - 1) * chunk_size + chunk_size == (chunks.len() - 1) * chunk_size)
            by (nonlinear_arith)
            requires
                chunks.len() == tail.len() + 1,
        ;
        assert forall|k: int| 0 <= k < chunks.len() - 1 implies #[trigger] chunks[k]
            == chunk_size by {
            if k > 0 {
                assert(chunks[k] == tail[k - 1]);
            }
        }
        assert(chunks.last() == remaining - (chunks.len() - 1) * chunk_size);
    }
}

/// Among faithful collaborators the copy of a file ends well: from the first
/// read on, the answers of a fair copy lead to the progress line, with every
/// byte of the declared length written, in the chunks of a fair copy.
pub proof fn lemma_faithful_copy(m: Model, index: usize, declared: u64, offset: u64)
    requires
        m.phase == (Phase::ReadChunk { index, declared, offset }),
        offset <= declared,
        m.config.chunk_size > 0,
    ensures
        run(m, copy_events((declared - offset) as nat, m.config.chunk_size as nat)) == (Model {
            phase: Phase::ReportLoaded { index, bytes: declared },
            history: History {
                loaded: m.history.loaded.push(
                    Loaded {
                        declared: declared as nat,
                        chunks: m.history.writing + fair_chunks(
                            (declared - offset) as nat,
                            m.config.chunk_size as nat,
                        ),
                    },
                ),
                writing: Seq::empty(),
                checked: m.history.checked,
            },
            ..m
        }),
    decreases declared - offset,
{
    let size = m.config.chunk_size as nat;
    let remaining = (declared - offset) as nat;
    let events = copy_events(remaining, size);
    if remaining == 0 {
        assert(events.drop_first() =~= Seq::<EventView>::empty());
        assert(m.history.writing + fair_chunks(remaining, size) =~= m.history.writing);
        assert(run(spec_step(m, events.first()), events.drop_first()) == spec_step(
            m,
            events.first(),
        ));
    } else {
        let n = next_chunk(remaining, size);
        let rest = copy_events((remaining - n) as nat, size);
        let read = spec_step(m, EventView::Count(n as usize));
        let written = spec_step(read, EventView::Count(n as usize));
        assert(events =~= seq![EventView::Count(n as usize), EventView::Count(n as usize)] + rest);
        assert(events.drop_first() =~= seq![EventView::Count(n as usize)] + rest);
        assert(events.drop_first().drop_first() =~= rest);
        assert(run(m, events) == run(read, events.drop_first()));
        assert(run(read, events.drop_first()) == run(written, rest));
        assert(written.phase == (Phase::ReadChunk {
            index,
            declared,
            offset: (offset + n) as u64,
        }));
        lemma_faithful_copy(written, index, declared, (offset + n) as u64);
        assert((m.history.writing.push(n) + fair_chunks((remaining - n) as nat, size))
            =~= m.history.writing + fair_chunks(remaining, size));
    }
}

/// Answering with one event and then with others is a step and then a run.
pub proof fn lemma_run_cons(m: Model, e: EventView, rest: Seq<EventView>)
    ensures
        run(m, seq![e] + rest) == run(spec_step(m, e), rest),
{
    assert((seq![e] + rest).first() == e);
    assert((seq![e] + rest).drop_first() =~= rest);
}

/// Answering with one event is a step.
pub proof fn lemma_run_one(m: Model, e: EventView)
    ensures
        run(m, seq![e]) == spec_step(m, e),
{
    assert(seq![e] =~= seq![e] + Seq::<EventView>::empty());
    lemma_run_cons(m, e, Seq::empty());
}

/// The answers by which one file of `len` bytes is populated: the source is
/// opened, the entry created, the length reported and set, the content copied
/// and the progress line printed.
pub open spec fn load_events(len: u64, chunk_size: nat) -> Seq<EventView> {
    seq![EventView::Done, EventView::Done, EventView::Size(len), EventView::Done] + copy_events(
        len as nat,
        chunk_size,
    ) + seq![EventView::Done]
}

/// The record that the population of a file of `len` bytes leaves.
pub open spec fn loaded_record(len: u64, chunk_size: nat) -> Loaded {
    Loaded { declared: len as nat, chunks: fair_chunks(len as nat, chunk_size) }
}

/// Among faithful collaborators the population of a file ends well, whatever
/// its length: a file of no bytes gets its entry without a single write, any
/// other is written in the chunks of a fair copy, and the build goes on with
/// the next file.
pub proof fn lemma_faithful_load(m: Model, index: usize, len: u64)
    requires
        m.phase == (Phase::OpenSource { index }),
        m.history.writing.len() == 0,
        m.config.chunk_size > 0,
    ensures
        run(m, load_events(len, m.config.chunk_size as nat)) == (Model {
            phase: phase_at_file(m, index + 1),
            history: History {
                loaded: m.history.loaded.push(loaded_record(len, m.config.chunk_size as nat)),
                writing: Seq::empty(),
                checked: m.history.checked,
            },
            ..m
        }),
{
    let size = m.config.chunk_size as nat;
    let copy = copy_events(len as nat, size);
    let tail = copy + seq![EventView::Done];
    let opened = spec_step(m, EventView::Done);
    let created = spec_step(opened, EventView::Done);
    let measured = spec_step(created, EventView::Size(len));
    let sized = spec_step(measured, EventView::Done);
    assert(load_events(len, size) =~= seq![EventView::Done] + (seq![EventView::Done] + (
    seq![EventView::Size(len)] + (seq![EventView::Done] + tail))));
    lemma_run_cons(
        m,
        EventView::Done,
        seq![EventView::Done] + (seq![EventView::Size(len)] + (seq![EventView::Done] + tail)),
    );
    lemma_run_cons(
        opened,
        EventView::Done,
        seq![EventView::Size(len)] + (seq![EventView::Done] + tail),
    );
    lemma_run_cons(created, EventView::Size(len), seq![EventView::Done] + tail);
    lemma_run_cons(measured, EventView::Done, tail);
    lemma_run_concat(sized, copy, seq![EventView::Done]);
    assert(sized.phase == (Phase::ReadChunk { index, declared: len, offset: 0 }));
    lemma_faithful_copy(sized, index, len, 0);
    let copied = run(sized, copy);
    lemma_run_one(copied, EventView::Done);
    assert(m.history.writing + fair_chunks(len as nat, size) =~= fair_chunks(len as nat, size));
    assert(m.history.writing =~= Seq::<nat>::empty());
}

/// A file of no bytes is populated without a write, whatever the chunk size:
/// its entry is created, sized to zero, and the first read ends the copy.
pub proof fn lemma_empty_file_needs_no_write(m: Model, index: usize)
    requires
        m.phase == (Phase::OpenSource { index }),
        m.history.writing.len() == 0,
    ensures
        load_events(0, m.config.chunk_size as nat) == seq![
            EventView::Done,
            EventView::Done,
            EventView::Size(0),
            EventView::Done,
            EventView::Count(0),
            EventView::Done,
        ],
        run(m, load_events(0, m.config.chunk_size as nat)) == (Model {
            phase: phase_at_file(m, index + 1),
            history: History {
                loaded: m.history.loaded.push(Loaded { declared: 0, chunks: Seq::empty() }),
                writing: Seq::empty(),
                checked: m.history.checked,
            },
            ..m
        }),
{
    let events = load_events(0, m.config.chunk_size as nat);
    let opened = spec_step(m, EventView::Done);
    let created = spec_step(opened, EventView::Done);
    let measured = spec_step(created, EventView::Size(0));
    let sized = spec_step(measured, EventView::Done);
    let copied = spec_step(sized, EventView::Count(0));
    assert(events =~= seq![
        EventView::Done,
        EventView::Done,
        EventView::Size(0),
        EventView::Done,
        EventView::Count(0),
        EventView::Done,
    ]);
    assert(events =~= seq![EventView::Done] + (seq![EventView::Done] + (seq![EventView::Size(0)]
        + (seq![EventView::Done] + (seq![EventView::Count(0)] + seq![EventView::Done])))));
    lemma_run_cons(
        m,
        EventView::Done,
        seq![EventView::Done] + (seq![EventView::Size(0)] + (seq![EventView::Done] + (
        seq![EventView::Count(0)] + seq![EventView::Done]))),
    );
    lemma_run_cons(
        opened,
        EventView::Done,
        seq![EventView::Size(0)] + (seq![EventView::Done] + (seq![EventView::Count(0)]
            + seq![EventView::Done])),
    );
    lemma_run_cons(
        created,
        EventView::Size(0),
        seq![EventView::Done] + (seq![EventView::Count(0)] + seq![EventView::Done]),
    );
    lemma_run_cons(measured, EventView::Done, seq![EventView::Count(0)] + seq![EventView::Done]);
    lemma_run_cons(sized, EventView::Count(0), seq![EventView::Done]);
    lemma_run_one(copied, EventView::Done);
    assert(m.history.writing =~= Seq::<nat>::empty());
}

/// The answers by which the first `upto` files are populated; `lens` holds
/// the length of each file of the source file set.
pub open spec fn population_events(lens: Seq<usize>, chunk_size: nat, upto: nat) -> Seq<EventView>
    decreases upto,
{
    if upto == 0 {
        Seq::empty()
    } else {
        population_events(lens, chunk_size, (upto - 1) as nat) + load_events(
            lens[upto - 1] as u64,
            chunk_size,
        )
    }
}

/// The records that the population of the first `upto` files leaves.
pub open spec fn loaded_records(lens: Seq<usize>, chunk_size: nat, upto: nat) -> Seq<Loaded> {
    Seq::new(upto, |i: int| loaded_record(lens[i] as u64, chunk_size))
}

/// Among faithful collaborators the population of the source file set ends
/// well: file after file is written in full, in the order of the set.
pub proof fn lemma_faithful_population(m: Model, lens: Seq<usize>, upto: nat)
    requires
        m.phase == phase_at_file(m, 0),
        m.history == initial(m.config).history,
        m.files.len() <= usize::MAX,
        lens.len() == m.files.len(),
        upto <= m.files.len(),
        m.config.chunk_size > 0,
    ensures
        run(m, population_events(lens, m.config.chunk_size as nat, upto)) == (Model {
            phase: phase_at_file(m, upto as int),
            history: History {
                loaded: loaded_records(lens, m.config.chunk_size as nat, upto),
                writing: Seq::empty(),
                checked: Seq::empty(),
            },
            ..m
        }),
    decreases upto,
{
    let size = m.config.chunk_size as nat;
    if upto == 0 {
        assert(loaded_records(lens, size, 0) =~= Seq::<Loaded>::empty());
    } else {
        let before = population_events(lens, size, (upto - 1) as nat);
        let len = lens[upto - 1] as u64;
        lemma_faithful_population(m, lens, (upto - 1) as nat);
        lemma_run_concat(m, before, load_events(len, size));
        let prev = run(m, before);
        lemma_faithful_load(prev, (upto - 1) as usize, len);
        assert(loaded_records(lens, size, (upto - 1) as nat).push(loaded_record(len, size))
            =~= loaded_records(lens, size, upto));
    }
}

/// The answers by which one file of `len` bytes is verified: the source is
/// opened, the entry found, and both give `len` bytes when read.
pub open spec fn check_events(len: usize) -> Seq<EventView> {
    seq![EventView::Done, EventView::Done, EventView::Count(len), EventView::Count(len)]
}

/// The answers by which the first `upto` files are verified.
pub open spec fn verification_events(lens: Seq<usize>, upto: nat) -> Seq<EventView>
    decreases upto,
{
    if upto == 0 {
        Seq::empty()
    } else {
        verification_events(lens, (upto - 1) as nat) + check_events(lens[upto - 1])
    }
}

/// The records that the verification of the first `upto` files leaves.
pub open spec fn checked_records(lens: Seq<usize>, upto: nat) -> Seq<Checked> {
    Seq::new(upto, |i: int| Checked { image: lens[i] as nat, source: lens[i] as nat })
}

/// Among faithful collaborators the verification of the source file set ends
/// well: file after file is found and read back at its length.
pub proof fn lemma_faithful_verification(m: Model, lens: Seq<usize>, upto: nat)
    requires
        m.phase == phase_at_check(m, 0),
        m.history.checked.len() == 0,
        m.files.len() <= usize::MAX,
        lens.len() == m.files.len(),
        upto <= m.files.len(),
    ensures
        run(m, verification_events(lens, upto)) == (Model {
            phase: phase_at_check(m, upto as int),
            history: History { checked: checked_records(lens, upto), ..m.history },
            ..m
        }),
    decreases upto,
{
    if upto == 0 {
        assert(checked_records(lens, 0) =~= m.history.checked);
    } else {
        let before = verification_events(lens, (upto - 1) as nat);
        let len = lens[upto - 1];
        let index = (upto - 1) as usize;
        lemma_faithful_verification(m, lens, (upto - 1) as nat);
        lemma_run_concat(m, before, check_events(len));
        let prev = run(m, before);
        let opened = spec_step(prev, EventView::Done);
        let found = spec_step(opened, EventView::Done);
        let read = spec_step(found, EventView::Count(len));
        assert(check_events(len) =~= seq![EventView::Done] + (seq![EventView::Done] + (
        seq![EventView::Count(len)] + seq![EventView::Count(len)])));
        lemma_run_cons(
            prev,
            EventView::Done,
            seq![EventView::Done] + (seq![EventView::Count(len)] + seq![EventView::Count(len)]),
        );
        lemma_run_cons(
            opened,
            EventView::Done,
            seq![EventView::Count(len)] + seq![EventView::Count(len)],
        );
        lemma_run_cons(found, EventView::Count(len), seq![EventView::Count(len)]);
        lemma_run_one(read, EventView::Count(len));
        assert(prev.phase == (Phase::ReopenSource { index }));
        assert(checked_records(lens, (upto - 1) as nat).push(
            Checked { image: len as nat, source: len as nat },
        ) =~= checked_records(lens, upto));
    }
}

/// The answers that start a build: both paths are directories, the target
/// opens, the device mounts, the listing comes and the layout is written.
pub open spec fn setup_events(entries: Seq<SourceEntryView>) -> Seq<EventView> {
    seq![
        EventView::Paths { source_is_dir: true, target_parent_is_dir: true },
        EventView::Done,
        EventView::Done,
        EventView::Listing(entries),
        EventView::Done,
    ]
}

/// The answers that end a build: none without verification; with it, the
/// image opens, every file is verified and the confirmation line is printed.
pub open spec fn closing_events(lens: Seq<usize>, check: bool) -> Seq<EventView> {
    if check {
        seq![EventView::Done] + verification_events(lens, lens.len()) + seq![EventView::Done]
    } else {
        Seq::empty()
    }
}

/// The answers of faithful collaborators to a whole build over the listing
/// `entries`, whose regular files have the lengths `lens`.
pub open spec fn build_events(
    entries: Seq<SourceEntryView>,
    lens: Seq<usize>,
    config: BuildConfig,
) -> Seq<EventView> {
    setup_events(entries) + population_events(lens, config.chunk_size as nat, lens.len())
        + closing_events(lens, config.check)
}

/// Among faithful collaborators every build succeeds: each regular file of
/// the listing is written in full under its name and, where verification is
/// asked for, read back from the reopened image at the length of its source.
/// This holds for files of any length, empty ones and those that the chunk
/// size does not divide among them.
pub proof fn lemma_faithful_build(
    config: BuildConfig,
    entries: Seq<SourceEntryView>,
    lens: Seq<usize>,
)
    requires
        config.chunk_size > 0,
        entries.len() <= usize::MAX,
        lens.len() == spec_regular_files(entries).len(),
    ensures
        run(initial(config), build_events(entries, lens, config)) == (Model {
            config,
            files: spec_regular_files(entries),
            phase: Phase::Finished,
            history: History {
                loaded: loaded_records(lens, config.chunk_size as nat, lens.len()),
                writing: Seq::empty(),
                checked: if config.check {
                    checked_records(lens, lens.len())
                } else {
                    Seq::empty()
                },
            },
        }),
{
    let size = config.chunk_size as nat;
    let paths = EventView::Paths { source_is_dir: true, target_parent_is_dir: true };
    let start = initial(config);
    let checked = spec_step(start, paths);
    let opened = spec_step(checked, EventView::Done);
    let mounted = spec_step(opened, EventView::Done);
    let listed = spec_step(mounted, EventView::Listing(entries));
    let laid_out = spec_step(listed, EventView::Done);
    let population = population_events(lens, size, lens.len());
    let closing = closing_events(lens, config.check);
    lemma_regular_files_len(entries);

    assert(setup_events(entries) =~= seq![paths] + (seq![EventView::Done] + (seq![EventView::Done]
        + (seq![EventView::Listing(entries)] + seq![EventView::Done]))));
    lemma_run_cons(
        start,
        paths,
        seq![EventView::Done] + (seq![EventView::Done] + (seq![EventView::Listing(entries)]
            + seq![EventView::Done])),
    );
    lemma_run_cons(
        checked,
        EventView::Done,
        seq![EventView::Done] + (seq![EventView::Listing(entries)] + seq![EventView::Done]),
    );
    lemma_run_cons(
        opened,
        EventView::Done,
        seq![EventView::Listing(entries)] + seq![EventView::Done],
    );
    lemma_run_cons(mounted, EventView::Listing(entries), seq![EventView::Done]);
    lemma_run_one(listed, EventView::Done);
    assert(run(start, setup_events(entries)) == laid_out);

    lemma_run_concat(start, setup_events(entries) + population, closing);
    lemma_run_concat(start, setup_events(entries), population);
    lemma_faithful_population(laid_out, lens, lens.len());
    let populated = run(laid_out, population);
    assert(populated.phase == phase_after_population(laid_out));

    if config.check {
        let verification = verification_events(lens, lens.len());
        let reopened = spec_step(populated, EventView::Done);
        assert(closing =~= seq![EventView::Done] + (verification + seq![EventView::Done]));
        lemma_run_cons(populated, EventView::Done, verification + seq![EventView::Done]);
        lemma_run_concat(reopened, verification, seq![EventView::Done]);
        lemma_faithful_verification(reopened, lens, lens.len());
        lemma_run_one(run(reopened, verification), EventView::Done);
    }
}

} // verus!
