//! The image builder: it decides, answer by answer, what is done next.
//!
//! The driver asks for the pending action, carries it out on the host or on
//! the filesystem engine, and hands the answer to `step`, until the action is
//! `Finish` or `Abort`.

use vstd::prelude::*;
use crate::laws::{
    all_checked, all_loaded, lemma_finished_is_complete, lemma_initial_inv, lemma_step_keeps_inv,
};
use crate::model::{initial, inv, spec_action, spec_step, History, Loaded, Checked, Model, Phase};
use crate::protocol::{lemma_event_fits, Action, BuildConfig, BuildError, Event, Violation};
use crate::source::{file_views, regular_files, SourceFile};

verus! {

/// How far a build has come.
struct Progress {
    phase: Phase,
    history: Ghost<History>,
}

/// A build in progress. Every value of this type is in a state that a build
/// can reach.
pub struct Builder {
    config: BuildConfig,
    files: Vec<SourceFile>,
    progress: Progress,
}

impl View for Builder {
    type V = Model;

    closed spec fn view(&self) -> Model {
        Model {
            config: self.config,
            files: file_views(self.files@),
            phase: self.progress.phase,
            history: self.progress.history@,
        }
    }
}

impl Builder {
    #[verifier::type_invariant]
    spec fn reachable(&self) -> bool {
        inv(self@)
    }

    /// A build that has done nothing yet.
    pub fn new(config: BuildConfig) -> (builder: Builder)
        ensures
            builder@ == initial(config),
            inv(builder@),
    {
        let files: Vec<SourceFile> = Vec::new();
        proof {
            assert(file_views(files@) =~= Seq::empty());
            lemma_initial_inv(config);
        }
        Builder {
            config,
            files,
            progress: Progress {
                phase: Phase::CheckPaths,
                history: Ghost(initial(config).history),
            },
        }
    }

    /// The configuration that the build was started with.
    pub fn config(&self) -> (config: BuildConfig)
        ensures
            config == self@.config,
    {
        self.config
    }

    /// Where the build stands.
    pub fn phase(&self) -> (phase: Phase)
        ensures
            phase == self@.phase,
    {
        self.progress.phase
    }

    /// The number of files in the source file set; zero until the listing has
    /// come.
    pub fn file_count(&self) -> (count: usize)
        ensures
            count == self@.files.len(),
    {
        self.files.len()
    }

    /// File `index` of the source file set, if there is one.
    pub fn file(&self, index: usize) -> (file: Option<&SourceFile>)
        ensures
            match file {
                Some(f) => index < self@.files.len() && f@ == self@.files[index as int],
                None => index >= self@.files.len(),
            },
    {
        if index < self.files.len() {
            Some(&self.files[index])
        } else {
            None
        }
    }

    /// Whether the build has succeeded. If it has, every file of the source
    /// file set was written in full and, where verification was asked for,
    /// read back from the reopened image at the length of its source.
    pub fn is_finished(&self) -> (finished: bool)
        ensures
            finished == (self@.phase == Phase::Finished),
            finished ==> all_loaded(self@),
            finished && self@.config.check ==> all_checked(self@),
    {
        proof {
            use_type_invariant(self);
            if self@.phase == Phase::Finished {
                lemma_finished_is_complete(self@);
            }
        }
        match self.progress.phase {
            Phase::Finished => true,
            _ => false,
        }
    }

    /// Why the build failed, if it did.
    pub fn error(&self) -> (error: Option<BuildError>)
        ensures
            error == match self@.phase {
                Phase::Aborted(e) => Some(e),
                _ => None::<BuildError>,
            },
    {
        match self.progress.phase {
            Phase::Aborted(e) => Some(e),
            _ => None,
        }
    }

    /// The action that the build waits for.
    pub fn pending(&self) -> (action: Action)
        ensures
            action == spec_action(self@),
            inv(self@),
    {
        proof {
            use_type_invariant(self);
        }
        match self.progress.phase {
            Phase::CheckPaths => Action::CheckPaths,
            Phase::OpenTarget => Action::OpenTarget,
            Phase::Mount => Action::Mount,
            Phase::ListSource => Action::ListSource,
            Phase::Initialize => Action::Initialize {
                total_blocks: self.config.total_blocks,
                iabc: self.config.iabc,
            },
            Phase::OpenSource { index } => Action::OpenSource { index },
            Phase::CreateEntry { index } => Action::CreateEntry { index, flags: self.config.flags },
            Phase::QuerySize { index } => Action::QuerySize { index },
            Phase::SetSize { index, declared } => Action::SetSize { index, size: declared },
            Phase::ReadChunk { index, .. } => Action::ReadChunk {
                index,
                max: self.config.chunk_size,
            },
            Phase::WriteChunk { index, offset, len, .. } => Action::WriteChunk {
                index,
                offset,
                len,
            },
            Phase::ReportLoaded { index, bytes } => Action::ReportLoaded { index, bytes },
            Phase::OpenImage => Action::OpenImage,
            Phase::ReopenSource { index } => Action::OpenSource { index },
            Phase::Lookup { index } => Action::Lookup { index },
            Phase::ReadImage { index } => Action::ReadImage { index },
            Phase::ReadSource { index, .. } => Action::ReadSource { index },
            Phase::ReportValid => Action::ReportValid,
            Phase::Finished => Action::Finish,
            Phase::Aborted(error) => Action::Abort(error),
        }
    }

    /// The phase that follows population.
    fn phase_after_population(&self) -> (phase: Phase)
        ensures
            phase == crate::model::phase_after_population(self@),
    {
        if self.config.check {
            Phase::OpenImage
        } else {
            Phase::Finished
        }
    }

    /// The phase in which file `index` is taken up, or what follows
    /// population where there is no such file.
    fn phase_at_file(&self, index: usize) -> (phase: Phase)
        ensures
            phase == crate::model::phase_at_file(self@, index as int),
    {
        if index < self.files.len() {
            Phase::OpenSource { index }
        } else {
            self.phase_after_population()
        }
    }

    /// The phase in which the read-back of file `index` starts, or the phase
    /// of the confirmation line where there is no such file.
    fn phase_at_check(&self, index: usize) -> (phase: Phase)
        ensures
            phase == crate::model::phase_at_check(self@, index as int),
    {
        if index < self.files.len() {
            Phase::ReopenSource { index }
        } else {
            Phase::ReportValid
        }
    }

    /// The phase after an action that reports nothing.
    fn plain_answer(&self, event: &Event, error: BuildError, next: Phase) -> (phase: Phase)
        ensures
            crate::model::moved(self@, phase) == crate::model::plain_answer(
                self@,
                event@,
                error,
                next,
            ),
    {
        match event {
            Event::Done => next,
            Event::Failed => Phase::Aborted(error),
            _ => Phase::Aborted(BuildError::Protocol),
        }
    }

    /// The progress after the answer `event`, for every answer but a listing
    /// in the phase that waits for one.
    fn answered(&self, event: &Event) -> (next: Progress)
        requires
            !(self@.phase is ListSource && event@ is Listing),
        ensures
            (Model { phase: next.phase, history: next.history@, ..self@ }) == spec_step(
                self@,
                event@,
            ),
    {
        let ghost h = self.progress.history@;
        let mut history: Ghost<History> = Ghost(h);
        let phase = match self.progress.phase {
            Phase::CheckPaths => match event {
                Event::Paths { source_is_dir, target_parent_is_dir } => {
                    if !*source_is_dir {
                        Phase::Aborted(BuildError::SourceNotDirectory)
                    } else if !*target_parent_is_dir {
                        Phase::Aborted(BuildError::TargetParentNotDirectory)
                    } else {
                        Phase::OpenTarget
                    }
                },
                Event::Failed => Phase::Aborted(BuildError::Host),
                _ => Phase::Aborted(BuildError::Protocol),
            },
            Phase::OpenTarget => self.plain_answer(event, BuildError::Host, Phase::Mount),
            Phase::Mount => self.plain_answer(event, BuildError::Device, Phase::ListSource),
            Phase::ListSource => match event {
                Event::Failed => Phase::Aborted(BuildError::Host),
                _ => Phase::Aborted(BuildError::Protocol),
            },
            Phase::Initialize => self.plain_answer(
                event,
                BuildError::Layout,
                self.phase_at_file(0),
            ),
            Phase::OpenSource { index } => self.plain_answer(
                event,
                BuildError::Host,
                Phase::CreateEntry { index },
            ),
            Phase::CreateEntry { index } => self.plain_answer(
                event,
                BuildError::Allocation,
                Phase::QuerySize { index },
            ),
            Phase::QuerySize { index } => match event {
                Event::Size(n) => Phase::SetSize { index, declared: *n },
                Event::Failed => Phase::Aborted(BuildError::Host),
                _ => Phase::Aborted(BuildError::Protocol),
            },
            Phase::SetSize { index, declared } => self.plain_answer(
                event,
                BuildError::Allocation,
                Phase::ReadChunk { index, declared, offset: 0 },
            ),
            Phase::ReadChunk { index, declared, offset } => match event {
                Event::Count(n) => {
                    if *n == 0 {
                        if offset == declared {
                            proof {
                                history@ = History {
                                    loaded: h.loaded.push(
                                        Loaded { declared: declared as nat, chunks: h.writing },
                                    ),
                                    writing: Seq::empty(),
                                    ..h
                                };
                            }
                            Phase::ReportLoaded { index, bytes: offset }
                        } else {
                            Phase::Aborted(BuildError::Invariant(Violation::CopiedLengthMismatch))
                        }
                    } else if *n > self.config.chunk_size {
                        Phase::Aborted(BuildError::Protocol)
                    } else {
                        Phase::WriteChunk { index, declared, offset, len: *n }
                    }
                },
                Event::Failed => Phase::Aborted(BuildError::Host),
                _ => Phase::Aborted(BuildError::Protocol),
            },
            Phase::WriteChunk { index, declared, offset, len } => match event {
                Event::Count(written) => {
                    if *written != len {
                        Phase::Aborted(BuildError::Invariant(Violation::WriteSizeMismatch))
                    } else {
                        match offset.checked_add(len as u64) {
                            Some(end) => {
                                proof {
                                    history@ = History {
                                        writing: h.writing.push(len as nat),
                                        ..h
                                    };
                                }
                                Phase::ReadChunk { index, declared, offset: end }
                            },
                            None => Phase::Aborted(
                                BuildError::Invariant(Violation::OffsetOverflow),
                            ),
                        }
                    }
                },
                Event::Failed => Phase::Aborted(BuildError::Allocation),
                _ => Phase::Aborted(BuildError::Protocol),
            },
            Phase::ReportLoaded { index, bytes } => {
                proof {
                    use_type_invariant(self);
                }
                self.plain_answer(event, BuildError::Host, self.phase_at_file(index + 1))
            },
            Phase::OpenImage => self.plain_answer(
                event,
                BuildError::Layout,
                self.phase_at_check(0),
            ),
            Phase::ReopenSource { index } => self.plain_answer(
                event,
                BuildError::Host,
                Phase::Lookup { index },
            ),
            Phase::Lookup { index } => match event {
                Event::Done => Phase::ReadImage { index },
                Event::Missing => Phase::Aborted(BuildError::Invariant(Violation::MissingEntry)),
                Event::Failed => Phase::Aborted(BuildError::Retrieval),
                _ => Phase::Aborted(BuildError::Protocol),
            },
            Phase::ReadImage { index } => match event {
                Event::Count(n) => Phase::ReadSource { index, image_len: *n },
                Event::Failed => Phase::Aborted(BuildError::Retrieval),
                _ => Phase::Aborted(BuildError::Protocol),
            },
            Phase::ReadSource { index, image_len } => match event {
                Event::Count(n) => {
                    if image_len == *n {
                        proof {
                            use_type_invariant(self);
                            history@ = History {
                                checked: h.checked.push(
                                    Checked { image: image_len as nat, source: *n as nat },
                                ),
                                ..h
                            };
                        }
                        self.phase_at_check(index + 1)
                    } else {
                        Phase::Aborted(BuildError::Invariant(Violation::ReadBackLengthMismatch))
                    }
                },
                Event::Failed => Phase::Aborted(BuildError::Host),
                _ => Phase::Aborted(BuildError::Protocol),
            },
            Phase::ReportValid => self.plain_answer(event, BuildError::Host, Phase::Finished),
            Phase::Finished => Phase::Finished,
            Phase::Aborted(error) => Phase::Aborted(error),
        };
        Progress { phase, history }
    }

    /// Takes the answer to the pending action and returns the action that is
    /// pending then. A build that has ended stays as it is.
    pub fn step(&mut self, event: Event) -> (action: Action)
        ensures
            final(self)@ == spec_step(old(self)@, event@),
            inv(final(self)@),
            action == spec_action(final(self)@),
    {
        proof {
            use_type_invariant(&*self);
            lemma_event_fits(event);
            lemma_step_keeps_inv(self@, event@);
        }
        match (self.progress.phase, event) {
            (Phase::ListSource, Event::Listing(entries)) => {
                let files = regular_files(&entries);
                *self =
                Builder {
                    config: self.config,
                    files,
                    progress: Progress {
                        phase: Phase::Initialize,
                        history: Ghost(self.progress.history@),
                    },
                };
            },
            (_, event) => {
                let next = self.answered(&event);
                self.progress = next;
            },
        }
        self.pending()
    }
}

} // verus!
