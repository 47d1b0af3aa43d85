//! A blame run against a repository on disk.
//!
//! The session drives the pipeline: it opens the repository, computes the
//! blame and resolves commits through the history engine, and hands each
//! record to its caller, who delivers it to the host and then asks for the
//! next one. The caller never sees a record before it has dealt with the one
//! before it.

use vstd::pervasive::unreached;
use vstd::prelude::*;
use vstd::string::*;
use crate::commit_id::CommitId;
use crate::engine::{
    blame_contents,
    blame_hunk_at,
    blame_len,
    commit_author,
    commit_committer,
    commit_summary,
    error_message,
    repository_blame_file,
    repository_find_commit,
    repository_init,
    repository_open,
};
use crate::failure::{failure_kind, BlameFailure, FailureKind, FailureView};
use crate::hunk::{contiguous, drop_empty, with_lines, BlameHunks, Hunk};
use crate::metadata::CommitMetadata;
use crate::record::RecordView;
use crate::delivery::lemma_step_delivers_next_hunk;
use crate::pipeline::{
    initial,
    lemma_run_push,
    lemma_step_preserves_wf,
    run_spec,
    step_spec,
    wf,
    Action,
    ActionView,
    Event,
    EventView,
    Phase,
    Pipeline,
    PipelineView,
};

verus! {

/// What to do when the path does not hold a repository yet.
#[derive(Clone, Copy, Debug, PartialEq, Eq, Structural)]
pub enum OpenPolicy {
    /// Fail.
    OpenOnly,
    /// Create an empty repository at the path and open it.
    OpenOrInitialize,
}

/// Opens the repository at `path`.
///
/// Whether this succeeds depends on what is on disk; a failure is always a
/// repository error carrying the engine's description.
pub fn git_repo(path: &str, policy: OpenPolicy) -> (opened: Result<git2::Repository, BlameFailure>)
    ensures
        opened matches Err(failure) ==> failure_kind(failure@) == FailureKind::Repository,
{
    let attempt = match policy {
        OpenPolicy::OpenOnly => repository_open(path),
        OpenPolicy::OpenOrInitialize => repository_init(path),
    };
    match attempt {
        Ok(repository) => repository_outcome(Ok(repository)),
        Err(error) => repository_outcome(Err(error_message(&error))),
    }
}

/// The cause reported for hunks that do not partition the file.
pub open spec fn broken_partition_cause() -> Seq<char> {
    "blame hunks do not partition the file"@
}

/// Accepts the hunks of a blame: the hunks without lines are left out, and the
/// others are accepted if and only if they partition the lines of the file in
/// order; otherwise the blame has failed.
pub fn accept_hunks(hunks: Vec<Hunk>) -> (outcome: Result<BlameHunks, BlameFailure>)
    ensures
        match outcome {
            Ok(accepted) => contiguous(with_lines(hunks@)) && accepted@ == with_lines(hunks@),
            Err(failure) => !contiguous(with_lines(hunks@)) && failure@
                == (FailureView::BlameError { cause: broken_partition_cause() }),
        },
{
    match BlameHunks::accept(drop_empty(hunks)) {
        Some(accepted) => Ok(accepted),
        None => Err(
            BlameFailure::BlameError {
                cause: String::from_str("blame hunks do not partition the file"),
            },
        ),
    }
}

/// Copies the hunks out of a computed blame, in order.
fn collect_hunks(blame: &git2::Blame) -> (hunks: Vec<Hunk>)
    ensures
        hunks@ == blame_contents(blame),
{
    let count = blame_len(blame);
    let mut hunks: Vec<Hunk> = Vec::new();
    let mut i: usize = 0;
    while i < count
        invariant
            i <= count,
            count == blame_contents(blame).len(),
            hunks@ == blame_contents(blame).take(i as int),
        decreases count - i,
    {
        if let Some(hunk) = blame_hunk_at(blame, i) {
            hunks.push(hunk);
        }
        assert(hunks@ =~= blame_contents(blame).take(i + 1));
        i += 1;
    }
    assert(blame_contents(blame).take(count as int) =~= blame_contents(blame));
    hunks
}

/// Computes the blame of the file at `path` in the repository.
///
/// The hunks come back as a finite sequence in file-line order, without the
/// hunks that have no lines, checked to partition the lines of the file.
/// Whether the blame can be computed depends on what is on disk; a failure
/// is always a blame error.
pub fn git_blame_file_rs(repo: &git2::Repository, path: &str) -> (outcome: Result<
    BlameHunks,
    BlameFailure,
>)
    ensures
        match outcome {
            Ok(hunks) => contiguous(hunks@),
            Err(failure) => failure_kind(failure@) == FailureKind::Blame,
        },
{
    match repository_blame_file(repo, path) {
        Ok(blame) => blame_outcome(Ok(collect_hunks(&blame))),
        Err(error) => blame_outcome(Err(error_message(&error))),
    }
}

/// Resolves a commit identifier to the metadata of the commit.
///
/// Whether the commit is found depends on what is on disk; a failure is
/// always a resolution error.
pub fn git_commit(repo: &git2::Repository, id: &CommitId) -> (outcome: Result<
    CommitMetadata,
    BlameFailure,
>)
    ensures
        outcome matches Err(failure) ==> failure_kind(failure@) == FailureKind::Resolution,
{
    match repository_find_commit(repo, id) {
        Ok(commit) => commit_outcome(
            Ok(CommitMetadata {
                summary: commit_summary(&commit),
                author: commit_author(&commit),
                committer: commit_committer(&commit),
            }),
        ),
        Err(error) => commit_outcome(Err(error_message(&error))),
    }
}

/// What opening a repository yields, given the engine's answer: the handle as
/// the engine gave it, or a repository error carrying the engine's
/// description.
pub fn repository_outcome(answer: Result<git2::Repository, String>) -> (opened: Result<
    git2::Repository,
    BlameFailure,
>)
    ensures
        match answer {
            Ok(repository) => opened matches Ok(handle) && handle == repository,
            Err(cause) => opened matches Err(failure) && failure@ == (FailureView::RepositoryError {
                cause: cause@,
            }),
        },
{
    match answer {
        Ok(repository) => Ok(repository),
        Err(cause) => Err(BlameFailure::RepositoryError { cause }),
    }
}

/// What resolving a commit yields, given the engine's answer: the metadata
/// as read from the commit, or a resolution error carrying the engine's
/// description.
pub fn commit_outcome(answer: Result<CommitMetadata, String>) -> (outcome: Result<
    CommitMetadata,
    BlameFailure,
>)
    ensures
        match answer {
            Ok(metadata) => outcome matches Ok(resolved) && resolved@ == metadata@,
            Err(cause) => outcome matches Err(failure) && failure@ == (FailureView::ResolutionError {
                cause: cause@,
            }),
        },
{
    match answer {
        Ok(metadata) => Ok(metadata),
        Err(cause) => Err(BlameFailure::ResolutionError { cause }),
    }
}

/// What computing a blame yields, given the engine's answer: what
/// `accept_hunks` makes of the hunks, or a blame error carrying the engine's
/// description.
pub fn blame_outcome(answer: Result<Vec<Hunk>, String>) -> (outcome: Result<
    BlameHunks,
    BlameFailure,
>)
    ensures
        match answer {
            Ok(hunks) => match outcome {
                Ok(accepted) => contiguous(with_lines(hunks@)) && accepted@ == with_lines(hunks@),
                Err(failure) => !contiguous(with_lines(hunks@)) && failure@
                    == (FailureView::BlameError { cause: broken_partition_cause() }),
            },
            Err(cause) => outcome matches Err(failure) && failure@ == (FailureView::BlameError {
                cause: cause@,
            }),
        },
{
    match answer {
        Ok(hunks) => accept_hunks(hunks),
        Err(cause) => Err(BlameFailure::BlameError { cause }),
    }
}

/// Whether the event reports how work of the history engine ended.
pub open spec fn engine_answer(event: EventView) -> bool {
    match event {
        EventView::Start | EventView::Delivered => false,
        EventView::BlameComputed { hunks } => contiguous(hunks),
        _ => true,
    }
}

/// Whether the action is one for the caller of a session: a record to
/// deliver, or the end of the run.
pub open spec fn for_caller(action: ActionView) -> bool {
    action is Deliver || action is Finish || action is Abort
}

/// The events that one advance of a session feeds to the pipeline: the
/// caller's own event first, `Start` for a fresh session and `Delivered`
/// afterwards, then the answers of the history engine.
pub open spec fn advance_events(s: PipelineView, events: Seq<EventView>) -> bool {
    &&& events.len() >= 1
    &&& events[0] == if s.phase == Phase::Idle {
        EventView::Start
    } else {
        EventView::Delivered
    }
    &&& forall|i: int| 1 <= i < events.len() ==> engine_answer(#[trigger] events[i])
}

/// The phases in which a session waits for its caller.
pub open spec fn waits_for_caller(phase: Phase) -> bool {
    phase == Phase::Idle || phase == Phase::Delivering || phase == Phase::Done || phase
        == Phase::Failed
}

/// What one advance has done to the delivered records, seen after its
/// first `k` events: nothing yet, or one record appended, after which the
/// run waits for the host and ignores the engine.
spec fn advanced_so_far(s: PipelineView, mid: PipelineView, action: ActionView) -> bool {
    ||| mid.phase != Phase::Delivering && mid.delivered == s.delivered && !(action is Deliver)
    ||| mid.phase == Phase::Delivering && (action is Ignored || action is Deliver) && exists|
        record: RecordView,
    |
        mid.delivered == s.delivered.push(record) && (action is Deliver ==> action
            == ActionView::Deliver { record })
}

/// One advance delivers at most one record: if it ends with `Deliver`, that
/// record is appended to the delivered ones; if it ends the run, the
/// delivered records are as they were.
pub proof fn lemma_advance_delivers_at_most_once(s: PipelineView, events: Seq<EventView>)
    requires
        wf(s),
        advance_events(s, events),
    ensures
        wf(run_spec(s, events).0),
        match run_spec(s, events).1 {
            ActionView::Deliver { record } => run_spec(s, events).0.delivered == s.delivered.push(
                record,
            ),
            ActionView::Finish | ActionView::Abort { .. } => run_spec(s, events).0.delivered
                == s.delivered,
            _ => true,
        },
{
    lemma_advance_so_far(s, events, events.len() as int);
    assert(events.take(events.len() as int) =~= events);
}

proof fn lemma_advance_so_far(s: PipelineView, events: Seq<EventView>, k: int)
    requires
        wf(s),
        advance_events(s, events),
        1 <= k <= events.len(),
    ensures
        wf(run_spec(s, events.take(k)).0),
        advanced_so_far(s, run_spec(s, events.take(k)).0, run_spec(s, events.take(k)).1),
    decreases k,
{
    let front = events.take(k - 1);
    let event = events[k - 1];
    assert(events.take(k) =~= front.push(event));
    lemma_run_push(s, front, event);
    let mid = run_spec(s, front).0;
    if k == 1 {
        assert(front =~= Seq::<EventView>::empty());
        assert(mid == s);
    } else {
        lemma_advance_so_far(s, events, k - 1);
        assert(engine_answer(event));
    }
    lemma_step_preserves_wf(mid, event);
    lemma_step_delivers_next_hunk(mid, event);
    let next = step_spec(mid, event).0;
    let action = step_spec(mid, event).1;
    if k > 1 && mid.phase == Phase::Delivering {
        let record = choose|record: RecordView| mid.delivered == s.delivered.push(record);
        assert(next.delivered == s.delivered.push(record));
    } else if action is Deliver {
        let record = action->record;
        assert(next.delivered == s.delivered.push(record));
    }
}

/// One blame run against a repository on disk.
pub struct BlameSession {
    repository_path: String,
    file_path: String,
    policy: OpenPolicy,
    repository: Option<git2::Repository>,
    pipeline: Pipeline,
}

impl View for BlameSession {
    type V = PipelineView;

    closed spec fn view(&self) -> PipelineView {
        self.pipeline@
    }
}

/// Starts a blame run for the file at `file_path` in the repository at
/// `repository_path`. Nothing is opened or read before the first advance.
pub fn git_blame(repository_path: &str, file_path: &str, policy: OpenPolicy) -> (session:
    BlameSession)
    ensures
        session@ == initial(),
        session.repository_path() == repository_path@,
        session.file_path() == file_path@,
        session.policy() == policy,
{
    BlameSession {
        repository_path: String::from_str(repository_path),
        file_path: String::from_str(file_path),
        policy,
        repository: None,
        pipeline: Pipeline::new(),
    }
}

impl BlameSession {
    #[verifier::type_invariant]
    pub closed spec fn valid(&self) -> bool {
        &&& wf(self.pipeline@)
        &&& waits_for_caller(self.pipeline@.phase)
        &&& self.pipeline@.phase == Phase::Delivering ==> self.repository is Some
    }

    /// The path of the repository that the run opens.
    pub closed spec fn repository_path(&self) -> Seq<char> {
        self.repository_path@
    }

    /// The path of the blamed file, relative to the repository root.
    pub closed spec fn file_path(&self) -> Seq<char> {
        self.file_path@
    }

    /// What the run does if the path holds no repository yet.
    pub closed spec fn policy(&self) -> OpenPolicy {
        self.policy
    }

    /// The activity in progress.
    pub fn phase(&self) -> (phase: Phase)
        ensures
            phase == self@.phase,
            waits_for_caller(phase),
            wf(self@),
    {
        proof {
            use_type_invariant(self);
        }
        self.pipeline.phase()
    }

    /// The failure that ended the run, if it has failed.
    pub fn failure(&self) -> (failure: Option<BlameFailure>)
        ensures
            match failure {
                Some(f) => self@.failure == Some(f@),
                None => self@.failure is None,
            },
    {
        self.pipeline.failure()
    }

    /// Number of records handed out so far.
    pub fn delivered_count(&self) -> (n: usize)
        ensures
            n == self@.delivered.len(),
    {
        self.pipeline.delivered_count()
    }

    /// Runs the pipeline up to the next record or to the end of the run.
    ///
    /// The first advance starts the run. Every later advance tells the
    /// pipeline that the host has handled the record handed out before. The
    /// session then does the engine work that the pipeline asks for, and
    /// returns the first action that is for the caller: `Deliver` with the
    /// next record, `Finish`, or `Abort` with the failure. A session that
    /// has finished or failed repeats its last action.
    pub fn advance(self) -> (next: (BlameSession, Action))
        ensures
            wf(self@),
            wf(next.0@),
            waits_for_caller(self@.phase),
            waits_for_caller(next.0@.phase),
            for_caller(next.1@),
            exists|events: Seq<EventView>| #[trigger]
                advance_events(self@, events) && run_spec(self@, events) == (next.0@, next.1@),
            match next.1@ {
                ActionView::Deliver { record } => next.0@.delivered == self@.delivered.push(
                    record,
                ),
                _ => next.0@.delivered == self@.delivered,
            },
            next.0.repository_path() == self.repository_path(),
            next.0.file_path() == self.file_path(),
            next.0.policy() == self.policy(),
    {
        proof {
            use_type_invariant(&self);
        }
        let ghost s = self@;
        let BlameSession { repository_path, file_path, policy, repository, pipeline } = self;
        let first = match pipeline.phase() {
            Phase::Idle => Event::Start,
            _ => Event::Delivered,
        };
        let ghost trace0 = seq![first@];
        proof {
            lemma_run_push(s, Seq::empty(), first@);
            assert(Seq::<EventView>::empty().push(first@) =~= trace0);
        }
        let (pipeline, action) = pipeline.step(first);
        let (pipeline, action, repository, Ghost(trace1)) = match action {
            Action::OpenRepository => {
                let (event, opened) = match git_repo(repository_path.as_str(), policy) {
                    Ok(opened) => (Event::RepositoryOpened, Some(opened)),
                    Err(failure) => (Event::RepositoryUnavailable { cause: failure.cause() }, None),
                };
                proof {
                    lemma_run_push(s, trace0, event@);
                }
                let ghost trace = trace0.push(event@);
                let (pipeline, action) = pipeline.step(event);
                (pipeline, action, opened, Ghost(trace))
            },
            other => (pipeline, other, repository, Ghost(trace0)),
        };
        let (pipeline, action, Ghost(trace2)) = match action {
            Action::ComputeBlame => {
                let event = match &repository {
                    Some(opened) => match git_blame_file_rs(opened, file_path.as_str()) {
                        Ok(hunks) => Event::BlameComputed { hunks },
                        Err(failure) => Event::BlameUnavailable { cause: failure.cause() },
                    },
                    None => unreached(),
                };
                proof {
                    lemma_run_push(s, trace1, event@);
                }
                let ghost trace = trace1.push(event@);
                let (pipeline, action) = pipeline.step(event);
                (pipeline, action, Ghost(trace))
            },
            other => (pipeline, other, Ghost(trace1)),
        };
        let (pipeline, action, Ghost(trace3)) = match action {
            Action::ResolveCommit { id } => {
                let event = match &repository {
                    Some(opened) => match git_commit(opened, &id) {
                        Ok(metadata) => Event::CommitResolved { metadata },
                        Err(failure) => Event::CommitUnavailable { cause: failure.cause() },
                    },
                    None => unreached(),
                };
                proof {
                    lemma_run_push(s, trace2, event@);
                }
                let ghost trace = trace2.push(event@);
                let (pipeline, action) = pipeline.step(event);
                (pipeline, action, Ghost(trace))
            },
            other => (pipeline, other, Ghost(trace2)),
        };
        proof {
            assert(advance_events(s, trace3));
            assert(run_spec(s, trace3) == (pipeline@, action@));
            lemma_advance_delivers_at_most_once(s, trace3);
        }
        (BlameSession { repository_path, file_path, policy, repository, pipeline }, action)
    }
}

} // verus!
