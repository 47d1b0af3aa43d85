//! The blame pipeline as a state machine.
//!
//! A run opens the repository, computes the blame of the file, and then, hunk
//! by hunk in file-line order, resolves the hunk's commit and delivers one
//! record to the host. The machine makes the decisions; whoever drives it
//! does the work. Each phase names the activity in progress, each event
//! reports how that activity ended, and each action asks for the next one:
//!
//! `Idle -> RepositoryOpen -> Blaming -> {ResolvingCommit -> Delivering}* -> Done`
//!
//! Any failure moves the machine to `Failed` and ends the run. Records that
//! were delivered before the failure stand.
//!
//! Metadata resolved for a commit is remembered for the rest of the run, so
//! all hunks of one commit are delivered with the same metadata and a commit
//! is resolved at most once per run.

use vstd::pervasive::unreached;
use vstd::prelude::*;
use crate::commit_id::CommitId;
use crate::failure::{failure_kind, BlameFailure, FailureKind, FailureView};
use crate::hunk::{contiguous, BlameHunks, Hunk};
use crate::metadata::{CommitMetadata, CommitMetadataView};
use crate::record::{assemble, assembled, BlameRecord, RecordView};

verus! {

/// The activity in progress.
#[derive(Clone, Copy, Debug, PartialEq, Eq, Structural)]
pub enum Phase {
    /// Nothing has been asked for yet.
    Idle,
    /// The repository is being opened.
    RepositoryOpen,
    /// The blame of the file is being computed.
    Blaming,
    /// The commit of the current hunk is being resolved.
    ResolvingCommit,
    /// The record of the current hunk is with the host.
    Delivering,
    /// Every hunk has been delivered.
    Done,
    /// The run has failed.
    Failed,
}

/// How an activity ended.
pub enum Event {
    /// The host asked for the blame.
    Start,
    /// The repository is open.
    RepositoryOpened,
    /// The repository could not be opened.
    RepositoryUnavailable { cause: String },
    /// The blame is computed.
    BlameComputed { hunks: BlameHunks },
    /// The blame could not be computed.
    BlameUnavailable { cause: String },
    /// The commit of the current hunk is resolved.
    CommitResolved { metadata: CommitMetadata },
    /// The commit of the current hunk could not be found.
    CommitUnavailable { cause: String },
    /// The host has handled the delivered record.
    Delivered,
}

/// An event with its text as character sequences.
pub enum EventView {
    Start,
    RepositoryOpened,
    RepositoryUnavailable { cause: Seq<char> },
    BlameComputed { hunks: Seq<Hunk> },
    BlameUnavailable { cause: Seq<char> },
    CommitResolved { metadata: CommitMetadataView },
    CommitUnavailable { cause: Seq<char> },
    Delivered,
}

impl View for Event {
    type V = EventView;

    open spec fn view(&self) -> EventView {
        match self {
            Event::Start => EventView::Start,
            Event::RepositoryOpened => EventView::RepositoryOpened,
            Event::RepositoryUnavailable { cause } => EventView::RepositoryUnavailable {
                cause: cause@,
            },
            Event::BlameComputed { hunks } => EventView::BlameComputed { hunks: hunks@ },
            Event::BlameUnavailable { cause } => EventView::BlameUnavailable { cause: cause@ },
            Event::CommitResolved { metadata } => EventView::CommitResolved {
                metadata: metadata@,
            },
            Event::CommitUnavailable { cause } => EventView::CommitUnavailable { cause: cause@ },
            Event::Delivered => EventView::Delivered,
        }
    }
}

/// What the driver is asked to do next.
#[derive(Debug, PartialEq, Eq)]
pub enum Action {
    /// Open the repository; answer with `RepositoryOpened` or
    /// `RepositoryUnavailable`.
    OpenRepository,
    /// Compute the blame of the file; answer with `BlameComputed` or
    /// `BlameUnavailable`.
    ComputeBlame,
    /// Resolve the commit; answer with `CommitResolved` or
    /// `CommitUnavailable`.
    ResolveCommit { id: CommitId },
    /// Hand the record to the host; answer with `Delivered` once the host
    /// has returned.
    Deliver { record: BlameRecord },
    /// The run is complete.
    Finish,
    /// The run has failed; report the failure.
    Abort { failure: BlameFailure },
    /// The event does not belong to the activity in progress; nothing
    /// changed.
    Ignored,
}

/// An action with its text as character sequences.
pub enum ActionView {
    OpenRepository,
    ComputeBlame,
    ResolveCommit { id: Seq<u8> },
    Deliver { record: RecordView },
    Finish,
    Abort { failure: FailureView },
    Ignored,
}

impl View for Action {
    type V = ActionView;

    open spec fn view(&self) -> ActionView {
        match self {
            Action::OpenRepository => ActionView::OpenRepository,
            Action::ComputeBlame => ActionView::ComputeBlame,
            Action::ResolveCommit { id } => ActionView::ResolveCommit { id: id@ },
            Action::Deliver { record } => ActionView::Deliver { record: record@ },
            Action::Finish => ActionView::Finish,
            Action::Abort { failure } => ActionView::Abort { failure: failure@ },
            Action::Ignored => ActionView::Ignored,
        }
    }
}

/// The state of a run.
#[verifier::ext_equal]
pub struct PipelineView {
    /// The activity in progress.
    pub phase: Phase,
    /// The hunks of the file; empty until the blame is computed.
    pub hunks: Seq<Hunk>,
    /// Index of the current hunk: all hunks before it have been delivered
    /// and acknowledged.
    pub cursor: nat,
    /// The metadata remembered for each commit resolved so far.
    pub resolved: Map<Seq<u8>, CommitMetadataView>,
    /// The failure that ended the run, if it has failed.
    pub failure: Option<FailureView>,
    /// Every record handed to the host so far, in order.
    pub delivered: Seq<RecordView>,
}

/// The state before anything has happened.
pub open spec fn initial() -> PipelineView {
    PipelineView {
        phase: Phase::Idle,
        hunks: Seq::empty(),
        cursor: 0,
        resolved: Map::empty(),
        failure: None,
        delivered: Seq::empty(),
    }
}

/// The run fails with `failure`.
pub open spec fn failed(s: PipelineView, failure: FailureView) -> (PipelineView, ActionView) {
    (PipelineView { phase: Phase::Failed, failure: Some(failure), ..s }, ActionView::Abort { failure })
}

/// The current hunk is assembled with `metadata`: the record goes to the
/// host and the metadata is remembered, or the run fails on the first field
/// that the commit lacks.
pub open spec fn offered(s: PipelineView, metadata: CommitMetadataView) -> (
    PipelineView,
    ActionView,
) {
    let hunk = s.hunks[s.cursor as int];
    match assembled(hunk, metadata) {
        Ok(record) => (
            PipelineView {
                phase: Phase::Delivering,
                resolved: s.resolved.insert(hunk.origin_commit_id@, metadata),
                delivered: s.delivered.push(record),
                ..s
            },
            ActionView::Deliver { record },
        ),
        Err(failure) => failed(s, failure),
    }
}

/// The machine turns to the hunk at the cursor: the run is complete if there
/// is none; a commit resolved earlier in the run is assembled at once;
/// otherwise its resolution is asked for.
pub open spec fn selected(s: PipelineView) -> (PipelineView, ActionView) {
    if s.cursor >= s.hunks.len() {
        (PipelineView { phase: Phase::Done, ..s }, ActionView::Finish)
    } else {
        let id = s.hunks[s.cursor as int].origin_commit_id@;
        if s.resolved.contains_key(id) {
            offered(s, s.resolved[id])
        } else {
            (PipelineView { phase: Phase::ResolvingCommit, ..s }, ActionView::ResolveCommit { id })
        }
    }
}

/// The transition function: the state and the action that follow from a
/// state and an event.
pub open spec fn step_spec(s: PipelineView, event: EventView) -> (PipelineView, ActionView) {
    match s.phase {
        Phase::Idle => match event {
            EventView::Start => (
                PipelineView { phase: Phase::RepositoryOpen, ..s },
                ActionView::OpenRepository,
            ),
            _ => (s, ActionView::Ignored),
        },
        Phase::RepositoryOpen => match event {
            EventView::RepositoryOpened => (
                PipelineView { phase: Phase::Blaming, ..s },
                ActionView::ComputeBlame,
            ),
            EventView::RepositoryUnavailable { cause } => failed(
                s,
                FailureView::RepositoryError { cause },
            ),
            _ => (s, ActionView::Ignored),
        },
        Phase::Blaming => match event {
            EventView::BlameComputed { hunks } => selected(PipelineView { hunks, cursor: 0, ..s }),
            EventView::BlameUnavailable { cause } => failed(s, FailureView::BlameError { cause }),
            _ => (s, ActionView::Ignored),
        },
        Phase::ResolvingCommit => match event {
            EventView::CommitResolved { metadata } => offered(s, metadata),
            EventView::CommitUnavailable { cause } => failed(
                s,
                FailureView::ResolutionError { cause },
            ),
            _ => (s, ActionView::Ignored),
        },
        Phase::Delivering => match event {
            EventView::Delivered => selected(PipelineView { cursor: s.cursor + 1, ..s }),
            _ => (s, ActionView::Ignored),
        },
        Phase::Done => (s, ActionView::Finish),
        Phase::Failed => (s, ActionView::Abort { failure: s.failure->0 }),
    }
}

/// The state and the last action after a sequence of events, taken in order.
/// Before any event the action is `Ignored`.
pub open spec fn run_spec(s: PipelineView, events: Seq<EventView>) -> (PipelineView, ActionView)
    decreases events.len(),
{
    if events.len() == 0 {
        (s, ActionView::Ignored)
    } else {
        step_spec(run_spec(s, events.drop_last()).0, events.last())
    }
}

/// A run extended by one event is the run followed by one transition.
pub proof fn lemma_run_push(s: PipelineView, events: Seq<EventView>, event: EventView)
    ensures
        run_spec(s, events.push(event)) == step_spec(run_spec(s, events).0, event),
{
    assert(events.push(event).drop_last() =~= events);
}

/// Record `k` of the delivered ones is hunk `k` assembled with the metadata
/// remembered for its commit.
pub open spec fn delivered_from(s: PipelineView, k: int) -> bool {
    let id = s.hunks[k].origin_commit_id@;
    &&& s.resolved.contains_key(id)
    &&& assembled(s.hunks[k], s.resolved[id]) == Ok::<RecordView, FailureView>(s.delivered[k])
}

/// What holds of every state of a run.
pub open spec fn wf(s: PipelineView) -> bool {
    &&& contiguous(s.hunks)
    &&& s.cursor <= s.hunks.len()
    &&& (s.phase == Phase::Failed) == (s.failure is Some)
    &&& s.delivered.len() == if s.phase == Phase::Delivering {
        s.cursor + 1
    } else {
        s.cursor
    }
    &&& match s.phase {
        Phase::Idle | Phase::RepositoryOpen | Phase::Blaming => s.hunks.len() == 0
            && s.resolved =~= Map::empty(),
        Phase::ResolvingCommit => s.cursor < s.hunks.len() && !s.resolved.contains_key(
            s.hunks[s.cursor as int].origin_commit_id@,
        ),
        Phase::Delivering => s.cursor < s.hunks.len(),
        Phase::Done => s.cursor == s.hunks.len(),
        Phase::Failed => match failure_kind(s.failure->0) {
            FailureKind::Repository | FailureKind::Blame => s.hunks.len() == 0,
            FailureKind::Resolution | FailureKind::MetadataField => s.cursor < s.hunks.len(),
        },
    }
    &&& forall|k: int| 0 <= k < s.delivered.len() ==> #[trigger] delivered_from(s, k)
}

/// The initial state is a state of a run.
pub proof fn lemma_initial_wf()
    ensures
        wf(initial()),
{
}

/// Every transition leads from a state of a run to a state of a run,
/// provided that a computed blame partitions the file.
pub proof fn lemma_step_preserves_wf(s: PipelineView, event: EventView)
    requires
        wf(s),
        event matches EventView::BlameComputed { hunks } ==> contiguous(hunks),
    ensures
        wf(step_spec(s, event).0),
{
    let next = step_spec(s, event).0;
    if s.phase == Phase::Blaming && event is BlameComputed {
        lemma_selected_wf(PipelineView { hunks: event->hunks, cursor: 0, ..s });
    } else if s.phase == Phase::ResolvingCommit && event is CommitResolved {
        lemma_offered_wf(s, event->metadata);
    } else if s.phase == Phase::Delivering && event is Delivered {
        let t = PipelineView { cursor: s.cursor + 1, ..s };
        assert forall|k: int| 0 <= k < t.delivered.len() implies #[trigger] delivered_from(
            t,
            k,
        ) by {
            assert(delivered_from(s, k));
        }
        lemma_selected_wf(t);
    } else {
        assert forall|k: int| 0 <= k < next.delivered.len() implies #[trigger] delivered_from(
            next,
            k,
        ) by {
            assert(delivered_from(s, k));
        }
    }
}

/// The deliveries so far are consistent and the cursor stands at the first
/// hunk not yet delivered: the condition under which the machine assembles
/// or selects a hunk.
pub open spec fn between_hunks(s: PipelineView) -> bool {
    &&& contiguous(s.hunks)
    &&& s.cursor <= s.hunks.len()
    &&& s.failure is None
    &&& s.delivered.len() == s.cursor
    &&& forall|k: int| 0 <= k < s.delivered.len() ==> #[trigger] delivered_from(s, k)
}

proof fn lemma_offered_wf(s: PipelineView, metadata: CommitMetadataView)
    requires
        between_hunks(s),
        s.cursor < s.hunks.len(),
        s.resolved.contains_key(s.hunks[s.cursor as int].origin_commit_id@) ==> s.resolved[s.hunks[s.cursor as int].origin_commit_id@]
            == metadata,
    ensures
        wf(offered(s, metadata).0),
{
    let next = offered(s, metadata).0;
    let hunk = s.hunks[s.cursor as int];
    if assembled(hunk, metadata) is Ok {
        assert forall|k: int| 0 <= k < next.delivered.len() implies #[trigger] delivered_from(
            next,
            k,
        ) by {
            if k < s.delivered.len() {
                assert(delivered_from(s, k));
            }
        }
    } else {
        assert forall|k: int| 0 <= k < next.delivered.len() implies #[trigger] delivered_from(
            next,
            k,
        ) by {
            assert(delivered_from(s, k));
        }
    }
}

proof fn lemma_selected_wf(s: PipelineView)
    requires
        between_hunks(s),
    ensures
        wf(selected(s).0),
{
    let next = selected(s).0;
    if s.cursor < s.hunks.len() {
        let id = s.hunks[s.cursor as int].origin_commit_id@;
        if s.resolved.contains_key(id) {
            lemma_offered_wf(s, s.resolved[id]);
        } else {
            assert forall|k: int| 0 <= k < next.delivered.len() implies #[trigger] delivered_from(
                next,
                k,
            ) by {
                assert(delivered_from(s, k));
            }
        }
    } else {
        assert forall|k: int| 0 <= k < next.delivered.len() implies #[trigger] delivered_from(
            next,
            k,
        ) by {
            assert(delivered_from(s, k));
        }
    }
}

/// The metadata resolved for one commit.
struct ResolvedCommit {
    id: CommitId,
    metadata: CommitMetadata,
}

/// The remembered metadata as a map from commit to metadata.
spec fn cache_map(entries: Seq<ResolvedCommit>) -> Map<Seq<u8>, CommitMetadataView>
    decreases entries.len(),
{
    if entries.len() == 0 {
        Map::empty()
    } else {
        cache_map(entries.drop_last()).insert(entries.last().id@, entries.last().metadata@)
    }
}

/// No commit is remembered twice.
spec fn distinct_ids(entries: Seq<ResolvedCommit>) -> bool {
    forall|i: int, j: int|
        0 <= i < j < entries.len() ==> (#[trigger] entries[i]).id@ != (#[trigger] entries[j]).id@
}

proof fn lemma_cache_domain(entries: Seq<ResolvedCommit>, id: Seq<u8>)
    ensures
        cache_map(entries).contains_key(id) <==> exists|i: int|
            0 <= i < entries.len() && (#[trigger] entries[i]).id@ == id,
    decreases entries.len(),
{
    if entries.len() > 0 {
        let front = entries.drop_last();
        lemma_cache_domain(front, id);
        if cache_map(entries).contains_key(id) {
            if entries.last().id@ == id {
                assert(entries[entries.len() - 1].id@ == id);
            } else {
                let i = choose|i: int| 0 <= i < front.len() && (#[trigger] front[i]).id@ == id;
                assert(entries[i].id@ == id);
            }
        }
        if exists|i: int| 0 <= i < entries.len() && (#[trigger] entries[i]).id@ == id {
            let i = choose|i: int| 0 <= i < entries.len() && (#[trigger] entries[i]).id@ == id;
            if i < front.len() {
                assert(front[i].id@ == id);
            }
        }
    }
}

proof fn lemma_cache_value(entries: Seq<ResolvedCommit>, i: int)
    requires
        distinct_ids(entries),
        0 <= i < entries.len(),
    ensures
        cache_map(entries).contains_key(entries[i].id@),
        cache_map(entries)[entries[i].id@] == entries[i].metadata@,
    decreases entries.len(),
{
    let front = entries.drop_last();
    if i < entries.len() - 1 {
        assert(distinct_ids(front)) by {
            assert forall|a: int, b: int| 0 <= a < b < front.len() implies (#[trigger] front[a]).id@
                != (#[trigger] front[b]).id@ by {
                assert(entries[a].id@ != entries[b].id@);
            }
        }
        lemma_cache_value(front, i);
        assert(front[i] == entries[i]);
        assert(entries[i].id@ != entries[entries.len() - 1].id@);
    }
}

/// The first remembered entry for `id`, if the commit has been resolved.
fn find_resolved(resolved: &Vec<ResolvedCommit>, id: &CommitId) -> (found: Option<usize>)
    requires
        distinct_ids(resolved@),
    ensures
        match found {
            Some(i) => i < resolved@.len() && cache_map(resolved@).contains_key(id@) && cache_map(
                resolved@,
            )[id@] == resolved@[i as int].metadata@,
            None => !cache_map(resolved@).contains_key(id@),
        },
{
    let mut i: usize = 0;
    while i < resolved.len()
        invariant
            i <= resolved.len(),
            distinct_ids(resolved@),
            forall|k: int| 0 <= k < i ==> (#[trigger] resolved@[k]).id@ != id@,
        decreases resolved.len() - i,
    {
        if resolved[i].id.same_as(id) {
            proof {
                lemma_cache_value(resolved@, i as int);
            }
            return Some(i);
        }
        i += 1;
    }
    proof {
        lemma_cache_domain(resolved@, id@);
    }
    None
}

/// A blame run: the state machine with its data.
pub struct Pipeline {
    phase: Phase,
    hunks: BlameHunks,
    cursor: usize,
    resolved: Vec<ResolvedCommit>,
    failure: Option<BlameFailure>,
    delivered: Ghost<Seq<RecordView>>,
}

impl View for Pipeline {
    type V = PipelineView;

    closed spec fn view(&self) -> PipelineView {
        PipelineView {
            phase: self.phase,
            hunks: self.hunks@,
            cursor: self.cursor as nat,
            resolved: cache_map(self.resolved@),
            failure: failure_view(self.failure),
            delivered: self.delivered@,
        }
    }
}

/// The view of an optional failure.
pub open spec fn failure_view(failure: Option<BlameFailure>) -> Option<FailureView> {
    match failure {
        Some(f) => Some(f@),
        None => None,
    }
}

/// Puts the parts of a state together.
fn build(
    phase: Phase,
    hunks: BlameHunks,
    cursor: usize,
    resolved: Vec<ResolvedCommit>,
    failure: Option<BlameFailure>,
    delivered: Ghost<Seq<RecordView>>,
    Ghost(target): Ghost<PipelineView>,
) -> (pipeline: Pipeline)
    requires
        wf(target),
        distinct_ids(resolved@),
        target.phase == phase,
        target.hunks =~= hunks@,
        target.cursor == cursor,
        target.resolved =~= cache_map(resolved@),
        target.failure == failure_view(failure),
        target.delivered =~= delivered@,
    ensures
        pipeline@ == target,
{
    let ghost v = PipelineView {
        phase,
        hunks: hunks@,
        cursor: cursor as nat,
        resolved: cache_map(resolved@),
        failure: failure_view(failure),
        delivered: delivered@,
    };
    assert(v =~= target);
    Pipeline { phase, hunks, cursor, resolved, failure, delivered }
}

/// Assembles the current hunk with metadata that the engine has just
/// resolved, and remembers the metadata.
fn offer(
    hunks: BlameHunks,
    cursor: usize,
    resolved: Vec<ResolvedCommit>,
    delivered: Ghost<Seq<RecordView>>,
    metadata: CommitMetadata,
    Ghost(s): Ghost<PipelineView>,
) -> (next: (Pipeline, Action))
    requires
        between_hunks(s),
        distinct_ids(resolved@),
        s.hunks == hunks@,
        s.cursor == cursor,
        s.resolved == cache_map(resolved@),
        s.delivered == delivered@,
        s.cursor < s.hunks.len(),
        !s.resolved.contains_key(s.hunks[s.cursor as int].origin_commit_id@),
    ensures
        next.0@ == offered(s, metadata@).0,
        next.1@ == offered(s, metadata@).1,
{
    let hunk = hunks.at(cursor);
    let ghost target = offered(s, metadata@).0;
    proof {
        lemma_offered_wf(s, metadata@);
    }
    match assemble(&hunk, &metadata) {
        Ok(record) => {
            let mut resolved = resolved;
            let ghost before = resolved@;
            proof {
                lemma_cache_domain(before, hunk.origin_commit_id@);
            }
            resolved.push(ResolvedCommit { id: hunk.origin_commit_id, metadata });
            proof {
                assert(resolved@.drop_last() =~= before);
                assert forall|i: int, j: int| 0 <= i < j < resolved@.len() implies (
                #[trigger] resolved@[i]).id@ != (#[trigger] resolved@[j]).id@ by {
                    assert(resolved@[i] == before[i]);
                    if j < before.len() {
                        assert(resolved@[j] == before[j]);
                    }
                }
            }
            let next = build(
                Phase::Delivering,
                hunks,
                cursor,
                resolved,
                None,
                Ghost(delivered@.push(record@)),
                Ghost(target),
            );
            (next, Action::Deliver { record })
        },
        Err(failure) => {
            let next = build(
                Phase::Failed,
                hunks,
                cursor,
                resolved,
                Some(failure.duplicate()),
                delivered,
                Ghost(target),
            );
            (next, Action::Abort { failure })
        },
    }
}

/// Turns to the hunk at the cursor.
fn select(
    hunks: BlameHunks,
    cursor: usize,
    resolved: Vec<ResolvedCommit>,
    delivered: Ghost<Seq<RecordView>>,
    Ghost(s): Ghost<PipelineView>,
) -> (next: (Pipeline, Action))
    requires
        between_hunks(s),
        distinct_ids(resolved@),
        s.hunks == hunks@,
        s.cursor == cursor,
        s.resolved == cache_map(resolved@),
        s.delivered == delivered@,
    ensures
        next.0@ == selected(s).0,
        next.1@ == selected(s).1,
{
    let ghost target = selected(s).0;
    proof {
        lemma_selected_wf(s);
    }
    if cursor >= hunks.len() {
        let next = build(Phase::Done, hunks, cursor, resolved, None, delivered, Ghost(target));
        return (next, Action::Finish);
    }
    let hunk = hunks.at(cursor);
    match find_resolved(&resolved, &hunk.origin_commit_id) {
        Some(i) => {
            let ghost metadata = resolved@[i as int].metadata@;
            match assemble(&hunk, &resolved[i].metadata) {
                Ok(record) => {
                    assert(s.resolved.insert(hunk.origin_commit_id@, metadata) =~= s.resolved);
                    let next = build(
                        Phase::Delivering,
                        hunks,
                        cursor,
                        resolved,
                        None,
                        Ghost(delivered@.push(record@)),
                        Ghost(target),
                    );
                    (next, Action::Deliver { record })
                },
                Err(failure) => {
                    let next = build(
                        Phase::Failed,
                        hunks,
                        cursor,
                        resolved,
                        Some(failure.duplicate()),
                        delivered,
                        Ghost(target),
                    );
                    (next, Action::Abort { failure })
                },
            }
        },
        None => {
            let next = build(
                Phase::ResolvingCommit,
                hunks,
                cursor,
                resolved,
                None,
                delivered,
                Ghost(target),
            );
            (next, Action::ResolveCommit { id: hunk.origin_commit_id })
        },
    }
}

impl Pipeline {
    #[verifier::type_invariant]
    pub closed spec fn valid(&self) -> bool {
        &&& wf(self@)
        &&& distinct_ids(self.resolved@)
    }

    /// A run that has not started.
    pub fn new() -> (pipeline: Pipeline)
        ensures
            pipeline@ == initial(),
    {
        let pipeline = Pipeline {
            phase: Phase::Idle,
            hunks: BlameHunks::empty(),
            cursor: 0,
            resolved: Vec::new(),
            failure: None,
            delivered: Ghost(Seq::empty()),
        };
        assert(pipeline@ =~= initial());
        pipeline
    }

    /// The activity in progress.
    pub fn phase(&self) -> (phase: Phase)
        ensures
            phase == self@.phase,
            wf(self@),
    {
        proof {
            use_type_invariant(self);
        }
        self.phase
    }

    /// The failure that ended the run, if it has failed.
    pub fn failure(&self) -> (failure: Option<BlameFailure>)
        ensures
            wf(self@),
            match failure {
                Some(f) => self@.failure == Some(f@),
                None => self@.failure is None,
            },
    {
        proof {
            use_type_invariant(self);
        }
        match &self.failure {
            Some(f) => Some(f.duplicate()),
            None => None,
        }
    }

    /// Number of hunks of the file; zero until the blame is computed.
    pub fn hunk_count(&self) -> (n: usize)
        ensures
            n == self@.hunks.len(),
            wf(self@),
    {
        proof {
            use_type_invariant(self);
        }
        self.hunks.len()
    }

    /// Number of records handed to the host so far.
    pub fn delivered_count(&self) -> (n: usize)
        ensures
            n == self@.delivered.len(),
            wf(self@),
    {
        proof {
            use_type_invariant(self);
        }
        let _ = self.hunks.len();
        if self.phase == Phase::Delivering {
            self.cursor + 1
        } else {
            self.cursor
        }
    }

    /// Takes the event that ended the activity in progress and decides what
    /// happens next.
    pub fn step(self, event: Event) -> (next: (Pipeline, Action))
        ensures
            next.0@ == step_spec(self@, event@).0,
            next.1@ == step_spec(self@, event@).1,
            wf(self@),
            wf(next.0@),
    {
        proof {
            use_type_invariant(&self);
        }
        let next = match self.phase {
            Phase::Idle => step_idle(self, event),
            Phase::RepositoryOpen => step_repository_open(self, event),
            Phase::Blaming => step_blaming(self, event),
            Phase::ResolvingCommit => step_resolving_commit(self, event),
            Phase::Delivering => step_delivering(self, event),
            Phase::Done => (self, Action::Finish),
            Phase::Failed => step_failed(self),
        };
        proof {
            use_type_invariant(&next.0);
        }
        next
    }
}

/// The run fails with `reported`.
fn fail_with(pipeline: Pipeline, reported: BlameFailure) -> (next: (Pipeline, Action))
    requires
        pipeline@.phase != Phase::Failed,
        match failure_kind(reported@) {
            FailureKind::Repository | FailureKind::Blame => pipeline@.hunks.len() == 0,
            FailureKind::Resolution | FailureKind::MetadataField => pipeline@.cursor
                < pipeline@.hunks.len(),
        },
        pipeline@.phase != Phase::Delivering,
    ensures
        next.0@ == failed(pipeline@, reported@).0,
        next.1@ == failed(pipeline@, reported@).1,
{
    proof {
        use_type_invariant(&pipeline);
    }
    let ghost s = pipeline@;
    let ghost target = failed(s, reported@).0;
    proof {
        assert forall|k: int| 0 <= k < target.delivered.len() implies #[trigger] delivered_from(
            target,
            k,
        ) by {
            assert(delivered_from(s, k));
        }
    }
    let Pipeline { phase, hunks, cursor, resolved, failure, delivered } = pipeline;
    let next = build(
        Phase::Failed,
        hunks,
        cursor,
        resolved,
        Some(reported.duplicate()),
        delivered,
        Ghost(target),
    );
    (next, Action::Abort { failure: reported })
}

/// The activity in progress changes and nothing else does.
fn enter(pipeline: Pipeline, phase: Phase) -> (next: Pipeline)
    requires
        pipeline@.phase == Phase::Idle && phase == Phase::RepositoryOpen || pipeline@.phase
            == Phase::RepositoryOpen && phase == Phase::Blaming,
    ensures
        next@ == (PipelineView { phase, ..pipeline@ }),
{
    proof {
        use_type_invariant(&pipeline);
    }
    let ghost target = PipelineView { phase, ..pipeline@ };
    let Pipeline { phase: _, hunks, cursor, resolved, failure, delivered } = pipeline;
    build(phase, hunks, cursor, resolved, failure, delivered, Ghost(target))
}

fn step_idle(pipeline: Pipeline, event: Event) -> (next: (Pipeline, Action))
    requires
        pipeline@.phase == Phase::Idle,
    ensures
        next.0@ == step_spec(pipeline@, event@).0,
        next.1@ == step_spec(pipeline@, event@).1,
{
    match event {
        Event::Start => (enter(pipeline, Phase::RepositoryOpen), Action::OpenRepository),
        _ => (pipeline, Action::Ignored),
    }
}

fn step_repository_open(pipeline: Pipeline, event: Event) -> (next: (Pipeline, Action))
    requires
        pipeline@.phase == Phase::RepositoryOpen,
    ensures
        next.0@ == step_spec(pipeline@, event@).0,
        next.1@ == step_spec(pipeline@, event@).1,
{
    proof {
        use_type_invariant(&pipeline);
    }
    match event {
        Event::RepositoryOpened => (enter(pipeline, Phase::Blaming), Action::ComputeBlame),
        Event::RepositoryUnavailable { cause } => fail_with(
            pipeline,
            BlameFailure::RepositoryError { cause },
        ),
        _ => (pipeline, Action::Ignored),
    }
}

fn step_blaming(pipeline: Pipeline, event: Event) -> (next: (Pipeline, Action))
    requires
        pipeline@.phase == Phase::Blaming,
    ensures
        next.0@ == step_spec(pipeline@, event@).0,
        next.1@ == step_spec(pipeline@, event@).1,
{
    proof {
        use_type_invariant(&pipeline);
    }
    let ghost s = pipeline@;
    match event {
        Event::BlameComputed { hunks: computed } => {
            let _ = computed.len();
            let Pipeline { phase, hunks, cursor, resolved, failure, delivered } = pipeline;
            select(
                computed,
                0,
                resolved,
                delivered,
                Ghost(PipelineView { hunks: computed@, cursor: 0, ..s }),
            )
        },
        Event::BlameUnavailable { cause } => fail_with(
            pipeline,
            BlameFailure::BlameError { cause },
        ),
        _ => (pipeline, Action::Ignored),
    }
}

fn step_resolving_commit(pipeline: Pipeline, event: Event) -> (next: (Pipeline, Action))
    requires
        pipeline@.phase == Phase::ResolvingCommit,
    ensures
        next.0@ == step_spec(pipeline@, event@).0,
        next.1@ == step_spec(pipeline@, event@).1,
{
    proof {
        use_type_invariant(&pipeline);
    }
    let ghost s = pipeline@;
    match event {
        Event::CommitResolved { metadata } => {
            let Pipeline { phase, hunks, cursor, resolved, failure, delivered } = pipeline;
            offer(hunks, cursor, resolved, delivered, metadata, Ghost(s))
        },
        Event::CommitUnavailable { cause } => fail_with(
            pipeline,
            BlameFailure::ResolutionError { cause },
        ),
        _ => (pipeline, Action::Ignored),
    }
}

fn step_delivering(pipeline: Pipeline, event: Event) -> (next: (Pipeline, Action))
    requires
        pipeline@.phase == Phase::Delivering,
    ensures
        next.0@ == step_spec(pipeline@, event@).0,
        next.1@ == step_spec(pipeline@, event@).1,
{
    proof {
        use_type_invariant(&pipeline);
    }
    let ghost s = pipeline@;
    match event {
        Event::Delivered => {
            let ghost t = PipelineView { cursor: s.cursor + 1, ..s };
            proof {
                assert forall|k: int| 0 <= k < t.delivered.len() implies #[trigger] delivered_from(
                    t,
                    k,
                ) by {
                    assert(delivered_from(s, k));
                }
            }
            let Pipeline { phase, hunks, cursor, resolved, failure, delivered } = pipeline;
            let count = hunks.len();
            assert(cursor < count);
            select(hunks, cursor + 1, resolved, delivered, Ghost(t))
        },
        _ => (pipeline, Action::Ignored),
    }
}

fn step_failed(pipeline: Pipeline) -> (next: (Pipeline, Action))
    requires
        pipeline@.phase == Phase::Failed,
    ensures
        next.0@ == pipeline@,
        next.1@ == (ActionView::Abort { failure: pipeline@.failure->0 }),
{
    proof {
        use_type_invariant(&pipeline);
    }
    let copy = match &pipeline.failure {
        Some(reported) => reported.duplicate(),
        None => unreached(),
    };
    (pipeline, Action::Abort { failure: copy })
}

} // verus!
