//! What a run delivers.
//!
//! The laws here hold of every state that a run can reach. They say that the
//! host receives one record per hunk, in file-line order; that the delivered
//! line ranges partition the file once the run is complete; that all hunks of
//! one commit carry the same metadata; and that a failure delivers nothing
//! for the hunk it occurred on, nor for any hunk after it.

use vstd::prelude::*;
use crate::commit_id::lemma_hex_text_injective;
use crate::failure::{failure_kind, FailureKind, FailureView, MetadataField};
use crate::hunk::{
    contiguous,
    lemma_hunk_within_file,
    lemma_hunks_adjacent,
    lemma_line_has_one_hunk,
    line_total,
};
use crate::metadata::CommitMetadataView;
use crate::pipeline::{
    delivered_from,
    lemma_step_preserves_wf,
    run_spec,
    step_spec,
    wf,
    ActionView,
    EventView,
    Phase,
    PipelineView,
};
use crate::record::{chunk_of, first_missing_field, ChunkView};

verus! {

/// Whether `line` of the current file lies in the range that the chunk
/// describes.
pub open spec fn chunk_holds_line(chunk: ChunkView, line: int) -> bool {
    chunk.final_line <= line < chunk.final_line + chunk.num_lines
}

/// Whether every computed blame among the events partitions its file.
pub open spec fn blames_partition(events: Seq<EventView>) -> bool {
    forall|i: int|
        0 <= i < events.len() ==> ((#[trigger] events[i]) matches EventView::BlameComputed {
            hunks,
        } ==> contiguous(hunks))
}

/// One record per hunk, in order: the record delivered at position `k`
/// describes hunk `k` and names its commit.
pub proof fn lemma_delivery_follows_hunks(s: PipelineView, k: int)
    requires
        wf(s),
        0 <= k < s.delivered.len(),
    ensures
        k < s.hunks.len(),
        s.delivered[k].chunk == chunk_of(s.hunks[k]),
{
    assert(delivered_from(s, k));
}

/// A complete run has delivered exactly one record for every hunk.
pub proof fn lemma_complete_run_delivers_every_hunk(s: PipelineView)
    requires
        wf(s),
        s.phase == Phase::Done,
    ensures
        s.delivered.len() == s.hunks.len(),
        s.failure is None,
{
}

/// The delivered line numbers are all at least 1, the first record starts at
/// line 1, every later record starts on the line after its predecessor's
/// last line, and no record reaches past the end of the file.
pub proof fn lemma_delivered_ranges_adjacent(s: PipelineView, k: int)
    requires
        wf(s),
        0 <= k < s.delivered.len(),
    ensures
        s.delivered[k].chunk.orig_line >= 1,
        s.delivered[k].chunk.final_line >= 1,
        s.delivered[k].chunk.num_lines >= 1,
        k == 0 ==> s.delivered[k].chunk.final_line == 1,
        k > 0 ==> s.delivered[k].chunk.final_line == s.delivered[k - 1].chunk.final_line
            + s.delivered[k - 1].chunk.num_lines,
        s.delivered[k].chunk.final_line + s.delivered[k].chunk.num_lines - 1 <= line_total(
            s.hunks,
        ),
{
    lemma_delivery_follows_hunks(s, k);
    if k > 0 {
        lemma_delivery_follows_hunks(s, k - 1);
    }
    lemma_hunks_adjacent(s.hunks, k);
    lemma_hunk_within_file(s.hunks, k);
    assert(s.hunks[k].well_formed());
}

/// The records of a complete run cover the file exactly: every line from 1
/// to the file's last lies in the range of one delivered record and of no
/// other.
pub proof fn lemma_complete_run_covers_file(s: PipelineView, line: int) -> (k: int)
    requires
        wf(s),
        s.phase == Phase::Done,
        1 <= line <= line_total(s.hunks),
    ensures
        0 <= k < s.delivered.len(),
        chunk_holds_line(s.delivered[k].chunk, line),
        forall|j: int|
            0 <= j < s.delivered.len() && chunk_holds_line((#[trigger] s.delivered[j]).chunk, line)
                ==> j == k,
{
    let k = lemma_line_has_one_hunk(s.hunks, line);
    lemma_delivery_follows_hunks(s, k);
    assert forall|j: int|
        0 <= j < s.delivered.len() && chunk_holds_line(
            (#[trigger] s.delivered[j]).chunk,
            line,
        ) implies j == k by {
        lemma_delivery_follows_hunks(s, j);
        assert(s.hunks[j].holds_line(line));
    }
    k
}

/// Two hunks of one commit are delivered with identical metadata and the
/// same commit text.
pub proof fn lemma_same_commit_same_metadata(s: PipelineView, i: int, j: int)
    requires
        wf(s),
        0 <= i < s.delivered.len(),
        0 <= j < s.delivered.len(),
        s.hunks[i].origin_commit_id@ == s.hunks[j].origin_commit_id@,
    ensures
        s.delivered[i].revision == s.delivered[j].revision,
        s.delivered[i].chunk.commit == s.delivered[j].chunk.commit,
{
    assert(delivered_from(s, i));
    assert(delivered_from(s, j));
}

/// Records with the same commit text belong to hunks of the same commit.
pub proof fn lemma_same_text_same_commit(s: PipelineView, i: int, j: int)
    requires
        wf(s),
        0 <= i < s.delivered.len(),
        0 <= j < s.delivered.len(),
        s.delivered[i].chunk.commit == s.delivered[j].chunk.commit,
    ensures
        s.hunks[i].origin_commit_id@ == s.hunks[j].origin_commit_id@,
{
    lemma_delivery_follows_hunks(s, i);
    lemma_delivery_follows_hunks(s, j);
    lemma_hex_text_injective(s.hunks[i].origin_commit_id@, s.hunks[j].origin_commit_id@);
}

/// A run that failed to open the repository or to compute the blame has
/// delivered nothing.
pub proof fn lemma_early_failure_delivers_nothing(s: PipelineView)
    requires
        wf(s),
        s.failure matches Some(failure) && (failure_kind(failure) == FailureKind::Repository
            || failure_kind(failure) == FailureKind::Blame),
    ensures
        s.phase == Phase::Failed,
        s.delivered.len() == 0,
{
}

/// A repository that cannot be opened ends the run with a repository error
/// before anything is delivered.
pub proof fn lemma_unavailable_repository_aborts(s: PipelineView, cause: Seq<char>)
    requires
        wf(s),
        s.phase == Phase::RepositoryOpen,
    ensures
        step_spec(s, EventView::RepositoryUnavailable { cause }).1 == (ActionView::Abort {
            failure: FailureView::RepositoryError { cause },
        }),
        step_spec(s, EventView::RepositoryUnavailable { cause }).0.phase == Phase::Failed,
        step_spec(s, EventView::RepositoryUnavailable { cause }).0.delivered.len() == 0,
{
}

/// A commit that lacks a field ends the run with the failure naming the
/// first such field, and no record is delivered for the hunk.
pub proof fn lemma_missing_field_aborts(
    s: PipelineView,
    metadata: CommitMetadataView,
    field: MetadataField,
)
    requires
        wf(s),
        s.phase == Phase::ResolvingCommit,
        first_missing_field(metadata) == Some(field),
    ensures
        step_spec(s, EventView::CommitResolved { metadata }).1 == (ActionView::Abort {
            failure: FailureView::MetadataFieldError { field },
        }),
        step_spec(s, EventView::CommitResolved { metadata }).0.phase == Phase::Failed,
        step_spec(s, EventView::CommitResolved { metadata }).0.delivered == s.delivered,
        s.delivered.len() == s.cursor,
{
}

/// A failed run delivered records only for the hunks before the one it
/// failed on.
pub proof fn lemma_failed_hunk_not_delivered(s: PipelineView)
    requires
        wf(s),
        s.phase == Phase::Failed,
    ensures
        s.delivered.len() == s.cursor,
        s.hunks.len() > 0 ==> s.cursor < s.hunks.len(),
{
}

/// Once a run has finished or failed, no event changes it or delivers a
/// record: it only repeats its last action.
pub proof fn lemma_ended_run_stays(s: PipelineView, event: EventView)
    requires
        s.phase == Phase::Done || s.phase == Phase::Failed,
    ensures
        step_spec(s, event).0 == s,
        s.phase == Phase::Done ==> step_spec(s, event).1 == ActionView::Finish,
        s.phase == Phase::Failed ==> step_spec(s, event).1 == (ActionView::Abort {
            failure: s.failure->0,
        }),
{
}

/// A transition delivers at most one record, and only with a `Deliver`
/// action: that record is appended to the delivered ones and describes the
/// next hunk. Every other action leaves the delivered records as they are.
pub proof fn lemma_step_delivers_next_hunk(s: PipelineView, event: EventView)
    requires
        wf(s),
        event matches EventView::BlameComputed { hunks } ==> contiguous(hunks),
    ensures
        match step_spec(s, event).1 {
            ActionView::Deliver { record } => {
                &&& step_spec(s, event).0.delivered == s.delivered.push(record)
                &&& s.delivered.len() < step_spec(s, event).0.hunks.len()
                &&& record.chunk == chunk_of(
                    step_spec(s, event).0.hunks[s.delivered.len() as int],
                )
            },
            _ => step_spec(s, event).0.delivered == s.delivered,
        },
{
    let next = step_spec(s, event).0;
    lemma_step_preserves_wf(s, event);
    if step_spec(s, event).1 is Deliver {
        lemma_delivery_follows_hunks(next, s.delivered.len() as int);
    }
}

/// A waiting host is never overtaken: while a record is with the host, the
/// only event that moves the run on is the host's own `Delivered`.
pub proof fn lemma_delivery_waits_for_host(s: PipelineView, event: EventView)
    requires
        s.phase == Phase::Delivering,
        !(event is Delivered),
    ensures
        step_spec(s, event) == (s, ActionView::Ignored),
{
}

/// Every state that a run reaches from a state of a run is a state of a run,
/// and the records delivered on the way are appended to those delivered
/// before.
pub proof fn lemma_run_preserves_wf(s: PipelineView, events: Seq<EventView>)
    requires
        wf(s),
        blames_partition(events),
    ensures
        wf(run_spec(s, events).0),
        s.delivered.is_prefix_of(run_spec(s, events).0.delivered),
    decreases events.len(),
{
    if events.len() > 0 {
        let front = events.drop_last();
        assert forall|i: int| 0 <= i < front.len() implies ((#[trigger] front[i]) matches EventView::BlameComputed {
            hunks,
        } ==> contiguous(hunks)) by {
            assert(front[i] == events[i]);
        }
        lemma_run_preserves_wf(s, front);
        let mid = run_spec(s, front).0;
        assert(events.last() == events[events.len() - 1]);
        lemma_step_preserves_wf(mid, events.last());
        lemma_step_delivers_next_hunk(mid, events.last());
    }
}

/// The output is determined by the engine's answers: two runs over the same
/// hunks that resolved their commits to the same metadata have delivered the
/// same records in the same order, as far as both have come; two such runs
/// that are complete have delivered identical output.
pub proof fn lemma_same_answers_same_records(a: PipelineView, b: PipelineView)
    requires
        wf(a),
        wf(b),
        a.hunks == b.hunks,
        forall|id: Seq<u8>|
            a.resolved.contains_key(id) && b.resolved.contains_key(id) ==> a.resolved[id]
                == b.resolved[id],
    ensures
        forall|k: int|
            0 <= k < a.delivered.len() && k < b.delivered.len() ==> a.delivered[k]
                == b.delivered[k],
        a.phase == Phase::Done && b.phase == Phase::Done ==> a.delivered == b.delivered,
{
    assert forall|k: int| 0 <= k < a.delivered.len() && k < b.delivered.len() implies a.delivered[k]
        == b.delivered[k] by {
        assert(delivered_from(a, k));
        assert(delivered_from(b, k));
    }
    if a.phase == Phase::Done && b.phase == Phase::Done {
        assert(a.delivered =~= b.delivered);
    }
}

} // verus!
