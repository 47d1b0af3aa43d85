use git_blame::{
    Action, BlameFailure, BlameHunks, CommitId, CommitMetadata, Event, Hunk, MetadataField,
    PersonStamp, Phase, Pipeline,
};

fn stamp(name: &str, email: &str, seconds: i64, offset: i32) -> PersonStamp {
    PersonStamp {
        name: Some(String::from(name)),
        email: Some(String::from(email)),
        timestamp_seconds: seconds,
        tz_offset_minutes: offset,
    }
}

fn metadata(summary: &str) -> CommitMetadata {
    CommitMetadata {
        summary: Some(String::from(summary)),
        author: stamp("Ada Lovelace", "ada@example.org", 100, 60),
        committer: stamp("Grace Hopper", "grace@example.org", 200, -60),
    }
}

fn id(fill: u8) -> CommitId {
    CommitId::from_bytes([fill; 20])
}

fn hunk(fill: u8, orig: usize, fin: usize, count: usize) -> Hunk {
    Hunk { origin_commit_id: id(fill), orig_start_line: orig, final_start_line: fin, line_count: count }
}

fn blamed(hunks: Vec<Hunk>) -> Event {
    Event::BlameComputed { hunks: BlameHunks::accept(hunks).unwrap() }
}

fn resolved(summary: &str) -> Event {
    Event::CommitResolved { metadata: metadata(summary) }
}

fn blaming() -> Pipeline {
    let (p, a) = Pipeline::new().step(Event::Start);
    assert_eq!(a, Action::OpenRepository);
    let (p, a) = p.step(Event::RepositoryOpened);
    assert_eq!(a, Action::ComputeBlame);
    assert_eq!(p.phase(), Phase::Blaming);
    p
}

#[test]
fn new_pipeline_is_idle() {
    let p = Pipeline::new();
    assert_eq!(p.phase(), Phase::Idle);
    assert_eq!(p.hunk_count(), 0);
    assert_eq!(p.delivered_count(), 0);
    assert_eq!(p.failure(), None);
}

#[test]
fn start_asks_for_the_repository() {
    let (p, a) = Pipeline::new().step(Event::Start);
    assert_eq!(a, Action::OpenRepository);
    assert_eq!(p.phase(), Phase::RepositoryOpen);
}

#[test]
fn two_commits_are_delivered_in_order() {
    let p = blaming();
    let (p, a) = p.step(blamed(vec![hunk(0xaa, 1, 1, 3), hunk(0xbb, 4, 4, 3)]));
    assert_eq!(a, Action::ResolveCommit { id: id(0xaa) });
    assert_eq!(p.phase(), Phase::ResolvingCommit);
    assert_eq!(p.hunk_count(), 2);
    assert_eq!(p.delivered_count(), 0);

    let (p, a) = p.step(resolved("first"));
    let first = match a {
        Action::Deliver { record } => record,
        other => panic!("expected a delivery, got {:?}", other),
    };
    assert_eq!(first.chunk.commit, "aa".repeat(20));
    assert_eq!(first.chunk.orig_line, 1);
    assert_eq!(first.chunk.final_line, 1);
    assert_eq!(first.chunk.num_lines, 3);
    assert_eq!(first.revision.summary, "first");
    assert_eq!(p.phase(), Phase::Delivering);
    assert_eq!(p.delivered_count(), 1);

    let (p, a) = p.step(Event::Delivered);
    assert_eq!(a, Action::ResolveCommit { id: id(0xbb) });
    assert_eq!(p.delivered_count(), 1);

    let (p, a) = p.step(resolved("second"));
    let second = match a {
        Action::Deliver { record } => record,
        other => panic!("expected a delivery, got {:?}", other),
    };
    assert_eq!(second.chunk.commit, "bb".repeat(20));
    assert_eq!(second.chunk.orig_line, 4);
    assert_eq!(second.chunk.final_line, 4);
    assert_eq!(second.chunk.num_lines, 3);
    assert_eq!(second.revision.summary, "second");
    assert_eq!(second.revision.author, "Ada Lovelace");
    assert_eq!(second.revision.author_time, "100");
    assert_eq!(second.revision.author_tz, "60");
    assert_eq!(second.revision.committer_time, "200");
    assert_eq!(second.revision.committer_tz, "-60");
    assert_eq!(p.delivered_count(), 2);

    let (p, a) = p.step(Event::Delivered);
    assert_eq!(a, Action::Finish);
    assert_eq!(p.phase(), Phase::Done);
    assert_eq!(p.delivered_count(), 2);
    assert_eq!(p.failure(), None);
}

#[test]
fn repeated_commit_is_resolved_once() {
    let p = blaming();
    let (p, a) = p.step(blamed(vec![hunk(0xaa, 1, 1, 2), hunk(0xbb, 1, 3, 1), hunk(0xaa, 3, 4, 5)]));
    assert_eq!(a, Action::ResolveCommit { id: id(0xaa) });
    let (p, a) = p.step(resolved("alpha"));
    let first = match a {
        Action::Deliver { record } => record,
        other => panic!("expected a delivery, got {:?}", other),
    };
    let (p, a) = p.step(Event::Delivered);
    assert_eq!(a, Action::ResolveCommit { id: id(0xbb) });
    let (p, a) = p.step(resolved("beta"));
    assert!(matches!(a, Action::Deliver { .. }));
    let (p, a) = p.step(Event::Delivered);
    let third = match a {
        Action::Deliver { record } => record,
        other => panic!("expected a delivery, got {:?}", other),
    };
    assert_eq!(third.revision, first.revision);
    assert_eq!(third.chunk.commit, first.chunk.commit);
    assert_eq!(third.chunk.orig_line, 3);
    assert_eq!(third.chunk.final_line, 4);
    assert_eq!(third.chunk.num_lines, 5);
    assert_eq!(p.phase(), Phase::Delivering);
    assert_eq!(p.delivered_count(), 3);
    let (p, a) = p.step(Event::Delivered);
    assert_eq!(a, Action::Finish);
    assert_eq!(p.delivered_count(), 3);
}

#[test]
fn empty_blame_finishes_at_once() {
    let (p, a) = blaming().step(blamed(Vec::new()));
    assert_eq!(a, Action::Finish);
    assert_eq!(p.phase(), Phase::Done);
    assert_eq!(p.delivered_count(), 0);
}

#[test]
fn unavailable_repository_aborts_before_any_delivery() {
    let (p, _) = Pipeline::new().step(Event::Start);
    let (p, a) = p.step(Event::RepositoryUnavailable { cause: String::from("no such path") });
    let failure = BlameFailure::RepositoryError { cause: String::from("no such path") };
    assert_eq!(a, Action::Abort { failure: failure.clone() });
    assert_eq!(p.phase(), Phase::Failed);
    assert_eq!(p.failure(), Some(failure));
    assert_eq!(p.delivered_count(), 0);
    assert_eq!(p.hunk_count(), 0);
}

#[test]
fn unavailable_blame_aborts_before_any_delivery() {
    let (p, a) = blaming().step(Event::BlameUnavailable { cause: String::from("not tracked") });
    let failure = BlameFailure::BlameError { cause: String::from("not tracked") };
    assert_eq!(a, Action::Abort { failure: failure.clone() });
    assert_eq!(p.phase(), Phase::Failed);
    assert_eq!(p.failure(), Some(failure));
    assert_eq!(p.delivered_count(), 0);
}

#[test]
fn unavailable_commit_aborts_and_earlier_deliveries_stand() {
    let (p, _) = blaming().step(blamed(vec![hunk(0xaa, 1, 1, 3), hunk(0xbb, 4, 4, 3)]));
    let (p, _) = p.step(resolved("first"));
    let (p, a) = p.step(Event::Delivered);
    assert_eq!(a, Action::ResolveCommit { id: id(0xbb) });
    let (p, a) = p.step(Event::CommitUnavailable { cause: String::from("object not found") });
    let failure = BlameFailure::ResolutionError { cause: String::from("object not found") };
    assert_eq!(a, Action::Abort { failure: failure.clone() });
    assert_eq!(p.phase(), Phase::Failed);
    assert_eq!(p.failure(), Some(failure));
    assert_eq!(p.delivered_count(), 1);
}

#[test]
fn empty_author_name_aborts_without_delivering_the_hunk() {
    let (p, a) = blaming().step(blamed(vec![hunk(0xaa, 1, 1, 1)]));
    assert_eq!(a, Action::ResolveCommit { id: id(0xaa) });
    let mut m = metadata("only");
    m.author.name = Some(String::new());
    let (p, a) = p.step(Event::CommitResolved { metadata: m });
    let failure = BlameFailure::MetadataFieldError { field: MetadataField::AuthorName };
    assert_eq!(a, Action::Abort { failure: failure.clone() });
    assert_eq!(p.phase(), Phase::Failed);
    assert_eq!(p.failure(), Some(failure));
    assert_eq!(p.delivered_count(), 0);
}

#[test]
fn missing_field_on_second_hunk_keeps_first_delivery() {
    let (p, _) = blaming().step(blamed(vec![hunk(0xaa, 1, 1, 3), hunk(0xbb, 4, 4, 3)]));
    let (p, _) = p.step(resolved("first"));
    let (p, _) = p.step(Event::Delivered);
    let mut m = metadata("second");
    m.committer.email = None;
    let (p, a) = p.step(Event::CommitResolved { metadata: m });
    assert_eq!(
        a,
        Action::Abort {
            failure: BlameFailure::MetadataFieldError { field: MetadataField::CommitterEmail }
        }
    );
    assert_eq!(p.delivered_count(), 1);
    assert_eq!(p.phase(), Phase::Failed);
}

#[test]
fn failed_run_repeats_its_abort() {
    let (p, _) = Pipeline::new().step(Event::Start);
    let (p, _) = p.step(Event::RepositoryUnavailable { cause: String::from("gone") });
    let failure = BlameFailure::RepositoryError { cause: String::from("gone") };
    let (p, a) = p.step(Event::Delivered);
    assert_eq!(a, Action::Abort { failure: failure.clone() });
    let (p, a) = p.step(Event::RepositoryOpened);
    assert_eq!(a, Action::Abort { failure: failure.clone() });
    let (p, a) = p.step(resolved("late"));
    assert_eq!(a, Action::Abort { failure: failure.clone() });
    let (p, a) = p.step(Event::Start);
    assert_eq!(a, Action::Abort { failure });
    assert_eq!(p.phase(), Phase::Failed);
    assert_eq!(p.delivered_count(), 0);
}

#[test]
fn finished_run_repeats_its_finish() {
    let (p, _) = blaming().step(blamed(Vec::new()));
    let (p, a) = p.step(Event::Delivered);
    assert_eq!(a, Action::Finish);
    let (p, a) = p.step(Event::Start);
    assert_eq!(a, Action::Finish);
    let (p, a) = p.step(resolved("late"));
    assert_eq!(a, Action::Finish);
    assert_eq!(p.phase(), Phase::Done);
}

#[test]
fn events_out_of_turn_are_ignored() {
    let (p, a) = Pipeline::new().step(Event::Delivered);
    assert_eq!(a, Action::Ignored);
    assert_eq!(p.phase(), Phase::Idle);
    let (p, a) = p.step(Event::RepositoryOpened);
    assert_eq!(a, Action::Ignored);
    assert_eq!(p.phase(), Phase::Idle);
    let (p, a) = p.step(blamed(vec![hunk(1, 1, 1, 1)]));
    assert_eq!(a, Action::Ignored);
    assert_eq!(p.hunk_count(), 0);

    let (p, _) = p.step(Event::Start);
    let (p, a) = p.step(Event::Start);
    assert_eq!(a, Action::Ignored);
    assert_eq!(p.phase(), Phase::RepositoryOpen);
    let (p, a) = p.step(Event::BlameUnavailable { cause: String::from("early") });
    assert_eq!(a, Action::Ignored);
    assert_eq!(p.phase(), Phase::RepositoryOpen);

    let (p, _) = p.step(Event::RepositoryOpened);
    let (p, a) = p.step(Event::RepositoryUnavailable { cause: String::from("late") });
    assert_eq!(a, Action::Ignored);
    assert_eq!(p.phase(), Phase::Blaming);
    let (p, a) = p.step(resolved("early"));
    assert_eq!(a, Action::Ignored);

    let (p, _) = p.step(blamed(vec![hunk(1, 1, 1, 1), hunk(2, 1, 2, 1)]));
    let (p, a) = p.step(Event::Delivered);
    assert_eq!(a, Action::Ignored);
    assert_eq!(p.phase(), Phase::ResolvingCommit);
    assert_eq!(p.delivered_count(), 0);
}

#[test]
fn host_is_not_overtaken_while_delivering() {
    let (p, _) = blaming().step(blamed(vec![hunk(1, 1, 1, 1), hunk(2, 1, 2, 1)]));
    let (p, a) = p.step(resolved("one"));
    assert!(matches!(a, Action::Deliver { .. }));
    let (p, a) = p.step(resolved("two"));
    assert_eq!(a, Action::Ignored);
    let (p, a) = p.step(Event::CommitUnavailable { cause: String::from("x") });
    assert_eq!(a, Action::Ignored);
    let (p, a) = p.step(Event::Start);
    assert_eq!(a, Action::Ignored);
    assert_eq!(p.phase(), Phase::Delivering);
    assert_eq!(p.delivered_count(), 1);
    let (p, a) = p.step(Event::Delivered);
    assert_eq!(a, Action::ResolveCommit { id: id(2) });
    assert_eq!(p.delivered_count(), 1);
}

#[test]
fn same_events_give_same_actions() {
    let run = || {
        let mut actions = Vec::new();
        let (p, a) = blaming().step(blamed(vec![hunk(7, 1, 1, 2), hunk(8, 3, 3, 4)]));
        actions.push(a);
        let (p, a) = p.step(resolved("one"));
        actions.push(a);
        let (p, a) = p.step(Event::Delivered);
        actions.push(a);
        let (p, a) = p.step(resolved("two"));
        actions.push(a);
        let (_, a) = p.step(Event::Delivered);
        actions.push(a);
        actions
    };
    assert_eq!(run(), run());
    assert_eq!(run().len(), 5);
}
