use git_blame::{
    assemble, BlameFailure, BlameRecord, ChunkGroup, CommitId, CommitMetadata, FieldValue, Hunk,
    KeyValue, MetadataField, PersonStamp, RevisionGroup,
};
use git_blame::record::{chunk_group, revision_group};

fn stamp(name: &str, email: &str, seconds: i64, offset: i32) -> PersonStamp {
    PersonStamp {
        name: Some(String::from(name)),
        email: Some(String::from(email)),
        timestamp_seconds: seconds,
        tz_offset_minutes: offset,
    }
}

fn sample() -> CommitMetadata {
    CommitMetadata {
        summary: Some(String::from("Teach the parser about tabs")),
        author: stamp("Ada Lovelace", "ada@example.org", 1608839587, -300),
        committer: stamp("Grace Hopper", "grace@example.org", 1608843187, 120),
    }
}

fn hunk(fill: u8, orig: usize, fin: usize, count: usize) -> Hunk {
    Hunk {
        origin_commit_id: CommitId::from_bytes([fill; 20]),
        orig_start_line: orig,
        final_start_line: fin,
        line_count: count,
    }
}

fn missing(field: MetadataField) -> BlameFailure {
    BlameFailure::MetadataFieldError { field }
}

fn text(key: &str, value: &str) -> KeyValue {
    KeyValue { key: String::from(key), value: FieldValue::Text(String::from(value)) }
}

fn integer(key: &str, value: usize) -> KeyValue {
    KeyValue { key: String::from(key), value: FieldValue::Integer(value) }
}

#[test]
fn assemble_pairs_hunk_with_metadata() {
    let record = assemble(&hunk(0xab, 4, 7, 3), &sample()).unwrap();
    let expected = BlameRecord {
        chunk: ChunkGroup {
            commit: String::from("abababababababababababababababababababab"),
            orig_line: 4,
            final_line: 7,
            num_lines: 3,
        },
        revision: RevisionGroup {
            summary: String::from("Teach the parser about tabs"),
            author: String::from("Ada Lovelace"),
            committer_tz: String::from("120"),
            committer_time: String::from("1608843187"),
            committer_mail: String::from("grace@example.org"),
            committer: String::from("Grace Hopper"),
            author_tz: String::from("-300"),
            author_time: String::from("1608839587"),
            author_mail: String::from("ada@example.org"),
        },
    };
    assert_eq!(record, expected);
    assert_eq!(record.duplicate(), expected);
}

#[test]
fn chunk_group_keeps_line_numbers() {
    let chunk = chunk_group(&hunk(0x01, 1, 1, 1));
    assert_eq!(chunk.commit, "0101010101010101010101010101010101010101");
    assert_eq!(chunk.orig_line, 1);
    assert_eq!(chunk.final_line, 1);
    assert_eq!(chunk.num_lines, 1);
    let large = chunk_group(&hunk(0x02, usize::MAX, 5, usize::MAX - 5));
    assert_eq!(large.orig_line, usize::MAX);
    assert_eq!(large.num_lines, usize::MAX - 5);
}

#[test]
fn revision_depends_on_metadata_only() {
    let a = assemble(&hunk(0x11, 1, 1, 3), &sample()).unwrap();
    let b = assemble(&hunk(0x11, 9, 20, 2), &sample()).unwrap();
    assert_eq!(a.revision, b.revision);
    assert_eq!(a.chunk.commit, b.chunk.commit);
    assert_ne!(a.chunk, b.chunk);
}

#[test]
fn empty_author_name_fails_assembly() {
    let mut c = sample();
    c.author.name = Some(String::new());
    assert_eq!(assemble(&hunk(1, 1, 1, 1), &c), Err(missing(MetadataField::AuthorName)));
}

#[test]
fn first_missing_field_is_reported_in_extraction_order() {
    let mut c = sample();
    c.author.email = None;
    assert_eq!(revision_group(&c), Err(missing(MetadataField::AuthorEmail)));
    c.committer.name = None;
    assert_eq!(revision_group(&c), Err(missing(MetadataField::CommitterName)));
    c.committer.email = None;
    assert_eq!(revision_group(&c), Err(missing(MetadataField::CommitterEmail)));
    c.author.name = None;
    assert_eq!(revision_group(&c), Err(missing(MetadataField::AuthorName)));
    c.summary = None;
    assert_eq!(revision_group(&c), Err(missing(MetadataField::Summary)));
    assert_eq!(assemble(&hunk(1, 1, 1, 1), &c), Err(missing(MetadataField::Summary)));
}

#[test]
fn empty_summary_is_assembled() {
    let mut c = sample();
    c.summary = Some(String::new());
    let record = assemble(&hunk(1, 1, 1, 1), &c).unwrap();
    assert_eq!(record.revision.summary, "");
}

#[test]
fn chunk_pairs_are_ordered() {
    let record = assemble(&hunk(0xcd, 2, 5, 8), &sample()).unwrap();
    let expected = vec![
        text("commit", "cdcdcdcdcdcdcdcdcdcdcdcdcdcdcdcdcdcdcdcd"),
        integer("orig-line", 2),
        integer("final-line", 5),
        integer("num-lines", 8),
    ];
    assert_eq!(record.chunk.pairs(), expected);
}

#[test]
fn revision_pairs_are_ordered_and_textual() {
    let record = assemble(&hunk(0xcd, 2, 5, 8), &sample()).unwrap();
    let expected = vec![
        text("summary", "Teach the parser about tabs"),
        text("author", "Ada Lovelace"),
        text("committer-tz", "120"),
        text("committer-time", "1608843187"),
        text("committer-mail", "grace@example.org"),
        text("committer", "Grace Hopper"),
        text("author-tz", "-300"),
        text("author-time", "1608839587"),
        text("author-mail", "ada@example.org"),
    ];
    assert_eq!(record.revision.pairs(), expected);
}
