use git_blame::{
    git_author, git_author_mail, git_author_time, git_author_tz, git_committer,
    git_committer_mail, git_committer_time, git_committer_tz, git_summary, BlameFailure,
    CommitMetadata, FailureKind, MetadataField, PersonStamp,
};

fn stamp(name: Option<&str>, email: Option<&str>, seconds: i64, offset: i32) -> PersonStamp {
    PersonStamp {
        name: name.map(String::from),
        email: email.map(String::from),
        timestamp_seconds: seconds,
        tz_offset_minutes: offset,
    }
}

fn sample() -> CommitMetadata {
    CommitMetadata {
        summary: Some(String::from("Teach the parser about tabs")),
        author: stamp(Some("Ada Lovelace"), Some("ada@example.org"), 1608839587, -300),
        committer: stamp(Some("Grace Hopper"), Some("grace@example.org"), 1608843187, 120),
    }
}

fn missing(field: MetadataField) -> BlameFailure {
    BlameFailure::MetadataFieldError { field }
}

#[test]
fn summary_is_extracted() {
    assert_eq!(git_summary(&sample()), Ok(String::from("Teach the parser about tabs")));
}

#[test]
fn absent_summary_is_reported() {
    let mut c = sample();
    c.summary = None;
    assert_eq!(git_summary(&c), Err(missing(MetadataField::Summary)));
}

#[test]
fn empty_summary_is_a_value() {
    let mut c = sample();
    c.summary = Some(String::new());
    assert_eq!(git_summary(&c), Ok(String::new()));
}

#[test]
fn author_name_is_extracted() {
    assert_eq!(git_author(&sample()), Ok(String::from("Ada Lovelace")));
}

#[test]
fn absent_author_name_is_reported() {
    let mut c = sample();
    c.author.name = None;
    assert_eq!(git_author(&c), Err(missing(MetadataField::AuthorName)));
}

#[test]
fn empty_author_name_is_reported() {
    let mut c = sample();
    c.author.name = Some(String::new());
    assert_eq!(git_author(&c), Err(missing(MetadataField::AuthorName)));
}

#[test]
fn author_mail_is_extracted_or_reported() {
    assert_eq!(git_author_mail(&sample()), Ok(String::from("ada@example.org")));
    let mut c = sample();
    c.author.email = None;
    assert_eq!(git_author_mail(&c), Err(missing(MetadataField::AuthorEmail)));
    c.author.email = Some(String::new());
    assert_eq!(git_author_mail(&c), Err(missing(MetadataField::AuthorEmail)));
}

#[test]
fn committer_name_is_extracted_or_reported() {
    assert_eq!(git_committer(&sample()), Ok(String::from("Grace Hopper")));
    let mut c = sample();
    c.committer.name = None;
    assert_eq!(git_committer(&c), Err(missing(MetadataField::CommitterName)));
    c.committer.name = Some(String::new());
    assert_eq!(git_committer(&c), Err(missing(MetadataField::CommitterName)));
}

#[test]
fn committer_mail_is_extracted_or_reported() {
    assert_eq!(git_committer_mail(&sample()), Ok(String::from("grace@example.org")));
    let mut c = sample();
    c.committer.email = None;
    assert_eq!(git_committer_mail(&c), Err(missing(MetadataField::CommitterEmail)));
    c.committer.email = Some(String::new());
    assert_eq!(git_committer_mail(&c), Err(missing(MetadataField::CommitterEmail)));
}

#[test]
fn a_missing_field_does_not_affect_the_others() {
    let mut c = sample();
    c.author.name = None;
    assert_eq!(git_summary(&c), Ok(String::from("Teach the parser about tabs")));
    assert_eq!(git_author_mail(&c), Ok(String::from("ada@example.org")));
    assert_eq!(git_committer(&c), Ok(String::from("Grace Hopper")));
}

#[test]
fn times_are_decimal_text() {
    let c = sample();
    assert_eq!(git_author_time(&c), "1608839587");
    assert_eq!(git_committer_time(&c), "1608843187");
}

#[test]
fn timezone_offsets_are_decimal_text() {
    let c = sample();
    assert_eq!(git_author_tz(&c), "-300");
    assert_eq!(git_committer_tz(&c), "120");
}

#[test]
fn extreme_times_and_offsets() {
    let mut c = sample();
    c.author.timestamp_seconds = i64::MIN;
    c.author.tz_offset_minutes = i32::MIN;
    c.committer.timestamp_seconds = i64::MAX;
    c.committer.tz_offset_minutes = i32::MAX;
    assert_eq!(git_author_time(&c), "-9223372036854775808");
    assert_eq!(git_author_tz(&c), "-2147483648");
    assert_eq!(git_committer_time(&c), "9223372036854775807");
    assert_eq!(git_committer_tz(&c), "2147483647");
    c.author.timestamp_seconds = 0;
    c.author.tz_offset_minutes = 0;
    assert_eq!(git_author_time(&c), "0");
    assert_eq!(git_author_tz(&c), "0");
}

#[test]
fn field_labels() {
    assert_eq!(MetadataField::Summary.label(), "summary");
    assert_eq!(MetadataField::AuthorName.label(), "author-name");
    assert_eq!(MetadataField::AuthorEmail.label(), "author-email");
    assert_eq!(MetadataField::CommitterName.label(), "committer-name");
    assert_eq!(MetadataField::CommitterEmail.label(), "committer-email");
}

#[test]
fn failure_kinds_and_causes() {
    let r = BlameFailure::RepositoryError { cause: String::from("no such directory") };
    let b = BlameFailure::BlameError { cause: String::from("path not in tree") };
    let c = BlameFailure::ResolutionError { cause: String::from("object not found") };
    let m = BlameFailure::MetadataFieldError { field: MetadataField::AuthorName };
    assert_eq!(r.kind(), FailureKind::Repository);
    assert_eq!(b.kind(), FailureKind::Blame);
    assert_eq!(c.kind(), FailureKind::Resolution);
    assert_eq!(m.kind(), FailureKind::MetadataField);
    assert_eq!(r.cause(), "no such directory");
    assert_eq!(b.cause(), "path not in tree");
    assert_eq!(c.cause(), "object not found");
    assert_eq!(m.cause(), "missing commit field: author-name");
    assert_eq!(
        BlameFailure::MetadataFieldError { field: MetadataField::Summary }.cause(),
        "missing commit field: summary"
    );
}

#[test]
fn duplicates_are_equal() {
    let c = sample();
    assert_eq!(c.duplicate(), c);
    assert_eq!(c.author.duplicate(), c.author);
    let f = BlameFailure::BlameError { cause: String::from("x") };
    assert_eq!(f.duplicate(), f);
    let m = BlameFailure::MetadataFieldError { field: MetadataField::CommitterEmail };
    assert_eq!(m.duplicate(), m);
}
