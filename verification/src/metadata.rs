//! Authorship metadata of a commit and the extraction of its fields.
//!
//! A commit may store signature text that is not valid text, or none at all,
//! so the text fields are optional. Extraction never substitutes a default:
//! a field that the commit lacks is reported as a failure naming the field.
//! The numeric fields are always present and are rendered as decimal text.

use vstd::prelude::*;
use vstd::string::*;
use crate::decimal::{decimal_string, decimal_text};
use crate::failure::{BlameFailure, FailureView, MetadataField};

verus! {

/// The author or the committer of a commit at the instant the commit was
/// made.
#[derive(Clone, Debug, PartialEq, Eq)]
pub struct PersonStamp {
    pub name: Option<String>,
    pub email: Option<String>,
    pub timestamp_seconds: i64,
    pub tz_offset_minutes: i32,
}

/// A person stamp with its text as character sequences.
pub struct PersonStampView {
    pub name: Option<Seq<char>>,
    pub email: Option<Seq<char>>,
    pub timestamp_seconds: int,
    pub tz_offset_minutes: int,
}

/// The text of an optional string.
pub open spec fn text_view(text: Option<String>) -> Option<Seq<char>> {
    match text {
        Some(t) => Some(t@),
        None => None,
    }
}

impl View for PersonStamp {
    type V = PersonStampView;

    open spec fn view(&self) -> PersonStampView {
        PersonStampView {
            name: text_view(self.name),
            email: text_view(self.email),
            timestamp_seconds: self.timestamp_seconds as int,
            tz_offset_minutes: self.tz_offset_minutes as int,
        }
    }
}

/// The metadata of one commit: the summary of its message (the first
/// paragraph, with line breaks squashed to spaces) and the stamps
/// of its author and committer.
#[derive(Clone, Debug, PartialEq, Eq)]
pub struct CommitMetadata {
    pub summary: Option<String>,
    pub author: PersonStamp,
    pub committer: PersonStamp,
}

/// Commit metadata with its text as character sequences.
pub struct CommitMetadataView {
    pub summary: Option<Seq<char>>,
    pub author: PersonStampView,
    pub committer: PersonStampView,
}

impl View for CommitMetadata {
    type V = CommitMetadataView;

    open spec fn view(&self) -> CommitMetadataView {
        CommitMetadataView {
            summary: text_view(self.summary),
            author: self.author@,
            committer: self.committer@,
        }
    }
}

/// A signature field is present when the commit stores text for it and that
/// text is not empty.
pub open spec fn signature_text_present(text: Option<Seq<char>>) -> bool {
    text matches Some(t) && t.len() > 0
}

/// What the extraction of a signature text field yields: the stored text, or
/// the failure naming `field` when the commit lacks it.
pub open spec fn signature_text_outcome(text: Option<Seq<char>>, field: MetadataField) -> Result<
    Seq<char>,
    FailureView,
> {
    if signature_text_present(text) {
        Ok(text->0)
    } else {
        Err(FailureView::MetadataFieldError { field })
    }
}

/// What the extraction of the summary yields. An empty summary is a
/// legitimate value: only a commit that stores no text for it lacks it.
pub open spec fn summary_outcome(summary: Option<Seq<char>>) -> Result<Seq<char>, FailureView> {
    match summary {
        Some(t) => Ok(t),
        None => Err(FailureView::MetadataFieldError { field: MetadataField::Summary }),
    }
}

/// A text result with its text as a character sequence.
pub open spec fn outcome_view(outcome: Result<String, BlameFailure>) -> Result<
    Seq<char>,
    FailureView,
> {
    match outcome {
        Ok(text) => Ok(text@),
        Err(failure) => Err(failure@),
    }
}

/// Extracts a signature text field.
pub fn require_signature_text(text: &Option<String>, field: MetadataField) -> (outcome: Result<
    String,
    BlameFailure,
>)
    ensures
        outcome_view(outcome) == signature_text_outcome(text_view(*text), field),
{
    match text {
        Some(t) => {
            if t.as_str().is_empty() {
                Err(BlameFailure::MetadataFieldError { field })
            } else {
                Ok(t.clone())
            }
        },
        None => Err(BlameFailure::MetadataFieldError { field }),
    }
}

/// The summary of the commit: the first paragraph of its message, with line
/// breaks squashed to spaces.
pub fn git_summary(c: &CommitMetadata) -> (outcome: Result<String, BlameFailure>)
    ensures
        outcome_view(outcome) == summary_outcome(c@.summary),
{
    match &c.summary {
        Some(t) => Ok(t.clone()),
        None => Err(BlameFailure::MetadataFieldError { field: MetadataField::Summary }),
    }
}

/// The name of the commit's author.
pub fn git_author(c: &CommitMetadata) -> (outcome: Result<String, BlameFailure>)
    ensures
        outcome_view(outcome) == signature_text_outcome(
            c@.author.name,
            MetadataField::AuthorName,
        ),
{
    require_signature_text(&c.author.name, MetadataField::AuthorName)
}

/// The email address of the commit's author.
pub fn git_author_mail(c: &CommitMetadata) -> (outcome: Result<String, BlameFailure>)
    ensures
        outcome_view(outcome) == signature_text_outcome(
            c@.author.email,
            MetadataField::AuthorEmail,
        ),
{
    require_signature_text(&c.author.email, MetadataField::AuthorEmail)
}

/// The time of authorship, in seconds since the epoch, as decimal text.
pub fn git_author_time(c: &CommitMetadata) -> (text: String)
    ensures
        text@ == decimal_text(c@.author.timestamp_seconds),
{
    decimal_string(c.author.timestamp_seconds)
}

/// The author's timezone offset, in minutes, as decimal text.
pub fn git_author_tz(c: &CommitMetadata) -> (text: String)
    ensures
        text@ == decimal_text(c@.author.tz_offset_minutes),
{
    decimal_string(c.author.tz_offset_minutes as i64)
}

/// The name of the commit's committer.
pub fn git_committer(c: &CommitMetadata) -> (outcome: Result<String, BlameFailure>)
    ensures
        outcome_view(outcome) == signature_text_outcome(
            c@.committer.name,
            MetadataField::CommitterName,
        ),
{
    require_signature_text(&c.committer.name, MetadataField::CommitterName)
}

/// The email address of the commit's committer.
pub fn git_committer_mail(c: &CommitMetadata) -> (outcome: Result<String, BlameFailure>)
    ensures
        outcome_view(outcome) == signature_text_outcome(
            c@.committer.email,
            MetadataField::CommitterEmail,
        ),
{
    require_signature_text(&c.committer.email, MetadataField::CommitterEmail)
}

/// The time of committing, in seconds since the epoch, as decimal text.
pub fn git_committer_time(c: &CommitMetadata) -> (text: String)
    ensures
        text@ == decimal_text(c@.committer.timestamp_seconds),
{
    decimal_string(c.committer.timestamp_seconds)
}

/// The committer's timezone offset, in minutes, as decimal text.
pub fn git_committer_tz(c: &CommitMetadata) -> (text: String)
    ensures
        text@ == decimal_text(c@.committer.tz_offset_minutes),
{
    decimal_string(c.committer.tz_offset_minutes as i64)
}

impl PersonStamp {
    /// A copy of the stamp.
    pub fn duplicate(&self) -> (copy: PersonStamp)
        ensures
            copy@ == self@,
    {
        PersonStamp {
            name: self.name.clone(),
            email: self.email.clone(),
            timestamp_seconds: self.timestamp_seconds,
            tz_offset_minutes: self.tz_offset_minutes,
        }
    }
}

impl CommitMetadata {
    /// A copy of the metadata.
    pub fn duplicate(&self) -> (copy: CommitMetadata)
        ensures
            copy@ == self@,
    {
        CommitMetadata {
            summary: self.summary.clone(),
            author: self.author.duplicate(),
            committer: self.committer.duplicate(),
        }
    }
}

} // verus!
