//! Blame records: one hunk paired with the metadata of its commit.
//!
//! A record is delivered to the host as two ordered key-value groups. The
//! chunk group describes the line range and names the commit; the revision
//! group carries the commit's authorship metadata, all of it as text.

use vstd::prelude::*;
use vstd::string::*;
use crate::commit_id::hex_text;
use crate::decimal::decimal_text;
use crate::failure::{BlameFailure, FailureView, MetadataField};
use crate::hunk::Hunk;
use crate::metadata::{
    git_author,
    git_author_mail,
    git_author_time,
    git_author_tz,
    git_committer,
    git_committer_mail,
    git_committer_time,
    git_committer_tz,
    git_summary,
    signature_text_present,
    CommitMetadata,
    CommitMetadataView,
};

verus! {

/// The line range of a hunk and the display text of its commit.
#[derive(Clone, Debug, PartialEq, Eq)]
pub struct ChunkGroup {
    pub commit: String,
    pub orig_line: usize,
    pub final_line: usize,
    pub num_lines: usize,
}

/// A chunk group with its text as a character sequence.
pub struct ChunkView {
    pub commit: Seq<char>,
    pub orig_line: int,
    pub final_line: int,
    pub num_lines: int,
}

impl View for ChunkGroup {
    type V = ChunkView;

    open spec fn view(&self) -> ChunkView {
        ChunkView {
            commit: self.commit@,
            orig_line: self.orig_line as int,
            final_line: self.final_line as int,
            num_lines: self.num_lines as int,
        }
    }
}

/// The authorship metadata of a commit, every field as text. The fields
/// stand in the order in which they are delivered.
#[derive(Clone, Debug, PartialEq, Eq)]
pub struct RevisionGroup {
    pub summary: String,
    pub author: String,
    pub committer_tz: String,
    pub committer_time: String,
    pub committer_mail: String,
    pub committer: String,
    pub author_tz: String,
    pub author_time: String,
    pub author_mail: String,
}

/// A revision group with its text as character sequences.
pub struct RevisionView {
    pub summary: Seq<char>,
    pub author: Seq<char>,
    pub committer_tz: Seq<char>,
    pub committer_time: Seq<char>,
    pub committer_mail: Seq<char>,
    pub committer: Seq<char>,
    pub author_tz: Seq<char>,
    pub author_time: Seq<char>,
    pub author_mail: Seq<char>,
}

impl View for RevisionGroup {
    type V = RevisionView;

    open spec fn view(&self) -> RevisionView {
        RevisionView {
            summary: self.summary@,
            author: self.author@,
            committer_tz: self.committer_tz@,
            committer_time: self.committer_time@,
            committer_mail: self.committer_mail@,
            committer: self.committer@,
            author_tz: self.author_tz@,
            author_time: self.author_time@,
            author_mail: self.author_mail@,
        }
    }
}

/// What the host receives for one hunk.
#[derive(Clone, Debug, PartialEq, Eq)]
pub struct BlameRecord {
    pub chunk: ChunkGroup,
    pub revision: RevisionGroup,
}

/// A record with its text as character sequences.
pub struct RecordView {
    pub chunk: ChunkView,
    pub revision: RevisionView,
}

impl View for BlameRecord {
    type V = RecordView;

    open spec fn view(&self) -> RecordView {
        RecordView { chunk: self.chunk@, revision: self.revision@ }
    }
}

/// The chunk group of a hunk: the commit as hexadecimal text and the three
/// line numbers as they are.
pub open spec fn chunk_of(hunk: Hunk) -> ChunkView {
    ChunkView {
        commit: hex_text(hunk.origin_commit_id@),
        orig_line: hunk.orig_start_line as int,
        final_line: hunk.final_start_line as int,
        num_lines: hunk.line_count as int,
    }
}

/// The first field that the commit lacks, in the order in which the fields
/// are extracted: summary, author name, committer email, committer name,
/// author email.
pub open spec fn first_missing_field(metadata: CommitMetadataView) -> Option<MetadataField> {
    if metadata.summary is None {
        Some(MetadataField::Summary)
    } else if !signature_text_present(metadata.author.name) {
        Some(MetadataField::AuthorName)
    } else if !signature_text_present(metadata.committer.email) {
        Some(MetadataField::CommitterEmail)
    } else if !signature_text_present(metadata.committer.name) {
        Some(MetadataField::CommitterName)
    } else if !signature_text_present(metadata.author.email) {
        Some(MetadataField::AuthorEmail)
    } else {
        None
    }
}

/// The revision group of a commit that lacks no field.
pub open spec fn revision_of(metadata: CommitMetadataView) -> RevisionView
    recommends
        first_missing_field(metadata) is None,
{
    RevisionView {
        summary: metadata.summary->0,
        author: metadata.author.name->0,
        committer_tz: decimal_text(metadata.committer.tz_offset_minutes),
        committer_time: decimal_text(metadata.committer.timestamp_seconds),
        committer_mail: metadata.committer.email->0,
        committer: metadata.committer.name->0,
        author_tz: decimal_text(metadata.author.tz_offset_minutes),
        author_time: decimal_text(metadata.author.timestamp_seconds),
        author_mail: metadata.author.email->0,
    }
}

/// What assembling a hunk with the metadata of its commit yields: the record,
/// or the failure naming the first field that the commit lacks.
pub open spec fn assembled(hunk: Hunk, metadata: CommitMetadataView) -> Result<
    RecordView,
    FailureView,
> {
    match first_missing_field(metadata) {
        Some(field) => Err(FailureView::MetadataFieldError { field }),
        None => Ok(RecordView { chunk: chunk_of(hunk), revision: revision_of(metadata) }),
    }
}

/// An assembly result with its text as character sequences.
pub open spec fn assembly_view(outcome: Result<BlameRecord, BlameFailure>) -> Result<
    RecordView,
    FailureView,
> {
    match outcome {
        Ok(record) => Ok(record@),
        Err(failure) => Err(failure@),
    }
}

/// Builds the chunk group of a hunk.
pub fn chunk_group(hunk: &Hunk) -> (chunk: ChunkGroup)
    ensures
        chunk@ == chunk_of(*hunk),
{
    ChunkGroup {
        commit: hunk.origin_commit_id.to_hex(),
        orig_line: hunk.orig_start_line,
        final_line: hunk.final_start_line,
        num_lines: hunk.line_count,
    }
}

/// Builds the revision group of a commit, extracting the fields in delivery
/// order and stopping at the first one that the commit lacks.
pub fn revision_group(metadata: &CommitMetadata) -> (outcome: Result<RevisionGroup, BlameFailure>)
    ensures
        match outcome {
            Ok(revision) => first_missing_field(metadata@) is None && revision@ == revision_of(
                metadata@,
            ),
            Err(failure) => first_missing_field(metadata@) matches Some(field) && failure@
                == (FailureView::MetadataFieldError { field }),
        },
{
    let summary = match git_summary(metadata) {
        Ok(text) => text,
        Err(failure) => {
            return Err(failure);
        },
    };
    let author = match git_author(metadata) {
        Ok(text) => text,
        Err(failure) => {
            return Err(failure);
        },
    };
    let committer_tz = git_committer_tz(metadata);
    let committer_time = git_committer_time(metadata);
    let committer_mail = match git_committer_mail(metadata) {
        Ok(text) => text,
        Err(failure) => {
            return Err(failure);
        },
    };
    let committer = match git_committer(metadata) {
        Ok(text) => text,
        Err(failure) => {
            return Err(failure);
        },
    };
    let author_tz = git_author_tz(metadata);
    let author_time = git_author_time(metadata);
    let author_mail = match git_author_mail(metadata) {
        Ok(text) => text,
        Err(failure) => {
            return Err(failure);
        },
    };
    Ok(
        RevisionGroup {
            summary,
            author,
            committer_tz,
            committer_time,
            committer_mail,
            committer,
            author_tz,
            author_time,
            author_mail,
        },
    )
}

/// Pairs a hunk with the metadata of its commit.
pub fn assemble(hunk: &Hunk, metadata: &CommitMetadata) -> (outcome: Result<
    BlameRecord,
    BlameFailure,
>)
    ensures
        assembly_view(outcome) == assembled(*hunk, metadata@),
{
    match revision_group(metadata) {
        Ok(revision) => Ok(BlameRecord { chunk: chunk_group(hunk), revision }),
        Err(failure) => Err(failure),
    }
}

/// The value of a delivered field.
#[derive(Clone, Debug, PartialEq, Eq)]
pub enum FieldValue {
    Text(String),
    Integer(usize),
}

/// A field value with its text as a character sequence.
pub enum FieldValueView {
    Text(Seq<char>),
    Integer(int),
}

impl View for FieldValue {
    type V = FieldValueView;

    open spec fn view(&self) -> FieldValueView {
        match self {
            FieldValue::Text(text) => FieldValueView::Text(text@),
            FieldValue::Integer(n) => FieldValueView::Integer(*n as int),
        }
    }
}

/// One delivered field: its key and its value.
#[derive(Clone, Debug, PartialEq, Eq)]
pub struct KeyValue {
    pub key: String,
    pub value: FieldValue,
}

/// A delivered field with its text as character sequences.
pub struct KeyValueView {
    pub key: Seq<char>,
    pub value: FieldValueView,
}

impl View for KeyValue {
    type V = KeyValueView;

    open spec fn view(&self) -> KeyValueView {
        KeyValueView { key: self.key@, value: self.value@ }
    }
}

/// A text field under `key`.
pub open spec fn text_pair(key: Seq<char>, text: Seq<char>) -> KeyValueView {
    KeyValueView { key, value: FieldValueView::Text(text) }
}

/// An integer field under `key`.
pub open spec fn integer_pair(key: Seq<char>, n: int) -> KeyValueView {
    KeyValueView { key, value: FieldValueView::Integer(n) }
}

/// The chunk group as the host receives it: four fields in this order.
pub open spec fn chunk_pairs(chunk: ChunkView) -> Seq<KeyValueView> {
    seq![
        text_pair("commit"@, chunk.commit),
        integer_pair("orig-line"@, chunk.orig_line),
        integer_pair("final-line"@, chunk.final_line),
        integer_pair("num-lines"@, chunk.num_lines),
    ]
}

/// The revision group as the host receives it: nine text fields in this
/// order.
pub open spec fn revision_pairs(revision: RevisionView) -> Seq<KeyValueView> {
    seq![
        text_pair("summary"@, revision.summary),
        text_pair("author"@, revision.author),
        text_pair("committer-tz"@, revision.committer_tz),
        text_pair("committer-time"@, revision.committer_time),
        text_pair("committer-mail"@, revision.committer_mail),
        text_pair("committer"@, revision.committer),
        text_pair("author-tz"@, revision.author_tz),
        text_pair("author-time"@, revision.author_time),
        text_pair("author-mail"@, revision.author_mail),
    ]
}

/// The fields of a group, each with its text as character sequences.
pub open spec fn pairs_view(pairs: Seq<KeyValue>) -> Seq<KeyValueView> {
    pairs.map_values(|pair: KeyValue| pair@)
}

fn text_field(key: &str, text: &String) -> (pair: KeyValue)
    ensures
        pair@ == text_pair(key@, text@),
{
    KeyValue { key: String::from_str(key), value: FieldValue::Text(text.clone()) }
}

fn integer_field(key: &str, n: usize) -> (pair: KeyValue)
    ensures
        pair@ == integer_pair(key@, n as int),
{
    KeyValue { key: String::from_str(key), value: FieldValue::Integer(n) }
}

impl ChunkGroup {
    /// The group as an ordered list of key-value pairs.
    pub fn pairs(&self) -> (pairs: Vec<KeyValue>)
        ensures
            pairs_view(pairs@) == chunk_pairs(self@),
    {
        let mut pairs: Vec<KeyValue> = Vec::new();
        pairs.push(text_field("commit", &self.commit));
        pairs.push(integer_field("orig-line", self.orig_line));
        pairs.push(integer_field("final-line", self.final_line));
        pairs.push(integer_field("num-lines", self.num_lines));
        assert(pairs_view(pairs@) =~= chunk_pairs(self@));
        pairs
    }
}

impl RevisionGroup {
    /// The group as an ordered list of key-value pairs.
    pub fn pairs(&self) -> (pairs: Vec<KeyValue>)
        ensures
            pairs_view(pairs@) == revision_pairs(self@),
    {
        let mut pairs: Vec<KeyValue> = Vec::new();
        pairs.push(text_field("summary", &self.summary));
        pairs.push(text_field("author", &self.author));
        pairs.push(text_field("committer-tz", &self.committer_tz));
        pairs.push(text_field("committer-time", &self.committer_time));
        pairs.push(text_field("committer-mail", &self.committer_mail));
        pairs.push(text_field("committer", &self.committer));
        pairs.push(text_field("author-tz", &self.author_tz));
        pairs.push(text_field("author-time", &self.author_time));
        pairs.push(text_field("author-mail", &self.author_mail));
        assert(pairs_view(pairs@) =~= revision_pairs(self@));
        pairs
    }
}

impl BlameRecord {
    /// A copy of the record.
    pub fn duplicate(&self) -> (copy: BlameRecord)
        ensures
            copy@ == self@,
    {
        BlameRecord {
            chunk: ChunkGroup {
                commit: self.chunk.commit.clone(),
                orig_line: self.chunk.orig_line,
                final_line: self.chunk.final_line,
                num_lines: self.chunk.num_lines,
            },
            revision: RevisionGroup {
                summary: self.revision.summary.clone(),
                author: self.revision.author.clone(),
                committer_tz: self.revision.committer_tz.clone(),
                committer_time: self.revision.committer_time.clone(),
                committer_mail: self.revision.committer_mail.clone(),
                committer: self.revision.committer.clone(),
                author_tz: self.revision.author_tz.clone(),
                author_time: self.revision.author_time.clone(),
                author_mail: self.revision.author_mail.clone(),
            },
        }
    }
}

} // verus!
