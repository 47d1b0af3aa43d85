//! The ways a blame run can fail.
//!
//! Every failure ends the run. It carries its kind and a readable cause.

use vstd::prelude::*;
use vstd::string::*;

verus! {

/// A text field of a commit that the host needs.
#[derive(Clone, Copy, Debug, PartialEq, Eq, Structural)]
pub enum MetadataField {
    Summary,
    AuthorName,
    AuthorEmail,
    CommitterName,
    CommitterEmail,
}

/// The name under which a field is reported.
pub open spec fn field_label(field: MetadataField) -> Seq<char> {
    match field {
        MetadataField::Summary => "summary"@,
        MetadataField::AuthorName => "author-name"@,
        MetadataField::AuthorEmail => "author-email"@,
        MetadataField::CommitterName => "committer-name"@,
        MetadataField::CommitterEmail => "committer-email"@,
    }
}

impl MetadataField {
    /// The name under which the field is reported.
    pub fn label(&self) -> (label: &'static str)
        ensures
            label@ == field_label(*self),
    {
        match self {
            MetadataField::Summary => "summary",
            MetadataField::AuthorName => "author-name",
            MetadataField::AuthorEmail => "author-email",
            MetadataField::CommitterName => "committer-name",
            MetadataField::CommitterEmail => "committer-email",
        }
    }
}

/// The kind of a failure, without its cause.
#[derive(Clone, Copy, Debug, PartialEq, Eq, Structural)]
pub enum FailureKind {
    Repository,
    Blame,
    Resolution,
    MetadataField,
}

/// Why a blame run ended early.
#[derive(Clone, Debug, PartialEq, Eq)]
pub enum BlameFailure {
    /// The repository could not be opened.
    RepositoryError { cause: String },
    /// The blame of the file could not be computed.
    BlameError { cause: String },
    /// A commit named by a hunk could not be found.
    ResolutionError { cause: String },
    /// A commit lacks a text field that the host needs.
    MetadataFieldError { field: MetadataField },
}

/// A failure with its cause as a character sequence.
pub enum FailureView {
    RepositoryError { cause: Seq<char> },
    BlameError { cause: Seq<char> },
    ResolutionError { cause: Seq<char> },
    MetadataFieldError { field: MetadataField },
}

impl View for BlameFailure {
    type V = FailureView;

    open spec fn view(&self) -> FailureView {
        match self {
            BlameFailure::RepositoryError { cause } => FailureView::RepositoryError {
                cause: cause@,
            },
            BlameFailure::BlameError { cause } => FailureView::BlameError { cause: cause@ },
            BlameFailure::ResolutionError { cause } => FailureView::ResolutionError {
                cause: cause@,
            },
            BlameFailure::MetadataFieldError { field } => FailureView::MetadataFieldError {
                field: *field,
            },
        }
    }
}

/// The kind of a failure.
pub open spec fn failure_kind(failure: FailureView) -> FailureKind {
    match failure {
        FailureView::RepositoryError { .. } => FailureKind::Repository,
        FailureView::BlameError { .. } => FailureKind::Blame,
        FailureView::ResolutionError { .. } => FailureKind::Resolution,
        FailureView::MetadataFieldError { .. } => FailureKind::MetadataField,
    }
}

/// The readable cause of a failure: what the history engine reported, or the
/// name of the missing field.
pub open spec fn failure_cause(failure: FailureView) -> Seq<char> {
    match failure {
        FailureView::RepositoryError { cause } => cause,
        FailureView::BlameError { cause } => cause,
        FailureView::ResolutionError { cause } => cause,
        FailureView::MetadataFieldError { field } => "missing commit field: "@ + field_label(
            field,
        ),
    }
}

impl BlameFailure {
    /// The kind of the failure.
    pub fn kind(&self) -> (kind: FailureKind)
        ensures
            kind == failure_kind(self@),
    {
        match self {
            BlameFailure::RepositoryError { .. } => FailureKind::Repository,
            BlameFailure::BlameError { .. } => FailureKind::Blame,
            BlameFailure::ResolutionError { .. } => FailureKind::Resolution,
            BlameFailure::MetadataFieldError { .. } => FailureKind::MetadataField,
        }
    }

    /// The readable cause of the failure.
    pub fn cause(&self) -> (cause: String)
        ensures
            cause@ == failure_cause(self@),
    {
        match self {
            BlameFailure::RepositoryError { cause } => cause.clone(),
            BlameFailure::BlameError { cause } => cause.clone(),
            BlameFailure::ResolutionError { cause } => cause.clone(),
            BlameFailure::MetadataFieldError { field } => String::from_str(
                "missing commit field: ",
            ).concat(field.label()),
        }
    }

    /// A copy of the failure.
    pub fn duplicate(&self) -> (copy: BlameFailure)
        ensures
            copy@ == self@,
    {
        match self {
            BlameFailure::RepositoryError { cause } => BlameFailure::RepositoryError {
                cause: cause.clone(),
            },
            BlameFailure::BlameError { cause } => BlameFailure::BlameError {
                cause: cause.clone(),
            },
            BlameFailure::ResolutionError { cause } => BlameFailure::ResolutionError {
                cause: cause.clone(),
            },
            BlameFailure::MetadataFieldError { field } => BlameFailure::MetadataFieldError {
                field: *field,
            },
        }
    }
}

} // verus!
