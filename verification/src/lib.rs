//! Per-line authorship history of one file, prepared for an embedding host.
//!
//! Given a repository and a file in it, the library produces one record per
//! blame hunk, in file-line order. Each record pairs the hunk's line range
//! with the authorship metadata of the commit that last touched those lines.
//!
//! [`git_blame`] starts a run against a repository on disk and
//! [`BlameSession::advance`] hands out its records one at a time. The
//! decisions of a run are those of the state machine in [`pipeline`]; the
//! laws in [`delivery`] say what a run delivers.

pub mod commit_id;
pub mod decimal;
pub mod delivery;
pub mod engine;
pub mod failure;
pub mod hunk;
pub mod metadata;
pub mod pipeline;
pub mod record;
pub mod session;

pub use crate::commit_id::CommitId;
pub use crate::failure::{BlameFailure, FailureKind, MetadataField};
pub use crate::hunk::{BlameHunks, Hunk};
pub use crate::metadata::{
    git_author, git_author_mail, git_author_time, git_author_tz, git_committer,
    git_committer_mail, git_committer_time, git_committer_tz, git_summary, CommitMetadata,
    PersonStamp,
};
pub use crate::pipeline::{Action, Event, Phase, Pipeline};
pub use crate::record::{
    assemble, BlameRecord, ChunkGroup, FieldValue, KeyValue, RevisionGroup,
};
pub use crate::session::{
    accept_hunks, blame_outcome, commit_outcome, git_blame, git_blame_file_rs, git_commit,
    git_repo, repository_outcome, BlameSession, OpenPolicy,
};
