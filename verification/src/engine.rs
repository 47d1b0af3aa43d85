//! The history engine: the calls into `git2`.
//!
//! Nothing in this module is proved. Each function hands one call to the
//! engine and converts what comes back into plain values; its contract, where
//! it has one, states what the engine's source shows. What a call finds
//! depends on the repository on disk, so of most results nothing is claimed.

use vstd::prelude::*;
use crate::commit_id::CommitId;
use crate::hunk::Hunk;
use crate::metadata::PersonStamp;

verus! {

/// `git2::Repository`: a handle to an opened repository.
#[verifier::external_type_specification]
#[verifier::external_body]
pub struct ExRepository(git2::Repository);

/// `git2::Error`: what the engine reports when a call fails.
#[verifier::external_type_specification]
#[verifier::external_body]
pub struct ExError(git2::Error);

/// `git2::Blame`: the computed blame of one file, a list of hunks.
#[verifier::external_type_specification]
#[verifier::external_body]
pub struct ExBlame<'repo>(git2::Blame<'repo>);

/// `git2::Commit`: a commit object read from the repository.
#[verifier::external_type_specification]
#[verifier::external_body]
pub struct ExCommit<'repo>(git2::Commit<'repo>);

/// The hunks that a computed blame holds, in the order of their index.
pub uninterp spec fn blame_contents(blame: &git2::Blame) -> Seq<Hunk>;

/// `git2::Repository::open`: opens the repository at `path`, which must
/// exist already.
#[verifier::external_body]
pub(crate) fn repository_open(path: &str) -> (opened: Result<git2::Repository, git2::Error>) {
    git2::Repository::open(std::path::Path::new(path))
}

/// `git2::Repository::init`: opens the repository at `path`, creating it
/// first if there is none.
#[verifier::external_body]
pub(crate) fn repository_init(path: &str) -> (opened: Result<git2::Repository, git2::Error>) {
    git2::Repository::init(std::path::Path::new(path))
}

/// `git2::Repository::blame_file` with default options: the blame of the file
/// at `path`, relative to the repository root, as of the current head.
#[verifier::external_body]
pub(crate) fn repository_blame_file<'repo>(repository: &'repo git2::Repository, path: &str) -> (blame:
    Result<git2::Blame<'repo>, git2::Error>) {
    repository.blame_file(std::path::Path::new(path), None)
}

/// `git2::Blame::len`: the number of hunks in the blame.
#[verifier::external_body]
pub(crate) fn blame_len(blame: &git2::Blame) -> (count: usize)
    ensures
        count == blame_contents(blame).len(),
{
    blame.len()
}

/// `git2::Blame::get_index`: the hunk at `index`, read through the accessors
/// `orig_commit_id`, `orig_start_line`, `final_start_line` and
/// `lines_in_hunk` of `git2::BlameHunk`. An index below the length always
/// yields a hunk.
#[verifier::external_body]
pub(crate) fn blame_hunk_at(blame: &git2::Blame, index: usize) -> (hunk: Option<Hunk>)
    ensures
        index < blame_contents(blame).len() ==> hunk == Some(blame_contents(blame)[index as int]),
{
    blame.get_index(index).map(
        |h|
            {
                let mut bytes = [0u8; 20];
                bytes.copy_from_slice(h.orig_commit_id().as_bytes());
                Hunk {
                    origin_commit_id: CommitId { bytes },
                    orig_start_line: h.orig_start_line(),
                    final_start_line: h.final_start_line(),
                    line_count: h.lines_in_hunk(),
                }
            },
    )
}

/// `git2::Repository::find_commit`: looks up the commit named `id`.
#[verifier::external_body]
pub(crate) fn repository_find_commit<'repo>(repository: &'repo git2::Repository, id: &CommitId) -> (commit:
    Result<git2::Commit<'repo>, git2::Error>) {
    git2::Oid::from_bytes(&id.bytes).and_then(|oid| repository.find_commit(oid))
}

/// `git2::Commit::summary`: the first paragraph of the commit message as
/// text, or nothing if the commit stores none or stores bytes that are not
/// text.
#[verifier::external_body]
pub(crate) fn commit_summary(commit: &git2::Commit) -> (summary: Option<String>) {
    commit.summary().ok().flatten().map(String::from)
}

/// `git2::Commit::author`: the author's signature, read through the
/// accessors `name`, `email` and `when` of `git2::Signature`. A name or email
/// that is not text is absent.
#[verifier::external_body]
pub(crate) fn commit_author(commit: &git2::Commit) -> (stamp: PersonStamp) {
    let signature = commit.author();
    PersonStamp {
        name: signature.name().ok().map(String::from),
        email: signature.email().ok().map(String::from),
        timestamp_seconds: signature.when().seconds(),
        tz_offset_minutes: signature.when().offset_minutes(),
    }
}

/// `git2::Commit::committer`: the committer's signature, read like the
/// author's.
#[verifier::external_body]
pub(crate) fn commit_committer(commit: &git2::Commit) -> (stamp: PersonStamp) {
    let signature = commit.committer();
    PersonStamp {
        name: signature.name().ok().map(String::from),
        email: signature.email().ok().map(String::from),
        timestamp_seconds: signature.when().seconds(),
        tz_offset_minutes: signature.when().offset_minutes(),
    }
}

/// `git2::Error::message`: the engine's own description of an error.
#[verifier::external_body]
pub(crate) fn error_message(error: &git2::Error) -> (message: String) {
    error.message().to_string()
}

} // verus!
