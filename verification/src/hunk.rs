//! Blame hunks and the line partition they form.
//!
//! A hunk is one contiguous range of lines of the current file, attributed to
//! a single commit. The hunks of a file come in ascending line order and
//! partition its lines: the first hunk starts at line 1 and every later hunk
//! starts on the line after its predecessor's last line.
//!
//! The engine reports the blame of a file without lines as one hunk of no
//! lines. Such a hunk stands for nothing in the file: hunks without lines are
//! left out before the partition is checked.

use vstd::prelude::*;
use crate::commit_id::CommitId;

verus! {

/// One contiguous line range attributed to a single commit. Line numbers
/// count from 1.
#[derive(Clone, Copy, Debug, PartialEq, Eq)]
pub struct Hunk {
    /// The commit the lines are attributed to.
    pub origin_commit_id: CommitId,
    /// First line of the range in the file as that commit had it.
    pub orig_start_line: usize,
    /// First line of the range in the current file.
    pub final_start_line: usize,
    /// Number of lines in the range.
    pub line_count: usize,
}

impl Hunk {
    /// Both start lines and the line count are at least 1, and the number of
    /// the last line of the range is representable.
    pub open spec fn well_formed(&self) -> bool {
        &&& self.orig_start_line >= 1
        &&& self.final_start_line >= 1
        &&& self.line_count >= 1
        &&& self.final_start_line + self.line_count - 1 <= usize::MAX
    }

    /// Whether `line` of the current file lies in this hunk.
    pub open spec fn holds_line(&self, line: int) -> bool {
        self.final_start_line <= line < self.final_start_line + self.line_count
    }

    /// Checks the hunk's own line numbers.
    pub fn is_well_formed(&self) -> (ok: bool)
        ensures
            ok == self.well_formed(),
    {
        self.orig_start_line >= 1 && self.final_start_line >= 1 && self.line_count >= 1
            && self.line_count - 1 <= usize::MAX - self.final_start_line
    }
}

/// Total number of lines in a sequence of hunks.
pub open spec fn line_total(hunks: Seq<Hunk>) -> nat
    decreases hunks.len(),
{
    if hunks.len() == 0 {
        0
    } else {
        line_total(hunks.drop_last()) + hunks.last().line_count as nat
    }
}

/// The hunks partition the lines `1 ..= line_total(hunks)` in order: each is
/// well formed and starts right after the lines of all hunks before it.
pub open spec fn contiguous(hunks: Seq<Hunk>) -> bool {
    forall|i: int|
        0 <= i < hunks.len() ==> {
            &&& (#[trigger] hunks[i]).well_formed()
            &&& hunks[i].final_start_line == 1 + line_total(hunks.take(i))
        }
}

/// Whether the hunk has any line.
pub open spec fn has_lines(hunk: Hunk) -> bool {
    hunk.line_count > 0
}

/// The hunks that have lines, in their order.
pub open spec fn with_lines(hunks: Seq<Hunk>) -> Seq<Hunk> {
    hunks.filter(|hunk: Hunk| has_lines(hunk))
}

/// Taking one more hunk into account keeps it if it has lines and leaves it
/// out if it has none.
pub proof fn lemma_with_lines_step(hunks: Seq<Hunk>, i: int)
    requires
        0 <= i < hunks.len(),
    ensures
        with_lines(hunks.take(0)) == Seq::<Hunk>::empty(),
        has_lines(hunks[i]) ==> with_lines(hunks.take(i + 1)) == with_lines(hunks.take(i)).push(
            hunks[i],
        ),
        !has_lines(hunks[i]) ==> with_lines(hunks.take(i + 1)) == with_lines(hunks.take(i)),
{
    reveal(Seq::filter);
    assert(hunks.take(i + 1).drop_last() =~= hunks.take(i));
    assert(hunks.take(0) =~= Seq::<Hunk>::empty());
}

/// Every hunk that is kept has lines.
pub proof fn lemma_with_lines_all_have_lines(hunks: Seq<Hunk>, i: int)
    requires
        0 <= i < with_lines(hunks).len(),
    ensures
        with_lines(hunks)[i].line_count >= 1,
{
    hunks.lemma_filter_pred(|hunk: Hunk| has_lines(hunk), i);
}

/// Leaving out the hunks without lines leaves out no line.
pub proof fn lemma_with_lines_keeps_total(hunks: Seq<Hunk>)
    ensures
        line_total(with_lines(hunks)) == line_total(hunks),
    decreases hunks.len(),
{
    reveal(Seq::filter);
    if hunks.len() > 0 {
        lemma_with_lines_keeps_total(hunks.drop_last());
        if has_lines(hunks.last()) {
            assert(with_lines(hunks).drop_last() =~= with_lines(hunks.drop_last()));
        }
    }
}

/// Leaves out the hunks without lines and keeps the others in their order.
pub fn drop_empty(hunks: Vec<Hunk>) -> (kept: Vec<Hunk>)
    ensures
        kept@ == with_lines(hunks@),
{
    let mut kept: Vec<Hunk> = Vec::new();
    let mut i: usize = 0;
    proof {
        if hunks@.len() > 0 {
            lemma_with_lines_step(hunks@, 0);
        } else {
            reveal(Seq::filter);
            assert(hunks@.take(0) =~= hunks@);
        }
    }
    while i < hunks.len()
        invariant
            i <= hunks.len(),
            kept@ == with_lines(hunks@.take(i as int)),
        decreases hunks.len() - i,
    {
        let hunk = hunks[i];
        proof {
            lemma_with_lines_step(hunks@, i as int);
        }
        if hunk.line_count > 0 {
            kept.push(hunk);
        }
        i += 1;
    }
    assert(hunks@.take(hunks.len() as int) =~= hunks@);
    kept
}

/// Extending a prefix by one hunk adds that hunk's lines to the total.
pub proof fn lemma_line_total_step(hunks: Seq<Hunk>, i: int)
    requires
        0 <= i < hunks.len(),
    ensures
        line_total(hunks.take(i + 1)) == line_total(hunks.take(i)) + hunks[i].line_count,
{
    assert(hunks.take(i + 1).drop_last() =~= hunks.take(i));
}

/// A longer prefix never has fewer lines.
pub proof fn lemma_line_total_monotone(hunks: Seq<Hunk>, i: int, j: int)
    requires
        0 <= i <= j <= hunks.len(),
    ensures
        line_total(hunks.take(i)) <= line_total(hunks.take(j)),
    decreases j - i,
{
    if i < j {
        lemma_line_total_monotone(hunks, i, j - 1);
        lemma_line_total_step(hunks, j - 1);
    }
}

/// No gaps: each hunk starts on the line after its predecessor's last line,
/// and the first one starts at line 1.
pub proof fn lemma_hunks_adjacent(hunks: Seq<Hunk>, i: int)
    requires
        contiguous(hunks),
        0 <= i < hunks.len(),
    ensures
        i == 0 ==> hunks[i].final_start_line == 1,
        i > 0 ==> hunks[i].final_start_line == hunks[i - 1].final_start_line + hunks[i
            - 1].line_count,
{
    if i == 0 {
        assert(hunks.take(0) =~= Seq::<Hunk>::empty());
    } else {
        lemma_line_total_step(hunks, i - 1);
    }
}

/// Every hunk lies inside the file: its lines are among `1 ..= line_total(hunks)`.
pub proof fn lemma_hunk_within_file(hunks: Seq<Hunk>, i: int)
    requires
        contiguous(hunks),
        0 <= i < hunks.len(),
    ensures
        1 <= hunks[i].final_start_line,
        hunks[i].final_start_line + hunks[i].line_count - 1 <= line_total(hunks),
{
    lemma_line_total_step(hunks, i);
    lemma_line_total_monotone(hunks, i + 1, hunks.len() as int);
    assert(hunks.take(hunks.len() as int) =~= hunks);
}

/// Ascending order without overlap: an earlier hunk ends before a later one
/// starts.
pub proof fn lemma_hunks_ascending(hunks: Seq<Hunk>, i: int, j: int)
    requires
        contiguous(hunks),
        0 <= i < j < hunks.len(),
    ensures
        hunks[i].final_start_line + hunks[i].line_count <= hunks[j].final_start_line,
{
    lemma_line_total_step(hunks, i);
    lemma_line_total_monotone(hunks, i + 1, j);
}

/// Some hunk among the first `k` holds `line`, if the line is among theirs.
proof fn lemma_prefix_holds_line(hunks: Seq<Hunk>, k: int, line: int) -> (i: int)
    requires
        contiguous(hunks),
        0 <= k <= hunks.len(),
        1 <= line <= line_total(hunks.take(k)),
    ensures
        0 <= i < k,
        hunks[i].holds_line(line),
    decreases k,
{
    if k == 0 {
        assert(hunks.take(0) =~= Seq::<Hunk>::empty());
        0
    } else {
        lemma_line_total_step(hunks, k - 1);
        if line <= line_total(hunks.take(k - 1)) {
            lemma_prefix_holds_line(hunks, k - 1, line)
        } else {
            k - 1
        }
    }
}

/// Exact cover: every line of the file lies in one hunk and in no other.
pub proof fn lemma_line_has_one_hunk(hunks: Seq<Hunk>, line: int) -> (owner: int)
    requires
        contiguous(hunks),
        1 <= line <= line_total(hunks),
    ensures
        0 <= owner < hunks.len(),
        hunks[owner].holds_line(line),
        forall|j: int| 0 <= j < hunks.len() && (#[trigger] hunks[j]).holds_line(line) ==> j == owner,
{
    assert(hunks.take(hunks.len() as int) =~= hunks);
    let owner = lemma_prefix_holds_line(hunks, hunks.len() as int, line);
    assert forall|j: int| 0 <= j < hunks.len() && (#[trigger] hunks[j]).holds_line(
        line,
    ) implies j == owner by {
        if j < owner {
            lemma_hunks_ascending(hunks, j, owner);
        } else if owner < j {
            lemma_hunks_ascending(hunks, owner, j);
        }
    }
    owner
}

/// The hunks of one file, checked to partition its lines.
pub struct BlameHunks {
    hunks: Vec<Hunk>,
    lines: usize,
}

impl View for BlameHunks {
    type V = Seq<Hunk>;

    closed spec fn view(&self) -> Seq<Hunk> {
        self.hunks@
    }
}

impl BlameHunks {
    #[verifier::type_invariant]
    pub closed spec fn partitions(&self) -> bool {
        &&& contiguous(self.hunks@)
        &&& self.lines == line_total(self.hunks@)
    }

    /// Accepts a hunk sequence if and only if it partitions the lines of a
    /// file; the accepted sequence is the given one, unchanged.
    pub fn accept(hunks: Vec<Hunk>) -> (accepted: Option<BlameHunks>)
        ensures
            accepted is Some <==> contiguous(hunks@),
            accepted matches Some(a) ==> a@ == hunks@,
    {
        let mut total: usize = 0;
        let mut i: usize = 0;
        while i < hunks.len()
            invariant
                i <= hunks.len(),
                total == line_total(hunks@.take(i as int)),
                contiguous(hunks@.take(i as int)),
            decreases hunks.len() - i,
        {
            let hunk = hunks[i];
            let fits = hunk.is_well_formed() && total < usize::MAX && hunk.final_start_line
                == total + 1;
            if !fits {
                assert(!contiguous(hunks@)) by {
                    assert(hunks@[i as int] == hunk);
                }
                return None;
            }
            proof {
                lemma_line_total_step(hunks@, i as int);
                let before = hunks@.take(i as int);
                let after = hunks@.take(i + 1);
                assert forall|k: int| 0 <= k < after.len() implies {
                    &&& (#[trigger] after[k]).well_formed()
                    &&& after[k].final_start_line == 1 + line_total(after.take(k))
                } by {
                    assert(after.take(k) =~= hunks@.take(k));
                    if k < i {
                        assert(before[k] == after[k]);
                        assert(before.take(k) =~= hunks@.take(k));
                    }
                }
            }
            total = total + hunk.line_count;
            i += 1;
        }
        assert(hunks@.take(hunks.len() as int) =~= hunks@);
        Some(BlameHunks { hunks, lines: total })
    }

    /// The empty sequence: the hunks of a file without lines.
    pub fn empty() -> (hunks: BlameHunks)
        ensures
            hunks@ == Seq::<Hunk>::empty(),
    {
        BlameHunks { hunks: Vec::new(), lines: 0 }
    }

    /// Number of hunks.
    pub fn len(&self) -> (n: usize)
        ensures
            n == self@.len(),
            contiguous(self@),
    {
        proof {
            use_type_invariant(self);
        }
        self.hunks.len()
    }

    /// Number of lines of the file the hunks partition.
    pub fn line_count(&self) -> (n: usize)
        ensures
            n == line_total(self@),
            contiguous(self@),
    {
        proof {
            use_type_invariant(self);
        }
        self.lines
    }

    /// The hunk at position `index`, if there is one.
    pub fn get(&self, index: usize) -> (hunk: Option<Hunk>)
        ensures
            contiguous(self@),
            index < self@.len() ==> hunk == Some(self@[index as int]),
            index >= self@.len() ==> hunk is None,
    {
        proof {
            use_type_invariant(self);
        }
        if index < self.hunks.len() {
            Some(self.hunks[index])
        } else {
            None
        }
    }

    /// The hunk at position `index`.
    pub(crate) fn at(&self, index: usize) -> (hunk: Hunk)
        requires
            index < self@.len(),
        ensures
            hunk == self@[index as int],
    {
        self.hunks[index]
    }

    /// The hunks as a plain vector, in file-line order.
    pub fn to_vec(&self) -> (hunks: Vec<Hunk>)
        ensures
            hunks@ == self@,
            contiguous(self@),
    {
        proof {
            use_type_invariant(self);
        }
        self.hunks.clone()
    }
}

} // verus!
