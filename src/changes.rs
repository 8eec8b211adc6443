//! Reduce per-file status flags to unstaged/staged change markers.
use vstd::prelude::*;

verus! {

/// The status flags of one file, as the repository reports them.
#[derive(Clone, Copy, Debug, PartialEq, Eq, Structural)]
pub struct FileStatus {
    pub wt_new: bool,
    pub wt_modified: bool,
    pub wt_deleted: bool,
    pub wt_renamed: bool,
    pub wt_typechange: bool,
    pub index_new: bool,
    pub index_modified: bool,
    pub index_deleted: bool,
    pub index_renamed: bool,
    pub index_typechange: bool,
    pub ignored: bool,
}

/// What the change markers are built from: whether each kind of change is
/// present, or how many files carry it.
#[derive(Clone, Copy, Debug, PartialEq, Eq, Structural)]
pub enum ChangeState {
    Binary { has_unstaged: bool, has_staged: bool },
    Counted { unstaged: usize, staged: usize },
}

/// The file has a working-tree change and is not ignored.
pub open spec fn is_unstaged(f: FileStatus) -> bool {
    !f.ignored && (f.wt_deleted || f.wt_modified || f.wt_new || f.wt_renamed || f.wt_typechange)
}

/// The file has an index change and is not ignored.
pub open spec fn is_staged(f: FileStatus) -> bool {
    !f.ignored && (f.index_deleted || f.index_modified || f.index_new || f.index_renamed
        || f.index_typechange)
}

pub open spec fn any_unstaged(s: Seq<FileStatus>) -> bool {
    exists|i: int| 0 <= i < s.len() && is_unstaged(#[trigger] s[i])
}

pub open spec fn any_staged(s: Seq<FileStatus>) -> bool {
    exists|i: int| 0 <= i < s.len() && is_staged(#[trigger] s[i])
}

/// The number of files with a working-tree change.
pub open spec fn count_unstaged(s: Seq<FileStatus>) -> nat
    decreases s.len(),
{
    if s.len() == 0 {
        0
    } else {
        count_unstaged(s.drop_last()) + if is_unstaged(s.last()) { 1nat } else { 0nat }
    }
}

/// The number of files with an index change.
pub open spec fn count_staged(s: Seq<FileStatus>) -> nat
    decreases s.len(),
{
    if s.len() == 0 {
        0
    } else {
        count_staged(s.drop_last()) + if is_staged(s.last()) { 1nat } else { 0nat }
    }
}

/// The change state of `s` in binary or in counted form.
pub open spec fn classification(s: Seq<FileStatus>, detailed: bool) -> ChangeState {
    if detailed {
        ChangeState::Counted { unstaged: count_unstaged(s) as usize, staged: count_staged(s) as usize }
    } else {
        ChangeState::Binary { has_unstaged: any_unstaged(s), has_staged: any_staged(s) }
    }
}

fn unstaged_change(f: &FileStatus) -> (r: bool)
    ensures
        r == is_unstaged(*f),
{
    !f.ignored && (f.wt_deleted || f.wt_modified || f.wt_new || f.wt_renamed || f.wt_typechange)
}

fn staged_change(f: &FileStatus) -> (r: bool)
    ensures
        r == is_staged(*f),
{
    !f.ignored && (f.index_deleted || f.index_modified || f.index_new || f.index_renamed
        || f.index_typechange)
}

/// Whether any file has an unstaged change, and whether any has a staged one.
pub fn repo_status_bin(statuses: &Vec<FileStatus>) -> (r: (bool, bool))
    ensures
        r.0 == any_unstaged(statuses@),
        r.1 == any_staged(statuses@),
{
    let mut unstaged = false;
    let mut staged = false;
    let mut i: usize = 0;
    while i < statuses.len()
        invariant
            i <= statuses@.len(),
            unstaged == exists|j: int| 0 <= j < i && is_unstaged(#[trigger] statuses@[j]),
            staged == exists|j: int| 0 <= j < i && is_staged(#[trigger] statuses@[j]),
        decreases statuses@.len() - i,
    {
        let f = &statuses[i];
        unstaged = unstaged || unstaged_change(f);
        staged = staged || staged_change(f);
        i = i + 1;
    }
    (unstaged, staged)
}

/// How many files have an unstaged change and how many a staged one; a file
/// may count towards both.
pub fn repo_status(statuses: &Vec<FileStatus>) -> (r: (usize, usize))
    ensures
        r.0 == count_unstaged(statuses@),
        r.1 == count_staged(statuses@),
{
    let mut unstaged: usize = 0;
    let mut staged: usize = 0;
    let mut i: usize = 0;
    while i < statuses.len()
        invariant
            i <= statuses@.len(),
            unstaged <= i,
            staged <= i,
            unstaged == count_unstaged(statuses@.subrange(0, i as int)),
            staged == count_staged(statuses@.subrange(0, i as int)),
        decreases statuses@.len() - i,
    {
        assert(statuses@.subrange(0, i + 1).drop_last() =~= statuses@.subrange(0, i as int));
        let f = &statuses[i];
        if unstaged_change(f) {
            unstaged = unstaged + 1;
        }
        if staged_change(f) {
            staged = staged + 1;
        }
        i = i + 1;
    }
    assert(statuses@.subrange(0, statuses@.len() as int) =~= statuses@);
    (unstaged, staged)
}

/// The change state of `statuses`: counted when `detailed`, else binary.
pub fn classify(statuses: &Vec<FileStatus>, detailed: bool) -> (r: ChangeState)
    ensures
        r == classification(statuses@, detailed),
{
    if detailed {
        let (unstaged, staged) = repo_status(statuses);
        ChangeState::Counted { unstaged, staged }
    } else {
        let (has_unstaged, has_staged) = repo_status_bin(statuses);
        ChangeState::Binary { has_unstaged, has_staged }
    }
}

/// Adding a file with a working-tree modification and no index change marks
/// the set as having unstaged changes and leaves its staged flag as it was.
pub proof fn lemma_modified_file_marks_unstaged(s: Seq<FileStatus>, f: FileStatus)
    requires
        f.wt_modified,
        !f.ignored,
        !is_staged(f),
    ensures
        any_unstaged(s.push(f)),
        any_staged(s.push(f)) == any_staged(s),
{
    let t = s.push(f);
    assert(is_unstaged(t[s.len() as int]));
    if any_staged(s) {
        let i = choose|i: int| 0 <= i < s.len() && is_staged(#[trigger] s[i]);
        assert(t[i] == s[i]);
    }
    if any_staged(t) {
        let i = choose|i: int| 0 <= i < t.len() && is_staged(#[trigger] t[i]);
        assert(i < s.len());
        assert(t[i] == s[i]);
    }
}

} // verus!
