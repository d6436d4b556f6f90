use vstd::prelude::*;
use crate::git::{
    ahead_behind, branch_name, file_status_bits, local_branches, open_repository, reference_name,
    reference_target, upstream_of, OpenFailure,
};

verus! {

/// Status flags of one file, as git2::Status lays them out.
pub const INDEX_NEW: u32 = 1;
pub const INDEX_MODIFIED: u32 = 2;
pub const INDEX_DELETED: u32 = 4;
pub const INDEX_RENAMED: u32 = 8;
pub const INDEX_TYPECHANGE: u32 = 16;
pub const WT_NEW: u32 = 128;
pub const WT_MODIFIED: u32 = 256;
pub const WT_DELETED: u32 = 512;
pub const WT_TYPECHANGE: u32 = 1024;
pub const WT_RENAMED: u32 = 2048;
pub const IGNORED: u32 = 16384;

/// The flags that count as a change to the working tree or the index.
pub const CHANGED_MASK: u32 = INDEX_NEW | INDEX_MODIFIED | INDEX_DELETED | INDEX_RENAMED
    | INDEX_TYPECHANGE | WT_NEW | WT_MODIFIED | WT_DELETED | WT_RENAMED | WT_TYPECHANGE;

#[derive(Debug, PartialEq, Clone)]
pub enum RepoStatus {
    Clean,
    Dirty,
    NoRepo,
    Error(String),
}

#[derive(Debug, PartialEq, Clone)]
pub enum BranchStatus {
    Current,
    NoUpstream,
    Ahead,
    Error(String),
}

/// What was found at one path: the repository's status and each local
/// branch's status, in the order the branches were listed.
#[derive(Debug, Clone)]
pub struct RepoReport {
    pub path: String,
    pub repo_status: RepoStatus,
    pub branch_status: Vec<(String, BranchStatus)>,
}

/// Answers, for a path, what `RepoReport` describes it.
pub trait Reporter {
    fn report(&self, path: &str) -> (r: RepoReport)
        ensures
            r.path@ == path@,
            report_is_consistent(r),
    ;
}

/// A `Reporter` that asks git through libgit2.
pub struct Git2Reporter {}

pub open spec fn file_changed(bits: u32) -> bool {
    bits & CHANGED_MASK != 0
}

/// The working tree's verdict from the status flags of its files.
pub open spec fn worktree_verdict(files: Seq<u32>) -> RepoStatus {
    if exists|i: int| 0 <= i < files.len() && file_changed(#[trigger] files[i]) {
        RepoStatus::Dirty
    } else {
        RepoStatus::Clean
    }
}

pub open spec fn is_current(s: BranchStatus) -> bool {
    s is Current
}

/// Some branch is ahead of, or not tied to, its upstream, or could not be
/// compared with it.
pub open spec fn some_branch_diverges(branches: Seq<(String, BranchStatus)>) -> bool {
    exists|i: int| 0 <= i < branches.len() && !is_current(#[trigger] branches[i].1)
}

/// The repository's status once its branches are taken into account: only a
/// `Clean` verdict is overridden.
pub open spec fn overall(worktree: RepoStatus, branches: Seq<(String, BranchStatus)>) -> RepoStatus {
    if worktree is Clean && some_branch_diverges(branches) {
        RepoStatus::Dirty
    } else {
        worktree
    }
}

/// What holds of every report: no branches where no repository was found,
/// and only `Current` branches in a `Clean` repository.
pub open spec fn report_is_consistent(r: RepoReport) -> bool {
    &&& (r.repo_status is NoRepo ==> r.branch_status@.len() == 0)
    &&& (some_branch_diverges(r.branch_status@) ==> !(r.repo_status is Clean))
}

pub open spec fn branch_verdict(counts: Result<(usize, usize), String>) -> BranchStatus {
    match counts {
        Ok((ahead, _)) => if ahead > 0 {
            BranchStatus::Ahead
        } else {
            BranchStatus::Current
        },
        Err(message) => BranchStatus::Error(message),
    }
}

impl RepoStatus {
    /// The word that names the status.
    pub fn label(&self) -> (r: String)
        ensures
            r@ == match self {
                RepoStatus::Clean => "Clean"@,
                RepoStatus::Dirty => "Dirty"@,
                RepoStatus::NoRepo => "None"@,
                RepoStatus::Error(message) => "Error: "@ + message@,
            },
    {
        match self {
            RepoStatus::Clean => String::from_str("Clean"),
            RepoStatus::Dirty => String::from_str("Dirty"),
            RepoStatus::NoRepo => String::from_str("None"),
            RepoStatus::Error(message) => String::from_str("Error: ").concat(message.as_str()),
        }
    }
}

/// The text in quotes, escaped as Rust's `{:?}` escapes it.
pub uninterp spec fn debug_str_of(text: Seq<char>) -> Seq<char>;

/// Relies on the `Debug` formatting of `str`: the text between double quotes,
/// with quotes, backslashes and non-printable characters escaped; the result
/// depends on the text alone.
#[verifier::external_body]
fn debug_text(text: &str) -> (r: String)
    ensures
        r@ == debug_str_of(text@),
{
    format!("{:?}", text)
}

/// The status as it is shown beside a branch name, as `{:?}` shows it.
pub open spec fn branch_label(s: BranchStatus) -> Seq<char> {
    match s {
        BranchStatus::Current => "Current"@,
        BranchStatus::NoUpstream => "NoUpstream"@,
        BranchStatus::Ahead => "Ahead"@,
        BranchStatus::Error(message) => "Error("@ + debug_str_of(message@) + ")"@,
    }
}

impl BranchStatus {
    /// The status as it is shown beside a branch name.
    pub fn label(&self) -> (r: String)
        ensures
            r@ == branch_label(*self),
    {
        match self {
            BranchStatus::Current => String::from_str("Current"),
            BranchStatus::NoUpstream => String::from_str("NoUpstream"),
            BranchStatus::Ahead => String::from_str("Ahead"),
            BranchStatus::Error(message) => String::from_str("Error(").concat(
                debug_text(message.as_str()).as_str(),
            ).concat(")"),
        }
    }
}

/// Whether one file's status flags mark a change.
pub fn is_changed(bits: u32) -> (r: bool)
    ensures
        r == file_changed(bits),
{
    bits & CHANGED_MASK != 0
}

/// The working tree's verdict from the status flags of its files: `Dirty` when
/// any file carries a change flag.
pub fn map_git_status_to_report_status(files: &Vec<u32>) -> (r: RepoStatus)
    ensures
        r == worktree_verdict(files@),
{
    let mut i: usize = 0;
    while i < files.len()
        invariant
            i <= files@.len(),
            forall|j: int| 0 <= j < i ==> !file_changed(#[trigger] files@[j]),
        decreases files@.len() - i,
    {
        if is_changed(files[i]) {
            return RepoStatus::Dirty;
        }
        i = i + 1;
    }
    RepoStatus::Clean
}

/// The working tree's verdict, or the error met while asking for it.
pub fn get_repo_status(files: &Result<Vec<u32>, String>) -> (r: RepoStatus)
    ensures
        r == match files {
            Ok(bits) => worktree_verdict(bits@),
            Err(message) => RepoStatus::Error(*message),
        },
{
    match files {
        Ok(bits) => map_git_status_to_report_status(bits),
        Err(message) => RepoStatus::Error(message.clone()),
    }
}

/// A branch's status from its ahead/behind counts against its upstream:
/// only commits ahead count; a branch that is merely behind is `Current`.
pub fn status_from_ahead_behind(counts: Result<(usize, usize), String>) -> (r: BranchStatus)
    ensures
        r == branch_verdict(counts),
{
    match counts {
        Ok((ahead, _)) => if ahead > 0 {
            BranchStatus::Ahead
        } else {
            BranchStatus::Current
        },
        Err(message) => BranchStatus::Error(message),
    }
}

/// The repository's status once its branches are taken into account: a
/// `Clean` working tree with any branch that is not `Current` is `Dirty`; any
/// other verdict stands.
pub fn overall_status(worktree: RepoStatus, branches: &Vec<(String, BranchStatus)>) -> (r:
    RepoStatus)
    ensures
        r == overall(worktree, branches@),
{
    let clean = match &worktree {
        RepoStatus::Clean => true,
        _ => false,
    };
    if !clean {
        return worktree;
    }
    let mut i: usize = 0;
    while i < branches.len()
        invariant
            i <= branches@.len(),
            worktree is Clean,
            forall|j: int| 0 <= j < i ==> is_current(#[trigger] branches@[j].1),
        decreases branches@.len() - i,
    {
        match &branches[i].1 {
            BranchStatus::Current => {},
            _ => {
                return RepoStatus::Dirty;
            },
        }
        i = i + 1;
    }
    worktree
}

/// The report for a path that could not be opened as a repository.
pub fn report_of_open_failure(path: &str, failure: OpenFailure) -> (r: RepoReport)
    ensures
        r.path@ == path@,
        r.branch_status@.len() == 0,
        r.repo_status == match failure {
            OpenFailure::NotARepository => RepoStatus::NoRepo,
            OpenFailure::Other(message) => RepoStatus::Error(message),
        },
{
    let repo_status = match failure {
        OpenFailure::NotARepository => RepoStatus::NoRepo,
        OpenFailure::Other(message) => RepoStatus::Error(message),
    };
    RepoReport { path: String::from_str(path), repo_status, branch_status: Vec::new() }
}

/// The report for an opened repository, from its working tree's verdict and
/// its branches (or the error met while listing them).
pub fn report_of_repository(
    path: &str,
    worktree: RepoStatus,
    branches: Result<Vec<(String, BranchStatus)>, String>,
) -> (r: RepoReport)
    ensures
        r.path@ == path@,
        match branches {
            Ok(list) => r.branch_status@ == list@ && r.repo_status == overall(worktree, list@),
            Err(message) => r.branch_status@.len() == 0 && r.repo_status == RepoStatus::Error(
                message,
            ),
        },
{
    match branches {
        Ok(list) => {
            let repo_status = overall_status(worktree, &list);
            RepoReport { path: String::from_str(path), repo_status, branch_status: list }
        },
        Err(message) => RepoReport {
            path: String::from_str(path),
            repo_status: RepoStatus::Error(message),
            branch_status: Vec::new(),
        },
    }
}

/// A branch's status from what resolving it gave: `None` when it has no
/// upstream, else the ahead/behind counts or the error met on the way.
pub open spec fn branch_status_of(resolved: Option<Result<(usize, usize), String>>) -> BranchStatus {
    match resolved {
        None => BranchStatus::NoUpstream,
        Some(counts) => branch_verdict(counts),
    }
}

/// A branch's status from what resolving it gave: `NoUpstream` without an
/// upstream, else what its ahead/behind counts (or the error) give.
pub fn branch_status_from(resolved: Option<Result<(usize, usize), String>>) -> (r: BranchStatus)
    ensures
        r == branch_status_of(resolved),
{
    match resolved {
        None => BranchStatus::NoUpstream,
        Some(counts) => status_from_ahead_behind(counts),
    }
}

/// The commits that the branch has and its upstream lacks, and the reverse;
/// `None` without an upstream; an error when a reference cannot be read.
fn resolve_branch(repo: &git2::Repository, branch: &git2::Branch) -> (r: Option<
    Result<(usize, usize), String>,
>) {
    let upstream = match upstream_of(branch) {
        Some(upstream) => upstream,
        None => {
            return None;
        },
    };
    let local_oid = match reference_name(branch) {
        Some(name) => match reference_target(repo, name.as_str()) {
            Ok(oid) => oid,
            Err(message) => {
                return Some(Err(message));
            },
        },
        None => {
            return Some(Err(String::from_str("invalid ref name")));
        },
    };
    let upstream_oid = match reference_name(&upstream) {
        Some(name) => match reference_target(repo, name.as_str()) {
            Ok(oid) => oid,
            Err(message) => {
                return Some(Err(message));
            },
        },
        None => {
            return Some(Err(String::from_str("invalid ref name")));
        },
    };
    Some(ahead_behind(repo, local_oid, upstream_oid))
}

/// A branch's status: `NoUpstream` without an upstream, else what comparing
/// the two tips gives; any failure on the way becomes `Error`.
fn get_branch_status(repo: &git2::Repository, branch: &git2::Branch) -> (r: BranchStatus) {
    branch_status_from(resolve_branch(repo, branch))
}

fn copy_branch_status(s: &BranchStatus) -> (r: BranchStatus)
    ensures
        r == *s,
{
    match s {
        BranchStatus::Current => BranchStatus::Current,
        BranchStatus::NoUpstream => BranchStatus::NoUpstream,
        BranchStatus::Ahead => BranchStatus::Ahead,
        BranchStatus::Error(message) => BranchStatus::Error(message.clone()),
    }
}

pub open spec fn all_named(outcomes: Seq<(Option<String>, BranchStatus)>) -> bool {
    forall|i: int| 0 <= i < outcomes.len() ==> (#[trigger] outcomes[i]).0 is Some
}

/// The branches with their statuses, in order, when every branch has a name;
/// else the error for an unreadable name.
pub fn named_statuses(outcomes: &Vec<(Option<String>, BranchStatus)>) -> (r: Result<
    Vec<(String, BranchStatus)>,
    String,
>)
    ensures
        r is Ok <==> all_named(outcomes@),
        match r {
            Ok(list) => list@.len() == outcomes@.len() && forall|i: int|
                0 <= i < list@.len() ==> (#[trigger] list@[i]).0 == outcomes@[i].0->Some_0
                    && list@[i].1 == outcomes@[i].1,
            Err(message) => message@ == "could not get branch name"@,
        },
{
    let mut list: Vec<(String, BranchStatus)> = Vec::new();
    let mut i: usize = 0;
    while i < outcomes.len()
        invariant
            i <= outcomes@.len(),
            list@.len() == i,
            forall|j: int| 0 <= j < i ==> (#[trigger] outcomes@[j]).0 is Some,
            forall|j: int|
                0 <= j < i ==> (#[trigger] list@[j]).0 == outcomes@[j].0->Some_0 && list@[j].1
                    == outcomes@[j].1,
        decreases outcomes@.len() - i,
    {
        match &outcomes[i].0 {
            Some(name) => {
                list.push((name.clone(), copy_branch_status(&outcomes[i].1)));
            },
            None => {
                return Err(String::from_str("could not get branch name"));
            },
        }
        i = i + 1;
    }
    Ok(list)
}

/// Each local branch with its status, in listing order; a failure on one
/// branch's references stays in that branch's status, while listing the
/// branches or reading a name fails the whole.
fn get_branch_statuses(repo: &git2::Repository) -> (r: Result<Vec<(String, BranchStatus)>, String>)
    ensures
        r matches Err(m) ==> (m@ == "could not get branch name"@ || ("failed to get branch statuses: "@).is_prefix_of(m@)),
{
    let branches = match local_branches(repo) {
        Ok(branches) => branches,
        Err(message) => {
            let m = String::from_str("failed to get branch statuses: ").concat(message.as_str());
            assert(("failed to get branch statuses: "@).is_prefix_of(m@)) by {
                assert(m@.subrange(0, ("failed to get branch statuses: "@).len() as int) =~= "failed to get branch statuses: "@);
            }
            return Err(m);
        },
    };
    let mut outcomes: Vec<(Option<String>, BranchStatus)> = Vec::new();
    let mut i: usize = 0;
    while i < branches.len()
        invariant
            i <= branches@.len(),
        decreases branches@.len() - i,
    {
        let status = get_branch_status(repo, &branches[i]);
        outcomes.push((branch_name(&branches[i]), status));
        i = i + 1;
    }
    named_statuses(&outcomes)
}

impl Git2Reporter {
    pub fn new() -> (r: Git2Reporter) {
        Git2Reporter {  }
    }
}

impl Reporter for Git2Reporter {
    fn report(&self, path: &str) -> (r: RepoReport) {
        match open_repository(path) {
            Ok(repo) => {
                let worktree = get_repo_status(&file_status_bits(&repo));
                let branches = get_branch_statuses(&repo);
                report_of_repository(path, worktree, branches)
            },
            Err(failure) => report_of_open_failure(path, failure),
        }
    }
}

/// A branch without an upstream makes the repository `Dirty` even when its
/// working tree is clean.
pub proof fn missing_upstream_makes_dirty(
    worktree: RepoStatus,
    branches: Seq<(String, BranchStatus)>,
    i: int,
)
    requires
        worktree is Clean || worktree is Dirty,
        0 <= i < branches.len(),
        branches[i].1 is NoUpstream,
    ensures
        overall(worktree, branches) == RepoStatus::Dirty,
{
    assert(!is_current(branches[i].1));
}

/// A working tree whose only files are new in the index is `Dirty`; one with
/// no status entries, whose branches are all `Current`, is `Clean`.
pub proof fn new_files_dirty_and_untouched_clean(
    files: Seq<u32>,
    branches: Seq<(String, BranchStatus)>,
)
    requires
        forall|i: int| 0 <= i < branches.len() ==> (#[trigger] branches[i]).1 is Current,
    ensures
        files.len() > 0 && (forall|i: int| 0 <= i < files.len() ==> #[trigger] files[i] == INDEX_NEW)
            ==> overall(worktree_verdict(files), branches) == RepoStatus::Dirty,
        overall(worktree_verdict(Seq::empty()), branches) == RepoStatus::Clean,
{
    if files.len() > 0 && (forall|i: int| 0 <= i < files.len() ==> #[trigger] files[i] == INDEX_NEW) {
        assert(files[0] == INDEX_NEW);
        assert(file_changed(INDEX_NEW)) by (bit_vector);
        assert(file_changed(files[0]));
    }
    assert(!some_branch_diverges(branches));
}

} // verus!
