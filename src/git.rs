use vstd::prelude::*;

verus! {

#[verifier::external_type_specification]
#[verifier::external_body]
pub struct ExRepository(git2::Repository);

#[verifier::external_type_specification]
#[verifier::external_body]
pub struct ExBranch<'repo>(git2::Branch<'repo>);

#[verifier::external_type_specification]
#[verifier::external_body]
pub struct ExOid(git2::Oid);

/// Why a path could not be opened as a repository.
pub enum OpenFailure {
    NotARepository,
    Other(String),
}

/// Relies on git2::Repository::open; an error of class `Repository` with code
/// `NotFound` is the one that means "no repository here".
#[verifier::external_body]
pub(crate) fn open_repository(path: &str) -> (r: Result<git2::Repository, OpenFailure>) {
    match git2::Repository::open(path) {
        Ok(repo) => Ok(repo),
        Err(e) => match (e.class(), e.code()) {
            (git2::ErrorClass::Repository, git2::ErrorCode::NotFound) => Err(
                OpenFailure::NotARepository,
            ),
            _ => Err(OpenFailure::Other(e.to_string())),
        },
    }
}

/// Relies on git2::Repository::statuses: the status flags of each listed
/// file, as the raw bits of git2::Status.
#[verifier::external_body]
pub(crate) fn file_status_bits(repo: &git2::Repository) -> (r: Result<Vec<u32>, String>) {
    match repo.statuses(None) {
        Ok(statuses) => {
            let mut bits = Vec::new();
            for entry in statuses.iter() {
                bits.push(entry.status().bits());
            }
            Ok(bits)
        },
        Err(e) => Err(e.to_string()),
    }
}

/// Relies on git2::Repository::branches with the local filter: the local
/// branches, or the first error met while listing them.
#[verifier::external_body]
pub(crate) fn local_branches<'r>(repo: &'r git2::Repository) -> (r: Result<
    Vec<git2::Branch<'r>>,
    String,
>) {
    match repo.branches(Some(git2::BranchType::Local)) {
        Ok(branches) => branches.map(|b| b.map(|(branch, _)| branch)).collect::<Result<
            Vec<_>,
            _,
        >>().map_err(|e| e.to_string()),
        Err(e) => Err(e.to_string()),
    }
}

/// Relies on git2::Branch::name: the branch's short name, when it is valid UTF-8.
#[verifier::external_body]
pub(crate) fn branch_name(branch: &git2::Branch) -> (r: Option<String>) {
    match branch.name() {
        Ok(Some(name)) => Some(name.to_string()),
        _ => None,
    }
}

/// Relies on git2::Branch::upstream: the configured upstream, if there is one.
#[verifier::external_body]
pub(crate) fn upstream_of<'r>(branch: &git2::Branch<'r>) -> (r: Option<git2::Branch<'r>>) {
    branch.upstream().ok()
}

/// Relies on git2::Reference::name of the branch's reference: its full name,
/// when it is valid UTF-8.
#[verifier::external_body]
pub(crate) fn reference_name(branch: &git2::Branch) -> (r: Option<String>) {
    branch.get().name().ok().map(|name| name.to_string())
}

/// Relies on git2::Repository::refname_to_id: the object a reference points to.
#[verifier::external_body]
pub(crate) fn reference_target(repo: &git2::Repository, name: &str) -> (r: Result<
    git2::Oid,
    String,
>) {
    repo.refname_to_id(name).map_err(|e| e.to_string())
}

/// Relies on git2::Repository::graph_ahead_behind: the commits unique to
/// `local` and those unique to `upstream`.
#[verifier::external_body]
pub(crate) fn ahead_behind(repo: &git2::Repository, local: git2::Oid, upstream: git2::Oid) -> (r:
    Result<(usize, usize), String>) {
    repo.graph_ahead_behind(local, upstream).map_err(|e| e.to_string())
}

} // verus!
