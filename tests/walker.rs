use colored::Colorize;
use git_tree::repo::{BranchStatus, Git2Reporter, RepoReport, RepoStatus, Reporter};
use git_tree::scanner::DirEntry;
use git_tree::walker::{colored_name, get_name, SimpleWalker, StatusNode, Walker};
use git_tree::print_stack::PrintStack;

fn dir(name: &str, children: Vec<DirEntry>) -> DirEntry {
    DirEntry {
        name: name.to_string(),
        is_dir: true,
        children,
    }
}

/// Answers that no path holds a repository.
struct NoRepos;

impl Reporter for NoRepos {
    fn report(&self, path: &str) -> RepoReport {
        RepoReport {
            path: path.to_string(),
            repo_status: RepoStatus::NoRepo,
            branch_status: Vec::new(),
        }
    }
}

/// Answers that every path ending in `repo1` is a clean repository with one
/// branch.
struct OneBranch;

impl Reporter for OneBranch {
    fn report(&self, path: &str) -> RepoReport {
        if path.ends_with("repo1") {
            RepoReport {
                path: path.to_string(),
                repo_status: RepoStatus::Dirty,
                branch_status: vec![
                    ("master".to_string(), BranchStatus::Current),
                    ("topic".to_string(), BranchStatus::NoUpstream),
                ],
            }
        } else {
            RepoReport {
                path: path.to_string(),
                repo_status: RepoStatus::NoRepo,
                branch_status: Vec::new(),
            }
        }
    }
}

fn sample_tree() -> Vec<DirEntry> {
    vec![dir(
        "repos",
        vec![
            dir("github.com", vec![dir("me", vec![dir("repo1", Vec::new())])]),
            dir("bitbucket.com", vec![dir("me", vec![dir("repo1", Vec::new())])]),
        ],
    )]
}

fn leaves(node: &StatusNode, depth: u8, out: &mut Vec<String>) {
    if depth == 0 {
        out.push(node.report.path.clone());
    } else {
        for child in node.children.iter() {
            leaves(child, depth - 1, out);
        }
    }
}

#[test]
fn test_get_name_when_clean_repo_is_green() {
    let report = RepoReport {
        path: "./repos/repo1".to_string(),
        repo_status: RepoStatus::Clean,
        branch_status: vec![("master".to_string(), BranchStatus::Current)],
    };

    let name = get_name(&report).unwrap();

    assert_eq!(name, "repo1".green().to_string());
}

#[test]
fn test_get_name_when_dirty_repo_is_red() {
    let report = RepoReport {
        path: "./repos/repo1".to_string(),
        repo_status: RepoStatus::Dirty,
        branch_status: vec![("master".to_string(), BranchStatus::Current)],
    };

    let name = get_name(&report).unwrap();

    assert_eq!(name, "repo1".red().to_string());
}

#[test]
fn test_get_name_when_no_repo_is_normal_color() {
    let report = RepoReport {
        path: "./repos/repo1".to_string(),
        repo_status: RepoStatus::NoRepo,
        branch_status: vec![("master".to_string(), BranchStatus::Current)],
    };

    let name = get_name(&report).unwrap();

    assert_eq!(name, "repo1".to_string());
}

#[test]
fn test_get_name_when_error_is_red() {
    let report = RepoReport {
        path: "./repos/repo1".to_string(),
        repo_status: RepoStatus::Error("Some error".to_string()),
        branch_status: vec![("master".to_string(), BranchStatus::Current)],
    };

    let name = get_name(&report).unwrap();

    assert_eq!(name, "repo1 (ERR: Some error)".red().to_string());
}

#[test]
fn get_name_without_a_last_component_fails() {
    let report = RepoReport {
        path: "/".to_string(),
        repo_status: RepoStatus::NoRepo,
        branch_status: Vec::new(),
    };
    assert_eq!(get_name(&report), Err("cannot get file name".to_string()));
    assert_eq!(colored_name("plain", &RepoStatus::NoRepo), "plain");
}

#[test]
fn visitor_test_walk_visits_paths_at_depth() {
    let root = "/tmp/root";
    let walker = SimpleWalker::new(&NoRepos);

    let tree = walker.annotate(root, root, &sample_tree(), 4);
    let mut visited: Vec<String> = Vec::new();
    leaves(&tree, 4, &mut visited);

    assert_eq!(
        visited,
        vec![
            format!("{}/repos/github.com/me/repo1", root),
            format!("{}/repos/bitbucket.com/me/repo1", root),
        ]
    );
}

#[test]
fn walker_test_walk_visits_paths_at_depth() {
    let root = "/tmp/root";
    let reporter = NoRepos;
    let walker = SimpleWalker::new(&reporter);

    let printed = walker.report(root, &sample_tree(), 4);

    assert_eq!(printed, format!("{}\n└── repos\n    ├── github.com\n    │   └── me\n    │       └── repo1\n    └── bitbucket.com\n        └── me\n            └── repo1\n", root))
}

#[test]
fn walking_twice_prints_the_same() {
    let walker = SimpleWalker::new(&OneBranch);
    let first = walker.report("R", &sample_tree(), 4);
    let second = walker.report("R", &sample_tree(), 4);
    assert_eq!(first, second);
}

#[test]
fn leaf_repository_lists_its_branches() {
    let walker = SimpleWalker::new(&OneBranch);
    let entries = vec![dir("repo1", Vec::new()), dir("other", Vec::new())];
    let printed = walker.report("R", &entries, 1);
    assert_eq!(
        printed,
        format!(
            "R\n├── {}\n│   ├── master - Current\n│   └── topic - NoUpstream\n└── other\n",
            "repo1".red()
        )
    );
}

#[test]
fn depth_zero_reports_the_root_itself() {
    let walker = SimpleWalker::new(&NoRepos);
    assert_eq!(walker.report("R", &sample_tree(), 0), "R\n");
}

#[test]
fn walk_draws_from_a_given_stack() {
    let walker = SimpleWalker::new(&NoRepos);
    let tree = walker.annotate("R", "R", &vec![dir("a", Vec::new())], 1);
    let stack = PrintStack::new().extend(git_tree::print_stack::Node::Terminal("R".to_string()));
    assert_eq!(walker.walk(&tree, 1, &stack), "└── R\n    └── a\n");
}

#[test]
fn plain_directories_are_drawn_without_repositories() {
    let nanos = std::time::SystemTime::now()
        .duration_since(std::time::UNIX_EPOCH)
        .unwrap()
        .as_nanos();
    let root = format!("/tmp/git_tree_walk_{}", nanos);
    // Creating a repository one level further down makes every directory
    // above it, which stay plain directories.
    git2::Repository::init(format!("{}/repos/github.com/me/repo1/inner", root)).unwrap();
    git2::Repository::init(format!("{}/repos/bitbucket.com/me/repo1/inner", root)).unwrap();

    let reporter = Git2Reporter::new();
    let walker = SimpleWalker::new(&reporter);
    let printed = walker.report(&root, &sample_tree(), 4);

    assert_eq!(printed, format!("{}\n└── repos\n    ├── github.com\n    │   └── me\n    │       └── repo1\n    └── bitbucket.com\n        └── me\n            └── repo1\n", root));
}
