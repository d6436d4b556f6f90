use colored::Colorize;
use git_tree::printer::{format_branches, Printer, SimplePrinter};
use git_tree::repo::{BranchStatus, RepoReport, RepoStatus};

fn setup() -> (SimplePrinter, Vec<RepoReport>) {
    (SimplePrinter, Vec::new())
}

#[test]
fn test_print_report_when_clean() {
    let (printer, _) = setup();

    let reports = vec![RepoReport {
        path: "./repos/repo".to_string(),
        repo_status: RepoStatus::Clean,
        branch_status: vec![("master".to_string(), BranchStatus::Current)],
    }];

    let out = printer.print_report(&reports);

    assert_eq!(
        out,
        format!("{} ./repos/repo [master:Current]\n", "Clean".green())
    );
}

#[test]
fn test_print_report_when_dirty() {
    let (printer, _) = setup();

    let reports = vec![RepoReport {
        path: "./repos/repo".to_string(),
        repo_status: RepoStatus::Dirty,
        branch_status: vec![("master".to_string(), BranchStatus::Current)],
    }];

    let out = printer.print_report(&reports);

    assert_eq!(
        out,
        format!("{} ./repos/repo [master:Current]\n", "Dirty".red())
    );
}

#[test]
fn test_print_report_when_no_repo() {
    let (printer, _) = setup();

    let reports = vec![RepoReport {
        path: "./repos/repo".to_string(),
        repo_status: RepoStatus::NoRepo,
        branch_status: Vec::new(),
    }];

    let out = printer.print_report(&reports);

    assert_eq!(out, format!("{} ./repos/repo\n", "None".yellow()));
}

#[test]
fn test_print_report_when_unpushed_branch() {
    let (printer, _) = setup();

    let reports = vec![RepoReport {
        path: "./repos/repo".to_string(),
        repo_status: RepoStatus::Dirty,
        branch_status: vec![("master".to_string(), BranchStatus::Ahead)],
    }];

    let out = printer.print_report(&reports);

    assert_eq!(out, format!("{} ./repos/repo [master:Ahead]\n", "Dirty".red()));
}

#[test]
fn test_print_report_when_error() {
    let (printer, _) = setup();

    let reports = vec![RepoReport {
        path: "./repos/repo".to_string(),
        repo_status: RepoStatus::Error("Some error".to_string()),
        branch_status: vec![("master".to_string(), BranchStatus::Current)],
    }];

    let out = printer.print_report(&reports);

    assert_eq!(out, format!("{} ./repos/repo\n", "Some error".red()));
}

#[test]
fn test_print_report_when_untracked_branch() {
    let (printer, _) = setup();

    let reports = vec![RepoReport {
        path: "./repos/repo".to_string(),
        repo_status: RepoStatus::Dirty,
        branch_status: vec![("feature-1".to_string(), BranchStatus::NoUpstream)],
    }];

    let out = printer.print_report(&reports);

    assert_eq!(
        out,
        format!("{} ./repos/repo [feature-1:NoUpstream]\n", "Dirty".red())
    );
}

#[test]
fn print_report_writes_one_line_per_report_in_order() {
    let reports = vec![
        RepoReport {
            path: "a".to_string(),
            repo_status: RepoStatus::NoRepo,
            branch_status: Vec::new(),
        },
        RepoReport {
            path: "b".to_string(),
            repo_status: RepoStatus::Clean,
            branch_status: Vec::new(),
        },
    ];
    let out = SimplePrinter.print_report(&reports);
    assert_eq!(out, format!("{} a\n{} b []\n", "None".yellow(), "Clean".green()));
}

#[test]
fn branches_are_joined_with_commas() {
    let branches = vec![
        ("main".to_string(), BranchStatus::Current),
        ("topic".to_string(), BranchStatus::Ahead),
        ("old".to_string(), BranchStatus::Error("bad ref".to_string())),
    ];
    assert_eq!(
        format_branches(&branches),
        "main:Current, topic:Ahead, old:Error(\"bad ref\")"
    );
    assert_eq!(format_branches(&Vec::new()), "");
}
