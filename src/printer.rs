use vstd::prelude::*;
use crate::paint::{paint, paint_outcome, Hue};
use crate::repo::{branch_label, BranchStatus, RepoReport, RepoStatus};

verus! {

/// Prints a sequence of reports, one line each.
pub trait Printer {
    /// The lines of all reports, each led by its colored status word.
    fn print_report(&self, reports: &Vec<RepoReport>) -> (r: String)
        ensures
            exists|tokens: Seq<Seq<char>>|
                tokens.len() == reports@.len() && (forall|i: int|
                    0 <= i < reports@.len() ==> shows_status(
                        #[trigger] reports@[i].repo_status,
                        tokens[i],
                    )) && r@ == report_lines(reports@, tokens),
    ;
}

/// One line per report: the status word, the path and, for a repository, the
/// list of its branches.
pub struct SimplePrinter;

/// The text of the status word before it is colored, and its color.
pub open spec fn status_word(s: RepoStatus) -> (Seq<char>, Hue) {
    match s {
        RepoStatus::Clean => ("Clean"@, Hue::Green),
        RepoStatus::Dirty => ("Dirty"@, Hue::Red),
        RepoStatus::NoRepo => ("None"@, Hue::Yellow),
        RepoStatus::Error(message) => (message@, Hue::Red),
    }
}

/// `token` is one way of showing the status word of `s`.
pub open spec fn shows_status(s: RepoStatus, token: Seq<char>) -> bool {
    paint_outcome(status_word(s).0, status_word(s).1, token)
}

pub open spec fn branch_entry(b: (String, BranchStatus)) -> Seq<char> {
    b.0@ + ":"@ + branch_label(b.1)
}

/// The branch entries separated by `", "`.
pub open spec fn branch_list(bs: Seq<(String, BranchStatus)>) -> Seq<char>
    decreases bs.len(),
{
    if bs.len() == 0 {
        Seq::empty()
    } else if bs.len() == 1 {
        branch_entry(bs[0])
    } else {
        branch_list(bs.drop_last()) + ", "@ + branch_entry(bs.last())
    }
}

pub open spec fn report_line(report: RepoReport, token: Seq<char>) -> Seq<char> {
    match report.repo_status {
        RepoStatus::Clean | RepoStatus::Dirty => token + " "@ + report.path@ + " ["@ + branch_list(
            report.branch_status@,
        ) + "]\n"@,
        _ => token + " "@ + report.path@ + "\n"@,
    }
}

/// The lines of all reports, each with the status token given for it.
pub open spec fn report_lines(reports: Seq<RepoReport>, tokens: Seq<Seq<char>>) -> Seq<char>
    decreases reports.len(),
{
    if reports.len() == 0 {
        Seq::empty()
    } else {
        report_lines(reports.drop_last(), tokens.take(reports.len() - 1)) + report_line(
            reports.last(),
            tokens[reports.len() - 1],
        )
    }
}

/// The colored status word of a report.
pub fn status_token(s: &RepoStatus) -> (r: String)
    ensures
        shows_status(*s, r@),
{
    match s {
        RepoStatus::Clean => paint("Clean", Hue::Green),
        RepoStatus::Dirty => paint("Dirty", Hue::Red),
        RepoStatus::NoRepo => paint("None", Hue::Yellow),
        RepoStatus::Error(message) => paint(message.as_str(), Hue::Red),
    }
}

/// The branch entries `name:Status`, separated by `", "`.
pub fn format_branches(bs: &Vec<(String, BranchStatus)>) -> (r: String)
    ensures
        r@ == branch_list(bs@),
{
    let mut out = String::new();
    let mut i: usize = 0;
    while i < bs.len()
        invariant
            i <= bs@.len(),
            out@ == branch_list(bs@.take(i as int)),
        decreases bs@.len() - i,
    {
        assert(bs@.take(i + 1).drop_last() == bs@.take(i as int));
        if i > 0 {
            out.append(", ");
        }
        out.append(bs[i].0.as_str());
        out.append(":");
        out.append(bs[i].1.label().as_str());
        i = i + 1;
    }
    assert(bs@.take(i as int) == bs@);
    out
}

/// The line for one report, led by `token`.
pub fn format_report(report: &RepoReport, token: &str) -> (r: String)
    ensures
        r@ == report_line(*report, token@),
{
    let mut out = String::from_str(token);
    out.append(" ");
    out.append(report.path.as_str());
    match &report.repo_status {
        RepoStatus::Clean | RepoStatus::Dirty => {
            out.append(" [");
            out.append(format_branches(&report.branch_status).as_str());
            out.append("]\n");
        },
        _ => {
            out.append("\n");
        },
    }
    out
}

impl Printer for SimplePrinter {
    fn print_report(&self, reports: &Vec<RepoReport>) -> (r: String) {
        let mut out = String::new();
        let ghost mut tokens: Seq<Seq<char>> = Seq::empty();
        let mut i: usize = 0;
        while i < reports.len()
            invariant
                i <= reports@.len(),
                tokens.len() == i,
                forall|j: int| 0 <= j < i ==> shows_status(#[trigger] reports@[j].repo_status, tokens[j]),
                out@ == report_lines(reports@.take(i as int), tokens),
            decreases reports@.len() - i,
        {
            let token = status_token(&reports[i].repo_status);
            let ghost prev = tokens;
            proof {
                tokens = tokens.push(token@);
                assert(reports@.take(i + 1).drop_last() == reports@.take(i as int));
                assert(tokens.take(i as int) == prev);
            }
            out.append(format_report(&reports[i], token.as_str()).as_str());
            i = i + 1;
        }
        assert(reports@.take(i as int) == reports@);
        out
    }
}

} // verus!
