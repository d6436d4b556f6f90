use vstd::prelude::*;
use crate::paint::{paint, paint_outcome, Hue};
use crate::print_stack::{
    extended, folded_all, glyph, lemma_rendered_extended, rendered, Node, PrintStack,
};
use crate::repo::{branch_label, report_is_consistent, BranchStatus, RepoReport, RepoStatus, Reporter};
use crate::scanner::{child_path, join_path, DirEntry};

verus! {

/// A directory of the walk with what was found there: its report, the label
/// drawn for it, and the directories below it that the walk visits.
#[derive(Debug)]
pub struct StatusNode {
    pub name: String,
    pub label: String,
    pub report: RepoReport,
    pub children: Vec<StatusNode>,
}

/// The entries of a listing that are directories, in listing order.
pub open spec fn dirs(entries: Seq<DirEntry>) -> Seq<DirEntry>
    decreases entries.len(),
{
    if entries.len() == 0 {
        Seq::empty()
    } else if entries.last().is_dir {
        dirs(entries.drop_last()).push(entries.last())
    } else {
        dirs(entries.drop_last())
    }
}

/// `label` is one way of drawing the name of a directory whose status is `status`:
/// green when clean, red when dirty or failed (with the error appended), plain
/// when no repository is there.
pub open spec fn shows_name(name: Seq<char>, status: RepoStatus, label: Seq<char>) -> bool {
    match status {
        RepoStatus::Clean => paint_outcome(name, Hue::Green, label),
        RepoStatus::Dirty => paint_outcome(name, Hue::Red, label),
        RepoStatus::NoRepo => label == name,
        RepoStatus::Error(err) => paint_outcome(
            name + " (ERR: "@ + err@ + ")"@,
            Hue::Red,
            label,
        ),
    }
}

/// `node` holds, for the directory `name` at `path` listed by `entries`, a
/// consistent report on `path` and, while `depth` is positive, one such node for each
/// subdirectory in listing order.
pub open spec fn annotated(
    node: StatusNode,
    path: Seq<char>,
    name: Seq<char>,
    entries: Seq<DirEntry>,
    depth: nat,
) -> bool
    decreases depth,
{
    &&& node.name@ == name
    &&& node.report.path@ == path
    &&& report_is_consistent(node.report)
    &&& shows_name(name, node.report.repo_status, node.label@)
    &&& if depth == 0 {
        node.children@.len() == 0
    } else {
        &&& node.children@.len() == dirs(entries).len()
        &&& forall|i: int|
            0 <= i < node.children@.len() ==> annotated(
                #[trigger] node.children@[i],
                child_path(path, dirs(entries)[i].name@),
                dirs(entries)[i].name@,
                dirs(entries)[i].children@,
                (depth - 1) as nat,
            )
    }
}

/// The connector drawn before the `i`-th of `n` siblings.
pub open spec fn connector(i: int, n: int) -> Seq<char> {
    if i == n - 1 {
        "└── "@
    } else {
        "├── "@
    }
}

/// The marker for the `i`-th of sibling nodes `cs`: the last one closes the level.
pub open spec fn child_marker(cs: Seq<StatusNode>, i: int) -> Node {
    if i == cs.len() - 1 {
        Node::Terminal(cs[i].label)
    } else {
        Node::Open(cs[i].label)
    }
}

pub open spec fn branch_text(b: (String, BranchStatus)) -> Seq<char> {
    b.0@ + " - "@ + branch_label(b.1)
}

/// The lines listing the first `k` branches of `bs` one level below `stack`.
pub open spec fn branch_lines(bs: Seq<(String, BranchStatus)>, k: nat, stack: Seq<Node>) -> Seq<
    char,
>
    decreases k,
{
    if k == 0 {
        Seq::empty()
    } else {
        branch_lines(bs, (k - 1) as nat, stack) + rendered(folded_all(stack)) + connector(
            k - 1,
            bs.len() as int,
        ) + branch_text(bs[k - 1]) + "\n"@
    }
}

/// The lines drawn for `node` at `stack`: its own line, then, at depth 0, its
/// branches, else the walk of its children one level down.
pub open spec fn walk_node(node: StatusNode, depth: nat, stack: Seq<Node>) -> Seq<char>
    decreases depth, 1nat, 0nat,
{
    rendered(stack) + "\n"@ + if depth == 0 {
        branch_lines(node.report.branch_status@, node.report.branch_status@.len(), stack)
    } else {
        walk_children(node.children@, node.children@.len(), (depth - 1) as nat, stack)
    }
}

/// The lines drawn for the first `k` of the sibling nodes `cs` below `stack`.
pub open spec fn walk_children(cs: Seq<StatusNode>, k: nat, depth: nat, stack: Seq<Node>) -> Seq<
    char,
>
    decreases depth, 2nat, k,
{
    if k == 0 || k > cs.len() {
        Seq::empty()
    } else {
        walk_children(cs, (k - 1) as nat, depth, stack) + walk_node(
            cs[k - 1],
            depth,
            extended(stack, child_marker(cs, k - 1)),
        )
    }
}

pub uninterp spec fn path_file_name(path: Seq<char>) -> Option<Seq<char>>;

/// Relies on std's Path::file_name: the last component of the path, if there
/// is one and it is valid UTF-8.
#[verifier::external_body]
fn file_name_of(path: &str) -> (r: Option<String>)
    ensures
        match r {
            Some(name) => path_file_name(path@) == Some(name@),
            None => path_file_name(path@) is None,
        },
{
    std::path::Path::new(path).file_name().and_then(|name| name.to_str()).map(
        |name| name.to_string(),
    )
}

/// The name of a directory drawn for its status.
pub fn colored_name(name: &str, status: &RepoStatus) -> (r: String)
    ensures
        shows_name(name@, *status, r@),
{
    match status {
        RepoStatus::Clean => paint(name, Hue::Green),
        RepoStatus::Dirty => paint(name, Hue::Red),
        RepoStatus::NoRepo => String::from_str(name),
        RepoStatus::Error(err) => {
            let text = String::from_str(name).concat(" (ERR: ").concat(err.as_str()).concat(")");
            paint(text.as_str(), Hue::Red)
        },
    }
}

/// The last component of the report's path, drawn for the report's status.
pub fn get_name(report: &RepoReport) -> (r: Result<String, String>)
    ensures
        match path_file_name(report.path@) {
            Some(name) => r is Ok && shows_name(name, report.repo_status, r->Ok_0@),
            None => r is Err && r->Err_0@ == "cannot get file name"@,
        },
{
    match file_name_of(report.path.as_str()) {
        Some(name) => Ok(colored_name(name.as_str(), &report.repo_status)),
        None => Err(String::from_str("cannot get file name")),
    }
}

/// Draws the directory tree below a root, with the status of what it finds.
pub trait Walker {
    /// The root path, then one line per directory down to `depth` levels and,
    /// at that depth, one line per branch of the repository found there.
    fn report(&self, root: &str, entries: &Vec<DirEntry>, depth: u8) -> (r: String)
        ensures
            exists|tree: StatusNode|
                annotated(tree, root@, root@, entries@, depth as nat) && r@ == root@ + walk_node(
                    tree,
                    depth as nat,
                    Seq::empty(),
                ),
    ;
}

/// Walks depth first, asking `reporter` about each directory it visits.
pub struct SimpleWalker<'a, R: Reporter> {
    pub reporter: &'a R,
}

impl<'a, R: Reporter> SimpleWalker<'a, R> {
    pub fn new(reporter: &'a R) -> (r: SimpleWalker<'a, R>)
        ensures
            r.reporter == reporter,
    {
        SimpleWalker { reporter }
    }

    /// The node for the directory `name` at `path`, listed by `entries`, with
    /// the nodes below it down to `depth` levels.
    pub fn annotate(&self, path: &str, name: &str, entries: &Vec<DirEntry>, depth: u8) -> (r:
        StatusNode)
        ensures
            annotated(r, path@, name@, entries@, depth as nat),
        decreases depth,
    {
        let report = self.reporter.report(path);
        let label = colored_name(name, &report.repo_status);
        let mut children: Vec<StatusNode> = Vec::new();
        if depth > 0 {
            let mut i: usize = 0;
            while i < entries.len()
                invariant
                    0 < depth,
                    i <= entries@.len(),
                    children@.len() == dirs(entries@.take(i as int)).len(),
                    forall|j: int|
                        0 <= j < children@.len() ==> annotated(
                            #[trigger] children@[j],
                            child_path(path@, dirs(entries@.take(i as int))[j].name@),
                            dirs(entries@.take(i as int))[j].name@,
                            dirs(entries@.take(i as int))[j].children@,
                            (depth - 1) as nat,
                        ),
                decreases entries@.len() - i,
            {
                assert(entries@.take(i + 1).drop_last() == entries@.take(i as int));
                let entry = &entries[i];
                if entry.is_dir {
                    let child_path = join_path(path, entry.name.as_str());
                    let child = self.annotate(
                        child_path.as_str(),
                        entry.name.as_str(),
                        &entry.children,
                        depth - 1,
                    );
                    children.push(child);
                }
                i = i + 1;
            }
            assert(entries@.take(i as int) == entries@);
        }
        StatusNode { name: String::from_str(name), label, report, children }
    }

    /// The lines listing the branches `bs` one level below `stack`.
    pub fn visit(&self, bs: &Vec<(String, BranchStatus)>, stack: &PrintStack) -> (r: String)
        ensures
            r@ == branch_lines(bs@, bs@.len(), stack.nodes@),
    {
        let mut out = String::new();
        let mut i: usize = 0;
        while i < bs.len()
            invariant
                i <= bs@.len(),
                out@ == branch_lines(bs@, i as nat, stack.nodes@),
            decreases bs@.len() - i,
        {
            let text = bs[i].0.clone().concat(" - ").concat(bs[i].1.label().as_str());
            let marker = if i == bs.len() - 1 {
                Node::Terminal(text)
            } else {
                Node::Open(text)
            };
            let ghost m = marker;
            let line = stack.extend(marker).print();
            proof {
                lemma_rendered_extended(stack.nodes@, m);
            }
            out.append(line.as_str());
            i = i + 1;
        }
        out
    }

    /// The lines drawn for `node` at `stack` and, while `depth` is positive, for
    /// the nodes below it.
    pub fn walk(&self, node: &StatusNode, depth: u8, stack: &PrintStack) -> (r: String)
        ensures
            r@ == walk_node(*node, depth as nat, stack.nodes@),
        decreases depth, 1nat, 0nat,
    {
        let mut out = stack.print();
        if depth == 0 {
            out.append(self.visit(&node.report.branch_status, stack).as_str());
        } else {
            out.append(self.walk_siblings(&node.children, depth - 1, stack).as_str());
        }
        out
    }

    /// The lines drawn for the sibling nodes `cs` below `stack`.
    pub fn walk_siblings(&self, cs: &Vec<StatusNode>, depth: u8, stack: &PrintStack) -> (r: String)
        ensures
            r@ == walk_children(cs@, cs@.len(), depth as nat, stack.nodes@),
        decreases depth, 2nat, 0nat,
    {
        let mut out = String::new();
        let mut i: usize = 0;
        while i < cs.len()
            invariant
                i <= cs@.len(),
                out@ == walk_children(cs@, i as nat, depth as nat, stack.nodes@),
            decreases cs@.len() - i,
        {
            let label = cs[i].label.clone();
            let marker = if i == cs.len() - 1 {
                Node::Terminal(label)
            } else {
                Node::Open(label)
            };
            let below = stack.extend(marker);
            out.append(self.walk(&cs[i], depth, &below).as_str());
            i = i + 1;
        }
        out
    }
}

impl<'a, R: Reporter> Walker for SimpleWalker<'a, R> {
    fn report(&self, root: &str, entries: &Vec<DirEntry>, depth: u8) -> (r: String) {
        let tree = self.annotate(root, root, entries, depth);
        let mut out = String::from_str(root);
        out.append(self.walk(&tree, depth, &PrintStack::new()).as_str());
        out
    }
}

/// `a` and `b` draw alike down to `depth`: the same labels, the same number
/// of children at each level above it, and the same branches at it.
pub open spec fn same_drawing(a: StatusNode, b: StatusNode, depth: nat) -> bool
    decreases depth,
{
    &&& a.label == b.label
    &&& if depth == 0 {
        a.report.branch_status@ == b.report.branch_status@
    } else {
        &&& a.children@.len() == b.children@.len()
        &&& forall|i: int|
            0 <= i < a.children@.len() ==> same_drawing(
                #[trigger] a.children@[i],
                b.children@[i],
                (depth - 1) as nat,
            )
    }
}

proof fn lemma_walk_children_alike(
    cs: Seq<StatusNode>,
    ds: Seq<StatusNode>,
    k: nat,
    depth: nat,
    stack: Seq<Node>,
)
    requires
        cs.len() == ds.len(),
        forall|i: int| 0 <= i < cs.len() ==> same_drawing(#[trigger] cs[i], ds[i], depth),
    ensures
        walk_children(cs, k, depth, stack) == walk_children(ds, k, depth, stack),
    decreases depth, 2nat, k,
{
    if k > 0 && k <= cs.len() {
        lemma_walk_children_alike(cs, ds, (k - 1) as nat, depth, stack);
        assert(same_drawing(cs[k - 1], ds[k - 1], depth));
        assert(child_marker(cs, k - 1) == child_marker(ds, k - 1));
        lemma_walk_alike(cs[k - 1], ds[k - 1], depth, extended(stack, child_marker(cs, k - 1)));
    }
}

proof fn lemma_walk_alike(a: StatusNode, b: StatusNode, depth: nat, stack: Seq<Node>)
    requires
        same_drawing(a, b, depth),
    ensures
        walk_node(a, depth, stack) == walk_node(b, depth, stack),
    decreases depth, 1nat, 0nat,
{
    if depth > 0 {
        lemma_walk_children_alike(
            a.children@,
            b.children@,
            a.children@.len(),
            (depth - 1) as nat,
            stack,
        );
    }
}

/// The drawing depends on nothing but the labels, the shape of the tree and
/// the branches at the report depth: two walks over an unchanged filesystem
/// and unchanged repositories, which give the same of these, draw the same
/// lines byte for byte.
pub proof fn walk_is_repeatable(a: StatusNode, b: StatusNode, depth: nat, stack: Seq<Node>)
    requires
        same_drawing(a, b, depth),
    ensures
        walk_node(a, depth, stack) == walk_node(b, depth, stack),
{
    lemma_walk_alike(a, b, depth, stack);
}

/// Among siblings, child `i` is drawn on the parent's margin with each open
/// column continued and each closed one blanked, then `└── ` when it is the
/// last sibling and `├── ` otherwise, then its label; the lines below it follow
/// directly, before the next sibling's (depth first, in listing order).
pub proof fn sibling_lines(cs: Seq<StatusNode>, i: int, depth: nat, stack: Seq<Node>)
    requires
        0 <= i < cs.len(),
    ensures
        walk_children(cs, (i + 1) as nat, depth, stack) == walk_children(cs, i as nat, depth, stack)
            + rendered(folded_all(stack)) + connector(i, cs.len() as int) + cs[i].label@ + "\n"@
            + if depth == 0 {
            branch_lines(
                cs[i].report.branch_status@,
                cs[i].report.branch_status@.len(),
                extended(stack, child_marker(cs, i)),
            )
        } else {
            walk_children(
                cs[i].children@,
                cs[i].children@.len(),
                (depth - 1) as nat,
                extended(stack, child_marker(cs, i)),
            )
        },
{
    let below = extended(stack, child_marker(cs, i));
    lemma_rendered_extended(stack, child_marker(cs, i));
    assert(glyph(child_marker(cs, i)) == connector(i, cs.len() as int) + cs[i].label@);
    let rest = if depth == 0 {
        branch_lines(cs[i].report.branch_status@, cs[i].report.branch_status@.len(), below)
    } else {
        walk_children(cs[i].children@, cs[i].children@.len(), (depth - 1) as nat, below)
    };
    assert(walk_node(cs[i], depth, below) == rendered(below) + "\n"@ + rest);
    assert(walk_children(cs, (i + 1) as nat, depth, stack) =~= walk_children(cs, i as nat, depth, stack)
        + rendered(folded_all(stack)) + connector(i, cs.len() as int) + cs[i].label@ + "\n"@ + rest);
}

} // verus!
