use vstd::prelude::*;

verus! {

/// One column of a tree line's left margin; `Open` and `Terminal` carry the
/// label of the node drawn at that column.
#[derive(Debug, PartialEq, Clone)]
pub enum Node {
    Open(String),
    Continue,
    Terminal(String),
    Empty,
}

/// The drawing context of one line: one marker per ancestor level.
pub struct PrintStack {
    pub nodes: Vec<Node>,
}

/// What a marker becomes once a deeper level is drawn below it.
pub open spec fn folded(n: Node) -> Node {
    match n {
        Node::Open(_) => Node::Continue,
        Node::Continue => Node::Continue,
        Node::Terminal(_) => Node::Empty,
        Node::Empty => Node::Empty,
    }
}

/// Every marker of a stack folded.
pub open spec fn folded_all(nodes: Seq<Node>) -> Seq<Node> {
    nodes.map_values(|n: Node| folded(n))
}

/// The markers of a stack after `extend(node)`.
pub open spec fn extended(nodes: Seq<Node>, node: Node) -> Seq<Node> {
    folded_all(nodes).push(node)
}

/// The glyphs drawn for one marker.
pub open spec fn glyph(n: Node) -> Seq<char> {
    match n {
        Node::Open(label) => "├── "@ + label@,
        Node::Continue => "│   "@,
        Node::Terminal(label) => "└── "@ + label@,
        Node::Empty => "    "@,
    }
}

/// The glyphs of all markers, left to right.
pub open spec fn rendered(nodes: Seq<Node>) -> Seq<char>
    decreases nodes.len(),
{
    if nodes.len() == 0 {
        Seq::empty()
    } else {
        rendered(nodes.drop_last()) + glyph(nodes.last())
    }
}

/// Drawing a stack one level deeper draws the folded markers, then the new one.
pub proof fn lemma_rendered_extended(nodes: Seq<Node>, node: Node)
    ensures
        rendered(extended(nodes, node)) == rendered(folded_all(nodes)) + glyph(node),
{
    assert(extended(nodes, node).drop_last() == folded_all(nodes));
}

fn folded_node(n: &Node) -> (r: Node)
    ensures
        r == folded(*n),
{
    match n {
        Node::Open(_) => Node::Continue,
        Node::Continue => Node::Continue,
        Node::Terminal(_) => Node::Empty,
        Node::Empty => Node::Empty,
    }
}

impl PrintStack {
    pub fn new() -> (r: PrintStack)
        ensures
            r.nodes@ == Seq::<Node>::empty(),
    {
        PrintStack { nodes: Vec::new() }
    }

    /// A new stack one level deeper; `self` is left as it was, so it can seed
    /// further siblings.
    pub fn extend(&self, node: Node) -> (r: PrintStack)
        ensures
            r.nodes@ == extended(self.nodes@, node),
    {
        let mut nodes: Vec<Node> = Vec::new();
        let mut i: usize = 0;
        while i < self.nodes.len()
            invariant
                i <= self.nodes@.len(),
                nodes@ == folded_all(self.nodes@.subrange(0, i as int)),
            decreases self.nodes@.len() - i,
        {
            nodes.push(folded_node(&self.nodes[i]));
            i = i + 1;
        }
        assert(self.nodes@.subrange(0, i as int) == self.nodes@);
        nodes.push(node);
        PrintStack { nodes }
    }

    /// The line's left margin followed by a line break.
    pub fn print(&self) -> (r: String)
        ensures
            r@ == rendered(self.nodes@) + "\n"@,
    {
        let mut out = String::new();
        let mut i: usize = 0;
        while i < self.nodes.len()
            invariant
                i <= self.nodes@.len(),
                out@ == rendered(self.nodes@.subrange(0, i as int)),
            decreases self.nodes@.len() - i,
        {
            let ghost before = self.nodes@.subrange(0, i as int);
            assert(self.nodes@.subrange(0, i + 1).drop_last() == before);
            match &self.nodes[i] {
                Node::Open(label) => {
                    out.append("├── ");
                    out.append(label.as_str());
                },
                Node::Continue => {
                    out.append("│   ");
                },
                Node::Terminal(label) => {
                    out.append("└── ");
                    out.append(label.as_str());
                },
                Node::Empty => {
                    out.append("    ");
                },
            }
            i = i + 1;
        }
        assert(self.nodes@.subrange(0, i as int) == self.nodes@);
        out.append("\n");
        out
    }
}

/// Extending a stack adds exactly one level to it.
pub proof fn extend_adds_one_level(nodes: Seq<Node>, node: Node)
    ensures
        extended(nodes, node).len() == nodes.len() + 1,
{
}

/// An empty stack draws an empty margin.
pub proof fn empty_stack_draws_nothing()
    ensures
        rendered(Seq::<Node>::empty()) == Seq::<char>::empty(),
{
}

/// Below an open branch the column continues; below a terminal branch it is
/// left blank.
pub proof fn open_continues_and_terminal_empties(a: String, b: String)
    ensures
        extended(extended(Seq::empty(), Node::Open(a)), Node::Open(b)) == seq![
            Node::Continue,
            Node::Open(b),
        ],
        extended(extended(Seq::empty(), Node::Terminal(a)), Node::Open(b)) == seq![
            Node::Empty,
            Node::Open(b),
        ],
{
    assert(extended(extended(Seq::empty(), Node::Open(a)), Node::Open(b)) =~= seq![
        Node::Continue,
        Node::Open(b),
    ]);
    assert(extended(extended(Seq::empty(), Node::Terminal(a)), Node::Open(b)) =~= seq![
        Node::Empty,
        Node::Open(b),
    ]);
}

} // verus!
