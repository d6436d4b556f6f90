use git_tree::print_stack::{Node, PrintStack};

#[test]
fn test_new_stack_is_empty() {
    assert!(PrintStack::new().nodes.is_empty());
}

#[test]
fn test_stack_extend_maps_open_to_continue() {
    let stack0 = PrintStack::new();
    let stack1 = stack0.extend(Node::Open("a".to_string()));
    let stack2 = stack1.extend(Node::Open("b".to_string()));

    assert_eq!(
        stack2.nodes,
        vec![Node::Continue, Node::Open("b".to_string())]
    );
}

#[test]
fn test_stack_extend_maps_continue_to_continue() {
    let stack0 = PrintStack::new();
    let stack1 = stack0.extend(Node::Continue);
    let stack2 = stack1.extend(Node::Open("a".to_string()));

    assert_eq!(
        stack2.nodes,
        vec![Node::Continue, Node::Open("a".to_string())]
    );
}

#[test]
fn test_stack_extend_maps_terminal_to_empty() {
    let stack0 = PrintStack::new();
    let stack1 = stack0.extend(Node::Terminal("a".to_string()));
    let stack2 = stack1.extend(Node::Open("b".to_string()));

    assert_eq!(stack2.nodes, vec![Node::Empty, Node::Open("b".to_string())]);
}

#[test]
fn test_stack_extend_maps_empty_to_empty() {
    let stack0 = PrintStack::new();
    let stack1 = stack0.extend(Node::Empty);
    let stack2 = stack1.extend(Node::Open("a".to_string()));

    assert_eq!(stack2.nodes, vec![Node::Empty, Node::Open("a".to_string())]);
}

#[test]
fn test_stack_print() {
    let out = PrintStack::new()
        .extend(Node::Open("a".to_string()))
        .extend(Node::Open("b".to_string()))
        .extend(Node::Terminal("c".to_string()))
        .print();

    assert_eq!(out, "│   │   └── c\n");
}

#[test]
fn extend_adds_one_level_each_time() {
    let stack0 = PrintStack::new();
    let stack1 = stack0.extend(Node::Terminal("a".to_string()));
    let stack2 = stack1.extend(Node::Continue);
    let stack3 = stack2.extend(Node::Empty);
    assert_eq!(stack0.nodes.len(), 0);
    assert_eq!(stack1.nodes.len(), 1);
    assert_eq!(stack2.nodes.len(), 2);
    assert_eq!(stack3.nodes.len(), 3);
}

#[test]
fn extend_leaves_the_parent_unchanged() {
    let parent = PrintStack::new().extend(Node::Open("a".to_string()));
    let first = parent.extend(Node::Open("b".to_string()));
    let second = parent.extend(Node::Terminal("c".to_string()));
    assert_eq!(parent.nodes, vec![Node::Open("a".to_string())]);
    assert_eq!(first.nodes, vec![Node::Continue, Node::Open("b".to_string())]);
    assert_eq!(second.nodes, vec![Node::Continue, Node::Terminal("c".to_string())]);
}

#[test]
fn empty_stack_prints_only_a_line_break() {
    assert_eq!(PrintStack::new().print(), "\n");
}

#[test]
fn every_marker_has_its_glyph() {
    let stack = PrintStack {
        nodes: vec![
            Node::Continue,
            Node::Empty,
            Node::Open("x".to_string()),
            Node::Terminal("y".to_string()),
        ],
    };
    assert_eq!(stack.print(), "│       ├── x└── y\n");
}
