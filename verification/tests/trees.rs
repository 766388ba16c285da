//! From concrete syntax trees to semantic trees.

use js_ts_parser::cst::CstNode;
use js_ts_parser::semantic::{convert, HashTree, NodeFacts, SemanticNode};
use js_ts_parser::text::{clip, decimal_text, ends_with, join};

fn node(node_type: &str, text: Option<&str>, children: Vec<CstNode>) -> CstNode {
    CstNode {
        node_type: node_type.to_string(),
        named: true,
        text: text.map(str::to_string),
        start_line: 1,
        start_col: 2,
        end_line: 3,
        end_col: 4,
        children,
    }
}

fn leaf(node_type: &str, text: &str) -> CstNode {
    node(node_type, Some(text), vec![])
}

fn inner(node_type: &str, children: Vec<CstNode>) -> CstNode {
    node(node_type, None, children)
}

/// A hash that tells where a node stands.
fn hashes(node: &CstNode, hash: String) -> HashTree {
    let children = node.children.iter().enumerate();
    HashTree {
        children: children.map(|(i, child)| hashes(child, format!("{hash}/{i}"))).collect(),
        hash,
    }
}

fn converted(root: &CstNode) -> Option<SemanticNode> {
    let hashes = hashes(root, "#".to_string());
    assert!(hashes.matches(root));
    convert(root, &hashes, "0", None, None)
}

/// Whether a leaf stays under a node of another type.
fn stays(outer: &str, node_type: &str) -> bool {
    let root = converted(&inner(outer, vec![leaf(node_type, "x")]));
    root.map(|root| !root.children.is_empty()).unwrap_or(false)
}

#[test]
fn a_node_is_converted_field_by_field() {
    let root = converted(&leaf("program", "text")).unwrap();
    assert_eq!(root.id, "0");
    assert_eq!(root.node_type, "program");
    assert_eq!(root.label, "text");
    assert_eq!((root.start_line, root.start_col, root.end_line, root.end_col), (1, 2, 3, 4));
    assert_eq!(root.structural_hash, "#");
    assert!(root.children.is_empty());
    assert_eq!(root.parent_type, None);
    assert_eq!(root.facts, None);
}

#[test]
fn ids_count_the_children_that_do_not_stay() {
    let mut children: Vec<CstNode> = (0..12).map(|_| leaf("comment", "//")).collect();
    children.push(leaf("debugger_statement", "debugger"));
    let root = converted(&inner("program", children)).unwrap();
    assert_eq!(root.children.len(), 1);
    assert_eq!(root.children[0].id, "0.12");
    assert_eq!(root.children[0].structural_hash, "#/12");
}

#[test]
fn what_has_nothing_to_show_is_dropped() {
    assert!(converted(&leaf("comment", "//")).is_none());
    assert!(converted(&inner("statement_block", vec![leaf("comment", "//")])).is_none());
    assert!(converted(&leaf("identifier", "x")).is_none());
    assert!(converted(&leaf("number", "1")).is_none());
}

#[test]
fn a_node_stays_for_what_stands_below_it() {
    let block = inner("statement_block", vec![leaf("debugger_statement", "debugger")]);
    let root = converted(&inner("labelled", vec![block])).unwrap();
    assert_eq!(root.node_type, "labelled");
    assert_eq!(root.children[0].node_type, "statement_block");
    assert_eq!(root.children[0].children[0].id, "0.0.0");
}

#[test]
fn names_stay_where_they_are_worth_showing() {
    assert!(stays("call_expression", "identifier"));
    assert!(stays("formal_parameters", "identifier"));
    assert!(stays("variable_declarator", "type_identifier"));
    assert!(!stays("function_declaration", "identifier"));
    assert!(!stays("program", "property_identifier"));
    assert!(!stays("statement_block", "identifier"));
    // A node that does not count itself lets through what stands above it.
    let arguments = inner("arguments", vec![leaf("identifier", "x")]);
    let call = converted(&inner("call_expression", vec![arguments])).unwrap();
    assert_eq!(call.children[0].children[0].label, "x");
}

#[test]
fn literals_stay_outside_of_signatures() {
    assert!(stays("program", "number"));
    assert!(stays("pair", "regex"));
    assert!(stays("program", "string_fragment"));
    assert!(!stays("formal_parameters", "number"));
    assert!(!stays("type_annotation", "number"));
    assert!(!stays("statement_block", "number"));
    assert!(stays("formal_parameters", "string"));
}

#[test]
fn a_name_that_is_no_leaf_is_no_evidence() {
    let name = inner("identifier", vec![leaf("comment", "//")]);
    let call = converted(&inner("call_expression", vec![name])).unwrap();
    assert!(call.children.is_empty());
}

#[test]
fn functions_know_the_innermost_class_around_them() {
    let class = |name: &str, body: Vec<CstNode>| {
        inner("class_declaration", vec![leaf("identifier", name), inner("class_body", body)])
    };
    let method = || inner("method_definition", vec![leaf("property_identifier", "m")]);
    let field = || inner("field_definition", vec![leaf("property_identifier", "f")]);
    let outer = class("A", vec![method(), field(), class("B", vec![method()]), method()]);
    let root = converted(&outer).unwrap();
    assert_eq!(root.label, "A");
    assert_eq!(root.parent_type, None);
    let body = &root.children[0].children;
    assert_eq!(body[0].parent_type.as_deref(), Some("A"));
    assert_eq!(body[1].parent_type, None);
    assert_eq!(body[2].parent_type, None);
    assert_eq!(body[2].children[0].children[0].parent_type.as_deref(), Some("B"));
    assert_eq!(body[3].parent_type.as_deref(), Some("A"));
}

#[test]
fn async_types_have_the_async_fact() {
    for node_type in ["async_function_declaration", "async_arrow_function"] {
        let root = converted(&leaf(node_type, "")).unwrap();
        assert_eq!(root.facts, Some(NodeFacts { is_async: Some(true) }));
    }
    assert_eq!(converted(&leaf("arrow_function", "")).unwrap().facts, None);
}

#[test]
fn a_function_expression_knows_its_class_whether_async_or_not() {
    let field = |node_type: &str| {
        let function = inner(node_type, vec![leaf("formal_parameters", "()")]);
        inner("class", vec![leaf("identifier", "C"), function])
    };
    let plain = converted(&field("function_expression")).unwrap();
    assert_eq!(plain.children[0].parent_type.as_deref(), Some("C"));
    let other = converted(&field("async_function_expression")).unwrap();
    assert_eq!(other.children[0].parent_type.as_deref(), Some("C"));
}

#[test]
fn hashes_match_a_tree_of_their_shape_only() {
    let root = inner("program", vec![leaf("comment", "//"), leaf("comment", "//")]);
    let flat = |n: usize| HashTree {
        hash: String::new(),
        children: (0..n).map(|_| HashTree { hash: String::new(), children: vec![] }).collect(),
    };
    assert!(flat(2).matches(&root));
    assert!(!flat(1).matches(&root));
    assert!(!flat(3).matches(&root));
    let mut deep = flat(2);
    deep.children[1] = flat(1);
    assert!(!deep.matches(&root));
}

#[test]
fn hashes_change_nothing_but_themselves() {
    let root = inner("program", vec![inner("call_expression", vec![leaf("identifier", "f")])]);
    let a = converted(&root).unwrap();
    let b = convert(&root, &hashes(&root, "other".to_string()), "0", None, None).unwrap();
    assert_ne!(a.structural_hash, b.structural_hash);
    assert_eq!(a.children[0].id, b.children[0].id);
    assert_eq!(a.children[0].children[0].label, b.children[0].children[0].label);
}

#[test]
fn what_encloses_the_root_counts_for_it() {
    let root = leaf("identifier", "x");
    let hashes = hashes(&root, "#".to_string());
    let kept = convert(&root, &hashes, "7.1", Some("C"), Some("call_expression")).unwrap();
    assert_eq!(kept.id, "7.1");
    assert_eq!(kept.parent_type, None);
    let function = leaf("function", "x");
    let kept = convert(&function, &hashes, "7.1", Some("C"), None).unwrap();
    assert_eq!(kept.parent_type.as_deref(), Some("C"));
}

#[test]
fn texts() {
    for n in [0, 9, 10, 99, 100, 4096, usize::MAX] {
        assert_eq!(decimal_text(n), n.to_string());
    }
    assert_eq!(clip("äöü", 2), "äö");
    assert_eq!(clip("äöü", 3), "äöü");
    assert_eq!(clip("äöü", 0), "");
    let parts = vec!["a".to_string(), "".to_string(), "b".to_string()];
    assert_eq!(join(&parts, ", "), "a, , b");
    assert_eq!(join(&parts[..1].to_vec(), ", "), "a");
    assert_eq!(join(&vec![], ", "), "");
    assert!(ends_with("xäö", "äö"));
    assert!(ends_with("x", ""));
    assert!(!ends_with("ö", "äö"));
    assert!(!ends_with("äöx", "äö"));
}
