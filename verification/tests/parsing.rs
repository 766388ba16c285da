//! From sources to concrete syntax trees.

use js_ts_parser::lower::{async_variant_of, node_to_cst, spans_lie_within, LEAF_TEXT_LIMIT};
use js_ts_parser::parse::{cst_from, parse_source};
use js_ts_parser::syntax::{parse_text, Grammar, ParseOutcome, SyntaxNode};

fn syntax(kind: &str, start: usize, end: usize, named_children: Vec<SyntaxNode>) -> SyntaxNode {
    SyntaxNode {
        kind: kind.to_string(),
        named: true,
        start_byte: start,
        end_byte: end,
        start_row: 5,
        start_column: 6,
        end_row: 7,
        end_column: 8,
        child_kinds: named_children.iter().map(|child| child.kind.clone()).collect(),
        named_children,
    }
}

fn root(grammar: Grammar, source: &str) -> SyntaxNode {
    match parse_text(grammar, source) {
        ParseOutcome::Tree(root) => root,
        outcome => panic!("no tree: {outcome:?}"),
    }
}

#[test]
fn a_tree_is_read_field_by_field() {
    for grammar in [Grammar::JavaScript, Grammar::TypeScript, Grammar::Tsx] {
        let program = root(grammar, "\n f(ä, 1);\n");
        assert_eq!(program.kind, "program");
        assert!(program.named);
        let statement = &program.named_children[0];
        assert_eq!(statement.kind, "expression_statement");
        assert_eq!((statement.start_byte, statement.end_byte), (2, 11));
        assert_eq!((statement.start_row, statement.start_column), (1, 1));
        assert_eq!((statement.end_row, statement.end_column), (1, 10));
        assert_eq!(statement.child_kinds, vec!["call_expression", ";"]);
        let arguments = &statement.named_children[0].named_children[1];
        assert_eq!(arguments.kind, "arguments");
        assert_eq!(arguments.child_kinds, vec!["(", "identifier", ",", "number", ")"]);
        assert_eq!(arguments.named_children.len(), 2);
        assert_eq!(arguments.named_children[1].kind, "number");
    }
}

#[test]
fn grammars_differ() {
    let typed = "let x: T;";
    assert_eq!(root(Grammar::TypeScript, typed).named_children.len(), 1);
    let annotated = |grammar| format!("{:?}", root(grammar, typed)).contains("type_annotation");
    assert!(annotated(Grammar::TypeScript));
    assert!(annotated(Grammar::Tsx));
    assert!(!annotated(Grammar::JavaScript));
    let cast = |grammar| format!("{:?}", root(grammar, "<T>x;")).contains("type_assertion");
    assert!(cast(Grammar::TypeScript));
    assert!(!cast(Grammar::Tsx));
}

#[test]
fn the_async_keyword_is_found_at_any_place() {
    let first = |source: &str| root(Grammar::JavaScript, source).named_children.remove(0);
    assert_eq!(
        async_variant_of(&first("async function f() {}")),
        Some("async_function_declaration")
    );
    assert_eq!(async_variant_of(&first("function f() {}")), None);
    assert_eq!(async_variant_of(&first("function async() {}")), None);
    assert_eq!(
        async_variant_of(&first("async function* f() {}")),
        Some("async_generator_function_declaration")
    );
    let class = first("class C { static async m() {} }");
    let method = &class.named_children[1].named_children[0];
    assert_eq!(method.kind, "method_definition");
    assert_eq!(method.child_kinds[0], "static");
    assert_eq!(async_variant_of(method), Some("async_method_definition"));
}

#[test]
fn only_function_forms_have_an_async_type() {
    let mut node = syntax("for_statement", 0, 0, vec![]);
    node.child_kinds = vec!["for".to_string(), "async".to_string()];
    assert_eq!(async_variant_of(&node), None);
    for kind in [
        "function_declaration",
        "function",
        "function_expression",
        "arrow_function",
        "generator_function_declaration",
        "generator_function",
        "method_definition",
    ] {
        node.kind = kind.to_string();
        assert_eq!(async_variant_of(&node), Some(format!("async_{kind}").as_str()));
    }
}

#[test]
fn leaves_have_a_text_and_other_nodes_have_none() {
    let tree = syntax("a", 0, 6, vec![syntax("b", 0, 2, vec![]), syntax("c", 2, 6, vec![])]);
    let tree = node_to_cst(&tree, "xyäö".as_bytes());
    assert_eq!(tree.text, None);
    assert_eq!(tree.children[0].text.as_deref(), Some("xy"));
    assert_eq!(tree.children[1].text.as_deref(), Some("äö"));
    assert_eq!(tree.node_type, "a");
    assert!(tree.named);
    assert_eq!((tree.start_line, tree.start_col, tree.end_line, tree.end_col), (5, 6, 7, 8));
}

#[test]
fn a_text_that_is_no_utf_8_is_empty() {
    let tree = node_to_cst(&syntax("a", 1, 2, vec![]), "xä".as_bytes());
    assert_eq!(tree.text.as_deref(), Some(""));
    let tree = node_to_cst(&syntax("a", 0, 2, vec![]), &[0xff, 0x41]);
    assert_eq!(tree.text.as_deref(), Some(""));
}

#[test]
fn long_texts_are_cut_off() {
    assert_eq!(LEAF_TEXT_LIMIT, 4096);
    for (length, kept) in [(4095, 4095), (4096, 4096), (4097, 4096), (9000, 4096)] {
        let source = "ä".repeat(length);
        let tree = node_to_cst(&syntax("a", 0, source.len(), vec![]), source.as_bytes());
        assert_eq!(tree.text, Some("ä".repeat(kept)));
    }
    let source = format!("let s = `{}`;", "x".repeat(5000));
    let tree = parse_source(&source, "javascript", "").unwrap().unwrap();
    let declarator = &tree.children[0].children[0];
    let fragment = &declarator.children[1].children[0];
    assert_eq!(fragment.node_type, "string_fragment");
    assert_eq!(fragment.text, Some("x".repeat(4096)));
}

#[test]
fn rows_beyond_32_bits_wrap() {
    let mut node = syntax("a", 0, 0, vec![]);
    node.start_row = u32::MAX as usize;
    node.end_row = u32::MAX as usize + 3;
    let tree = node_to_cst(&node, b"");
    assert_eq!(tree.start_line, u32::MAX);
    assert_eq!(tree.end_line, 2);
}

#[test]
fn spans_of_leaves_lie_within_the_source() {
    let leaf = |start, end| syntax("a", start, end, vec![]);
    assert!(spans_lie_within(&leaf(0, 0), 0));
    assert!(spans_lie_within(&leaf(1, 3), 3));
    assert!(!spans_lie_within(&leaf(1, 4), 3));
    assert!(!spans_lie_within(&leaf(2, 1), 3));
    assert!(spans_lie_within(&syntax("a", 0, 9, vec![leaf(0, 1), leaf(1, 3)]), 3));
    assert!(!spans_lie_within(&syntax("a", 0, 3, vec![leaf(0, 1), leaf(1, 9)]), 3));
}

#[test]
fn outcomes_without_a_tree_are_failures() {
    let failed = cst_from(&ParseOutcome::GrammarRejected, "tsx", b"");
    assert_eq!(failed.unwrap().unwrap_err(), "Failed to load tsx grammar");
    let failed = cst_from(&ParseOutcome::NoTree, "tsx", b"");
    assert_eq!(failed.unwrap().unwrap_err(), "Parse failed");
    let beyond = ParseOutcome::Tree(syntax("a", 0, 9, vec![]));
    assert!(cst_from(&beyond, "tsx", b"abc").is_none());
    let within = ParseOutcome::Tree(syntax("a", 0, 2, vec![]));
    let tree = cst_from(&within, "tsx", b"abc").unwrap().unwrap();
    assert_eq!(tree.text.as_deref(), Some("ab"));
}

#[test]
fn a_source_is_parsed_in_its_language() {
    let tree = |language: &str, filename: &str| {
        let tree = parse_source("let x: T;", language, filename).unwrap().unwrap();
        format!("{tree:?}")
    };
    assert!(tree("typescript", "a.js").contains("type_annotation"));
    assert!(tree("", "a.MTS").contains("type_annotation"));
    assert!(!tree("", "a.mjs").contains("type_annotation"));
    assert!(!tree("", "").contains("type_annotation"));
    assert_eq!(tree("typescript", ""), tree("", "a.cts"));
}

#[test]
fn only_the_selected_language_counts() {
    let tree = |language: &str, filename: &str| {
        format!("{:?}", parse_source("let ä: T = <a/>;", language, filename))
    };
    assert_eq!(tree("tsx", "a.js"), tree("tsx", "b.ts"));
    assert_eq!(tree("", "a.tsx"), tree("tsx", "a.js"));
    assert_eq!(tree("other", "a.txt"), tree("javascript", "a.ts"));
    assert_ne!(tree("tsx", ""), tree("javascript", ""));
}

#[test]
fn sources_with_errors_have_trees_too() {
    let tree = parse_source("function (", "javascript", "").unwrap().unwrap();
    assert!(format!("{tree:?}").contains("ERROR"));
}

#[test]
fn unnamed_nodes_leave_no_trace_but_in_the_node_type() {
    let tree = parse_source("async function f() {}", "javascript", "").unwrap().unwrap();
    let function = &tree.children[0];
    assert_eq!(function.node_type, "async_function_declaration");
    let types: Vec<&str> = function.children.iter().map(|c| c.node_type.as_str()).collect();
    assert_eq!(types, vec!["identifier", "formal_parameters", "statement_block"]);
    assert!(function.children.iter().all(|child| child.named));
}
