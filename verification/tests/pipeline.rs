//! Requests from the source to the answer.

use js_ts_parser::cst::CstNode;
use js_ts_parser::plugin::{
    process_hashed, process_impl, process_serialised, JsTsParser, ProcessStep,
};
use js_ts_parser::semantic::{HashTree, SemanticNode};
use serde_json::Value;

/// The same hash for every node, so that nothing but the tree itself tells two trees apart.
fn hashes(node: &CstNode) -> HashTree {
    HashTree { hash: "h".to_string(), children: node.children.iter().map(hashes).collect() }
}

/// A node as a JSON object, with its place in the source where that is asked for.
fn json(node: &SemanticNode, places: bool) -> Value {
    let mut object = serde_json::Map::new();
    object.insert("id".to_string(), Value::from(node.id.clone()));
    object.insert("node_type".to_string(), Value::from(node.node_type.clone()));
    object.insert("label".to_string(), Value::from(node.label.clone()));
    if places {
        object.insert("start_line".to_string(), Value::from(node.start_line));
        object.insert("start_col".to_string(), Value::from(node.start_col));
        object.insert("end_line".to_string(), Value::from(node.end_line));
        object.insert("end_col".to_string(), Value::from(node.end_col));
    }
    object.insert("structural_hash".to_string(), Value::from(node.structural_hash.clone()));
    if let Some(class) = &node.parent_type {
        object.insert("parent_type".to_string(), Value::from(class.clone()));
    }
    if let Some(facts) = &node.facts {
        let mut inner = serde_json::Map::new();
        if let Some(is_async) = facts.is_async {
            inner.insert("is_async".to_string(), Value::from(is_async));
        }
        object.insert("facts".to_string(), Value::Object(inner));
    }
    let children: Vec<Value> = node.children.iter().map(|child| json(child, places)).collect();
    object.insert("children".to_string(), Value::Array(children));
    Value::Object(object)
}

/// The semantic tree of a source.
fn tree(source: &str, language: &str, filename: &str) -> SemanticNode {
    match process_impl(source, language, filename) {
        Some(ProcessStep::Hash(root)) => match process_hashed(&root, &hashes(&root)) {
            ProcessStep::Serialise(tree) => tree,
            step => panic!("no tree to serialise: {step:?}"),
        },
        step => panic!("no tree to hash: {step:?}"),
    }
}

/// The answer to a request.
fn process(source: &str, language: &str, filename: &str) -> String {
    let mut step = process_impl(source, language, filename).expect("a step");
    loop {
        step = match step {
            ProcessStep::Hash(root) => process_hashed(&root, &hashes(&root)),
            ProcessStep::Serialise(tree) => {
                let text = serde_json::to_string(&json(&tree, true)).map_err(|e| e.to_string());
                ProcessStep::Done(process_serialised(text))
            }
            ProcessStep::Done(answer) => return answer,
        }
    }
}

/// The tree of a source without places, as text.
fn shape(source: &str, language: &str, filename: &str) -> String {
    serde_json::to_string(&json(&tree(source, language, filename), false)).unwrap()
}

/// Each node of a tree, from the root down: its id, its type and its label.
fn outline(node: &SemanticNode, lines: &mut Vec<String>) {
    lines.push(format!("{} {} {}", node.id, node.node_type, node.label));
    for child in &node.children {
        outline(child, lines);
    }
}

/// The nodes of a tree of one type.
fn of_type<'a>(node: &'a SemanticNode, node_type: &str, found: &mut Vec<&'a SemanticNode>) {
    if node.node_type == node_type {
        found.push(node);
    }
    for child in &node.children {
        of_type(child, node_type, found);
    }
}

/// The labels of the nodes of one type in the tree of a source.
fn labels(source: &str, language: &str, node_type: &str) -> Vec<String> {
    let tree = tree(source, language, "");
    let mut found = Vec::new();
    of_type(&tree, node_type, &mut found);
    found.iter().map(|node| node.label.clone()).collect()
}

fn assert_valid_json(out: &str, what: &str) {
    assert!(serde_json::from_str::<Value>(out).is_ok(), "{what} is no JSON: {out}");
}

#[test]
fn process_impl_empty_returns_valid_json() {
    let out = process("", "javascript", "test.js");
    assert_valid_json(&out, "process(empty)");
}

#[test]
fn process_impl_whitespace_returns_valid_json() {
    let out = process("   \n  ", "javascript", "test.js");
    assert_valid_json(&out, "process(whitespace)");
}

/// The two sides must not serialise identically, nor come to the same shape.
fn assert_async_toggle_visible(plain: &str, asyncy: &str, language: &str, filename: &str) {
    let old = process(plain, language, filename);
    let new = process(asyncy, language, filename);
    assert_ne!(
        old, new,
        "async toggle produced byte-identical trees for {filename}: {plain:?} vs {asyncy:?}"
    );
    assert_ne!(
        shape(plain, language, filename),
        shape(asyncy, language, filename),
        "async toggle changed places only for {filename}: {plain:?} vs {asyncy:?}"
    );
}

#[test]
fn async_toggle_changes_the_tree() {
    for (plain, asyncy) in [
        ("function f() { return 1; }", "async function f() { return 1; }"),
        ("const f = () => 1;", "const f = async () => 1;"),
        ("const f = function () { return 1; };", "const f = async function () { return 1; };"),
        ("class C { m() { return 1; } }", "class C { async m() { return 1; } }"),
        ("class C { static m() { return 1; } }", "class C { static async m() { return 1; } }"),
        ("function* g() { yield 1; }", "async function* g() { yield 1; }"),
    ] {
        assert_async_toggle_visible(plain, asyncy, "javascript", "test.js");
        assert_async_toggle_visible(plain, asyncy, "typescript", "test.ts");
    }
}

#[test]
fn async_function_declaration_is_emitted_with_is_async_fact() {
    let out = process("async function f() { return 1; }", "javascript", "test.js");
    assert!(
        out.contains("async_function_declaration"),
        "expected an async_function_declaration node, got: {out}"
    );
    assert!(
        out.contains("\"is_async\":true"),
        "expected the is_async NodeFacts flag, got: {out}"
    );
}

#[test]
fn async_method_definition_is_emitted() {
    let out = process("class C { async m() {} }", "javascript", "test.js");
    assert!(
        out.contains("async_method_definition"),
        "expected an async_method_definition node, got: {out}"
    );
}

/// `async` used as an ordinary name is an `identifier`, never the keyword token.
#[test]
fn async_as_a_plain_name_is_not_an_async_function() {
    let out = process("function async() { return 1; }", "javascript", "test.js");
    assert!(
        !out.contains("async_function_declaration"),
        "`function async()` is not an async function, got: {out}"
    );
}

/// A plain function must keep its original node type and emit no facts.
#[test]
fn plain_function_is_untouched() {
    let out = process("function f() { return 1; }", "javascript", "test.js");
    assert!(out.contains("function_declaration"), "got: {out}");
    assert!(!out.contains("async_"), "plain function gained async vocabulary: {out}");
    assert!(!out.contains("is_async"), "plain function gained an is_async fact: {out}");
}

#[test]
fn a_plain_function_has_this_tree() {
    let mut lines = Vec::new();
    outline(&tree("function f() { return 1; }", "javascript", "test.js"), &mut lines);
    assert_eq!(
        lines,
        vec![
            "0 program program",
            "0.0 function_declaration f",
            "0.0.1 formal_parameters ()",
            "0.0.2 statement_block statement_block",
            "0.0.2.0 return_statement return_statement",
            "0.0.2.0.0 number 1",
        ]
    );
}

#[test]
fn an_async_function_keeps_the_shape_of_a_plain_one() {
    let plain = shape("function f(a) { return a; }", "javascript", "test.js");
    let asyncy = shape("async function f(a) { return a; }", "javascript", "test.js");
    assert_eq!(
        plain.replace("\"node_type\":\"function_declaration\"", "*"),
        asyncy
            .replace("\"facts\":{\"is_async\":true},", "")
            .replace("\"node_type\":\"async_function_declaration\"", "*")
    );
}

#[test]
fn an_empty_source_is_a_program() {
    let root = tree("", "javascript", "test.js");
    assert_eq!(root.node_type, "program");
    assert_eq!(root.id, "0");
    assert_eq!(root.label, "");
    assert!(root.children.is_empty());
}

#[test]
fn places_are_rows_and_columns() {
    let root = tree("\n  let x = 1;\n", "javascript", "test.js");
    let statement = &root.children[0];
    assert_eq!(statement.node_type, "lexical_declaration");
    assert_eq!((statement.start_line, statement.start_col), (1, 2));
    assert_eq!((statement.end_line, statement.end_col), (1, 12));
}

#[test]
fn methods_know_their_class_and_functions_outside_know_none() {
    let root = tree("class C { m() {} } function f() {}", "javascript", "test.js");
    let mut methods = Vec::new();
    of_type(&root, "method_definition", &mut methods);
    assert_eq!(methods.len(), 1);
    assert_eq!(methods[0].label, "m");
    assert_eq!(methods[0].parent_type.as_deref(), Some("C"));
    let expressions = tree("class C { f = function () {} }", "javascript", "test.js");
    let mut functions = Vec::new();
    of_type(&expressions, "function_expression", &mut functions);
    assert_eq!(functions.len(), 1);
    assert_eq!(functions[0].parent_type.as_deref(), Some("C"));
    let mut functions = Vec::new();
    of_type(&root, "function_declaration", &mut functions);
    assert_eq!(functions.len(), 1);
    assert_eq!(functions[0].parent_type, None);
}

#[test]
fn the_language_decides_on_the_grammar() {
    let typed = "let x: number = 1;";
    assert!(shape(typed, "typescript", "a.js").contains("type_annotation"));
    assert!(shape(typed, "", "A.TS").contains("type_annotation"));
    assert!(!shape(typed, "javascript", "a.ts").contains("type_annotation"));
    let markup = "let x = <a b={1}/>;";
    assert!(shape(markup, "tsx", "").contains("jsx_self_closing_element"));
    assert!(shape(markup, "", "a.tsx").contains("jsx_self_closing_element"));
    assert!(shape(markup, "unknown", "unknown").contains("jsx_self_closing_element"));
    assert!(!shape(markup, "typescript", "").contains("jsx_self_closing_element"));
}

#[test]
fn labels_of_parsed_nodes() {
    assert_eq!(labels("function f(a, b) {}", "javascript", "formal_parameters"), vec!["a, b"]);
    assert_eq!(
        labels("function f(a: T, b?: U) {}", "typescript", "formal_parameters"),
        vec!["a, b"]
    );
    assert_eq!(labels("a.b;", "javascript", "member_expression"), vec!["a.b"]);
    assert_eq!(labels("let s = 'abc';", "javascript", "string"), vec!["abc"]);
    assert_eq!(labels("let s = '';", "javascript", "string"), vec!["''"]);
    assert_eq!(labels("import a from './m';", "javascript", "import_statement"), vec!["./m"]);
    assert_eq!(labels("import './m';", "typescript", "import_statement"), vec!["./m"]);
    assert_eq!(labels("export class C {}", "javascript", "export_statement"), vec!["C"]);
    assert_eq!(
        labels("export async function f() {}", "javascript", "export_statement"),
        vec!["f"]
    );
    assert_eq!(labels("interface I { p: T }", "typescript", "interface_declaration"), vec!["I"]);
    assert_eq!(labels("interface I { p: T }", "typescript", "property_signature"), vec!["p"]);
    assert_eq!(labels("@D class C {}", "typescript", "decorator"), vec!["D"]);
    assert_eq!(labels("@D() class C {}", "typescript", "decorator"), vec!["D"]);
    assert_eq!(labels("@a.b class C {}", "typescript", "decorator"), vec!["a.b"]);
    assert_eq!(labels("@a.b() class C {}", "typescript", "decorator"), vec!["a.b"]);
    assert_eq!(labels("@a.b.c(1) class C {}", "typescript", "decorator"), vec!["a.b.c"]);
    assert_eq!(labels("<a/>;", "tsx", "jsx_self_closing_element"), vec!["a"]);
    for language in ["javascript", "tsx"] {
        assert_eq!(labels("<A.B/>;", language, "jsx_self_closing_element"), vec!["A.B"]);
        assert_eq!(labels("<A.B.C></A.B.C>;", language, "jsx_opening_element"), vec!["A.B.C"]);
    }
    assert_eq!(labels("class C { 'a b'() {} }", "javascript", "method_definition"), vec![""]);
    assert_eq!(labels("class C { [k]() {} }", "javascript", "method_definition"), vec![""]);
    assert_eq!(labels("class C { #p() {} }", "javascript", "method_definition"), vec!["#p"]);
    assert_eq!(
        labels("import { a as b } from 'y';", "javascript", "import_specifier"),
        vec!["a"]
    );
    assert_eq!(labels("import * as n from 'y';", "javascript", "namespace_import"), vec!["n"]);
}

#[test]
fn the_plugin_processes_what_it_is_given() {
    let first = JsTsParser::process("f();".to_string(), "".to_string(), "a.js".to_string());
    match first {
        Some(ProcessStep::Hash(root)) => {
            assert_eq!(root.node_type, "program");
            assert_eq!(root.children.len(), 1);
            assert_eq!(root.children[0].node_type, "expression_statement");
        }
        step => panic!("no tree to hash: {step:?}"),
    }
}

#[test]
fn ids_are_unique_and_hold_no_gap_in_a_path() {
    let mut lines = Vec::new();
    let root = tree("class C { a = 1; m(x) { return x.y + 1; } }", "javascript", "test.js");
    outline(&root, &mut lines);
    let ids: Vec<&str> = lines.iter().map(|line| line.split(' ').next().unwrap()).collect();
    for (i, id) in ids.iter().enumerate() {
        assert!(!ids[..i].contains(id), "{id} occurs twice");
        if let Some((above, _)) = id.rsplit_once('.') {
            assert!(ids.contains(&above), "nothing stands above {id}");
        }
    }
}

#[test]
fn a_source_that_is_not_ascii_is_parsed_too() {
    assert_eq!(labels("let s = 'äöü';", "javascript", "string"), vec!["äöü"]);
    assert_eq!(labels("const größe = 1;", "javascript", "variable_declarator"), vec!["größe"]);
}
