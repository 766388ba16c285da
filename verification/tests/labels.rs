//! The label of each sort of node.

use js_ts_parser::cst::CstNode;
use js_ts_parser::label::{label_for, leaf_text};

fn node(node_type: &str, text: Option<&str>, children: Vec<CstNode>) -> CstNode {
    CstNode {
        node_type: node_type.to_string(),
        named: true,
        text: text.map(str::to_string),
        start_line: 0,
        start_col: 0,
        end_line: 0,
        end_col: 0,
        children,
    }
}

fn leaf(node_type: &str, text: &str) -> CstNode {
    node(node_type, Some(text), vec![])
}

fn inner(node_type: &str, children: Vec<CstNode>) -> CstNode {
    node(node_type, None, children)
}

fn label(node_type: &str, children: Vec<CstNode>) -> String {
    label_for(&inner(node_type, children))
}

#[test]
fn a_leaf_is_labelled_by_its_text() {
    assert_eq!(label_for(&leaf("number", "1")), "1");
    assert_eq!(label_for(&leaf("function_declaration", "")), "");
    assert_eq!(label_for(&node("number", None, vec![])), "");
    assert_eq!(node("number", None, vec![]).text_or_empty(), "");
    assert!(node("number", None, vec![]).is_leaf());
}

#[test]
fn strings_are_labelled_by_all_their_text() {
    let parts = || vec![leaf("string_fragment", "a"), leaf("escape_sequence", "\\n")];
    assert_eq!(label("string", parts()), "a\\n");
    assert_eq!(label("template_string", parts()), "a\\n");
    let nested = inner("template_substitution", vec![leaf("identifier", "x")]);
    assert_eq!(leaf_text(&inner("template_string", vec![leaf("string_fragment", "a"), nested])), "ax");
    assert_eq!(label("string", vec![leaf("string_fragment", "")]), "string");
    assert_eq!(label("string", vec![leaf("identifier", ""), leaf("x", "")]), "");
}

#[test]
fn declarations_are_labelled_by_their_first_name() {
    for node_type in [
        "function_declaration",
        "async_function_declaration",
        "generator_function_declaration",
        "async_generator_function_declaration",
        "class_declaration",
        "abstract_class_declaration",
        "interface_declaration",
        "type_alias_declaration",
        "enum_declaration",
        "module",
    ] {
        let children = || {
            vec![leaf("x", "x"), leaf("type_identifier", "T"), leaf("identifier", "f")]
        };
        assert_eq!(label(node_type, children()), "T", "{node_type}");
        assert_eq!(label(node_type, vec![leaf("property_identifier", "p")]), node_type);
    }
    assert_eq!(label("class", vec![leaf("type_identifier", "T"), leaf("identifier", "f")]), "f");
}

#[test]
fn members_are_labelled_by_their_name() {
    for node_type in [
        "method_definition",
        "async_method_definition",
        "field_definition",
        "method_signature",
        "property_signature",
        "abstract_method_signature",
    ] {
        for name in [
            "property_identifier",
            "identifier",
            "string",
            "computed_property_name",
            "private_property_identifier",
        ] {
            let children = vec![leaf("accessibility_modifier", "public"), leaf(name, "n")];
            assert_eq!(label(node_type, children), "n", "{node_type}, {name}");
        }
    }
    let computed = inner("computed_property_name", vec![leaf("identifier", "k")]);
    assert_eq!(label("method_definition", vec![computed, leaf("identifier", "n")]), "");
    let string = inner("string", vec![leaf("string_fragment", "a")]);
    assert_eq!(label("field_definition", vec![string, leaf("identifier", "n")]), "");
    let both = node("string", Some("'a'"), vec![leaf("string_fragment", "a")]);
    assert_eq!(label("property_signature", vec![both]), "'a'");
}

#[test]
fn bindings_are_labelled_by_their_first_identifier() {
    for node_type in
        ["variable_declarator", "import_specifier", "export_specifier", "namespace_import"]
    {
        let children = vec![leaf("object_pattern", "{}"), leaf("identifier", "a"), leaf("identifier", "b")];
        assert_eq!(label(node_type, children), "a", "{node_type}");
    }
}

#[test]
fn paths_are_joined_with_full_stops() {
    let path = vec![
        leaf("identifier", "a"),
        leaf("this", "this"),
        leaf("identifier", ""),
        leaf("property_identifier", "b"),
        leaf("private_property_identifier", "#c"),
    ];
    assert_eq!(label("member_expression", path), "a.b.#c");
    assert_eq!(label("member_expression", vec![leaf("this", "this")]), "member_expression");
    assert_eq!(label("member_expression", vec![leaf("identifier", "")]), "");
}

#[test]
fn parameters_are_joined_with_commas() {
    let parameters = vec![
        leaf("identifier", "a"),
        leaf("identifier", ""),
        inner("object_pattern", vec![leaf("x", "x")]),
        inner("required_parameter", vec![leaf("identifier", "b"), leaf("type_annotation", ": T")]),
        inner("rest_pattern", vec![leaf("identifier", "c")]),
    ];
    assert_eq!(label("formal_parameters", parameters), "a, b, c");
    let nothing = vec![inner("object_pattern", vec![leaf("x", "x")])];
    assert_eq!(label("formal_parameters", nothing), "formal_parameters");
}

#[test]
fn one_parameter_is_labelled_by_its_name() {
    for node_type in ["required_parameter", "optional_parameter", "rest_pattern"] {
        for name in ["identifier", "shorthand_property_identifier", "statement_identifier"] {
            assert_eq!(label(node_type, vec![leaf("x", "x"), leaf(name, "p")]), "p");
        }
        assert_eq!(label(node_type, vec![leaf("x", "x")]), node_type);
    }
}

#[test]
fn imports_are_labelled_by_the_path_of_their_module() {
    assert_eq!(label("import_statement", vec![leaf("x", "x"), leaf("string", "'m'")]), "'m'");
    let string = inner("string", vec![leaf("string_fragment", "m")]);
    let both = node("string", Some("'m'"), vec![leaf("string_fragment", "m")]);
    assert_eq!(label("import_statement", vec![both]), "'m'");
    let clause = inner("import_clause", vec![leaf("identifier", "a")]);
    assert_eq!(label("import_statement", vec![clause, string]), "m");
    assert_eq!(label("import_statement", vec![leaf("x", "x")]), "import_statement");
}

#[test]
fn exports_are_labelled_by_what_they_export() {
    for node_type in ["export_statement", "export_default_declaration"] {
        for exported in [
            "function_declaration",
            "async_function_declaration",
            "generator_function_declaration",
            "async_generator_function_declaration",
            "class_declaration",
            "abstract_class_declaration",
            "interface_declaration",
            "type_alias_declaration",
            "enum_declaration",
            "variable_declaration",
            "lexical_declaration",
            "variable_declarator",
        ] {
            let children = vec![
                leaf("decorator", "@d"),
                inner(exported, vec![leaf("identifier", "f")]),
                inner(exported, vec![leaf("identifier", "g")]),
            ];
            assert_eq!(label(node_type, children), "f", "{node_type}, {exported}");
        }
        let variable = inner("variable_declarator", vec![leaf("identifier", "v")]);
        let list = inner("lexical_declaration", vec![variable]);
        assert_eq!(label(node_type, vec![list]), "lexical_declaration");
        assert_eq!(label(node_type, vec![leaf("object", "{}"), leaf("identifier", "i")]), "i");
    }
}

#[test]
fn decorators_are_labelled_by_their_name() {
    assert_eq!(label("decorator", vec![leaf("identifier", "D")]), "D");
    let call = |name: &str| inner("call_expression", vec![leaf("x", "x"), leaf(name, "D")]);
    assert_eq!(label("decorator", vec![call("identifier")]), "D");
    assert_eq!(label("decorator", vec![call("member_expression")]), "D");
    assert_eq!(label("decorator", vec![call("x"), leaf("identifier", "E")]), "E");
    assert_eq!(label("decorator", vec![call("x")]), "decorator");
    let path = inner("member_expression", vec![leaf("identifier", "a"), leaf("property_identifier", "b")]);
    let call = inner("call_expression", vec![path, leaf("arguments", "()")]);
    assert_eq!(label("decorator", vec![call]), "a.b");
}

#[test]
fn tags_are_labelled_by_their_name() {
    for node_type in ["jsx_opening_element", "jsx_self_closing_element"] {
        for name in ["identifier", "member_expression", "nested_identifier"] {
            assert_eq!(label(node_type, vec![leaf("x", "x"), leaf(name, "Tag")]), "Tag");
        }
    }
    let path = || vec![leaf("identifier", "A"), leaf("property_identifier", "B")];
    for dotted in ["member_expression", "nested_identifier"] {
        let inner_path = inner(dotted, path());
        let longer = inner(dotted, vec![inner_path, leaf("property_identifier", "C")]);
        assert_eq!(label("jsx_opening_element", vec![longer]), "A.B.C");
        let short = inner(dotted, path());
        assert_eq!(label("jsx_self_closing_element", vec![short]), "A.B");
        let partly = inner(dotted, vec![leaf("this", "this"), leaf("property_identifier", "B")]);
        assert_eq!(label("jsx_opening_element", vec![partly]), "B");
        let nothing = inner(dotted, vec![leaf("identifier", "")]);
        assert_eq!(label("jsx_opening_element", vec![nothing]), "");
    }
    assert_eq!(label("jsx_closing_element", vec![leaf("member_expression", "Tag")]), "jsx_closing_element");
}

#[test]
fn resources_are_labelled_by_what_they_bind() {
    for node_type in ["using_declaration", "await_using_declaration"] {
        let bound = inner("variable_declarator", vec![leaf("x", "x"), leaf("identifier", "r")]);
        assert_eq!(label(node_type, vec![bound, leaf("identifier", "s")]), "r");
        let unbound = inner("variable_declarator", vec![leaf("x", "x")]);
        assert_eq!(label(node_type, vec![unbound, leaf("identifier", "s")]), "s");
        assert_eq!(label(node_type, vec![leaf("x", "x")]), node_type);
    }
}

#[test]
fn anything_else_is_labelled_by_its_first_identifier_or_its_type() {
    assert_eq!(label("call_expression", vec![leaf("x", "x"), leaf("identifier", "f")]), "f");
    assert_eq!(label("call_expression", vec![leaf("x", "x")]), "call_expression");
}
