//! The node types and what they are for.

use js_ts_parser::vocabulary::{
    async_type_of, is_async_node_type, is_class_like, is_literal_evidence_leaf, is_method_like,
    is_review_name_context, is_semantic, is_signature_context, is_signature_name_leaf,
    SEMANTIC_TYPES, TRIVIA,
};

const FORMS: [&str; 7] = [
    "function_declaration",
    "function",
    "function_expression",
    "arrow_function",
    "generator_function_declaration",
    "generator_function",
    "method_definition",
];

#[test]
fn semantic_types_are_listed_once() {
    for (i, name) in SEMANTIC_TYPES.iter().enumerate() {
        assert!(is_semantic(name), "{name}");
        assert!(!SEMANTIC_TYPES[..i].contains(name), "{name} is listed twice");
    }
    for name in TRIVIA {
        assert!(!is_semantic(name), "{name}");
    }
    for name in ["", "Program", "program ", "identifier", "number", "statement_block"] {
        assert!(!is_semantic(name), "{name}");
    }
}

#[test]
fn async_types_are_the_plain_ones_behind_a_prefix() {
    for kind in FORMS {
        let variant = format!("async_{kind}");
        assert_eq!(async_type_of(kind), Some(variant.as_str()));
        assert!(is_async_node_type(&variant), "{variant}");
        assert!(is_method_like(&variant), "{variant}");
        assert!(!is_async_node_type(kind), "{kind}");
    }
    for kind in ["", "async", "class", "async_function", "method_signature"] {
        assert_eq!(async_type_of(kind), None);
    }
}

#[test]
fn async_types_are_semantic_where_the_plain_ones_are() {
    for kind in FORMS {
        assert_eq!(is_semantic(kind), is_semantic(&format!("async_{kind}")), "{kind}");
        assert_eq!(is_semantic(kind), kind != "function_expression", "{kind}");
    }
}

#[test]
fn functions_are_method_like_whether_async_or_not() {
    for kind in FORMS {
        assert!(is_method_like(kind), "{kind}");
        assert_eq!(is_method_like(&format!("async_{kind}")), is_method_like(kind), "{kind}");
    }
    assert!(is_method_like("method_signature"));
    assert!(is_method_like("abstract_method_signature"));
    assert!(!is_method_like("class"));
}

#[test]
fn classes_and_interfaces_are_class_like() {
    for name in ["class_declaration", "class", "abstract_class_declaration", "interface_declaration"]
    {
        assert!(is_class_like(name), "{name}");
        assert!(!is_method_like(name), "{name}");
    }
    assert!(!is_class_like("enum_declaration"));
}

#[test]
fn names_and_literals() {
    for name in [
        "identifier",
        "property_identifier",
        "private_property_identifier",
        "shorthand_property_identifier",
        "type_identifier",
        "statement_identifier",
    ] {
        assert!(is_signature_name_leaf(name), "{name}");
        assert!(!is_literal_evidence_leaf(name), "{name}");
    }
    for name in ["string", "string_fragment", "template_string", "number", "regex"] {
        assert!(is_literal_evidence_leaf(name), "{name}");
        assert!(!is_signature_name_leaf(name), "{name}");
    }
    assert!(!is_signature_name_leaf("nested_identifier"));
    assert!(!is_literal_evidence_leaf("true"));
}

#[test]
fn signatures_are_among_the_contexts_for_names() {
    for name in [
        "formal_parameters",
        "required_parameter",
        "optional_parameter",
        "rest_pattern",
        "pair_pattern",
        "object_pattern",
        "array_pattern",
        "type_annotation",
        "type_parameters",
        "type_arguments",
    ] {
        assert!(is_signature_context(name), "{name}");
        assert!(is_review_name_context(name), "{name}");
    }
    for name in [
        "member_expression",
        "call_expression",
        "binary_expression",
        "object",
        "pair",
        "parenthesized_expression",
        "unary_expression",
        "for_in_statement",
        "for_of_statement",
        "lexical_declaration",
        "variable_declaration",
        "variable_declarator",
    ] {
        assert!(!is_signature_context(name), "{name}");
        assert!(is_review_name_context(name), "{name}");
    }
    assert!(!is_review_name_context("function_declaration"));
}
