//! The node types of the JavaScript, TypeScript and TSX grammars, and what they are for.

use vstd::prelude::*;

verus! {

/// The node types of comments, white space and other text without meaning.
pub const TRIVIA: [&'static str; 6] = [
    "comment",
    "line_comment",
    "block_comment",
    "html_comment",
    "whitespace",
    "automatic_semicolon",
];

/// The node types that a semantic tree keeps.
pub const SEMANTIC_TYPES: [&'static str; 120] = [
    // Root
    "program",
    // Functions
    "function_declaration",
    "function",
    "arrow_function",
    "generator_function_declaration",
    "generator_function",
    // `async` functions. Each of their types is listed exactly when the plain one is, so that
    // `async` code keeps the shape of plain code.
    "async_function_declaration",
    "async_function",
    "async_arrow_function",
    "async_generator_function_declaration",
    "async_generator_function",
    "formal_parameters",
    "required_parameter",
    "optional_parameter",
    // Classes
    "class_declaration",
    "class",
    "abstract_class_declaration",
    "method_definition",
    "async_method_definition",
    "field_definition",
    // Variables
    "variable_declaration",
    "lexical_declaration",
    "variable_declarator",
    // Imports and exports
    "import_statement",
    "export_statement",
    "export_default_declaration",
    // Control flow
    "expression_statement",
    "return_statement",
    "if_statement",
    "else_clause",
    "for_statement",
    "for_in_statement",
    "for_of_statement",
    "while_statement",
    "do_statement",
    "try_statement",
    "catch_clause",
    "finally_clause",
    "throw_statement",
    "switch_statement",
    "switch_case",
    "switch_default",
    "break_statement",
    "continue_statement",
    "labeled_statement",
    "with_statement",
    "debugger_statement",
    // Expressions
    "assignment_expression",
    "augmented_assignment_expression",
    "binary_expression",
    "call_expression",
    "member_expression",
    "parenthesized_expression",
    "string",
    "template_string",
    "unary_expression",
    "new_expression",
    "await_expression",
    "yield_expression",
    "ternary_expression",
    // TypeScript declarations
    "interface_declaration",
    "type_alias_declaration",
    "enum_declaration",
    "abstract_method_signature",
    "method_signature",
    "property_signature",
    "index_signature",
    "construct_signature",
    "call_signature",
    "module",
    "namespace_export",
    "import_alias",
    "ambient_declaration",
    // Destructuring and patterns. Identifiers and numbers are not listed: they stay only where
    // they are evidence, as every leaf in the tree would drown what matters.
    "object_pattern",
    "array_pattern",
    "rest_pattern",
    "object",
    "array",
    "spread_element",
    "pair",
    "shorthand_property_identifier",
    // TypeScript type nodes
    "type_annotation",
    "predefined_type",
    "literal_type",
    "union_type",
    "intersection_type",
    "array_type",
    "tuple_type",
    "object_type",
    "function_type",
    "constructor_type",
    "type_query",
    "index_type_query",
    "lookup_type",
    "conditional_type",
    "infer_type",
    "mapped_type_clause",
    "template_literal_type",
    "generic_type",
    "type_parameters",
    "type_arguments",
    "as_expression",
    "satisfies_expression",
    "non_null_expression",
    "type_assertion",
    "readonly_type",
    // Decorators
    "decorator",
    // Resources and static blocks
    "using_declaration",
    "await_using_declaration",
    "class_static_block",
    // JSX
    "jsx_element",
    "jsx_self_closing_element",
    "jsx_opening_element",
    "jsx_closing_element",
    "jsx_attribute",
    "jsx_expression",
    // What imports and exports list
    "import_specifier",
    "namespace_import",
    "named_imports",
    "export_specifier",
];

/// Whether a list of names holds `name`.
pub open spec fn lists(names: Seq<&str>, name: Seq<char>) -> bool {
    exists|i: int| 0 <= i < names.len() && #[trigger] names[i]@ == name
}

/// Whether `names` holds `name`.
fn listed(names: &[&str], name: &str) -> (r: bool)
    ensures
        r == lists(names@, name@),
{
    let mut i: usize = 0;
    while i < names.len()
        invariant
            i <= names.len(),
            forall|j: int| 0 <= j < i ==> #[trigger] names@[j]@ != name@,
        decreases names.len() - i,
    {
        if *names[i] == *name {
            assert(names@[i as int]@ == name@);
            return true;
        }
        i += 1;
    }
    false
}

/// Whether a semantic tree keeps nodes of this type.
pub open spec fn semantic(node_type: Seq<char>) -> bool {
    lists(SEMANTIC_TYPES@, node_type)
}

/// Whether a semantic tree keeps nodes of this type.
pub fn is_semantic(node_type: &str) -> (r: bool)
    ensures
        r == semantic(node_type@),
{
    listed(&SEMANTIC_TYPES, node_type)
}

/// Whether a leaf of this type is a name.
pub open spec fn signature_name_leaf(node_type: Seq<char>) -> bool {
    ||| node_type == "identifier"@
    ||| node_type == "property_identifier"@
    ||| node_type == "private_property_identifier"@
    ||| node_type == "shorthand_property_identifier"@
    ||| node_type == "type_identifier"@
    ||| node_type == "statement_identifier"@
}

/// Whether a leaf of this type is a name.
pub fn is_signature_name_leaf(node_type: &str) -> (r: bool)
    ensures
        r == signature_name_leaf(node_type@),
{
    *node_type == *"identifier"
        || *node_type == *"property_identifier"
        || *node_type == *"private_property_identifier"
        || *node_type == *"shorthand_property_identifier"
        || *node_type == *"type_identifier"
        || *node_type == *"statement_identifier"
}

/// Whether a leaf of this type is a literal, or a piece of one.
pub open spec fn literal_evidence_leaf(node_type: Seq<char>) -> bool {
    ||| node_type == "string"@
    ||| node_type == "string_fragment"@
    ||| node_type == "template_string"@
    ||| node_type == "number"@
    ||| node_type == "regex"@
}

/// Whether a leaf of this type is a literal, or a piece of one.
pub fn is_literal_evidence_leaf(node_type: &str) -> (r: bool)
    ensures
        r == literal_evidence_leaf(node_type@),
{
    *node_type == *"string"
        || *node_type == *"string_fragment"
        || *node_type == *"template_string"
        || *node_type == *"number"
        || *node_type == *"regex"
}

/// Whether a node of this type belongs to a signature: parameters, patterns, types.
pub open spec fn signature_context(node_type: Seq<char>) -> bool {
    ||| node_type == "formal_parameters"@
    ||| node_type == "required_parameter"@
    ||| node_type == "optional_parameter"@
    ||| node_type == "rest_pattern"@
    ||| node_type == "pair_pattern"@
    ||| node_type == "object_pattern"@
    ||| node_type == "array_pattern"@
    ||| node_type == "type_annotation"@
    ||| node_type == "type_parameters"@
    ||| node_type == "type_arguments"@
}

/// Whether a node of this type belongs to a signature: parameters, patterns, types.
pub fn is_signature_context(node_type: &str) -> (r: bool)
    ensures
        r == signature_context(node_type@),
{
    *node_type == *"formal_parameters"
        || *node_type == *"required_parameter"
        || *node_type == *"optional_parameter"
        || *node_type == *"rest_pattern"
        || *node_type == *"pair_pattern"
        || *node_type == *"object_pattern"
        || *node_type == *"array_pattern"
        || *node_type == *"type_annotation"
        || *node_type == *"type_parameters"
        || *node_type == *"type_arguments"
}

/// Whether the names under a node of this type are worth showing in a comparison.
pub open spec fn review_name_context(node_type: Seq<char>) -> bool {
    ||| signature_context(node_type)
    ||| node_type == "member_expression"@
    ||| node_type == "call_expression"@
    ||| node_type == "binary_expression"@
    ||| node_type == "object"@
    ||| node_type == "pair"@
    ||| node_type == "parenthesized_expression"@
    ||| node_type == "unary_expression"@
    ||| node_type == "for_in_statement"@
    ||| node_type == "for_of_statement"@
    ||| node_type == "lexical_declaration"@
    ||| node_type == "variable_declaration"@
    ||| node_type == "variable_declarator"@
}

/// Whether the names under a node of this type are worth showing in a comparison.
pub fn is_review_name_context(node_type: &str) -> (r: bool)
    ensures
        r == review_name_context(node_type@),
{
    is_signature_context(node_type)
        || *node_type == *"member_expression"
        || *node_type == *"call_expression"
        || *node_type == *"binary_expression"
        || *node_type == *"object"
        || *node_type == *"pair"
        || *node_type == *"parenthesized_expression"
        || *node_type == *"unary_expression"
        || *node_type == *"for_in_statement"
        || *node_type == *"for_of_statement"
        || *node_type == *"lexical_declaration"
        || *node_type == *"variable_declaration"
        || *node_type == *"variable_declarator"
}

/// Whether a node of this type encloses members, as a class does.
pub open spec fn class_like(node_type: Seq<char>) -> bool {
    ||| node_type == "class_declaration"@
    ||| node_type == "class"@
    ||| node_type == "abstract_class_declaration"@
    ||| node_type == "interface_declaration"@
}

/// Whether a node of this type encloses members, as a class does.
pub fn is_class_like(node_type: &str) -> (r: bool)
    ensures
        r == class_like(node_type@),
{
    *node_type == *"class_declaration"
        || *node_type == *"class"
        || *node_type == *"abstract_class_declaration"
        || *node_type == *"interface_declaration"
}

/// Whether a node of this type is a function or a method, `async` or not.
pub open spec fn method_like(node_type: Seq<char>) -> bool {
    ||| node_type == "function_declaration"@
    ||| node_type == "function"@
    ||| node_type == "function_expression"@
    ||| node_type == "arrow_function"@
    ||| node_type == "generator_function_declaration"@
    ||| node_type == "generator_function"@
    ||| node_type == "method_definition"@
    ||| node_type == "method_signature"@
    ||| node_type == "abstract_method_signature"@
    ||| async_type(node_type)
}

/// Whether a node of this type is a function or a method, `async` or not.
pub fn is_method_like(node_type: &str) -> (r: bool)
    ensures
        r == method_like(node_type@),
{
    *node_type == *"function_declaration"
        || *node_type == *"function"
        || *node_type == *"function_expression"
        || *node_type == *"arrow_function"
        || *node_type == *"generator_function_declaration"
        || *node_type == *"generator_function"
        || *node_type == *"method_definition"
        || *node_type == *"method_signature"
        || *node_type == *"abstract_method_signature"
        || is_async_node_type(node_type)
}

/// Whether this is the type of an `async` function or method.
pub open spec fn async_type(node_type: Seq<char>) -> bool {
    ||| node_type == "async_function_declaration"@
    ||| node_type == "async_function"@
    ||| node_type == "async_function_expression"@
    ||| node_type == "async_arrow_function"@
    ||| node_type == "async_generator_function_declaration"@
    ||| node_type == "async_generator_function"@
    ||| node_type == "async_method_definition"@
}

/// Whether this is the type of an `async` function or method.
pub fn is_async_node_type(node_type: &str) -> (r: bool)
    ensures
        r == async_type(node_type@),
{
    *node_type == *"async_function_declaration"
        || *node_type == *"async_function"
        || *node_type == *"async_function_expression"
        || *node_type == *"async_arrow_function"
        || *node_type == *"async_generator_function_declaration"
        || *node_type == *"async_generator_function"
        || *node_type == *"async_method_definition"
}

/// Whether this is a node type of the grammars for a function or a method, which an
/// `async` keyword may precede.
pub open spec fn function_form(kind: Seq<char>) -> bool {
    ||| kind == "function_declaration"@
    ||| kind == "function"@
    ||| kind == "function_expression"@
    ||| kind == "arrow_function"@
    ||| kind == "generator_function_declaration"@
    ||| kind == "generator_function"@
    ||| kind == "method_definition"@
}

/// The node type that sets an `async` function or method apart from a plain one.
pub open spec fn async_type_for(kind: Seq<char>) -> Option<Seq<char>> {
    if function_form(kind) {
        Some("async_"@ + kind)
    } else {
        None
    }
}

/// The node type that sets an `async` function or method of this kind apart from a
/// plain one; none where the kind is no function form.
pub fn async_type_of(kind: &str) -> (r: Option<&'static str>)
    ensures
        r is Some <==> function_form(kind@),
        r matches Some(t) ==> async_type_for(kind@) == Some(t@),
{
    proof {
        async_names();
    }
    if *kind == *"function_declaration" {
        Some("async_function_declaration")
    } else if *kind == *"function" {
        Some("async_function")
    } else if *kind == *"function_expression" {
        Some("async_function_expression")
    } else if *kind == *"arrow_function" {
        Some("async_arrow_function")
    } else if *kind == *"generator_function_declaration" {
        Some("async_generator_function_declaration")
    } else if *kind == *"generator_function" {
        Some("async_generator_function")
    } else if *kind == *"method_definition" {
        Some("async_method_definition")
    } else {
        None
    }
}

/// Each `async` type is the plain type behind a prefix.
pub proof fn async_names()
    ensures
        "async_function_declaration"@ == "async_"@ + "function_declaration"@,
        "async_function"@ == "async_"@ + "function"@,
        "async_function_expression"@ == "async_"@ + "function_expression"@,
        "async_arrow_function"@ == "async_"@ + "arrow_function"@,
        "async_generator_function_declaration"@ == "async_"@ + "generator_function_declaration"@,
        "async_generator_function"@ == "async_"@ + "generator_function"@,
        "async_method_definition"@ == "async_"@ + "method_definition"@,
{
    reveal_strlit("async_");
    reveal_strlit("function_declaration");
    reveal_strlit("async_function_declaration");
    reveal_strlit("function");
    reveal_strlit("async_function");
    reveal_strlit("function_expression");
    reveal_strlit("async_function_expression");
    reveal_strlit("arrow_function");
    reveal_strlit("async_arrow_function");
    reveal_strlit("generator_function_declaration");
    reveal_strlit("async_generator_function_declaration");
    reveal_strlit("generator_function");
    reveal_strlit("async_generator_function");
    reveal_strlit("method_definition");
    reveal_strlit("async_method_definition");
    assert("async_function_declaration"@ =~= "async_"@ + "function_declaration"@);
    assert("async_function"@ =~= "async_"@ + "function"@);
    assert("async_function_expression"@ =~= "async_"@ + "function_expression"@);
    assert("async_arrow_function"@ =~= "async_"@ + "arrow_function"@);
    assert("async_generator_function_declaration"@ =~= "async_"@ + "generator_function_declaration"@);
    assert("async_generator_function"@ =~= "async_"@ + "generator_function"@);
    assert("async_method_definition"@ =~= "async_"@ + "method_definition"@);
}

} // verus!
