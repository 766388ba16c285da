//! What holds of the node types as a whole.

use vstd::prelude::*;

use crate::label::{export, exported, member, names_node, quoted, resource};
use crate::vocabulary::{
    async_names, async_type, async_type_for, class_like, function_form, literal_evidence_leaf,
    method_like, review_name_context, semantic, signature_context, signature_name_leaf,
    SEMANTIC_TYPES, TRIVIA,
};

verus! {

/// The `async` types are those that are given to `async` functions and methods, and no others.
pub proof fn async_types_are_those_given(node_type: Seq<char>)
    ensures
        async_type(node_type) <==> exists|kind: Seq<char>| #[trigger]
            async_type_for(kind) == Some(node_type),
{
    async_names();
    if async_type(node_type) {
        let kind = plain_type(node_type);
        assert(async_type_for(kind) == Some(node_type));
    }
}

/// The type of the plain function or method that an `async` type stands for.
spec fn plain_type(node_type: Seq<char>) -> Seq<char> {
    if node_type == "async_function_declaration"@ {
        "function_declaration"@
    } else if node_type == "async_function"@ {
        "function"@
    } else if node_type == "async_function_expression"@ {
        "function_expression"@
    } else if node_type == "async_arrow_function"@ {
        "arrow_function"@
    } else if node_type == "async_generator_function_declaration"@ {
        "generator_function_declaration"@
    } else if node_type == "async_generator_function"@ {
        "generator_function"@
    } else {
        "method_definition"@
    }
}

/// An `async` type belongs to one kind of function or method, is not that kind, and is the
/// type of no plain function or method.
pub proof fn async_types_are_distinct(kind: Seq<char>, other: Seq<char>)
    requires
        function_form(kind),
        function_form(other),
    ensures
        async_type_for(kind) == async_type_for(other) ==> kind == other,
        async_type_for(kind) != Some(other),
{
    async_names();
    assert(("async_"@ + kind).skip(6) =~= kind) by {
        reveal_strlit("async_");
    }
    assert(("async_"@ + other).skip(6) =~= other) by {
        reveal_strlit("async_");
    }
    reveal_strlit("async_");
    reveal_strlit("function_declaration");
    reveal_strlit("function");
    reveal_strlit("function_expression");
    reveal_strlit("arrow_function");
    reveal_strlit("generator_function_declaration");
    reveal_strlit("generator_function");
    reveal_strlit("method_definition");
    assert(("async_"@ + kind)[3] == 'n');
    assert(("async_"@ + kind)[4] == 'c');
    assert(("async_"@ + kind)[5] == '_');
}

/// A semantic tree keeps `async` functions and methods of a kind exactly where it keeps the
/// plain ones.
pub proof fn async_types_are_semantic_alike(kind: Seq<char>)
    requires
        function_form(kind),
    ensures
        semantic("async_"@ + kind) == semantic(kind),
{
    async_names();
    function_expressions_are_not_semantic();
    assert(SEMANTIC_TYPES@[1]@ == "function_declaration"@);
    assert(SEMANTIC_TYPES@[6]@ == "async_function_declaration"@);
    assert(SEMANTIC_TYPES@[2]@ == "function"@);
    assert(SEMANTIC_TYPES@[7]@ == "async_function"@);
    assert(SEMANTIC_TYPES@[3]@ == "arrow_function"@);
    assert(SEMANTIC_TYPES@[8]@ == "async_arrow_function"@);
    assert(SEMANTIC_TYPES@[4]@ == "generator_function_declaration"@);
    assert(SEMANTIC_TYPES@[9]@ == "async_generator_function_declaration"@);
    assert(SEMANTIC_TYPES@[5]@ == "generator_function"@);
    assert(SEMANTIC_TYPES@[10]@ == "async_generator_function"@);
    assert(SEMANTIC_TYPES@[17]@ == "method_definition"@);
    assert(SEMANTIC_TYPES@[18]@ == "async_method_definition"@);
}

/// A semantic tree keeps functions and methods of every kind but function expressions, and it
/// keeps the parameters of all of them, which are of no function form.
pub proof fn functions_are_semantic(kind: Seq<char>)
    requires
        function_form(kind),
    ensures
        kind != "function_expression"@ ==> semantic(kind),
        semantic("formal_parameters"@),
        !function_form("formal_parameters"@),
{
    assert(SEMANTIC_TYPES@[1]@ == "function_declaration"@);
    assert(SEMANTIC_TYPES@[2]@ == "function"@);
    assert(SEMANTIC_TYPES@[3]@ == "arrow_function"@);
    assert(SEMANTIC_TYPES@[4]@ == "generator_function_declaration"@);
    assert(SEMANTIC_TYPES@[5]@ == "generator_function"@);
    assert(SEMANTIC_TYPES@[17]@ == "method_definition"@);
    assert(SEMANTIC_TYPES@[11]@ == "formal_parameters"@);
    reveal_strlit("function_declaration");
    assert("function_declaration"@.len() == 20);
    reveal_strlit("function");
    assert("function"@.len() == 8);
    reveal_strlit("function_expression");
    assert("function_expression"@.len() == 19);
    reveal_strlit("arrow_function");
    assert("arrow_function"@.len() == 14);
    reveal_strlit("generator_function_declaration");
    assert("generator_function_declaration"@.len() == 30);
    reveal_strlit("generator_function");
    assert("generator_function"@.len() == 18);
    reveal_strlit("method_definition");
    assert("method_definition"@.len() == 17);
    reveal_strlit("formal_parameters");
    assert("formal_parameters"@.len() == 17);
    assert("method_definition"@[0] != "formal_parameters"@[0]);
}

/// Function expressions stay in a semantic tree only for what stands under them.
pub proof fn function_expressions_are_not_semantic()
    ensures
        !semantic("function_expression"@),
        !semantic("async_function_expression"@),
{
    reveal_strlit("function_expression");
    reveal_strlit("async_function_expression");
    assert("function_expression"@.len() == 19 && "function_expression"@[0] == 'f');
    assert("async_function_expression"@.len() == 25 && "async_function_expression"@[1] == 's');
    reveal_strlit("program");
    reveal_strlit("function_declaration");
    reveal_strlit("function");
    reveal_strlit("arrow_function");
    reveal_strlit("generator_function_declaration");
    reveal_strlit("generator_function");
    reveal_strlit("async_function_declaration");
    reveal_strlit("async_function");
    reveal_strlit("async_arrow_function");
    reveal_strlit("async_generator_function_declaration");
    reveal_strlit("async_generator_function");
    reveal_strlit("formal_parameters");
    reveal_strlit("required_parameter");
    reveal_strlit("optional_parameter");
    reveal_strlit("class_declaration");
    reveal_strlit("class");
    reveal_strlit("abstract_class_declaration");
    reveal_strlit("method_definition");
    reveal_strlit("async_method_definition");
    reveal_strlit("field_definition");
    reveal_strlit("variable_declaration");
    reveal_strlit("lexical_declaration");
    reveal_strlit("variable_declarator");
    reveal_strlit("import_statement");
    reveal_strlit("export_statement");
    reveal_strlit("export_default_declaration");
    reveal_strlit("expression_statement");
    reveal_strlit("return_statement");
    reveal_strlit("if_statement");
    reveal_strlit("else_clause");
    reveal_strlit("for_statement");
    reveal_strlit("for_in_statement");
    reveal_strlit("for_of_statement");
    reveal_strlit("while_statement");
    reveal_strlit("do_statement");
    reveal_strlit("try_statement");
    reveal_strlit("catch_clause");
    reveal_strlit("finally_clause");
    reveal_strlit("throw_statement");
    reveal_strlit("switch_statement");
    reveal_strlit("switch_case");
    reveal_strlit("switch_default");
    reveal_strlit("break_statement");
    reveal_strlit("continue_statement");
    reveal_strlit("labeled_statement");
    reveal_strlit("with_statement");
    reveal_strlit("debugger_statement");
    reveal_strlit("assignment_expression");
    reveal_strlit("augmented_assignment_expression");
    reveal_strlit("binary_expression");
    reveal_strlit("call_expression");
    reveal_strlit("member_expression");
    reveal_strlit("parenthesized_expression");
    reveal_strlit("string");
    reveal_strlit("template_string");
    reveal_strlit("unary_expression");
    reveal_strlit("new_expression");
    reveal_strlit("await_expression");
    reveal_strlit("yield_expression");
    reveal_strlit("ternary_expression");
    reveal_strlit("interface_declaration");
    reveal_strlit("type_alias_declaration");
    reveal_strlit("enum_declaration");
    reveal_strlit("abstract_method_signature");
    reveal_strlit("method_signature");
    reveal_strlit("property_signature");
    reveal_strlit("index_signature");
    reveal_strlit("construct_signature");
    reveal_strlit("call_signature");
    reveal_strlit("module");
    reveal_strlit("namespace_export");
    reveal_strlit("import_alias");
    reveal_strlit("ambient_declaration");
    reveal_strlit("object_pattern");
    reveal_strlit("array_pattern");
    reveal_strlit("rest_pattern");
    reveal_strlit("object");
    reveal_strlit("array");
    reveal_strlit("spread_element");
    reveal_strlit("pair");
    reveal_strlit("shorthand_property_identifier");
    reveal_strlit("type_annotation");
    reveal_strlit("predefined_type");
    reveal_strlit("literal_type");
    reveal_strlit("union_type");
    reveal_strlit("intersection_type");
    reveal_strlit("array_type");
    reveal_strlit("tuple_type");
    reveal_strlit("object_type");
    reveal_strlit("function_type");
    reveal_strlit("constructor_type");
    reveal_strlit("type_query");
    reveal_strlit("index_type_query");
    reveal_strlit("lookup_type");
    reveal_strlit("conditional_type");
    reveal_strlit("infer_type");
    reveal_strlit("mapped_type_clause");
    reveal_strlit("template_literal_type");
    reveal_strlit("generic_type");
    reveal_strlit("type_parameters");
    reveal_strlit("type_arguments");
    reveal_strlit("as_expression");
    reveal_strlit("satisfies_expression");
    reveal_strlit("non_null_expression");
    reveal_strlit("type_assertion");
    reveal_strlit("readonly_type");
    reveal_strlit("decorator");
    reveal_strlit("using_declaration");
    reveal_strlit("await_using_declaration");
    reveal_strlit("class_static_block");
    reveal_strlit("jsx_element");
    reveal_strlit("jsx_self_closing_element");
    reveal_strlit("jsx_opening_element");
    reveal_strlit("jsx_closing_element");
    reveal_strlit("jsx_attribute");
    reveal_strlit("jsx_expression");
    reveal_strlit("import_specifier");
    reveal_strlit("namespace_import");
    reveal_strlit("named_imports");
    reveal_strlit("export_specifier");
    assert forall|i: int| 0 <= i < SEMANTIC_TYPES@.len() implies #[trigger] SEMANTIC_TYPES@[i]@
        != "function_expression"@ && SEMANTIC_TYPES@[i]@ != "async_function_expression"@ by {
        assert(
            i == 0 || i == 1 || i == 2 || i == 3 || i == 4 || i == 5 || i == 6 || i == 7 || i == 8 || i == 9 || i == 10 || i == 11
            || i == 12 || i == 13 || i == 14 || i == 15 || i == 16 || i == 17 || i == 18 || i == 19 || i == 20 || i == 21 || i == 22 || i == 23
            || i == 24 || i == 25 || i == 26 || i == 27 || i == 28 || i == 29 || i == 30 || i == 31 || i == 32 || i == 33 || i == 34 || i == 35
            || i == 36 || i == 37 || i == 38 || i == 39 || i == 40 || i == 41 || i == 42 || i == 43 || i == 44 || i == 45 || i == 46 || i == 47
            || i == 48 || i == 49 || i == 50 || i == 51 || i == 52 || i == 53 || i == 54 || i == 55 || i == 56 || i == 57 || i == 58 || i == 59
            || i == 60 || i == 61 || i == 62 || i == 63 || i == 64 || i == 65 || i == 66 || i == 67 || i == 68 || i == 69 || i == 70 || i == 71
            || i == 72 || i == 73 || i == 74 || i == 75 || i == 76 || i == 77 || i == 78 || i == 79 || i == 80 || i == 81 || i == 82 || i == 83
            || i == 84 || i == 85 || i == 86 || i == 87 || i == 88 || i == 89 || i == 90 || i == 91 || i == 92 || i == 93 || i == 94 || i == 95
            || i == 96 || i == 97 || i == 98 || i == 99 || i == 100 || i == 101 || i == 102 || i == 103 || i == 104 || i == 105 || i == 106 || i == 107
            || i == 108 || i == 109 || i == 110 || i == 111 || i == 112 || i == 113 || i == 114 || i == 115 || i == 116 || i == 117 || i == 118 || i == 119
        );
        assert(SEMANTIC_TYPES@[i]@.len() == 19 ==> SEMANTIC_TYPES@[i]@[0] != 'f');
        assert(SEMANTIC_TYPES@[i]@.len() == 25 ==> SEMANTIC_TYPES@[i]@[1] != 's');
    }
}

/// Every question about a node type has the same answer for `async` functions and methods of a
/// kind as for plain ones: what is a function or a method, what encloses members, what a context
/// shows, where a label comes from.
pub proof fn questions_are_answered_alike(kind: Seq<char>, child_type: Seq<char>)
    requires
        function_form(kind),
    ensures
        !class_like("async_"@ + kind) && !class_like(kind),
        signature_name_leaf("async_"@ + kind) == signature_name_leaf(kind),
        literal_evidence_leaf("async_"@ + kind) == literal_evidence_leaf(kind),
        signature_context("async_"@ + kind) == signature_context(kind),
        review_name_context("async_"@ + kind) == review_name_context(kind),
        method_like("async_"@ + kind) == method_like(kind),
        method_like(kind),
        exported("async_"@ + kind) == exported(kind),
        member("async_"@ + kind) == member(kind),
        names_node("async_"@ + kind, child_type) == names_node(kind, child_type),
        label_rule_is_names(kind),
        label_rule_is_names("async_"@ + kind),
{
    async_names();
    reveal_strlit("function_declaration");
    assert("function_declaration"@.len() == 20);
    reveal_strlit("function");
    assert("function"@.len() == 8);
    reveal_strlit("function_expression");
    assert("function_expression"@.len() == 19);
    reveal_strlit("arrow_function");
    assert("arrow_function"@.len() == 14);
    reveal_strlit("generator_function_declaration");
    assert("generator_function_declaration"@.len() == 30);
    reveal_strlit("generator_function");
    assert("generator_function"@.len() == 18);
    reveal_strlit("method_definition");
    assert("method_definition"@.len() == 17);
    reveal_strlit("async_function_declaration");
    assert("async_function_declaration"@.len() == 26);
    reveal_strlit("async_function");
    assert("async_function"@.len() == 14);
    reveal_strlit("async_function_expression");
    assert("async_function_expression"@.len() == 25);
    reveal_strlit("async_arrow_function");
    assert("async_arrow_function"@.len() == 20);
    reveal_strlit("async_generator_function_declaration");
    assert("async_generator_function_declaration"@.len() == 36);
    reveal_strlit("async_generator_function");
    assert("async_generator_function"@.len() == 24);
    reveal_strlit("async_method_definition");
    assert("async_method_definition"@.len() == 23);
    reveal_strlit("class_declaration");
    assert("class_declaration"@.len() == 17);
    reveal_strlit("class");
    assert("class"@.len() == 5);
    reveal_strlit("abstract_class_declaration");
    assert("abstract_class_declaration"@.len() == 26);
    reveal_strlit("interface_declaration");
    assert("interface_declaration"@.len() == 21);
    reveal_strlit("identifier");
    assert("identifier"@.len() == 10);
    reveal_strlit("property_identifier");
    assert("property_identifier"@.len() == 19);
    reveal_strlit("private_property_identifier");
    assert("private_property_identifier"@.len() == 27);
    reveal_strlit("shorthand_property_identifier");
    assert("shorthand_property_identifier"@.len() == 29);
    reveal_strlit("type_identifier");
    assert("type_identifier"@.len() == 15);
    reveal_strlit("statement_identifier");
    assert("statement_identifier"@.len() == 20);
    reveal_strlit("string");
    assert("string"@.len() == 6);
    reveal_strlit("string_fragment");
    assert("string_fragment"@.len() == 15);
    reveal_strlit("template_string");
    assert("template_string"@.len() == 15);
    reveal_strlit("number");
    assert("number"@.len() == 6);
    reveal_strlit("regex");
    assert("regex"@.len() == 5);
    reveal_strlit("formal_parameters");
    assert("formal_parameters"@.len() == 17);
    reveal_strlit("required_parameter");
    assert("required_parameter"@.len() == 18);
    reveal_strlit("optional_parameter");
    assert("optional_parameter"@.len() == 18);
    reveal_strlit("rest_pattern");
    assert("rest_pattern"@.len() == 12);
    reveal_strlit("pair_pattern");
    assert("pair_pattern"@.len() == 12);
    reveal_strlit("object_pattern");
    assert("object_pattern"@.len() == 14);
    reveal_strlit("array_pattern");
    assert("array_pattern"@.len() == 13);
    reveal_strlit("type_annotation");
    assert("type_annotation"@.len() == 15);
    reveal_strlit("type_parameters");
    assert("type_parameters"@.len() == 15);
    reveal_strlit("type_arguments");
    assert("type_arguments"@.len() == 14);
    reveal_strlit("member_expression");
    assert("member_expression"@.len() == 17);
    reveal_strlit("call_expression");
    assert("call_expression"@.len() == 15);
    reveal_strlit("binary_expression");
    assert("binary_expression"@.len() == 17);
    reveal_strlit("object");
    assert("object"@.len() == 6);
    reveal_strlit("pair");
    assert("pair"@.len() == 4);
    reveal_strlit("parenthesized_expression");
    assert("parenthesized_expression"@.len() == 24);
    reveal_strlit("unary_expression");
    assert("unary_expression"@.len() == 16);
    reveal_strlit("for_in_statement");
    assert("for_in_statement"@.len() == 16);
    reveal_strlit("for_of_statement");
    assert("for_of_statement"@.len() == 16);
    reveal_strlit("lexical_declaration");
    assert("lexical_declaration"@.len() == 19);
    reveal_strlit("variable_declaration");
    assert("variable_declaration"@.len() == 20);
    reveal_strlit("variable_declarator");
    assert("variable_declarator"@.len() == 19);
    reveal_strlit("method_signature");
    assert("method_signature"@.len() == 16);
    reveal_strlit("abstract_method_signature");
    assert("abstract_method_signature"@.len() == 25);
    reveal_strlit("type_alias_declaration");
    assert("type_alias_declaration"@.len() == 22);
    reveal_strlit("enum_declaration");
    assert("enum_declaration"@.len() == 16);
    reveal_strlit("module");
    assert("module"@.len() == 6);
    reveal_strlit("field_definition");
    assert("field_definition"@.len() == 16);
    reveal_strlit("property_signature");
    assert("property_signature"@.len() == 18);
    reveal_strlit("import_specifier");
    assert("import_specifier"@.len() == 16);
    reveal_strlit("export_specifier");
    assert("export_specifier"@.len() == 16);
    reveal_strlit("namespace_import");
    assert("namespace_import"@.len() == 16);
    reveal_strlit("jsx_opening_element");
    assert("jsx_opening_element"@.len() == 19);
    reveal_strlit("jsx_self_closing_element");
    assert("jsx_self_closing_element"@.len() == 24);
    reveal_strlit("export_statement");
    assert("export_statement"@.len() == 16);
    reveal_strlit("export_default_declaration");
    assert("export_default_declaration"@.len() == 26);
    reveal_strlit("using_declaration");
    assert("using_declaration"@.len() == 17);
    reveal_strlit("await_using_declaration");
    assert("await_using_declaration"@.len() == 23);
    reveal_strlit("import_statement");
    assert("import_statement"@.len() == 16);
    reveal_strlit("decorator");
    assert("decorator"@.len() == 9);
    assert("function_declaration"@[0] != "async_arrow_function"@[0]);
    assert("function_declaration"@[0] != "statement_identifier"@[0]);
    assert("function_declaration"@[0] != "variable_declaration"@[0]);
    assert("function_expression"@[0] != "property_identifier"@[0]);
    assert("function_expression"@[0] != "lexical_declaration"@[0]);
    assert("function_expression"@[0] != "variable_declarator"@[0]);
    assert("function_expression"@[0] != "jsx_opening_element"@[0]);
    assert("arrow_function"@[1] != "async_function"@[1]);
    assert("arrow_function"@[0] != "object_pattern"@[0]);
    assert("arrow_function"@[0] != "type_arguments"@[0]);
    assert("generator_function"@[0] != "required_parameter"@[0]);
    assert("generator_function"@[0] != "optional_parameter"@[0]);
    assert("generator_function"@[0] != "property_signature"@[0]);
    assert("method_definition"@[0] != "class_declaration"@[0]);
    assert("method_definition"@[0] != "formal_parameters"@[0]);
    assert("method_definition"@[2] != "member_expression"@[2]);
    assert("method_definition"@[0] != "binary_expression"@[0]);
    assert("method_definition"@[0] != "using_declaration"@[0]);
    assert("async_function_declaration"@[1] != "abstract_class_declaration"@[1]);
    assert("async_function_declaration"@[0] != "export_default_declaration"@[0]);
    assert("async_function"@[0] != "object_pattern"@[0]);
    assert("async_function"@[0] != "type_arguments"@[0]);
    assert("async_function_expression"@[1] != "abstract_method_signature"@[1]);
    assert("async_arrow_function"@[0] != "statement_identifier"@[0]);
    assert("async_arrow_function"@[0] != "variable_declaration"@[0]);
    assert("async_generator_function"@[0] != "parenthesized_expression"@[0]);
    assert("async_generator_function"@[0] != "jsx_self_closing_element"@[0]);
    assert("async_method_definition"@[1] != "await_using_declaration"@[1]);
}

/// Whether a node of this type is called by one of its children, where it is called by any.
pub open spec fn label_rule_is_names(node_type: Seq<char>) -> bool {
    &&& !quoted(node_type)
    &&& node_type != "member_expression"@
    &&& node_type != "formal_parameters"@
    &&& !export(node_type)
    &&& node_type != "decorator"@
    &&& !resource(node_type)
}

/// The semantic types, written out.
pub proof fn semantic_types_are_these(node_type: Seq<char>)
    ensures
        semantic(node_type) <==> ({
            ||| node_type == "program"@
            ||| node_type == "function_declaration"@
            ||| node_type == "function"@
            ||| node_type == "arrow_function"@
            ||| node_type == "generator_function_declaration"@
            ||| node_type == "generator_function"@
            ||| node_type == "async_function_declaration"@
            ||| node_type == "async_function"@
            ||| node_type == "async_arrow_function"@
            ||| node_type == "async_generator_function_declaration"@
            ||| node_type == "async_generator_function"@
            ||| node_type == "formal_parameters"@
            ||| node_type == "required_parameter"@
            ||| node_type == "optional_parameter"@
            ||| node_type == "class_declaration"@
            ||| node_type == "class"@
            ||| node_type == "abstract_class_declaration"@
            ||| node_type == "method_definition"@
            ||| node_type == "async_method_definition"@
            ||| node_type == "field_definition"@
            ||| node_type == "variable_declaration"@
            ||| node_type == "lexical_declaration"@
            ||| node_type == "variable_declarator"@
            ||| node_type == "import_statement"@
            ||| node_type == "export_statement"@
            ||| node_type == "export_default_declaration"@
            ||| node_type == "expression_statement"@
            ||| node_type == "return_statement"@
            ||| node_type == "if_statement"@
            ||| node_type == "else_clause"@
            ||| node_type == "for_statement"@
            ||| node_type == "for_in_statement"@
            ||| node_type == "for_of_statement"@
            ||| node_type == "while_statement"@
            ||| node_type == "do_statement"@
            ||| node_type == "try_statement"@
            ||| node_type == "catch_clause"@
            ||| node_type == "finally_clause"@
            ||| node_type == "throw_statement"@
            ||| node_type == "switch_statement"@
            ||| node_type == "switch_case"@
            ||| node_type == "switch_default"@
            ||| node_type == "break_statement"@
            ||| node_type == "continue_statement"@
            ||| node_type == "labeled_statement"@
            ||| node_type == "with_statement"@
            ||| node_type == "debugger_statement"@
            ||| node_type == "assignment_expression"@
            ||| node_type == "augmented_assignment_expression"@
            ||| node_type == "binary_expression"@
            ||| node_type == "call_expression"@
            ||| node_type == "member_expression"@
            ||| node_type == "parenthesized_expression"@
            ||| node_type == "string"@
            ||| node_type == "template_string"@
            ||| node_type == "unary_expression"@
            ||| node_type == "new_expression"@
            ||| node_type == "await_expression"@
            ||| node_type == "yield_expression"@
            ||| node_type == "ternary_expression"@
            ||| node_type == "interface_declaration"@
            ||| node_type == "type_alias_declaration"@
            ||| node_type == "enum_declaration"@
            ||| node_type == "abstract_method_signature"@
            ||| node_type == "method_signature"@
            ||| node_type == "property_signature"@
            ||| node_type == "index_signature"@
            ||| node_type == "construct_signature"@
            ||| node_type == "call_signature"@
            ||| node_type == "module"@
            ||| node_type == "namespace_export"@
            ||| node_type == "import_alias"@
            ||| node_type == "ambient_declaration"@
            ||| node_type == "object_pattern"@
            ||| node_type == "array_pattern"@
            ||| node_type == "rest_pattern"@
            ||| node_type == "object"@
            ||| node_type == "array"@
            ||| node_type == "spread_element"@
            ||| node_type == "pair"@
            ||| node_type == "shorthand_property_identifier"@
            ||| node_type == "type_annotation"@
            ||| node_type == "predefined_type"@
            ||| node_type == "literal_type"@
            ||| node_type == "union_type"@
            ||| node_type == "intersection_type"@
            ||| node_type == "array_type"@
            ||| node_type == "tuple_type"@
            ||| node_type == "object_type"@
            ||| node_type == "function_type"@
            ||| node_type == "constructor_type"@
            ||| node_type == "type_query"@
            ||| node_type == "index_type_query"@
            ||| node_type == "lookup_type"@
            ||| node_type == "conditional_type"@
            ||| node_type == "infer_type"@
            ||| node_type == "mapped_type_clause"@
            ||| node_type == "template_literal_type"@
            ||| node_type == "generic_type"@
            ||| node_type == "type_parameters"@
            ||| node_type == "type_arguments"@
            ||| node_type == "as_expression"@
            ||| node_type == "satisfies_expression"@
            ||| node_type == "non_null_expression"@
            ||| node_type == "type_assertion"@
            ||| node_type == "readonly_type"@
            ||| node_type == "decorator"@
            ||| node_type == "using_declaration"@
            ||| node_type == "await_using_declaration"@
            ||| node_type == "class_static_block"@
            ||| node_type == "jsx_element"@
            ||| node_type == "jsx_self_closing_element"@
            ||| node_type == "jsx_opening_element"@
            ||| node_type == "jsx_closing_element"@
            ||| node_type == "jsx_attribute"@
            ||| node_type == "jsx_expression"@
            ||| node_type == "import_specifier"@
            ||| node_type == "namespace_import"@
            ||| node_type == "named_imports"@
            ||| node_type == "export_specifier"@
        }),
{
    assert(SEMANTIC_TYPES@[0]@ == "program"@);
    assert(SEMANTIC_TYPES@[1]@ == "function_declaration"@);
    assert(SEMANTIC_TYPES@[2]@ == "function"@);
    assert(SEMANTIC_TYPES@[3]@ == "arrow_function"@);
    assert(SEMANTIC_TYPES@[4]@ == "generator_function_declaration"@);
    assert(SEMANTIC_TYPES@[5]@ == "generator_function"@);
    assert(SEMANTIC_TYPES@[6]@ == "async_function_declaration"@);
    assert(SEMANTIC_TYPES@[7]@ == "async_function"@);
    assert(SEMANTIC_TYPES@[8]@ == "async_arrow_function"@);
    assert(SEMANTIC_TYPES@[9]@ == "async_generator_function_declaration"@);
    assert(SEMANTIC_TYPES@[10]@ == "async_generator_function"@);
    assert(SEMANTIC_TYPES@[11]@ == "formal_parameters"@);
    assert(SEMANTIC_TYPES@[12]@ == "required_parameter"@);
    assert(SEMANTIC_TYPES@[13]@ == "optional_parameter"@);
    assert(SEMANTIC_TYPES@[14]@ == "class_declaration"@);
    assert(SEMANTIC_TYPES@[15]@ == "class"@);
    assert(SEMANTIC_TYPES@[16]@ == "abstract_class_declaration"@);
    assert(SEMANTIC_TYPES@[17]@ == "method_definition"@);
    assert(SEMANTIC_TYPES@[18]@ == "async_method_definition"@);
    assert(SEMANTIC_TYPES@[19]@ == "field_definition"@);
    assert(SEMANTIC_TYPES@[20]@ == "variable_declaration"@);
    assert(SEMANTIC_TYPES@[21]@ == "lexical_declaration"@);
    assert(SEMANTIC_TYPES@[22]@ == "variable_declarator"@);
    assert(SEMANTIC_TYPES@[23]@ == "import_statement"@);
    assert(SEMANTIC_TYPES@[24]@ == "export_statement"@);
    assert(SEMANTIC_TYPES@[25]@ == "export_default_declaration"@);
    assert(SEMANTIC_TYPES@[26]@ == "expression_statement"@);
    assert(SEMANTIC_TYPES@[27]@ == "return_statement"@);
    assert(SEMANTIC_TYPES@[28]@ == "if_statement"@);
    assert(SEMANTIC_TYPES@[29]@ == "else_clause"@);
    assert(SEMANTIC_TYPES@[30]@ == "for_statement"@);
    assert(SEMANTIC_TYPES@[31]@ == "for_in_statement"@);
    assert(SEMANTIC_TYPES@[32]@ == "for_of_statement"@);
    assert(SEMANTIC_TYPES@[33]@ == "while_statement"@);
    assert(SEMANTIC_TYPES@[34]@ == "do_statement"@);
    assert(SEMANTIC_TYPES@[35]@ == "try_statement"@);
    assert(SEMANTIC_TYPES@[36]@ == "catch_clause"@);
    assert(SEMANTIC_TYPES@[37]@ == "finally_clause"@);
    assert(SEMANTIC_TYPES@[38]@ == "throw_statement"@);
    assert(SEMANTIC_TYPES@[39]@ == "switch_statement"@);
    assert(SEMANTIC_TYPES@[40]@ == "switch_case"@);
    assert(SEMANTIC_TYPES@[41]@ == "switch_default"@);
    assert(SEMANTIC_TYPES@[42]@ == "break_statement"@);
    assert(SEMANTIC_TYPES@[43]@ == "continue_statement"@);
    assert(SEMANTIC_TYPES@[44]@ == "labeled_statement"@);
    assert(SEMANTIC_TYPES@[45]@ == "with_statement"@);
    assert(SEMANTIC_TYPES@[46]@ == "debugger_statement"@);
    assert(SEMANTIC_TYPES@[47]@ == "assignment_expression"@);
    assert(SEMANTIC_TYPES@[48]@ == "augmented_assignment_expression"@);
    assert(SEMANTIC_TYPES@[49]@ == "binary_expression"@);
    assert(SEMANTIC_TYPES@[50]@ == "call_expression"@);
    assert(SEMANTIC_TYPES@[51]@ == "member_expression"@);
    assert(SEMANTIC_TYPES@[52]@ == "parenthesized_expression"@);
    assert(SEMANTIC_TYPES@[53]@ == "string"@);
    assert(SEMANTIC_TYPES@[54]@ == "template_string"@);
    assert(SEMANTIC_TYPES@[55]@ == "unary_expression"@);
    assert(SEMANTIC_TYPES@[56]@ == "new_expression"@);
    assert(SEMANTIC_TYPES@[57]@ == "await_expression"@);
    assert(SEMANTIC_TYPES@[58]@ == "yield_expression"@);
    assert(SEMANTIC_TYPES@[59]@ == "ternary_expression"@);
    assert(SEMANTIC_TYPES@[60]@ == "interface_declaration"@);
    assert(SEMANTIC_TYPES@[61]@ == "type_alias_declaration"@);
    assert(SEMANTIC_TYPES@[62]@ == "enum_declaration"@);
    assert(SEMANTIC_TYPES@[63]@ == "abstract_method_signature"@);
    assert(SEMANTIC_TYPES@[64]@ == "method_signature"@);
    assert(SEMANTIC_TYPES@[65]@ == "property_signature"@);
    assert(SEMANTIC_TYPES@[66]@ == "index_signature"@);
    assert(SEMANTIC_TYPES@[67]@ == "construct_signature"@);
    assert(SEMANTIC_TYPES@[68]@ == "call_signature"@);
    assert(SEMANTIC_TYPES@[69]@ == "module"@);
    assert(SEMANTIC_TYPES@[70]@ == "namespace_export"@);
    assert(SEMANTIC_TYPES@[71]@ == "import_alias"@);
    assert(SEMANTIC_TYPES@[72]@ == "ambient_declaration"@);
    assert(SEMANTIC_TYPES@[73]@ == "object_pattern"@);
    assert(SEMANTIC_TYPES@[74]@ == "array_pattern"@);
    assert(SEMANTIC_TYPES@[75]@ == "rest_pattern"@);
    assert(SEMANTIC_TYPES@[76]@ == "object"@);
    assert(SEMANTIC_TYPES@[77]@ == "array"@);
    assert(SEMANTIC_TYPES@[78]@ == "spread_element"@);
    assert(SEMANTIC_TYPES@[79]@ == "pair"@);
    assert(SEMANTIC_TYPES@[80]@ == "shorthand_property_identifier"@);
    assert(SEMANTIC_TYPES@[81]@ == "type_annotation"@);
    assert(SEMANTIC_TYPES@[82]@ == "predefined_type"@);
    assert(SEMANTIC_TYPES@[83]@ == "literal_type"@);
    assert(SEMANTIC_TYPES@[84]@ == "union_type"@);
    assert(SEMANTIC_TYPES@[85]@ == "intersection_type"@);
    assert(SEMANTIC_TYPES@[86]@ == "array_type"@);
    assert(SEMANTIC_TYPES@[87]@ == "tuple_type"@);
    assert(SEMANTIC_TYPES@[88]@ == "object_type"@);
    assert(SEMANTIC_TYPES@[89]@ == "function_type"@);
    assert(SEMANTIC_TYPES@[90]@ == "constructor_type"@);
    assert(SEMANTIC_TYPES@[91]@ == "type_query"@);
    assert(SEMANTIC_TYPES@[92]@ == "index_type_query"@);
    assert(SEMANTIC_TYPES@[93]@ == "lookup_type"@);
    assert(SEMANTIC_TYPES@[94]@ == "conditional_type"@);
    assert(SEMANTIC_TYPES@[95]@ == "infer_type"@);
    assert(SEMANTIC_TYPES@[96]@ == "mapped_type_clause"@);
    assert(SEMANTIC_TYPES@[97]@ == "template_literal_type"@);
    assert(SEMANTIC_TYPES@[98]@ == "generic_type"@);
    assert(SEMANTIC_TYPES@[99]@ == "type_parameters"@);
    assert(SEMANTIC_TYPES@[100]@ == "type_arguments"@);
    assert(SEMANTIC_TYPES@[101]@ == "as_expression"@);
    assert(SEMANTIC_TYPES@[102]@ == "satisfies_expression"@);
    assert(SEMANTIC_TYPES@[103]@ == "non_null_expression"@);
    assert(SEMANTIC_TYPES@[104]@ == "type_assertion"@);
    assert(SEMANTIC_TYPES@[105]@ == "readonly_type"@);
    assert(SEMANTIC_TYPES@[106]@ == "decorator"@);
    assert(SEMANTIC_TYPES@[107]@ == "using_declaration"@);
    assert(SEMANTIC_TYPES@[108]@ == "await_using_declaration"@);
    assert(SEMANTIC_TYPES@[109]@ == "class_static_block"@);
    assert(SEMANTIC_TYPES@[110]@ == "jsx_element"@);
    assert(SEMANTIC_TYPES@[111]@ == "jsx_self_closing_element"@);
    assert(SEMANTIC_TYPES@[112]@ == "jsx_opening_element"@);
    assert(SEMANTIC_TYPES@[113]@ == "jsx_closing_element"@);
    assert(SEMANTIC_TYPES@[114]@ == "jsx_attribute"@);
    assert(SEMANTIC_TYPES@[115]@ == "jsx_expression"@);
    assert(SEMANTIC_TYPES@[116]@ == "import_specifier"@);
    assert(SEMANTIC_TYPES@[117]@ == "namespace_import"@);
    assert(SEMANTIC_TYPES@[118]@ == "named_imports"@);
    assert(SEMANTIC_TYPES@[119]@ == "export_specifier"@);
    if semantic(node_type) {
        let i = choose|i: int| 0 <= i < SEMANTIC_TYPES@.len() && SEMANTIC_TYPES@[i]@ == node_type;
        assert(i == 0 || i == 1 || i == 2 || i == 3 || i == 4 || i == 5 || i == 6 || i == 7
            || i == 8 || i == 9 || i == 10 || i == 11 || i == 12 || i == 13 || i == 14 || i == 15
            || i == 16 || i == 17 || i == 18 || i == 19 || i == 20 || i == 21 || i == 22 || i == 23
            || i == 24 || i == 25 || i == 26 || i == 27 || i == 28 || i == 29 || i == 30 || i == 31
            || i == 32 || i == 33 || i == 34 || i == 35 || i == 36 || i == 37 || i == 38 || i == 39
            || i == 40 || i == 41 || i == 42 || i == 43 || i == 44 || i == 45 || i == 46 || i == 47
            || i == 48 || i == 49 || i == 50 || i == 51 || i == 52 || i == 53 || i == 54 || i == 55
            || i == 56 || i == 57 || i == 58 || i == 59 || i == 60 || i == 61 || i == 62 || i == 63
            || i == 64 || i == 65 || i == 66 || i == 67 || i == 68 || i == 69 || i == 70 || i == 71
            || i == 72 || i == 73 || i == 74 || i == 75 || i == 76 || i == 77 || i == 78 || i == 79
            || i == 80 || i == 81 || i == 82 || i == 83 || i == 84 || i == 85 || i == 86 || i == 87
            || i == 88 || i == 89 || i == 90 || i == 91 || i == 92 || i == 93 || i == 94 || i == 95
            || i == 96 || i == 97 || i == 98 || i == 99 || i == 100 || i == 101 || i == 102 || i == 103
            || i == 104 || i == 105 || i == 106 || i == 107 || i == 108 || i == 109 || i == 110 || i == 111
            || i == 112 || i == 113 || i == 114 || i == 115 || i == 116 || i == 117 || i == 118 || i == 119);
    }
}

/// The types of names, of literals, of signatures and of what shows the names in it, written out.
pub proof fn evidence_types_are_these(node_type: Seq<char>)
    ensures
        signature_name_leaf(node_type) <==> ({
            ||| node_type == "identifier"@
            ||| node_type == "property_identifier"@
            ||| node_type == "private_property_identifier"@
            ||| node_type == "shorthand_property_identifier"@
            ||| node_type == "type_identifier"@
            ||| node_type == "statement_identifier"@
        }),
        literal_evidence_leaf(node_type) <==> ({
            ||| node_type == "string"@
            ||| node_type == "string_fragment"@
            ||| node_type == "template_string"@
            ||| node_type == "number"@
            ||| node_type == "regex"@
        }),
        signature_context(node_type) <==> ({
            ||| node_type == "formal_parameters"@
            ||| node_type == "required_parameter"@
            ||| node_type == "optional_parameter"@
            ||| node_type == "rest_pattern"@
            ||| node_type == "pair_pattern"@
            ||| node_type == "object_pattern"@
            ||| node_type == "array_pattern"@
            ||| node_type == "type_annotation"@
            ||| node_type == "type_parameters"@
            ||| node_type == "type_arguments"@
        }),
        review_name_context(node_type) <==> ({
            ||| node_type == "formal_parameters"@
            ||| node_type == "required_parameter"@
            ||| node_type == "optional_parameter"@
            ||| node_type == "rest_pattern"@
            ||| node_type == "pair_pattern"@
            ||| node_type == "object_pattern"@
            ||| node_type == "array_pattern"@
            ||| node_type == "type_annotation"@
            ||| node_type == "type_parameters"@
            ||| node_type == "type_arguments"@
            ||| node_type == "member_expression"@
            ||| node_type == "call_expression"@
            ||| node_type == "binary_expression"@
            ||| node_type == "object"@
            ||| node_type == "pair"@
            ||| node_type == "parenthesized_expression"@
            ||| node_type == "unary_expression"@
            ||| node_type == "for_in_statement"@
            ||| node_type == "for_of_statement"@
            ||| node_type == "lexical_declaration"@
            ||| node_type == "variable_declaration"@
            ||| node_type == "variable_declarator"@
        }),
{
}

/// The types of classes, of functions and methods, and of `async` ones, written out.
pub proof fn enclosing_types_are_these(node_type: Seq<char>)
    ensures
        class_like(node_type) <==> ({
            ||| node_type == "class_declaration"@
            ||| node_type == "class"@
            ||| node_type == "abstract_class_declaration"@
            ||| node_type == "interface_declaration"@
        }),
        method_like(node_type) <==> ({
            ||| node_type == "function_declaration"@
            ||| node_type == "function"@
            ||| node_type == "function_expression"@
            ||| node_type == "arrow_function"@
            ||| node_type == "generator_function_declaration"@
            ||| node_type == "generator_function"@
            ||| node_type == "method_definition"@
            ||| node_type == "method_signature"@
            ||| node_type == "abstract_method_signature"@
            ||| node_type == "async_function_declaration"@
            ||| node_type == "async_function"@
            ||| node_type == "async_function_expression"@
            ||| node_type == "async_arrow_function"@
            ||| node_type == "async_generator_function_declaration"@
            ||| node_type == "async_generator_function"@
            ||| node_type == "async_method_definition"@
        }),
        async_type(node_type) <==> ({
            ||| node_type == "async_function_declaration"@
            ||| node_type == "async_function"@
            ||| node_type == "async_function_expression"@
            ||| node_type == "async_arrow_function"@
            ||| node_type == "async_generator_function_declaration"@
            ||| node_type == "async_generator_function"@
            ||| node_type == "async_method_definition"@
        }),
        function_form(node_type) <==> ({
            ||| node_type == "function_declaration"@
            ||| node_type == "function"@
            ||| node_type == "function_expression"@
            ||| node_type == "arrow_function"@
            ||| node_type == "generator_function_declaration"@
            ||| node_type == "generator_function"@
            ||| node_type == "method_definition"@
        }),
{
}

/// The types of trivia, written out.
pub proof fn trivia_types_are_these()
    ensures
        TRIVIA@.len() == 6,
        TRIVIA@[0]@ == "comment"@,
        TRIVIA@[1]@ == "line_comment"@,
        TRIVIA@[2]@ == "block_comment"@,
        TRIVIA@[3]@ == "html_comment"@,
        TRIVIA@[4]@ == "whitespace"@,
        TRIVIA@[5]@ == "automatic_semicolon"@,
{
}

} // verus!
