//! What holds of labels.

use vstd::prelude::*;

use crate::cst::Cst;
use crate::label::{
    callee_pick, decorator_pick, dotted, every_some, exported, first_exported, first_some,
    identifier_pick, label_of, leaf_text_of, leaf_texts_of, member, name_pick, name_text_of,
    names_node, own_label, parameter_labels, part_pick, parts_of, parts_of_all, resource_pick, tag,
};
use crate::text::{joined, joining_is_piecewise};

verus! {

/// The first child for which `pick` gives anything is the one whose text is found.
proof fn found_at(children: Seq<Cst>, pick: spec_fn(Cst) -> Option<Seq<char>>, i: int)
    requires
        0 <= i < children.len(),
        pick(children[i]) is Some,
        forall|j: int| 0 <= j < i ==> pick(#[trigger] children[j]) is None,
    ensures
        first_some(children, pick) == pick(children[i]),
    decreases i,
{
    if i > 0 {
        let rest = children.drop_first();
        assert(pick(children[0]) is None);
        assert forall|j: int| 0 <= j < i - 1 implies pick(#[trigger] rest[j]) is None by {
            assert(rest[j] == children[j + 1]);
        }
        found_at(rest, pick, i - 1);
    }
}

/// An import and a JSX tag are called by one of their children.
proof fn ruled_by_name(node_type: Seq<char>)
    requires
        node_type == "import_statement"@ || tag(node_type),
    ensures
        forall|node: Cst|
            node.node_type == node_type ==> #[trigger] own_label(node) == first_some(
                node.children,
                name_pick(node_type),
            ),
        !member(node_type),
        node_type == "import_statement"@ ==> forall|child_type: Seq<char>| #[trigger]
            names_node(node_type, child_type) == (child_type == "string"@),
        tag(node_type) ==> forall|child_type: Seq<char>| #[trigger]
            names_node(node_type, child_type) == (child_type == "identifier"@ || dotted(
                child_type,
            )),
{
    reveal_strlit("import_statement");
    assert("import_statement"@.len() == 16);
    reveal_strlit("jsx_opening_element");
    assert("jsx_opening_element"@.len() == 19);
    reveal_strlit("jsx_self_closing_element");
    assert("jsx_self_closing_element"@.len() == 24);
    reveal_strlit("string");
    assert("string"@.len() == 6);
    reveal_strlit("template_string");
    assert("template_string"@.len() == 15);
    reveal_strlit("member_expression");
    assert("member_expression"@.len() == 17);
    reveal_strlit("formal_parameters");
    assert("formal_parameters"@.len() == 17);
    reveal_strlit("export_statement");
    assert("export_statement"@.len() == 16);
    reveal_strlit("export_default_declaration");
    assert("export_default_declaration"@.len() == 26);
    reveal_strlit("decorator");
    assert("decorator"@.len() == 9);
    reveal_strlit("using_declaration");
    assert("using_declaration"@.len() == 17);
    reveal_strlit("await_using_declaration");
    assert("await_using_declaration"@.len() == 23);
    reveal_strlit("function_declaration");
    assert("function_declaration"@.len() == 20);
    reveal_strlit("async_function_declaration");
    assert("async_function_declaration"@.len() == 26);
    reveal_strlit("generator_function_declaration");
    assert("generator_function_declaration"@.len() == 30);
    reveal_strlit("async_generator_function_declaration");
    assert("async_generator_function_declaration"@.len() == 36);
    reveal_strlit("class_declaration");
    assert("class_declaration"@.len() == 17);
    reveal_strlit("abstract_class_declaration");
    assert("abstract_class_declaration"@.len() == 26);
    reveal_strlit("interface_declaration");
    assert("interface_declaration"@.len() == 21);
    reveal_strlit("type_alias_declaration");
    assert("type_alias_declaration"@.len() == 22);
    reveal_strlit("enum_declaration");
    assert("enum_declaration"@.len() == 16);
    reveal_strlit("module");
    assert("module"@.len() == 6);
    reveal_strlit("method_definition");
    assert("method_definition"@.len() == 17);
    reveal_strlit("async_method_definition");
    assert("async_method_definition"@.len() == 23);
    reveal_strlit("field_definition");
    assert("field_definition"@.len() == 16);
    reveal_strlit("method_signature");
    assert("method_signature"@.len() == 16);
    reveal_strlit("property_signature");
    assert("property_signature"@.len() == 18);
    reveal_strlit("abstract_method_signature");
    assert("abstract_method_signature"@.len() == 25);
    reveal_strlit("variable_declarator");
    assert("variable_declarator"@.len() == 19);
    reveal_strlit("import_specifier");
    assert("import_specifier"@.len() == 16);
    reveal_strlit("export_specifier");
    assert("export_specifier"@.len() == 16);
    reveal_strlit("namespace_import");
    assert("namespace_import"@.len() == 16);
    reveal_strlit("required_parameter");
    assert("required_parameter"@.len() == 18);
    reveal_strlit("optional_parameter");
    assert("optional_parameter"@.len() == 18);
    reveal_strlit("rest_pattern");
    assert("rest_pattern"@.len() == 12);
    assert("import_statement"@[0] != "export_statement"@[0]);
    assert("import_statement"@[0] != "enum_declaration"@[0]);
    assert("import_statement"@[0] != "field_definition"@[0]);
    assert("import_statement"@[0] != "method_signature"@[0]);
    assert("import_statement"@[8] != "import_specifier"@[8]);
    assert("import_statement"@[0] != "export_specifier"@[0]);
    assert("import_statement"@[0] != "namespace_import"@[0]);
    assert("jsx_opening_element"@[0] != "variable_declarator"@[0]);
}

/// The label of an import is the path of its module: the text of its first string, whose leaves
/// alone have a text.
pub proof fn imports_are_labelled_by_their_module(node: Cst, i: int)
    requires
        node.node_type == "import_statement"@,
        0 <= i < node.children.len(),
        node.children[i].node_type == "string"@,
        node.children[i].leaf() <==> node.children[i].text is Some,
        forall|j: int| 0 <= j < i ==> (#[trigger] node.children[j]).node_type != "string"@,
    ensures
        label_of(node) == leaf_text_of(node.children[i]),
{
    ruled_by_name(node.node_type);
    assert(own_label(node) == first_some(node.children, name_pick(node.node_type)));
    found_at(node.children, name_pick(node.node_type), i);
    reveal_strlit("string");
    reveal_strlit("member_expression");
    reveal_strlit("nested_identifier");
    assert("string"@.len() == 6);
    assert("member_expression"@.len() == 17);
    assert("nested_identifier"@.len() == 17);
}

/// The label of a JSX tag is its name, which is the first identifier or path in it.
pub proof fn tags_are_labelled_by_their_name(node: Cst, i: int)
    requires
        node.node_type == "jsx_opening_element"@ || node.node_type == "jsx_self_closing_element"@,
        0 <= i < node.children.len(),
        node.children[i].node_type == "identifier"@ || node.children[i].node_type
            == "member_expression"@ || node.children[i].node_type == "nested_identifier"@,
        forall|j: int|
            0 <= j < i ==> (#[trigger] node.children[j]).node_type != "identifier"@
                && node.children[j].node_type != "member_expression"@
                && node.children[j].node_type != "nested_identifier"@,
    ensures
        label_of(node) == name_text_of(node.children[i]),
{
    ruled_by_name(node.node_type);
    assert(own_label(node) == first_some(node.children, name_pick(node.node_type)));
    found_at(node.children, name_pick(node.node_type), i);
}

/// Whether no child of a node is of this type.
pub open spec fn lacks(node: Cst, child_type: Seq<char>) -> bool {
    forall|l: int|
        0 <= l < node.children.len() ==> (#[trigger] node.children[l]).node_type != child_type
}

/// A call without an identifier and without a path has no name.
proof fn nothing_called(call: Cst)
    ensures
        lacks(call, "identifier"@) && lacks(call, "member_expression"@) ==> first_some(
            call.children,
            callee_pick(),
        ) is None,
{
    if lacks(call, "identifier"@) && lacks(call, "member_expression"@) {
        nothing_found(call.children, callee_pick());
    }
}

/// A binding without an identifier has no name.
proof fn nothing_bound(binding: Cst)
    ensures
        lacks(binding, "identifier"@) ==> first_some(binding.children, identifier_pick()) is None,
{
    if lacks(binding, "identifier"@) {
        nothing_found(binding.children, identifier_pick());
    }
}

/// A decorator is called by its name.
proof fn decorators_have_a_rule()
    ensures
        forall|node: Cst|
            node.node_type == "decorator"@ ==> #[trigger] own_label(node) == first_some(
                node.children,
                decorator_pick(),
            ),
{
    reveal_strlit("string");
    assert("string"@.len() == 6);
    reveal_strlit("template_string");
    assert("template_string"@.len() == 15);
    reveal_strlit("member_expression");
    assert("member_expression"@.len() == 17);
    reveal_strlit("formal_parameters");
    assert("formal_parameters"@.len() == 17);
    reveal_strlit("export_statement");
    assert("export_statement"@.len() == 16);
    reveal_strlit("export_default_declaration");
    assert("export_default_declaration"@.len() == 26);
    reveal_strlit("decorator");
    assert("decorator"@.len() == 9);
    reveal_strlit("using_declaration");
    assert("using_declaration"@.len() == 17);
    reveal_strlit("await_using_declaration");
    assert("await_using_declaration"@.len() == 23);
}

/// The label of a bare decorator is its name, which is the first identifier or path in it.
pub proof fn bare_decorators_are_labelled_by_their_name(node: Cst, i: int)
    requires
        node.node_type == "decorator"@,
        0 <= i < node.children.len(),
        node.children[i].node_type == "identifier"@ || node.children[i].node_type
            == "member_expression"@,
        forall|j: int|
            0 <= j < i ==> (#[trigger] node.children[j]).node_type != "identifier"@
                && node.children[j].node_type != "member_expression"@ && (
            node.children[j].node_type == "call_expression"@ ==> lacks(
                node.children[j],
                "identifier"@,
            ) && lacks(node.children[j], "member_expression"@)),
    ensures
        label_of(node) == name_text_of(node.children[i]),
{
    decorators_have_a_rule();
    assert(own_label(node) == first_some(node.children, decorator_pick()));
    assert forall|j: int| 0 <= j < i implies decorator_pick()(#[trigger] node.children[j]) is None by {
        nothing_called(node.children[j]);
    }
    found_at(node.children, decorator_pick(), i);
}

/// The label of a decorator that is called with arguments is the name of the function that is
/// called, which is the first identifier or path in the call.
pub proof fn called_decorators_are_labelled_by_their_name(node: Cst, i: int, k: int)
    requires
        node.node_type == "decorator"@,
        0 <= i < node.children.len(),
        node.children[i].node_type == "call_expression"@,
        forall|j: int|
            0 <= j < i ==> (#[trigger] node.children[j]).node_type != "identifier"@
                && node.children[j].node_type != "member_expression"@ && (
            node.children[j].node_type == "call_expression"@ ==> lacks(
                node.children[j],
                "identifier"@,
            ) && lacks(node.children[j], "member_expression"@)),
        0 <= k < node.children[i].children.len(),
        ({
            let callee = node.children[i].children[k];
            callee.node_type == "identifier"@ || callee.node_type == "member_expression"@
        }),
        forall|j: int|
            0 <= j < k ==> (#[trigger] node.children[i].children[j]).node_type != "identifier"@
                && node.children[i].children[j].node_type != "member_expression"@,
    ensures
        label_of(node) == name_text_of(node.children[i].children[k]),
{
    decorators_have_a_rule();
    assert(own_label(node) == first_some(node.children, decorator_pick()));
    assert forall|j: int| 0 <= j < i implies decorator_pick()(#[trigger] node.children[j]) is None by {
        nothing_called(node.children[j]);
    }
    reveal_strlit("identifier");
    assert("identifier"@.len() == 10);
    reveal_strlit("call_expression");
    assert("call_expression"@.len() == 15);
    reveal_strlit("member_expression");
    assert("member_expression"@.len() == 17);
    found_at(node.children[i].children, callee_pick(), k);
    found_at(node.children, decorator_pick(), i);
}

/// A path of names reads as these names with full stops between them, and that is its label,
/// where no path stands in it.
pub proof fn paths_are_read_with_full_stops(node: Cst)
    requires
        node.node_type == "member_expression"@,
        node.text is None,
        every_some(node.children, part_pick()).len() > 0,
        forall|i: int|
            0 <= i < node.children.len() ==> (#[trigger] node.children[i]).node_type
                != "member_expression"@ && node.children[i].node_type != "nested_identifier"@,
    ensures
        name_text_of(node) == joined(every_some(node.children, part_pick()), "."@),
        label_of(node) == name_text_of(node),
{
    parts_are_picked(node.children);
    reveal_strlit("string");
    reveal_strlit("template_string");
    reveal_strlit("member_expression");
    assert("string"@.len() == 6);
    assert("template_string"@.len() == 15);
    assert("member_expression"@.len() == 17);
}

/// The names along some nodes of which none is a path are the names among them.
proof fn parts_are_picked(nodes: Seq<Cst>)
    requires
        forall|i: int| 0 <= i < nodes.len() ==> !dotted((#[trigger] nodes[i]).node_type),
    ensures
        parts_of_all(nodes) == every_some(nodes, part_pick()),
    decreases nodes.len(),
{
    if nodes.len() > 0 {
        let before = nodes.drop_last();
        assert forall|i: int| 0 <= i < before.len() implies !dotted(
            (#[trigger] before[i]).node_type,
        ) by {
            assert(before[i] == nodes[i]);
        }
        parts_are_picked(before);
        let last = nodes.last();
        assert(!dotted(nodes[nodes.len() - 1].node_type));
        assert(parts_of_all(nodes) == parts_of_all(before) + parts_of(last));
        match part_pick()(last) {
            Some(text) => {
                assert(parts_of(last) == seq![text]);
                assert(parts_of_all(before) + seq![text] =~= parts_of_all(before).push(text));
            },
            None => {
                assert(parts_of_all(before) + parts_of(last) =~= parts_of_all(before));
            },
        }
    }
}

/// Where no child gives anything, nothing is found.
proof fn nothing_found(children: Seq<Cst>, pick: spec_fn(Cst) -> Option<Seq<char>>)
    requires
        forall|j: int| 0 <= j < children.len() ==> pick(#[trigger] children[j]) is None,
    ensures
        first_some(children, pick) is None,
    decreases children.len(),
{
    if children.len() > 0 {
        let rest = children.drop_first();
        assert(pick(children[0]) is None);
        assert forall|j: int| 0 <= j < rest.len() implies pick(#[trigger] rest[j]) is None by {
            assert(rest[j] == children[j + 1]);
        }
        nothing_found(rest, pick);
    }
}

/// What the children give for which a pick gives anything.
proof fn every_some_is_filter_map(
    children: Seq<Cst>,
    pick: spec_fn(Cst) -> Option<Seq<char>>,
)
    ensures
        every_some(children, pick) == children.filter_map(pick),
    decreases children.len(),
{
    if children.len() > 0 {
        every_some_is_filter_map(children.drop_last(), pick);
        match pick(children.last()) {
            Some(text) => {
                let before = every_some(children.drop_last(), pick);
                assert(before.push(text) =~= before + seq![text]);
            },
            None => {},
        }
    } else {
        assert(every_some(children, pick) =~= children.filter_map(pick));
    }
}

/// The rule for each type of node.
proof fn rules(node: Cst)
    ensures
        ({
            ||| node.node_type == "string"@
            ||| node.node_type == "template_string"@
        }) ==> own_label(node) == (if leaf_text_of(node).len() > 0 {
            Some(leaf_text_of(node))
        } else {
            None
        }),
        node.node_type == "member_expression"@ ==> own_label(node) == (if every_some(node.children, part_pick()).len() > 0 {
            Some(joined(every_some(node.children, part_pick()), "."@))
        } else {
            None
        }),
        node.node_type == "formal_parameters"@ ==> own_label(node) == (if parameter_labels(node.children).len() > 0 {
            Some(joined(parameter_labels(node.children), ", "@))
        } else {
            None
        }),
        ({
            ||| node.node_type == "export_statement"@
            ||| node.node_type == "export_default_declaration"@
        }) ==> own_label(node) == (match first_exported(node.children) {
            Some(i) => if 0 <= i < node.children.len() {
                Some(label_of(node.children[i]))
            } else {
                None
            },
            None => None,
        }),
        node.node_type == "decorator"@ ==> own_label(node) == first_some(node.children, decorator_pick()),
        ({
            ||| node.node_type == "using_declaration"@
            ||| node.node_type == "await_using_declaration"@
        }) ==> own_label(node) == first_some(node.children, resource_pick()),
        ({
            ||| node.node_type == "function_declaration"@
            ||| node.node_type == "async_function_declaration"@
            ||| node.node_type == "generator_function_declaration"@
            ||| node.node_type == "async_generator_function_declaration"@
            ||| node.node_type == "class_declaration"@
            ||| node.node_type == "abstract_class_declaration"@
            ||| node.node_type == "interface_declaration"@
            ||| node.node_type == "type_alias_declaration"@
            ||| node.node_type == "enum_declaration"@
            ||| node.node_type == "module"@
            ||| node.node_type == "method_definition"@
            ||| node.node_type == "async_method_definition"@
            ||| node.node_type == "field_definition"@
            ||| node.node_type == "method_signature"@
            ||| node.node_type == "property_signature"@
            ||| node.node_type == "abstract_method_signature"@
            ||| node.node_type == "variable_declarator"@
            ||| node.node_type == "import_specifier"@
            ||| node.node_type == "export_specifier"@
            ||| node.node_type == "namespace_import"@
            ||| node.node_type == "required_parameter"@
            ||| node.node_type == "optional_parameter"@
            ||| node.node_type == "rest_pattern"@
            ||| node.node_type == "import_statement"@
            ||| node.node_type == "jsx_opening_element"@
            ||| node.node_type == "jsx_self_closing_element"@
        }) ==> own_label(node) == first_some(node.children, name_pick(node.node_type)),
        !({
            ||| node.node_type == "string"@
            ||| node.node_type == "template_string"@
            ||| node.node_type == "function_declaration"@
            ||| node.node_type == "async_function_declaration"@
            ||| node.node_type == "generator_function_declaration"@
            ||| node.node_type == "async_generator_function_declaration"@
            ||| node.node_type == "class_declaration"@
            ||| node.node_type == "abstract_class_declaration"@
            ||| node.node_type == "interface_declaration"@
            ||| node.node_type == "type_alias_declaration"@
            ||| node.node_type == "enum_declaration"@
            ||| node.node_type == "module"@
            ||| node.node_type == "method_definition"@
            ||| node.node_type == "async_method_definition"@
            ||| node.node_type == "field_definition"@
            ||| node.node_type == "method_signature"@
            ||| node.node_type == "property_signature"@
            ||| node.node_type == "abstract_method_signature"@
            ||| node.node_type == "variable_declarator"@
            ||| node.node_type == "import_specifier"@
            ||| node.node_type == "export_specifier"@
            ||| node.node_type == "namespace_import"@
            ||| node.node_type == "member_expression"@
            ||| node.node_type == "formal_parameters"@
            ||| node.node_type == "required_parameter"@
            ||| node.node_type == "optional_parameter"@
            ||| node.node_type == "rest_pattern"@
            ||| node.node_type == "import_statement"@
            ||| node.node_type == "export_statement"@
            ||| node.node_type == "export_default_declaration"@
            ||| node.node_type == "decorator"@
            ||| node.node_type == "jsx_opening_element"@
            ||| node.node_type == "jsx_self_closing_element"@
            ||| node.node_type == "using_declaration"@
            ||| node.node_type == "await_using_declaration"@
        }) ==> own_label(node) is None,
{
    reveal_strlit("string");
    assert("string"@.len() == 6);
    reveal_strlit("template_string");
    assert("template_string"@.len() == 15);
    reveal_strlit("function_declaration");
    assert("function_declaration"@.len() == 20);
    reveal_strlit("async_function_declaration");
    assert("async_function_declaration"@.len() == 26);
    reveal_strlit("generator_function_declaration");
    assert("generator_function_declaration"@.len() == 30);
    reveal_strlit("async_generator_function_declaration");
    assert("async_generator_function_declaration"@.len() == 36);
    reveal_strlit("class_declaration");
    assert("class_declaration"@.len() == 17);
    reveal_strlit("abstract_class_declaration");
    assert("abstract_class_declaration"@.len() == 26);
    reveal_strlit("interface_declaration");
    assert("interface_declaration"@.len() == 21);
    reveal_strlit("type_alias_declaration");
    assert("type_alias_declaration"@.len() == 22);
    reveal_strlit("enum_declaration");
    assert("enum_declaration"@.len() == 16);
    reveal_strlit("module");
    assert("module"@.len() == 6);
    reveal_strlit("method_definition");
    assert("method_definition"@.len() == 17);
    reveal_strlit("async_method_definition");
    assert("async_method_definition"@.len() == 23);
    reveal_strlit("field_definition");
    assert("field_definition"@.len() == 16);
    reveal_strlit("method_signature");
    assert("method_signature"@.len() == 16);
    reveal_strlit("property_signature");
    assert("property_signature"@.len() == 18);
    reveal_strlit("abstract_method_signature");
    assert("abstract_method_signature"@.len() == 25);
    reveal_strlit("variable_declarator");
    assert("variable_declarator"@.len() == 19);
    reveal_strlit("import_specifier");
    assert("import_specifier"@.len() == 16);
    reveal_strlit("export_specifier");
    assert("export_specifier"@.len() == 16);
    reveal_strlit("namespace_import");
    assert("namespace_import"@.len() == 16);
    reveal_strlit("member_expression");
    assert("member_expression"@.len() == 17);
    reveal_strlit("formal_parameters");
    assert("formal_parameters"@.len() == 17);
    reveal_strlit("required_parameter");
    assert("required_parameter"@.len() == 18);
    reveal_strlit("optional_parameter");
    assert("optional_parameter"@.len() == 18);
    reveal_strlit("rest_pattern");
    assert("rest_pattern"@.len() == 12);
    reveal_strlit("import_statement");
    assert("import_statement"@.len() == 16);
    reveal_strlit("export_statement");
    assert("export_statement"@.len() == 16);
    reveal_strlit("export_default_declaration");
    assert("export_default_declaration"@.len() == 26);
    reveal_strlit("decorator");
    assert("decorator"@.len() == 9);
    reveal_strlit("jsx_opening_element");
    assert("jsx_opening_element"@.len() == 19);
    reveal_strlit("jsx_self_closing_element");
    assert("jsx_self_closing_element"@.len() == 24);
    reveal_strlit("using_declaration");
    assert("using_declaration"@.len() == 17);
    reveal_strlit("await_using_declaration");
    assert("await_using_declaration"@.len() == 23);
    assert("string"@[0] != "module"@[0]);
    assert("async_function_declaration"@[1] != "abstract_class_declaration"@[1]);
    assert("async_function_declaration"@[0] != "export_default_declaration"@[0]);
    assert("class_declaration"@[0] != "method_definition"@[0]);
    assert("class_declaration"@[0] != "member_expression"@[0]);
    assert("class_declaration"@[0] != "formal_parameters"@[0]);
    assert("class_declaration"@[0] != "using_declaration"@[0]);
    assert("abstract_class_declaration"@[0] != "export_default_declaration"@[0]);
    assert("enum_declaration"@[0] != "field_definition"@[0]);
    assert("enum_declaration"@[0] != "method_signature"@[0]);
    assert("enum_declaration"@[0] != "import_specifier"@[0]);
    assert("enum_declaration"@[1] != "export_specifier"@[1]);
    assert("enum_declaration"@[0] != "namespace_import"@[0]);
    assert("enum_declaration"@[0] != "import_statement"@[0]);
    assert("enum_declaration"@[1] != "export_statement"@[1]);
    assert("method_definition"@[2] != "member_expression"@[2]);
    assert("method_definition"@[0] != "formal_parameters"@[0]);
    assert("method_definition"@[0] != "using_declaration"@[0]);
    assert("async_method_definition"@[1] != "await_using_declaration"@[1]);
    assert("field_definition"@[0] != "method_signature"@[0]);
    assert("field_definition"@[0] != "import_specifier"@[0]);
    assert("field_definition"@[0] != "export_specifier"@[0]);
    assert("field_definition"@[0] != "namespace_import"@[0]);
    assert("field_definition"@[0] != "import_statement"@[0]);
    assert("field_definition"@[0] != "export_statement"@[0]);
    assert("method_signature"@[0] != "import_specifier"@[0]);
    assert("method_signature"@[0] != "export_specifier"@[0]);
    assert("method_signature"@[0] != "namespace_import"@[0]);
    assert("method_signature"@[0] != "import_statement"@[0]);
    assert("method_signature"@[0] != "export_statement"@[0]);
    assert("property_signature"@[0] != "required_parameter"@[0]);
    assert("property_signature"@[0] != "optional_parameter"@[0]);
    assert("variable_declarator"@[0] != "jsx_opening_element"@[0]);
    assert("import_specifier"@[0] != "export_specifier"@[0]);
    assert("import_specifier"@[0] != "namespace_import"@[0]);
    assert("import_specifier"@[8] != "import_statement"@[8]);
    assert("import_specifier"@[0] != "export_statement"@[0]);
    assert("export_specifier"@[0] != "namespace_import"@[0]);
    assert("export_specifier"@[0] != "import_statement"@[0]);
    assert("export_specifier"@[8] != "export_statement"@[8]);
    assert("namespace_import"@[0] != "import_statement"@[0]);
    assert("namespace_import"@[0] != "export_statement"@[0]);
    assert("member_expression"@[0] != "formal_parameters"@[0]);
    assert("member_expression"@[0] != "using_declaration"@[0]);
    assert("formal_parameters"@[0] != "using_declaration"@[0]);
    assert("required_parameter"@[0] != "optional_parameter"@[0]);
    assert("import_statement"@[0] != "export_statement"@[0]);
    if !({
        ||| node.node_type == "string"@
        ||| node.node_type == "template_string"@
        ||| node.node_type == "function_declaration"@
        ||| node.node_type == "async_function_declaration"@
        ||| node.node_type == "generator_function_declaration"@
        ||| node.node_type == "async_generator_function_declaration"@
        ||| node.node_type == "class_declaration"@
        ||| node.node_type == "abstract_class_declaration"@
        ||| node.node_type == "interface_declaration"@
        ||| node.node_type == "type_alias_declaration"@
        ||| node.node_type == "enum_declaration"@
        ||| node.node_type == "module"@
        ||| node.node_type == "method_definition"@
        ||| node.node_type == "async_method_definition"@
        ||| node.node_type == "field_definition"@
        ||| node.node_type == "method_signature"@
        ||| node.node_type == "property_signature"@
        ||| node.node_type == "abstract_method_signature"@
        ||| node.node_type == "variable_declarator"@
        ||| node.node_type == "import_specifier"@
        ||| node.node_type == "export_specifier"@
        ||| node.node_type == "namespace_import"@
        ||| node.node_type == "member_expression"@
        ||| node.node_type == "formal_parameters"@
        ||| node.node_type == "required_parameter"@
        ||| node.node_type == "optional_parameter"@
        ||| node.node_type == "rest_pattern"@
        ||| node.node_type == "import_statement"@
        ||| node.node_type == "export_statement"@
        ||| node.node_type == "export_default_declaration"@
        ||| node.node_type == "decorator"@
        ||| node.node_type == "jsx_opening_element"@
        ||| node.node_type == "jsx_self_closing_element"@
        ||| node.node_type == "using_declaration"@
        ||| node.node_type == "await_using_declaration"@
    }) {
        nothing_found(node.children, name_pick(node.node_type));
    }
}

/// Which children name a node, by its type.
proof fn naming_children(node_type: Seq<char>, child_type: Seq<char>)
    ensures
        ({
            ||| node_type == "function_declaration"@
            ||| node_type == "async_function_declaration"@
            ||| node_type == "generator_function_declaration"@
            ||| node_type == "async_generator_function_declaration"@
            ||| node_type == "class_declaration"@
            ||| node_type == "abstract_class_declaration"@
            ||| node_type == "interface_declaration"@
            ||| node_type == "type_alias_declaration"@
            ||| node_type == "enum_declaration"@
            ||| node_type == "module"@
        }) ==> names_node(node_type, child_type) == (child_type
            == "identifier"@ || child_type == "type_identifier"@),
        ({
            ||| node_type == "method_definition"@
            ||| node_type == "async_method_definition"@
            ||| node_type == "field_definition"@
            ||| node_type == "method_signature"@
            ||| node_type == "property_signature"@
            ||| node_type == "abstract_method_signature"@
        }) ==> member(node_type) && names_node(node_type, child_type) == ({
            ||| child_type == "property_identifier"@
            ||| child_type == "identifier"@
            ||| child_type == "string"@
            ||| child_type == "computed_property_name"@
            ||| child_type == "private_property_identifier"@
        }),
        ({
            ||| node_type == "variable_declarator"@
            ||| node_type == "import_specifier"@
            ||| node_type == "export_specifier"@
            ||| node_type == "namespace_import"@
        }) ==> names_node(node_type, child_type) == (child_type == "identifier"@),
        ({
            ||| node_type == "required_parameter"@
            ||| node_type == "optional_parameter"@
            ||| node_type == "rest_pattern"@
        }) ==> names_node(node_type, child_type) == ({
            ||| child_type == "identifier"@
            ||| child_type == "property_identifier"@
            ||| child_type == "private_property_identifier"@
            ||| child_type == "shorthand_property_identifier"@
            ||| child_type == "type_identifier"@
            ||| child_type == "statement_identifier"@
        }),
        node_type == "import_statement"@ ==> names_node(node_type, child_type) == (child_type == "string"@),
        ({
            ||| node_type == "jsx_opening_element"@
            ||| node_type == "jsx_self_closing_element"@
        }) ==> names_node(node_type, child_type) == ({
            ||| child_type == "identifier"@
            ||| child_type == "member_expression"@
            ||| child_type == "nested_identifier"@
        }),
        ({
            ||| node_type == "function_declaration"@
            ||| node_type == "async_function_declaration"@
            ||| node_type == "generator_function_declaration"@
            ||| node_type == "async_generator_function_declaration"@
            ||| node_type == "class_declaration"@
            ||| node_type == "abstract_class_declaration"@
            ||| node_type == "interface_declaration"@
            ||| node_type == "type_alias_declaration"@
            ||| node_type == "enum_declaration"@
            ||| node_type == "module"@
            ||| node_type == "variable_declarator"@
            ||| node_type == "import_specifier"@
            ||| node_type == "export_specifier"@
            ||| node_type == "namespace_import"@
            ||| node_type == "required_parameter"@
            ||| node_type == "optional_parameter"@
            ||| node_type == "rest_pattern"@
            ||| node_type == "import_statement"@
            ||| node_type == "jsx_opening_element"@
            ||| node_type == "jsx_self_closing_element"@
        }) ==> !member(node_type),
{
    reveal_strlit("function_declaration");
    assert("function_declaration"@.len() == 20);
    reveal_strlit("async_function_declaration");
    assert("async_function_declaration"@.len() == 26);
    reveal_strlit("generator_function_declaration");
    assert("generator_function_declaration"@.len() == 30);
    reveal_strlit("async_generator_function_declaration");
    assert("async_generator_function_declaration"@.len() == 36);
    reveal_strlit("class_declaration");
    assert("class_declaration"@.len() == 17);
    reveal_strlit("abstract_class_declaration");
    assert("abstract_class_declaration"@.len() == 26);
    reveal_strlit("interface_declaration");
    assert("interface_declaration"@.len() == 21);
    reveal_strlit("type_alias_declaration");
    assert("type_alias_declaration"@.len() == 22);
    reveal_strlit("enum_declaration");
    assert("enum_declaration"@.len() == 16);
    reveal_strlit("module");
    assert("module"@.len() == 6);
    reveal_strlit("method_definition");
    assert("method_definition"@.len() == 17);
    reveal_strlit("async_method_definition");
    assert("async_method_definition"@.len() == 23);
    reveal_strlit("field_definition");
    assert("field_definition"@.len() == 16);
    reveal_strlit("method_signature");
    assert("method_signature"@.len() == 16);
    reveal_strlit("property_signature");
    assert("property_signature"@.len() == 18);
    reveal_strlit("abstract_method_signature");
    assert("abstract_method_signature"@.len() == 25);
    reveal_strlit("variable_declarator");
    assert("variable_declarator"@.len() == 19);
    reveal_strlit("import_specifier");
    assert("import_specifier"@.len() == 16);
    reveal_strlit("export_specifier");
    assert("export_specifier"@.len() == 16);
    reveal_strlit("namespace_import");
    assert("namespace_import"@.len() == 16);
    reveal_strlit("required_parameter");
    assert("required_parameter"@.len() == 18);
    reveal_strlit("optional_parameter");
    assert("optional_parameter"@.len() == 18);
    reveal_strlit("rest_pattern");
    assert("rest_pattern"@.len() == 12);
    reveal_strlit("import_statement");
    assert("import_statement"@.len() == 16);
    reveal_strlit("jsx_opening_element");
    assert("jsx_opening_element"@.len() == 19);
    reveal_strlit("jsx_self_closing_element");
    assert("jsx_self_closing_element"@.len() == 24);
    assert("async_function_declaration"@[1] != "abstract_class_declaration"@[1]);
    assert("class_declaration"@[0] != "method_definition"@[0]);
    assert("enum_declaration"@[0] != "field_definition"@[0]);
    assert("enum_declaration"@[0] != "method_signature"@[0]);
    assert("enum_declaration"@[0] != "import_specifier"@[0]);
    assert("enum_declaration"@[1] != "export_specifier"@[1]);
    assert("enum_declaration"@[0] != "namespace_import"@[0]);
    assert("enum_declaration"@[0] != "import_statement"@[0]);
    assert("field_definition"@[0] != "method_signature"@[0]);
    assert("field_definition"@[0] != "import_specifier"@[0]);
    assert("field_definition"@[0] != "export_specifier"@[0]);
    assert("field_definition"@[0] != "namespace_import"@[0]);
    assert("field_definition"@[0] != "import_statement"@[0]);
    assert("method_signature"@[0] != "import_specifier"@[0]);
    assert("method_signature"@[0] != "export_specifier"@[0]);
    assert("method_signature"@[0] != "namespace_import"@[0]);
    assert("method_signature"@[0] != "import_statement"@[0]);
    assert("property_signature"@[0] != "required_parameter"@[0]);
    assert("property_signature"@[0] != "optional_parameter"@[0]);
    assert("variable_declarator"@[0] != "jsx_opening_element"@[0]);
    assert("import_specifier"@[0] != "export_specifier"@[0]);
    assert("import_specifier"@[0] != "namespace_import"@[0]);
    assert("import_specifier"@[8] != "import_statement"@[8]);
    assert("export_specifier"@[0] != "namespace_import"@[0]);
    assert("export_specifier"@[0] != "import_statement"@[0]);
    assert("namespace_import"@[0] != "import_statement"@[0]);
    assert("required_parameter"@[0] != "optional_parameter"@[0]);
}

/// The label of a leaf is its text.
pub proof fn leaves_are_labelled_by_their_text(node: Cst)
    requires
        node.children.len() == 0,
    ensures
        node.text is Some ==> label_of(node) == node.text->0,
        node.text is None ==> label_of(node) == Seq::<char>::empty(),
{
}

/// The text of a leaf is its own, and that of any other node what its children have, one behind
/// the other: the text of one child is that child's, and the text of two lists of children is the
/// text of the first with that of the second behind it.
pub proof fn texts_of_leaves_are_in_order(node: Cst, a: Seq<Cst>, b: Seq<Cst>)
    ensures
        node.children.len() == 0 && node.text is Some ==> leaf_text_of(node) == node.text->0,
        node.children.len() == 0 && node.text is None ==> leaf_text_of(node) == Seq::<
            char,
        >::empty(),
        node.children.len() == 1 ==> leaf_text_of(node) == leaf_text_of(node.children[0]),
        a.len() > 0 && b.len() > 0 && node.children == a + b ==> leaf_text_of(node)
            == leaf_text_of(Cst { children: a, ..node }) + leaf_text_of(
            Cst { children: b, ..node },
        ),
{
    if node.children.len() == 1 {
        reveal_with_fuel(leaf_texts_of, 2);
        assert(leaf_texts_of(node.children) =~= leaf_text_of(node.children[0]));
    }
    leaf_texts_of_both(a, b);
}

/// The text of two lists of nodes is that of the first with that of the second behind it.
proof fn leaf_texts_of_both(a: Seq<Cst>, b: Seq<Cst>)
    ensures
        leaf_texts_of(a + b) == leaf_texts_of(a) + leaf_texts_of(b),
    decreases b.len(),
{
    if b.len() == 0 {
        assert(a + b =~= a);
        assert(leaf_texts_of(a) + leaf_texts_of(b) =~= leaf_texts_of(a));
    } else {
        assert((a + b).drop_last() =~= a + b.drop_last());
        leaf_texts_of_both(a, b.drop_last());
        assert(leaf_texts_of(a + b) =~= leaf_texts_of(a) + leaf_texts_of(b));
    }
}

/// The label of a string that holds anything is all its text.
pub proof fn strings_are_labelled_by_their_text(node: Cst)
    requires
        ({
            ||| node.node_type == "string"@
            ||| node.node_type == "template_string"@
        }),
        node.children.len() > 0,
        leaf_text_of(node).len() > 0,
    ensures
        label_of(node) == leaf_text_of(node),
{
    rules(node);
}

/// A name that is no path and no string reads as its text.
proof fn identifiers_read_as_their_text(node: Cst)
    requires
        ({
            ||| node.node_type == "identifier"@
            ||| node.node_type == "property_identifier"@
            ||| node.node_type == "private_property_identifier"@
            ||| node.node_type == "shorthand_property_identifier"@
            ||| node.node_type == "type_identifier"@
            ||| node.node_type == "statement_identifier"@
        }),
    ensures
        name_text_of(node) == node.text_or_empty(),
{
    reveal_strlit("identifier");
    assert("identifier"@.len() == 10);
    reveal_strlit("property_identifier");
    assert("property_identifier"@.len() == 19);
    reveal_strlit("private_property_identifier");
    assert("private_property_identifier"@.len() == 27);
    reveal_strlit("shorthand_property_identifier");
    assert("shorthand_property_identifier"@.len() == 29);
    reveal_strlit("type_identifier");
    assert("type_identifier"@.len() == 15);
    reveal_strlit("statement_identifier");
    assert("statement_identifier"@.len() == 20);
    reveal_strlit("member_expression");
    assert("member_expression"@.len() == 17);
    reveal_strlit("nested_identifier");
    assert("nested_identifier"@.len() == 17);
    reveal_strlit("string");
    assert("string"@.len() == 6);
    assert("member_expression"@[0] != "nested_identifier"@[0]);
}

/// The label of a declaration is its name: the text of the first identifier or type identifier
/// in it.
pub proof fn declarations_are_labelled_by_their_name(node: Cst, i: int)
    requires
        ({
            ||| node.node_type == "function_declaration"@
            ||| node.node_type == "async_function_declaration"@
            ||| node.node_type == "generator_function_declaration"@
            ||| node.node_type == "async_generator_function_declaration"@
            ||| node.node_type == "class_declaration"@
            ||| node.node_type == "abstract_class_declaration"@
            ||| node.node_type == "interface_declaration"@
            ||| node.node_type == "type_alias_declaration"@
            ||| node.node_type == "enum_declaration"@
            ||| node.node_type == "module"@
        }),
        0 <= i < node.children.len(),
        ({
            ||| node.children[i].node_type == "identifier"@
            ||| node.children[i].node_type == "type_identifier"@
        }),
        forall|j: int|
            #![trigger node.children[j]]
            0 <= j < i ==> !({
                ||| node.children[j].node_type == "identifier"@
                ||| node.children[j].node_type == "type_identifier"@
            }),
    ensures
        label_of(node) == node.children[i].text_or_empty(),
{
    rules(node);
    assert forall|j: int| 0 <= j <= i implies names_node(
        node.node_type,
        (#[trigger] node.children[j]).node_type,
    ) == (j == i) by {
        naming_children(node.node_type, node.children[j].node_type);
    }
    naming_children(node.node_type, node.children[i].node_type);
    identifiers_read_as_their_text(node.children[i]);
    found_at(node.children, name_pick(node.node_type), i);
}

/// The label of a member of a class or an interface is the text of the first child that can name
/// it.
pub proof fn members_are_labelled_by_their_name(node: Cst, i: int)
    requires
        ({
            ||| node.node_type == "method_definition"@
            ||| node.node_type == "async_method_definition"@
            ||| node.node_type == "field_definition"@
            ||| node.node_type == "method_signature"@
            ||| node.node_type == "property_signature"@
            ||| node.node_type == "abstract_method_signature"@
        }),
        0 <= i < node.children.len(),
        ({
            ||| node.children[i].node_type == "property_identifier"@
            ||| node.children[i].node_type == "identifier"@
            ||| node.children[i].node_type == "string"@
            ||| node.children[i].node_type == "computed_property_name"@
            ||| node.children[i].node_type == "private_property_identifier"@
        }),
        forall|j: int|
            #![trigger node.children[j]]
            0 <= j < i ==> !({
                ||| node.children[j].node_type == "property_identifier"@
                ||| node.children[j].node_type == "identifier"@
                ||| node.children[j].node_type == "string"@
                ||| node.children[j].node_type == "computed_property_name"@
                ||| node.children[j].node_type == "private_property_identifier"@
            }),
    ensures
        label_of(node) == node.children[i].text_or_empty(),
{
    rules(node);
    assert forall|j: int| 0 <= j <= i implies names_node(
        node.node_type,
        (#[trigger] node.children[j]).node_type,
    ) == (j == i) by {
        naming_children(node.node_type, node.children[j].node_type);
    }
    naming_children(node.node_type, node.children[i].node_type);
    found_at(node.children, name_pick(node.node_type), i);
}

/// The label of a binding is the text of the first identifier in it.
pub proof fn bindings_are_labelled_by_their_name(node: Cst, i: int)
    requires
        ({
            ||| node.node_type == "variable_declarator"@
            ||| node.node_type == "import_specifier"@
            ||| node.node_type == "export_specifier"@
            ||| node.node_type == "namespace_import"@
        }),
        0 <= i < node.children.len(),
        node.children[i].node_type == "identifier"@,
        forall|j: int| 0 <= j < i ==> (#[trigger] node.children[j]).node_type != "identifier"@,
    ensures
        label_of(node) == node.children[i].text_or_empty(),
{
    rules(node);
    assert forall|j: int| 0 <= j <= i implies names_node(
        node.node_type,
        (#[trigger] node.children[j]).node_type,
    ) == (j == i) by {
        naming_children(node.node_type, node.children[j].node_type);
    }
    naming_children(node.node_type, node.children[i].node_type);
    identifiers_read_as_their_text(node.children[i]);
    found_at(node.children, name_pick(node.node_type), i);
}

/// The label of one parameter is the text of the first name in it.
pub proof fn parameters_are_labelled_by_their_name(node: Cst, i: int)
    requires
        ({
            ||| node.node_type == "required_parameter"@
            ||| node.node_type == "optional_parameter"@
            ||| node.node_type == "rest_pattern"@
        }),
        0 <= i < node.children.len(),
        ({
            ||| node.children[i].node_type == "identifier"@
            ||| node.children[i].node_type == "property_identifier"@
            ||| node.children[i].node_type == "private_property_identifier"@
            ||| node.children[i].node_type == "shorthand_property_identifier"@
            ||| node.children[i].node_type == "type_identifier"@
            ||| node.children[i].node_type == "statement_identifier"@
        }),
        forall|j: int|
            #![trigger node.children[j]]
            0 <= j < i ==> !({
                ||| node.children[j].node_type == "identifier"@
                ||| node.children[j].node_type == "property_identifier"@
                ||| node.children[j].node_type == "private_property_identifier"@
                ||| node.children[j].node_type == "shorthand_property_identifier"@
                ||| node.children[j].node_type == "type_identifier"@
                ||| node.children[j].node_type == "statement_identifier"@
            }),
    ensures
        label_of(node) == node.children[i].text_or_empty(),
{
    rules(node);
    assert forall|j: int| 0 <= j <= i implies names_node(
        node.node_type,
        (#[trigger] node.children[j]).node_type,
    ) == (j == i) by {
        naming_children(node.node_type, node.children[j].node_type);
    }
    naming_children(node.node_type, node.children[i].node_type);
    identifiers_read_as_their_text(node.children[i]);
    found_at(node.children, name_pick(node.node_type), i);
}

/// The label of a member expression is made of the names directly in it, in order, with full
/// stops between them.
pub proof fn member_expressions_are_labelled_by_their_names(node: Cst)
    requires
        node.node_type == "member_expression"@,
        node.children.len() > 0,
    ensures
        ({
            let parts = node.children.filter_map(
                |child: Cst|
                    if child.text_or_empty().len() > 0 && ({
                        ||| child.node_type == "identifier"@
                        ||| child.node_type == "property_identifier"@
                        ||| child.node_type == "private_property_identifier"@
                        ||| child.node_type == "shorthand_property_identifier"@
                        ||| child.node_type == "type_identifier"@
                        ||| child.node_type == "statement_identifier"@
                    }) {
                        Some(child.text_or_empty())
                    } else {
                        None
                    },
            );
            parts.len() > 0 ==> label_of(node) == joined(parts, "."@)
        }),
{
    rules(node);
    every_some_is_filter_map(node.children, part_pick());
    let pick = |child: Cst|
        if child.text_or_empty().len() > 0 && ({
            ||| child.node_type == "identifier"@
            ||| child.node_type == "property_identifier"@
            ||| child.node_type == "private_property_identifier"@
            ||| child.node_type == "shorthand_property_identifier"@
            ||| child.node_type == "type_identifier"@
            ||| child.node_type == "statement_identifier"@
        }) {
            Some(child.text_or_empty())
        } else {
            None::<Seq<char>>
        };
    assert(pick =~= part_pick());
}

/// The label of a list of parameters is made of their labels, in order, with commas between them;
/// a parameter that is labelled by nothing or by its type is left out.
pub proof fn parameter_lists_are_labelled_by_their_parameters(node: Cst)
    requires
        node.node_type == "formal_parameters"@,
        node.children.len() > 0,
    ensures
        ({
            let labels = node.children.filter_map(
                |child: Cst|
                    if label_of(child).len() > 0 && label_of(child) != child.node_type {
                        Some(label_of(child))
                    } else {
                        None
                    },
            );
            labels.len() > 0 ==> label_of(node) == joined(labels, ", "@)
        }),
{
    rules(node);
    parameter_labels_are_filtered(node.children);
    let pick = |child: Cst|
        if label_of(child).len() > 0 && label_of(child) != child.node_type {
            Some(label_of(child))
        } else {
            None::<Seq<char>>
        };
    assert(pick =~= parameter_pick());
}

/// The label of a parameter, where it says more than its type.
spec fn parameter_pick() -> spec_fn(Cst) -> Option<Seq<char>> {
    |child: Cst|
        if label_of(child).len() > 0 && label_of(child) != child.node_type {
            Some(label_of(child))
        } else {
            None
        }
}

/// The labels of parameters are those that say more than their types.
proof fn parameter_labels_are_filtered(children: Seq<Cst>)
    ensures
        parameter_labels(children) == children.filter_map(parameter_pick()),
    decreases children.len(),
{
    if children.len() > 0 {
        let before = parameter_labels(children.drop_last());
        parameter_labels_are_filtered(children.drop_last());
        assert(before.push(label_of(children.last())) =~= before + seq![label_of(children.last())]);
    } else {
        assert(parameter_labels(children) =~= children.filter_map(parameter_pick()));
    }
}

/// The label of an export is the label of the first declaration in it.
pub proof fn exports_are_labelled_by_what_they_export(node: Cst, i: int)
    requires
        ({
            ||| node.node_type == "export_statement"@
            ||| node.node_type == "export_default_declaration"@
        }),
        0 <= i < node.children.len(),
        ({
            ||| node.children[i].node_type == "function_declaration"@
            ||| node.children[i].node_type == "async_function_declaration"@
            ||| node.children[i].node_type == "generator_function_declaration"@
            ||| node.children[i].node_type == "async_generator_function_declaration"@
            ||| node.children[i].node_type == "class_declaration"@
            ||| node.children[i].node_type == "abstract_class_declaration"@
            ||| node.children[i].node_type == "interface_declaration"@
            ||| node.children[i].node_type == "type_alias_declaration"@
            ||| node.children[i].node_type == "enum_declaration"@
            ||| node.children[i].node_type == "variable_declaration"@
            ||| node.children[i].node_type == "lexical_declaration"@
            ||| node.children[i].node_type == "variable_declarator"@
        }),
        forall|j: int|
            #![trigger node.children[j]]
            0 <= j < i ==> !({
                ||| node.children[j].node_type == "function_declaration"@
                ||| node.children[j].node_type == "async_function_declaration"@
                ||| node.children[j].node_type == "generator_function_declaration"@
                ||| node.children[j].node_type == "async_generator_function_declaration"@
                ||| node.children[j].node_type == "class_declaration"@
                ||| node.children[j].node_type == "abstract_class_declaration"@
                ||| node.children[j].node_type == "interface_declaration"@
                ||| node.children[j].node_type == "type_alias_declaration"@
                ||| node.children[j].node_type == "enum_declaration"@
                ||| node.children[j].node_type == "variable_declaration"@
                ||| node.children[j].node_type == "lexical_declaration"@
                ||| node.children[j].node_type == "variable_declarator"@
            }),
    ensures
        label_of(node) == label_of(node.children[i]),
{
    rules(node);
    exported_first(node.children, i);
}

/// The first child that is a declaration is the one that is found.
proof fn exported_first(children: Seq<Cst>, i: int)
    requires
        0 <= i < children.len(),
        exported(children[i].node_type),
        forall|j: int| 0 <= j < i ==> !exported((#[trigger] children[j]).node_type),
    ensures
        first_exported(children) == Some(i),
    decreases children.len(),
{
    let before = children.drop_last();
    if i < before.len() {
        assert(before[i] == children[i]);
        assert forall|j: int| 0 <= j < i implies !exported((#[trigger] before[j]).node_type) by {
            assert(before[j] == children[j]);
        }
        exported_first(before, i);
    } else {
        none_exported(before);
    }
}

/// Where no child is a declaration, none is found.
proof fn none_exported(children: Seq<Cst>)
    requires
        forall|j: int| 0 <= j < children.len() ==> !exported((#[trigger] children[j]).node_type),
    ensures
        first_exported(children) is None,
    decreases children.len(),
{
    if children.len() > 0 {
        let before = children.drop_last();
        assert forall|j: int| 0 <= j < before.len() implies !exported(
            (#[trigger] before[j]).node_type,
        ) by {
            assert(before[j] == children[j]);
        }
        none_exported(before);
        assert(!exported(children[children.len() - 1].node_type));
    }
}

/// The label of a `using` declaration is the first identifier that it binds, in a binding or
/// directly.
pub proof fn resources_are_labelled_by_what_they_bind(node: Cst, i: int, k: int)
    requires
        ({
            ||| node.node_type == "using_declaration"@
            ||| node.node_type == "await_using_declaration"@
        }),
        0 <= i < node.children.len(),
        ({
            ||| node.children[i].node_type == "identifier"@
            ||| node.children[i].node_type == "variable_declarator"@
        }),
        forall|j: int|
            0 <= j < i ==> (#[trigger] node.children[j]).node_type != "identifier"@ && (
            node.children[j].node_type == "variable_declarator"@ ==> lacks(
                node.children[j],
                "identifier"@,
            )),
        node.children[i].node_type == "variable_declarator"@ ==> 0 <= k
            < node.children[i].children.len() && node.children[i].children[k].node_type
            == "identifier"@ && forall|j: int|
            0 <= j < k ==> (#[trigger] node.children[i].children[j]).node_type != "identifier"@,
    ensures
        node.children[i].node_type == "identifier"@ ==> label_of(node)
            == node.children[i].text_or_empty(),
        node.children[i].node_type == "variable_declarator"@ ==> label_of(node)
            == node.children[i].children[k].text_or_empty(),
{
    rules(node);
    reveal_strlit("identifier");
    assert("identifier"@.len() == 10);
    reveal_strlit("variable_declarator");
    assert("variable_declarator"@.len() == 19);
    if node.children[i].node_type == "variable_declarator"@ {
        found_at(node.children[i].children, identifier_pick(), k);
    }
    assert forall|j: int| 0 <= j < i implies resource_pick()(#[trigger] node.children[j]) is None by {
        nothing_bound(node.children[j]);
    }
    found_at(node.children, resource_pick(), i);
}

/// The label of a node whose type has no rule of its own is the text of the first identifier in
/// it.
pub proof fn other_nodes_are_labelled_by_their_first_identifier(node: Cst, i: int)
    requires
        !({
            ||| node.node_type == "string"@
            ||| node.node_type == "template_string"@
            ||| node.node_type == "function_declaration"@
            ||| node.node_type == "async_function_declaration"@
            ||| node.node_type == "generator_function_declaration"@
            ||| node.node_type == "async_generator_function_declaration"@
            ||| node.node_type == "class_declaration"@
            ||| node.node_type == "abstract_class_declaration"@
            ||| node.node_type == "interface_declaration"@
            ||| node.node_type == "type_alias_declaration"@
            ||| node.node_type == "enum_declaration"@
            ||| node.node_type == "module"@
            ||| node.node_type == "method_definition"@
            ||| node.node_type == "async_method_definition"@
            ||| node.node_type == "field_definition"@
            ||| node.node_type == "method_signature"@
            ||| node.node_type == "property_signature"@
            ||| node.node_type == "abstract_method_signature"@
            ||| node.node_type == "variable_declarator"@
            ||| node.node_type == "import_specifier"@
            ||| node.node_type == "export_specifier"@
            ||| node.node_type == "namespace_import"@
            ||| node.node_type == "member_expression"@
            ||| node.node_type == "formal_parameters"@
            ||| node.node_type == "required_parameter"@
            ||| node.node_type == "optional_parameter"@
            ||| node.node_type == "rest_pattern"@
            ||| node.node_type == "import_statement"@
            ||| node.node_type == "export_statement"@
            ||| node.node_type == "export_default_declaration"@
            ||| node.node_type == "decorator"@
            ||| node.node_type == "jsx_opening_element"@
            ||| node.node_type == "jsx_self_closing_element"@
            ||| node.node_type == "using_declaration"@
            ||| node.node_type == "await_using_declaration"@
        }),
        0 <= i < node.children.len(),
        node.children[i].node_type == "identifier"@,
        forall|j: int| 0 <= j < i ==> (#[trigger] node.children[j]).node_type != "identifier"@,
    ensures
        label_of(node) == node.children[i].text_or_empty(),
{
    rules(node);
    found_at(node.children, identifier_pick(), i);
}

/// The label of an inner node without an identifier in it, whose type has no rule of its own, is
/// its type.
pub proof fn other_nodes_are_labelled_by_their_type(node: Cst)
    requires
        !({
            ||| node.node_type == "string"@
            ||| node.node_type == "template_string"@
            ||| node.node_type == "function_declaration"@
            ||| node.node_type == "async_function_declaration"@
            ||| node.node_type == "generator_function_declaration"@
            ||| node.node_type == "async_generator_function_declaration"@
            ||| node.node_type == "class_declaration"@
            ||| node.node_type == "abstract_class_declaration"@
            ||| node.node_type == "interface_declaration"@
            ||| node.node_type == "type_alias_declaration"@
            ||| node.node_type == "enum_declaration"@
            ||| node.node_type == "module"@
            ||| node.node_type == "method_definition"@
            ||| node.node_type == "async_method_definition"@
            ||| node.node_type == "field_definition"@
            ||| node.node_type == "method_signature"@
            ||| node.node_type == "property_signature"@
            ||| node.node_type == "abstract_method_signature"@
            ||| node.node_type == "variable_declarator"@
            ||| node.node_type == "import_specifier"@
            ||| node.node_type == "export_specifier"@
            ||| node.node_type == "namespace_import"@
            ||| node.node_type == "member_expression"@
            ||| node.node_type == "formal_parameters"@
            ||| node.node_type == "required_parameter"@
            ||| node.node_type == "optional_parameter"@
            ||| node.node_type == "rest_pattern"@
            ||| node.node_type == "import_statement"@
            ||| node.node_type == "export_statement"@
            ||| node.node_type == "export_default_declaration"@
            ||| node.node_type == "decorator"@
            ||| node.node_type == "jsx_opening_element"@
            ||| node.node_type == "jsx_self_closing_element"@
            ||| node.node_type == "using_declaration"@
            ||| node.node_type == "await_using_declaration"@
        }),
        node.children.len() > 0,
        forall|j: int|
            0 <= j < node.children.len() ==> (#[trigger] node.children[j]).node_type != "identifier"@,
    ensures
        label_of(node) == node.node_type,
{
    rules(node);
    nothing_found(node.children, identifier_pick());
}

/// Where the rule for the type of a node finds nothing, the node is labelled as one without a
/// rule: by the first identifier in it.
pub proof fn ruled_nodes_fall_back_to_their_first_identifier(node: Cst, i: int)
    requires
        ({
            ||| node.node_type == "string"@
            ||| node.node_type == "template_string"@
            ||| node.node_type == "member_expression"@
            ||| node.node_type == "formal_parameters"@
            ||| node.node_type == "export_statement"@
            ||| node.node_type == "export_default_declaration"@
            ||| node.node_type == "import_statement"@
        }),
        0 <= i < node.children.len(),
        node.children[i].node_type == "identifier"@,
        forall|j: int| 0 <= j < i ==> (#[trigger] node.children[j]).node_type != "identifier"@,
        ({
            ||| node.node_type == "string"@
            ||| node.node_type == "template_string"@
        }) ==> leaf_text_of(node).len() == 0,
        node.node_type == "member_expression"@ ==> forall|j: int|
            0 <= j < node.children.len() && ({
                ||| node.children[j].node_type == "identifier"@
                ||| node.children[j].node_type == "property_identifier"@
                ||| node.children[j].node_type == "private_property_identifier"@
                ||| node.children[j].node_type == "shorthand_property_identifier"@
                ||| node.children[j].node_type == "type_identifier"@
                ||| node.children[j].node_type == "statement_identifier"@
            }) ==> (
            #[trigger] node.children[j]).text_or_empty().len() == 0,
        node.node_type == "formal_parameters"@ ==> forall|j: int|
            0 <= j < node.children.len() ==> label_of(#[trigger] node.children[j]).len() == 0
                || label_of(node.children[j]) == node.children[j].node_type,
        ({
            ||| node.node_type == "export_statement"@
            ||| node.node_type == "export_default_declaration"@
        }) ==> forall|j: int|
            #![trigger node.children[j]]
            0 <= j < node.children.len() ==> !({
                ||| node.children[j].node_type == "function_declaration"@
                ||| node.children[j].node_type == "async_function_declaration"@
                ||| node.children[j].node_type == "generator_function_declaration"@
                ||| node.children[j].node_type == "async_generator_function_declaration"@
                ||| node.children[j].node_type == "class_declaration"@
                ||| node.children[j].node_type == "abstract_class_declaration"@
                ||| node.children[j].node_type == "interface_declaration"@
                ||| node.children[j].node_type == "type_alias_declaration"@
                ||| node.children[j].node_type == "enum_declaration"@
                ||| node.children[j].node_type == "variable_declaration"@
                ||| node.children[j].node_type == "lexical_declaration"@
                ||| node.children[j].node_type == "variable_declarator"@
            }),
        node.node_type == "import_statement"@ ==> forall|j: int|
            0 <= j < node.children.len() ==> (#[trigger] node.children[j]).node_type != "string"@,
    ensures
        label_of(node) == node.children[i].text_or_empty(),
{
    rules(node);
    the_rule_finds_nothing(node);
    found_at(node.children, identifier_pick(), i);
}

/// Where the rule for the type of a node finds nothing, and there is no identifier in it, the node
/// is labelled by its type.
pub proof fn ruled_nodes_fall_back_to_their_type(node: Cst)
    requires
        ({
            ||| node.node_type == "string"@
            ||| node.node_type == "template_string"@
            ||| node.node_type == "function_declaration"@
            ||| node.node_type == "async_function_declaration"@
            ||| node.node_type == "generator_function_declaration"@
            ||| node.node_type == "async_generator_function_declaration"@
            ||| node.node_type == "class_declaration"@
            ||| node.node_type == "abstract_class_declaration"@
            ||| node.node_type == "interface_declaration"@
            ||| node.node_type == "type_alias_declaration"@
            ||| node.node_type == "enum_declaration"@
            ||| node.node_type == "module"@
            ||| node.node_type == "method_definition"@
            ||| node.node_type == "async_method_definition"@
            ||| node.node_type == "field_definition"@
            ||| node.node_type == "method_signature"@
            ||| node.node_type == "property_signature"@
            ||| node.node_type == "abstract_method_signature"@
            ||| node.node_type == "variable_declarator"@
            ||| node.node_type == "import_specifier"@
            ||| node.node_type == "export_specifier"@
            ||| node.node_type == "namespace_import"@
            ||| node.node_type == "member_expression"@
            ||| node.node_type == "formal_parameters"@
            ||| node.node_type == "required_parameter"@
            ||| node.node_type == "optional_parameter"@
            ||| node.node_type == "rest_pattern"@
            ||| node.node_type == "import_statement"@
            ||| node.node_type == "export_statement"@
            ||| node.node_type == "export_default_declaration"@
            ||| node.node_type == "decorator"@
            ||| node.node_type == "jsx_opening_element"@
            ||| node.node_type == "jsx_self_closing_element"@
            ||| node.node_type == "using_declaration"@
            ||| node.node_type == "await_using_declaration"@
        }),
        node.children.len() > 0,
        forall|j: int|
            0 <= j < node.children.len() ==> (#[trigger] node.children[j]).node_type != "identifier"@,
        ({
            ||| node.node_type == "string"@
            ||| node.node_type == "template_string"@
        }) ==> leaf_text_of(node).len() == 0,
        node.node_type == "member_expression"@ ==> forall|j: int|
            0 <= j < node.children.len() && ({
                ||| node.children[j].node_type == "identifier"@
                ||| node.children[j].node_type == "property_identifier"@
                ||| node.children[j].node_type == "private_property_identifier"@
                ||| node.children[j].node_type == "shorthand_property_identifier"@
                ||| node.children[j].node_type == "type_identifier"@
                ||| node.children[j].node_type == "statement_identifier"@
            }) ==> (
            #[trigger] node.children[j]).text_or_empty().len() == 0,
        node.node_type == "formal_parameters"@ ==> forall|j: int|
            0 <= j < node.children.len() ==> label_of(#[trigger] node.children[j]).len() == 0
                || label_of(node.children[j]) == node.children[j].node_type,
        ({
            ||| node.node_type == "export_statement"@
            ||| node.node_type == "export_default_declaration"@
        }) ==> forall|j: int|
            #![trigger node.children[j]]
            0 <= j < node.children.len() ==> !({
                ||| node.children[j].node_type == "function_declaration"@
                ||| node.children[j].node_type == "async_function_declaration"@
                ||| node.children[j].node_type == "generator_function_declaration"@
                ||| node.children[j].node_type == "async_generator_function_declaration"@
                ||| node.children[j].node_type == "class_declaration"@
                ||| node.children[j].node_type == "abstract_class_declaration"@
                ||| node.children[j].node_type == "interface_declaration"@
                ||| node.children[j].node_type == "type_alias_declaration"@
                ||| node.children[j].node_type == "enum_declaration"@
                ||| node.children[j].node_type == "variable_declaration"@
                ||| node.children[j].node_type == "lexical_declaration"@
                ||| node.children[j].node_type == "variable_declarator"@
            }),
        node.node_type == "import_statement"@ ==> forall|j: int|
            0 <= j < node.children.len() ==> (#[trigger] node.children[j]).node_type != "string"@,
        ({
            ||| node.node_type == "function_declaration"@
            ||| node.node_type == "async_function_declaration"@
            ||| node.node_type == "generator_function_declaration"@
            ||| node.node_type == "async_generator_function_declaration"@
            ||| node.node_type == "class_declaration"@
            ||| node.node_type == "abstract_class_declaration"@
            ||| node.node_type == "interface_declaration"@
            ||| node.node_type == "type_alias_declaration"@
            ||| node.node_type == "enum_declaration"@
            ||| node.node_type == "module"@
        }) ==> forall|j: int|
            0 <= j < node.children.len() ==> (#[trigger] node.children[j]).node_type != "type_identifier"@,
        ({
            ||| node.node_type == "method_definition"@
            ||| node.node_type == "async_method_definition"@
            ||| node.node_type == "field_definition"@
            ||| node.node_type == "method_signature"@
            ||| node.node_type == "property_signature"@
            ||| node.node_type == "abstract_method_signature"@
        }) ==> forall|j: int|
            #![trigger node.children[j]]
            0 <= j < node.children.len() ==> !({
                ||| node.children[j].node_type == "property_identifier"@
                ||| node.children[j].node_type == "identifier"@
                ||| node.children[j].node_type == "string"@
                ||| node.children[j].node_type == "computed_property_name"@
                ||| node.children[j].node_type == "private_property_identifier"@
            }),
        ({
            ||| node.node_type == "required_parameter"@
            ||| node.node_type == "optional_parameter"@
            ||| node.node_type == "rest_pattern"@
        }) ==> forall|j: int|
            #![trigger node.children[j]]
            0 <= j < node.children.len() ==> !({
                ||| node.children[j].node_type == "identifier"@
                ||| node.children[j].node_type == "property_identifier"@
                ||| node.children[j].node_type == "private_property_identifier"@
                ||| node.children[j].node_type == "shorthand_property_identifier"@
                ||| node.children[j].node_type == "type_identifier"@
                ||| node.children[j].node_type == "statement_identifier"@
            }),
        ({
            ||| node.node_type == "jsx_opening_element"@
            ||| node.node_type == "jsx_self_closing_element"@
        }) ==> forall|j: int|
            #![trigger node.children[j]]
            0 <= j < node.children.len() ==> !({
                ||| node.children[j].node_type == "member_expression"@
                ||| node.children[j].node_type == "nested_identifier"@
            }),
        node.node_type == "decorator"@ ==> forall|j: int|
            0 <= j < node.children.len() ==> (#[trigger] node.children[j]).node_type
                != "member_expression"@ && (node.children[j].node_type == "call_expression"@
                ==> lacks(node.children[j], "identifier"@) && lacks(
                node.children[j],
                "member_expression"@,
            )),
        ({
            ||| node.node_type == "using_declaration"@
            ||| node.node_type == "await_using_declaration"@
        }) ==> forall|j: int|
            0 <= j < node.children.len() && (#[trigger] node.children[j]).node_type
                == "variable_declarator"@ ==> lacks(node.children[j], "identifier"@),
    ensures
        label_of(node) == node.node_type,
{
    rules(node);
    if ({
        ||| node.node_type == "string"@
        ||| node.node_type == "template_string"@
        ||| node.node_type == "member_expression"@
        ||| node.node_type == "formal_parameters"@
        ||| node.node_type == "export_statement"@
        ||| node.node_type == "export_default_declaration"@
        ||| node.node_type == "import_statement"@
    }) {
        the_rule_finds_nothing(node);
    } else if node.node_type == "decorator"@ {
        assert forall|j: int| 0 <= j < node.children.len() implies decorator_pick()(
            #[trigger] node.children[j],
        ) is None by {
            nothing_called(node.children[j]);
        }
        nothing_found(node.children, decorator_pick());
    } else if ({
        ||| node.node_type == "using_declaration"@
        ||| node.node_type == "await_using_declaration"@
    }) {
        assert forall|j: int| 0 <= j < node.children.len() implies resource_pick()(
            #[trigger] node.children[j],
        ) is None by {
            nothing_bound(node.children[j]);
        }
        nothing_found(node.children, resource_pick());
    } else {
        assert forall|j: int| 0 <= j < node.children.len() implies !names_node(
            node.node_type,
            (#[trigger] node.children[j]).node_type,
        ) by {
            naming_children(node.node_type, node.children[j].node_type);
        }
        nothing_found(node.children, name_pick(node.node_type));
    }
    nothing_found(node.children, identifier_pick());
}

/// Where the rule for the type of a node finds nothing, it gives no label.
proof fn the_rule_finds_nothing(node: Cst)
    requires
        ({
            ||| node.node_type == "string"@
            ||| node.node_type == "template_string"@
            ||| node.node_type == "member_expression"@
            ||| node.node_type == "formal_parameters"@
            ||| node.node_type == "export_statement"@
            ||| node.node_type == "export_default_declaration"@
            ||| node.node_type == "import_statement"@
        }),
        ({
            ||| node.node_type == "string"@
            ||| node.node_type == "template_string"@
        }) ==> leaf_text_of(node).len() == 0,
        node.node_type == "member_expression"@ ==> forall|j: int|
            0 <= j < node.children.len() && ({
                ||| node.children[j].node_type == "identifier"@
                ||| node.children[j].node_type == "property_identifier"@
                ||| node.children[j].node_type == "private_property_identifier"@
                ||| node.children[j].node_type == "shorthand_property_identifier"@
                ||| node.children[j].node_type == "type_identifier"@
                ||| node.children[j].node_type == "statement_identifier"@
            }) ==> (
            #[trigger] node.children[j]).text_or_empty().len() == 0,
        node.node_type == "formal_parameters"@ ==> forall|j: int|
            0 <= j < node.children.len() ==> label_of(#[trigger] node.children[j]).len() == 0
                || label_of(node.children[j]) == node.children[j].node_type,
        ({
            ||| node.node_type == "export_statement"@
            ||| node.node_type == "export_default_declaration"@
        }) ==> forall|j: int|
            #![trigger node.children[j]]
            0 <= j < node.children.len() ==> !({
                ||| node.children[j].node_type == "function_declaration"@
                ||| node.children[j].node_type == "async_function_declaration"@
                ||| node.children[j].node_type == "generator_function_declaration"@
                ||| node.children[j].node_type == "async_generator_function_declaration"@
                ||| node.children[j].node_type == "class_declaration"@
                ||| node.children[j].node_type == "abstract_class_declaration"@
                ||| node.children[j].node_type == "interface_declaration"@
                ||| node.children[j].node_type == "type_alias_declaration"@
                ||| node.children[j].node_type == "enum_declaration"@
                ||| node.children[j].node_type == "variable_declaration"@
                ||| node.children[j].node_type == "lexical_declaration"@
                ||| node.children[j].node_type == "variable_declarator"@
            }),
        node.node_type == "import_statement"@ ==> forall|j: int|
            0 <= j < node.children.len() ==> (#[trigger] node.children[j]).node_type != "string"@,
    ensures
        own_label(node) is None,
{
    rules(node);
    if node.node_type == "member_expression"@ {
        nothing_picked(node.children, part_pick());
    } else if node.node_type == "formal_parameters"@ {
        parameter_labels_are_filtered(node.children);
        nothing_picked(node.children, parameter_pick());
        every_some_is_filter_map(node.children, parameter_pick());
    } else if ({
        ||| node.node_type == "export_statement"@
        ||| node.node_type == "export_default_declaration"@
    }) {
        none_exported(node.children);
    } else if node.node_type == "import_statement"@ {
        assert forall|j: int| 0 <= j < node.children.len() implies !names_node(
            node.node_type,
            (#[trigger] node.children[j]).node_type,
        ) by {
            naming_children(node.node_type, node.children[j].node_type);
        }
        nothing_found(node.children, name_pick(node.node_type));
    }
}

/// Where no child gives anything, nothing is picked.
proof fn nothing_picked(children: Seq<Cst>, pick: spec_fn(Cst) -> Option<Seq<char>>)
    requires
        forall|j: int| 0 <= j < children.len() ==> pick(#[trigger] children[j]) is None,
    ensures
        every_some(children, pick).len() == 0,
    decreases children.len(),
{
    if children.len() > 0 {
        let before = children.drop_last();
        assert forall|j: int| 0 <= j < before.len() implies pick(#[trigger] before[j]) is None by {
            assert(before[j] == children[j]);
        }
        nothing_picked(before, pick);
        assert(pick(children[children.len() - 1]) is None);
    }
}

/// What names another reads as its text, where it has one. A path without a text of its own reads
/// as what stands before its last name, with a full stop and that name behind it.
pub proof fn paths_read_from_left_to_right(node: Cst)
    ensures
        node.text is Some ==> name_text_of(node) == node.text->0,
        node.text is None && ({
            ||| node.node_type == "member_expression"@
            ||| node.node_type == "nested_identifier"@
        }) && node.children.len() == 2 && ({
            let (outer, last) = (node.children[0], node.children[1]);
            &&& ({
            ||| outer.node_type == "identifier"@
            ||| outer.node_type == "member_expression"@
            ||| outer.node_type == "nested_identifier"@
        })
            &&& name_text_of(outer).len() > 0
            &&& ({
            ||| last.node_type == "identifier"@
            ||| last.node_type == "property_identifier"@
            ||| last.node_type == "private_property_identifier"@
            ||| last.node_type == "shorthand_property_identifier"@
            ||| last.node_type == "type_identifier"@
            ||| last.node_type == "statement_identifier"@
        })
            &&& last.text_or_empty().len() > 0
        }) ==> name_text_of(node) == name_text_of(node.children[0]) + "."@
            + node.children[1].text_or_empty(),
{
    if node.text is None && ({
        ||| node.node_type == "member_expression"@
        ||| node.node_type == "nested_identifier"@
    }) && node.children.len() == 2 {
        let (outer, last) = (node.children[0], node.children[1]);
        if ({
            ||| last.node_type == "identifier"@
            ||| last.node_type == "property_identifier"@
            ||| last.node_type == "private_property_identifier"@
            ||| last.node_type == "shorthand_property_identifier"@
            ||| last.node_type == "type_identifier"@
            ||| last.node_type == "statement_identifier"@
        }) && last.text_or_empty().len() > 0
            && ({
            ||| outer.node_type == "identifier"@
            ||| outer.node_type == "member_expression"@
            ||| outer.node_type == "nested_identifier"@
        }) && name_text_of(outer).len() > 0 {
            let one = node.children.drop_last();
            assert(one.last() == outer && one.drop_last().len() == 0);
            assert(parts_of_all(one.drop_last()) =~= Seq::<Seq<char>>::empty());
            assert(parts_of_all(one) =~= parts_of(outer));
            assert(parts_of(node) == parts_of_all(node.children));
            assert(parts_of_all(node.children) == parts_of_all(one) + parts_of(last));
            identifiers_are_no_paths(last.node_type);
            identifiers_are_no_paths(outer.node_type);
            let before = parts_of(outer);
            assert(parts_of(last) == seq![last.text_or_empty()]);
            assert(parts_of(node) =~= before + parts_of(last));
            if outer.text is None && !dotted(outer.node_type) {
                identifiers_read_as_their_text(outer);
            }
            assert(name_text_of(outer) == joined(before, "."@));
            assert(before.len() > 0);
            joining_is_piecewise(before, parts_of(last), "."@);
            joining_is_piecewise(parts_of(last), before, "."@);
        }
    }
}

/// A name is no path.
proof fn identifiers_are_no_paths(node_type: Seq<char>)
    ensures
        ({
            ||| node_type == "identifier"@
            ||| node_type == "property_identifier"@
            ||| node_type == "private_property_identifier"@
            ||| node_type == "shorthand_property_identifier"@
            ||| node_type == "type_identifier"@
            ||| node_type == "statement_identifier"@
        }) ==> !dotted(node_type),
{
    reveal_strlit("identifier");
    assert("identifier"@.len() == 10);
    reveal_strlit("property_identifier");
    assert("property_identifier"@.len() == 19);
    reveal_strlit("private_property_identifier");
    assert("private_property_identifier"@.len() == 27);
    reveal_strlit("shorthand_property_identifier");
    assert("shorthand_property_identifier"@.len() == 29);
    reveal_strlit("type_identifier");
    assert("type_identifier"@.len() == 15);
    reveal_strlit("statement_identifier");
    assert("statement_identifier"@.len() == 20);
    reveal_strlit("member_expression");
    assert("member_expression"@.len() == 17);
    reveal_strlit("nested_identifier");
    assert("nested_identifier"@.len() == 17);
    assert("member_expression"@[0] != "nested_identifier"@[0]);
}

} // verus!
