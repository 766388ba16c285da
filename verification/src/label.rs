//! The human-readable label of a node.

use vstd::prelude::*;

use crate::cst::{cst_child, optional_text, Cst, CstNode};
use crate::text::{join, joined, texts};
use crate::vocabulary::{is_signature_name_leaf, signature_name_leaf};

verus! {

broadcast use cst_child;

/// The text of the leaves under a node, in order.
pub open spec fn leaf_text_of(node: Cst) -> Seq<char>
    decreases node,
{
    if node.leaf() {
        node.text_or_empty()
    } else {
        leaf_texts_of(node.children)
    }
}

/// The text of the leaves under some nodes, in order.
pub open spec fn leaf_texts_of(nodes: Seq<Cst>) -> Seq<char>
    decreases nodes,
{
    if nodes.len() == 0 {
        Seq::empty()
    } else {
        leaf_texts_of(nodes.drop_last()) + leaf_text_of(nodes.last())
    }
}

/// What the first child gives for which `pick` gives anything.
pub open spec fn first_some(
    children: Seq<Cst>,
    pick: spec_fn(Cst) -> Option<Seq<char>>,
) -> Option<Seq<char>>
    decreases children.len(),
{
    if children.len() == 0 {
        None
    } else {
        match pick(children[0]) {
            Some(text) => Some(text),
            None => first_some(children.drop_first(), pick),
        }
    }
}

/// What the children give for which `pick` gives anything, in order.
pub open spec fn every_some(
    children: Seq<Cst>,
    pick: spec_fn(Cst) -> Option<Seq<char>>,
) -> Seq<Seq<char>>
    decreases children.len(),
{
    if children.len() == 0 {
        Seq::empty()
    } else {
        let before = every_some(children.drop_last(), pick);
        match pick(children.last()) {
            Some(text) => before.push(text),
            None => before,
        }
    }
}

/// The text of the leaves under `node`, in order.
pub fn leaf_text(node: &CstNode) -> (r: String)
    ensures
        r@ == leaf_text_of(node@),
    decreases node,
{
    if node.is_leaf() {
        return node.text_or_empty().to_owned();
    }
    let mut r = String::new();
    let mut i: usize = 0;
    while i < node.children.len()
        invariant
            i <= node.children.len(),
            r@ == leaf_texts_of(node@.children.take(i as int)),
        decreases node.children.len() - i,
    {
        assert(node@.children.take(i + 1).drop_last() == node@.children.take(i as int));
        r.append(leaf_text(&node.children[i]).as_str());
        i += 1;
    }
    assert(node@.children.take(node.children.len() as int) == node@.children);
    r
}

/// Whether a node of this type is a path of names, written with full stops.
pub open spec fn dotted(node_type: Seq<char>) -> bool {
    ||| node_type == "member_expression"@
    ||| node_type == "nested_identifier"@
}

/// Whether a node of this type is a path of names, written with full stops.
fn is_dotted(node_type: &str) -> (r: bool)
    ensures
        r == dotted(node_type@),
{
    *node_type == *"member_expression"
        || *node_type == *"nested_identifier"
}

/// The names along a path, from the outermost on; the one name, where the node is no path but
/// a name.
pub open spec fn parts_of(node: Cst) -> Seq<Seq<char>>
    decreases node,
{
    if dotted(node.node_type) && node.text is None {
        parts_of_all(node.children)
    } else if (dotted(node.node_type) || signature_name_leaf(node.node_type))
        && node.text_or_empty().len() > 0 {
        seq![node.text_or_empty()]
    } else {
        Seq::empty()
    }
}

/// The names along some paths, in order.
pub open spec fn parts_of_all(nodes: Seq<Cst>) -> Seq<Seq<char>>
    decreases nodes,
{
    if nodes.len() == 0 {
        Seq::empty()
    } else {
        parts_of_all(nodes.drop_last()) + parts_of(nodes.last())
    }
}

/// What a node reads as where it names another: its text; where it has none, the parts of a path
/// with full stops between them, and all that stands in a string.
pub open spec fn name_text_of(node: Cst) -> Seq<char> {
    match node.text {
        Some(text) => text,
        None => if dotted(node.node_type) {
            joined(parts_of(node), "."@)
        } else if node.node_type == "string"@ {
            leaf_text_of(node)
        } else {
            Seq::empty()
        },
    }
}

/// Adds to `parts` the names along a path.
fn add_parts(node: &CstNode, parts: &mut Vec<String>)
    ensures
        texts(final(parts)@) == texts(old(parts)@) + parts_of(node@),
    decreases node,
{
    let node_type = node.node_type.as_str();
    let text = node.text_or_empty();
    if is_dotted(node_type) && node.text.is_none() {
        let ghost before = texts(parts@);
        assert(before + parts_of_all(node@.children.take(0)) =~= before);
        let mut i: usize = 0;
        while i < node.children.len()
            invariant
                i <= node.children.len(),
                texts(parts@) == before + parts_of_all(node@.children.take(i as int)),
            decreases node.children.len() - i,
        {
            assert(node@.children.take(i + 1).drop_last() == node@.children.take(i as int));
            add_parts(&node.children[i], parts);
            i += 1;
        }
        assert(node@.children.take(node.children.len() as int) == node@.children);
    } else if (is_dotted(node_type) || is_signature_name_leaf(node_type)) && !text.is_empty() {
        parts.push(text.to_owned());
    }
}

/// What a node reads as where it names another.
fn name_text(node: &CstNode) -> (r: String)
    ensures
        r@ == name_text_of(node@),
{
    if node.text.is_some() {
        return node.text_or_empty().to_owned();
    }
    let node_type = node.node_type.as_str();
    if is_dotted(node_type) {
        let mut parts: Vec<String> = Vec::new();
        add_parts(node, &mut parts);
        assert(texts(parts@) =~= parts_of(node@));
        join(&parts, ".")
    } else if *node_type == *"string" {
        leaf_text(node)
    } else {
        String::new()
    }
}

/// Whether a node of this type declares a name of its own.
pub open spec fn declaration(node_type: Seq<char>) -> bool {
    ||| node_type == "function_declaration"@
    ||| node_type == "async_function_declaration"@
    ||| node_type == "generator_function_declaration"@
    ||| node_type == "async_generator_function_declaration"@
    ||| node_type == "class_declaration"@
    ||| node_type == "abstract_class_declaration"@
    ||| node_type == "interface_declaration"@
    ||| node_type == "type_alias_declaration"@
    ||| node_type == "enum_declaration"@
    ||| node_type == "module"@
}

/// Whether a node of this type declares a name of its own.
fn is_declaration(node_type: &str) -> (r: bool)
    ensures
        r == declaration(node_type@),
{
    *node_type == *"function_declaration"
        || *node_type == *"async_function_declaration"
        || *node_type == *"generator_function_declaration"
        || *node_type == *"async_generator_function_declaration"
        || *node_type == *"class_declaration"
        || *node_type == *"abstract_class_declaration"
        || *node_type == *"interface_declaration"
        || *node_type == *"type_alias_declaration"
        || *node_type == *"enum_declaration"
        || *node_type == *"module"
}

/// Whether a node of this type is a member of a class or of an interface.
pub open spec fn member(node_type: Seq<char>) -> bool {
    ||| node_type == "method_definition"@
    ||| node_type == "async_method_definition"@
    ||| node_type == "field_definition"@
    ||| node_type == "method_signature"@
    ||| node_type == "property_signature"@
    ||| node_type == "abstract_method_signature"@
}

/// Whether a node of this type is a member of a class or of an interface.
fn is_member(node_type: &str) -> (r: bool)
    ensures
        r == member(node_type@),
{
    *node_type == *"method_definition"
        || *node_type == *"async_method_definition"
        || *node_type == *"field_definition"
        || *node_type == *"method_signature"
        || *node_type == *"property_signature"
        || *node_type == *"abstract_method_signature"
}

/// Whether a child of this type is the name of a member.
pub open spec fn member_name(node_type: Seq<char>) -> bool {
    ||| node_type == "property_identifier"@
    ||| node_type == "identifier"@
    ||| node_type == "string"@
    ||| node_type == "computed_property_name"@
    ||| node_type == "private_property_identifier"@
}

/// Whether a child of this type is the name of a member.
fn is_member_name(node_type: &str) -> (r: bool)
    ensures
        r == member_name(node_type@),
{
    *node_type == *"property_identifier"
        || *node_type == *"identifier"
        || *node_type == *"string"
        || *node_type == *"computed_property_name"
        || *node_type == *"private_property_identifier"
}

/// Whether a node of this type is called by its first identifier.
pub open spec fn binding(node_type: Seq<char>) -> bool {
    ||| node_type == "variable_declarator"@
    ||| node_type == "import_specifier"@
    ||| node_type == "export_specifier"@
    ||| node_type == "namespace_import"@
}

/// Whether a node of this type is called by its first identifier.
fn is_binding(node_type: &str) -> (r: bool)
    ensures
        r == binding(node_type@),
{
    *node_type == *"variable_declarator"
        || *node_type == *"import_specifier"
        || *node_type == *"export_specifier"
        || *node_type == *"namespace_import"
}

/// Whether a node of this type is one parameter.
pub open spec fn parameter(node_type: Seq<char>) -> bool {
    ||| node_type == "required_parameter"@
    ||| node_type == "optional_parameter"@
    ||| node_type == "rest_pattern"@
}

/// Whether a node of this type is one parameter.
fn is_parameter(node_type: &str) -> (r: bool)
    ensures
        r == parameter(node_type@),
{
    *node_type == *"required_parameter"
        || *node_type == *"optional_parameter"
        || *node_type == *"rest_pattern"
}

/// Whether a node of this type is a JSX tag.
pub open spec fn tag(node_type: Seq<char>) -> bool {
    ||| node_type == "jsx_opening_element"@
    ||| node_type == "jsx_self_closing_element"@
}

/// Whether a node of this type is a JSX tag.
fn is_tag(node_type: &str) -> (r: bool)
    ensures
        r == tag(node_type@),
{
    *node_type == *"jsx_opening_element"
        || *node_type == *"jsx_self_closing_element"
}

/// Whether a child of this type is the name of a JSX tag.
pub open spec fn tag_name(node_type: Seq<char>) -> bool {
    ||| node_type == "identifier"@
    ||| node_type == "member_expression"@
    ||| node_type == "nested_identifier"@
}

/// Whether a child of this type is the name of a JSX tag.
fn is_tag_name(node_type: &str) -> (r: bool)
    ensures
        r == tag_name(node_type@),
{
    *node_type == *"identifier"
        || *node_type == *"member_expression"
        || *node_type == *"nested_identifier"
}

/// Whether a node of this type is a string.
pub open spec fn quoted(node_type: Seq<char>) -> bool {
    ||| node_type == "string"@
    ||| node_type == "template_string"@
}

/// Whether a node of this type is a string.
fn is_quoted(node_type: &str) -> (r: bool)
    ensures
        r == quoted(node_type@),
{
    *node_type == *"string"
        || *node_type == *"template_string"
}

/// Whether a node of this type exports something.
pub open spec fn export(node_type: Seq<char>) -> bool {
    ||| node_type == "export_statement"@
    ||| node_type == "export_default_declaration"@
}

/// Whether a node of this type exports something.
fn is_export(node_type: &str) -> (r: bool)
    ensures
        r == export(node_type@),
{
    *node_type == *"export_statement"
        || *node_type == *"export_default_declaration"
}

/// Whether a child of this type is a declaration that an export takes its label from.
pub open spec fn exported(node_type: Seq<char>) -> bool {
    ||| node_type == "function_declaration"@
    ||| node_type == "async_function_declaration"@
    ||| node_type == "generator_function_declaration"@
    ||| node_type == "async_generator_function_declaration"@
    ||| node_type == "class_declaration"@
    ||| node_type == "abstract_class_declaration"@
    ||| node_type == "interface_declaration"@
    ||| node_type == "type_alias_declaration"@
    ||| node_type == "enum_declaration"@
    ||| node_type == "variable_declaration"@
    ||| node_type == "lexical_declaration"@
    ||| node_type == "variable_declarator"@
}

/// Whether a child of this type is a declaration that an export takes its label from.
fn is_exported(node_type: &str) -> (r: bool)
    ensures
        r == exported(node_type@),
{
    *node_type == *"function_declaration"
        || *node_type == *"async_function_declaration"
        || *node_type == *"generator_function_declaration"
        || *node_type == *"async_generator_function_declaration"
        || *node_type == *"class_declaration"
        || *node_type == *"abstract_class_declaration"
        || *node_type == *"interface_declaration"
        || *node_type == *"type_alias_declaration"
        || *node_type == *"enum_declaration"
        || *node_type == *"variable_declaration"
        || *node_type == *"lexical_declaration"
        || *node_type == *"variable_declarator"
}

/// Whether a node of this type is a `using` declaration.
pub open spec fn resource(node_type: Seq<char>) -> bool {
    ||| node_type == "using_declaration"@
    ||| node_type == "await_using_declaration"@
}

/// Whether a node of this type is a `using` declaration.
fn is_resource(node_type: &str) -> (r: bool)
    ensures
        r == resource(node_type@),
{
    *node_type == *"using_declaration"
        || *node_type == *"await_using_declaration"
}

/// Whether a node of type `node_type` is called by its first child of type `child_type`.
pub open spec fn names_node(node_type: Seq<char>, child_type: Seq<char>) -> bool {
    if declaration(node_type) {
        child_type == "identifier"@ || child_type == "type_identifier"@
    } else if member(node_type) {
        member_name(child_type)
    } else if binding(node_type) {
        child_type == "identifier"@
    } else if parameter(node_type) {
        signature_name_leaf(child_type)
    } else if node_type == "import_statement"@ {
        child_type == "string"@
    } else if tag(node_type) {
        tag_name(child_type)
    } else {
        false
    }
}

/// Whether a node of type `node_type` is called by its first child of type `child_type`.
fn is_name_of(node_type: &str, child_type: &str) -> (r: bool)
    ensures
        r == names_node(node_type@, child_type@),
{
    if is_declaration(node_type) {
        *child_type == *"identifier" || *child_type == *"type_identifier"
    } else if is_member(node_type) {
        is_member_name(child_type)
    } else if is_binding(node_type) {
        *child_type == *"identifier"
    } else if is_parameter(node_type) {
        is_signature_name_leaf(child_type)
    } else if *node_type == *"import_statement" {
        *child_type == *"string"
    } else if is_tag(node_type) {
        is_tag_name(child_type)
    } else {
        false
    }
}

/// What a child reads as by which a node of type `node_type` is called. A member is called by
/// the text of its name alone: where that is put together of other nodes, by nothing.
pub open spec fn name_pick(node_type: Seq<char>) -> spec_fn(Cst) -> Option<Seq<char>> {
    |child: Cst|
        if names_node(node_type, child.node_type) {
            Some(
                if member(node_type) {
                    child.text_or_empty()
                } else {
                    name_text_of(child)
                },
            )
        } else {
            None
        }
}

/// The text of an identifier.
pub open spec fn identifier_pick() -> spec_fn(Cst) -> Option<Seq<char>> {
    |child: Cst|
        if child.node_type == "identifier"@ {
            Some(child.text_or_empty())
        } else {
            None
        }
}

/// The name of the function that a call calls.
pub open spec fn callee_pick() -> spec_fn(Cst) -> Option<Seq<char>> {
    |child: Cst|
        if child.node_type == "identifier"@ || child.node_type == "member_expression"@ {
            Some(name_text_of(child))
        } else {
            None
        }
}

/// The name of a decorator, bare or called with arguments.
pub open spec fn decorator_pick() -> spec_fn(Cst) -> Option<Seq<char>> {
    |child: Cst|
        if child.node_type == "identifier"@ || child.node_type == "member_expression"@ {
            Some(name_text_of(child))
        } else if child.node_type == "call_expression"@ {
            first_some(child.children, callee_pick())
        } else {
            None
        }
}

/// The name that a `using` declaration binds.
pub open spec fn resource_pick() -> spec_fn(Cst) -> Option<Seq<char>> {
    |child: Cst|
        if child.node_type == "variable_declarator"@ {
            first_some(child.children, identifier_pick())
        } else if child.node_type == "identifier"@ {
            Some(child.text_or_empty())
        } else {
            None
        }
}

/// One part of a dotted path.
pub open spec fn part_pick() -> spec_fn(Cst) -> Option<Seq<char>> {
    |child: Cst|
        if signature_name_leaf(child.node_type) && child.text_or_empty().len() > 0 {
            Some(child.text_or_empty())
        } else {
            None
        }
}

/// The index of the first child that an export takes its label from.
pub open spec fn first_exported(children: Seq<Cst>) -> Option<int>
    decreases children.len(),
{
    if children.len() == 0 {
        None
    } else {
        match first_exported(children.drop_last()) {
            Some(i) => Some(i),
            None => if exported(children.last().node_type) {
                Some(children.len() - 1)
            } else {
                None
            },
        }
    }
}

/// The labels of parameters; one that says no more than its node type is left out.
pub open spec fn parameter_labels(children: Seq<Cst>) -> Seq<Seq<char>>
    decreases children,
{
    if children.len() == 0 {
        Seq::empty()
    } else {
        let before = parameter_labels(children.drop_last());
        let label = label_of(children.last());
        if label.len() == 0 || label == children.last().node_type {
            before
        } else {
            before.push(label)
        }
    }
}

/// The label that the type of an inner node has a rule for, where the rule finds one.
pub open spec fn own_label(node: Cst) -> Option<Seq<char>>
    decreases node, 0nat,
{
    if quoted(node.node_type) {
        if leaf_text_of(node).len() > 0 {
            Some(leaf_text_of(node))
        } else {
            None
        }
    } else if node.node_type == "member_expression"@ {
        let parts = every_some(node.children, part_pick());
        if parts.len() > 0 {
            Some(joined(parts, "."@))
        } else {
            None
        }
    } else if node.node_type == "formal_parameters"@ {
        let labels = parameter_labels(node.children);
        if labels.len() > 0 {
            Some(joined(labels, ", "@))
        } else {
            None
        }
    } else if export(node.node_type) {
        match first_exported(node.children) {
            Some(i) => if 0 <= i < node.children.len() {
                Some(label_of(node.children[i]))
            } else {
                None
            },
            None => None,
        }
    } else if node.node_type == "decorator"@ {
        first_some(node.children, decorator_pick())
    } else if resource(node.node_type) {
        first_some(node.children, resource_pick())
    } else {
        first_some(node.children, name_pick(node.node_type))
    }
}

/// The label of a node: the text of a leaf; of an inner node, the label that the rule for
/// its type finds, else the text of its first identifier, else its type.
pub open spec fn label_of(node: Cst) -> Seq<char>
    decreases node, 1nat,
{
    if node.leaf() {
        node.text_or_empty()
    } else {
        match own_label(node) {
            Some(label) => label,
            None => match first_some(node.children, identifier_pick()) {
                Some(name) => name,
                None => node.node_type,
            },
        }
    }
}

/// Looking for the first child that gives anything may go on from any child on.
proof fn first_some_step(children: Seq<Cst>, pick: spec_fn(Cst) -> Option<Seq<char>>, i: int)
    requires
        0 <= i < children.len(),
    ensures
        first_some(children.skip(i), pick) == match pick(children[i]) {
            Some(text) => Some(text),
            None => first_some(children.skip(i + 1), pick),
        },
{
    assert(children.skip(i).drop_first() == children.skip(i + 1));
}

/// What the first of `children` gives for which `f` gives anything.
fn find_first<F: Fn(&CstNode) -> Option<String>>(
    node: &CstNode,
    Ghost(pick): Ghost<spec_fn(Cst) -> Option<Seq<char>>>,
    f: F,
) -> (r: Option<String>)
    requires
        forall|child: &CstNode| call_requires(f, (child,)),
        forall|child: &CstNode, found: Option<String>|
            call_ensures(f, (child,), found) ==> optional_text(found) == pick(child@),
    ensures
        optional_text(r) == first_some(node@.children, pick),
{
    assert(node@.children.skip(0) == node@.children);
    let mut i: usize = 0;
    while i < node.children.len()
        invariant
            i <= node.children.len(),
            forall|child: &CstNode| call_requires(f, (child,)),
            forall|child: &CstNode, found: Option<String>|
                call_ensures(f, (child,), found) ==> optional_text(found) == pick(child@),
            first_some(node@.children, pick) == first_some(node@.children.skip(i as int), pick),
        decreases node.children.len() - i,
    {
        proof {
            first_some_step(node@.children, pick, i as int);
        }
        let found = f(&node.children[i]);
        if found.is_some() {
            return found;
        }
        i += 1;
    }
    None
}

/// The text of an identifier.
fn identifier_text(child: &CstNode) -> (r: Option<String>)
    ensures
        optional_text(r) == identifier_pick()(child@),
{
    if *child.node_type.as_str() == *"identifier" {
        Some(child.text_or_empty().to_owned())
    } else {
        None
    }
}

/// The name of the function that a call calls.
fn callee_text(child: &CstNode) -> (r: Option<String>)
    ensures
        optional_text(r) == callee_pick()(child@),
{
    if *child.node_type.as_str() == *"identifier"
        || *child.node_type.as_str() == *"member_expression" {
        Some(name_text(child))
    } else {
        None
    }
}

/// The name of a decorator, bare or called with arguments.
fn decorator_text(child: &CstNode) -> (r: Option<String>)
    ensures
        optional_text(r) == decorator_pick()(child@),
{
    if *child.node_type.as_str() == *"identifier"
        || *child.node_type.as_str() == *"member_expression" {
        Some(name_text(child))
    } else if *child.node_type.as_str() == *"call_expression" {
        find_first(child, Ghost(callee_pick()), callee_text)
    } else {
        None
    }
}

/// The name that a `using` declaration binds.
fn resource_text(child: &CstNode) -> (r: Option<String>)
    ensures
        optional_text(r) == resource_pick()(child@),
{
    if *child.node_type.as_str() == *"variable_declarator" {
        find_first(child, Ghost(identifier_pick()), identifier_text)
    } else if *child.node_type.as_str() == *"identifier" {
        Some(child.text_or_empty().to_owned())
    } else {
        None
    }
}

/// What the first child reads as by which the node is called.
fn own_name(node: &CstNode) -> (r: Option<String>)
    ensures
        optional_text(r) == first_some(node@.children, name_pick(node@.node_type)),
{
    let node_type = node.node_type.as_str();
    let ghost pick = name_pick(node@.node_type);
    let name_of_child = |child: &CstNode| -> (found: Option<String>)
        ensures
            optional_text(found) == pick(child@),
        {
            if is_name_of(node_type, child.node_type.as_str()) {
                if is_member(node_type) {
                    Some(child.text_or_empty().to_owned())
                } else {
                    Some(name_text(child))
                }
            } else {
                None
            }
        };
    find_first(node, Ghost(pick), name_of_child)
}

/// The parts of a dotted path.
fn path_parts(node: &CstNode) -> (r: Vec<String>)
    ensures
        texts(r@) == every_some(node@.children, part_pick()),
{
    let mut r: Vec<String> = Vec::new();
    let mut i: usize = 0;
    while i < node.children.len()
        invariant
            i <= node.children.len(),
            texts(r@) == every_some(node@.children.take(i as int), part_pick()),
        decreases node.children.len() - i,
    {
        assert(node@.children.take(i + 1).drop_last() == node@.children.take(i as int));
        let child = &node.children[i];
        let text = child.text_or_empty();
        if is_signature_name_leaf(child.node_type.as_str()) && !text.is_empty() {
            let ghost before = r@;
            r.push(text.to_owned());
            assert(texts(r@) == texts(before).push(text@));
        }
        i += 1;
    }
    assert(node@.children.take(node.children.len() as int) == node@.children);
    r
}

/// The index of the first child that an export takes its label from.
fn exported_index(node: &CstNode) -> (r: Option<usize>)
    ensures
        match r {
            Some(i) => first_exported(node@.children) == Some(i as int) && i < node.children.len(),
            None => first_exported(node@.children) is None,
        },
{
    let mut r: Option<usize> = None;
    let mut i: usize = 0;
    while i < node.children.len()
        invariant
            i <= node.children.len(),
            match r {
                Some(k) => first_exported(node@.children.take(i as int)) == Some(k as int) && k < i,
                None => first_exported(node@.children.take(i as int)) is None,
            },
        decreases node.children.len() - i,
    {
        assert(node@.children.take(i + 1).drop_last() == node@.children.take(i as int));
        if r.is_none() && is_exported(node.children[i].node_type.as_str()) {
            r = Some(i);
        }
        i += 1;
    }
    assert(node@.children.take(node.children.len() as int) == node@.children);
    r
}

/// The labels of parameters; one that says no more than its node type is left out.
fn labels_of_parameters(node: &CstNode) -> (r: Vec<String>)
    ensures
        texts(r@) == parameter_labels(node@.children),
    decreases node, 0nat,
{
    let mut r: Vec<String> = Vec::new();
    let mut i: usize = 0;
    while i < node.children.len()
        invariant
            i <= node.children.len(),
            texts(r@) == parameter_labels(node@.children.take(i as int)),
        decreases node.children.len() - i,
    {
        assert(node@.children.take(i + 1).drop_last() == node@.children.take(i as int));
        let child = &node.children[i];
        let label = label_for(child);
        if !label.as_str().is_empty() && label != child.node_type {
            let ghost before = r@;
            r.push(label);
            assert(texts(r@) == texts(before).push(label@));
        }
        i += 1;
    }
    assert(node@.children.take(node.children.len() as int) == node@.children);
    r
}

/// The label that the type of an inner node has a rule for, where the rule finds one.
fn ruled_label(node: &CstNode) -> (r: Option<String>)
    ensures
        optional_text(r) == own_label(node@),
    decreases node, 1nat,
{
    let node_type = node.node_type.as_str();
    if is_quoted(node_type) {
        let text = leaf_text(node);
        if !text.as_str().is_empty() {
            Some(text)
        } else {
            None
        }
    } else if *node_type == *"member_expression" {
        let parts = path_parts(node);
        if parts.len() > 0 {
            Some(join(&parts, "."))
        } else {
            None
        }
    } else if *node_type == *"formal_parameters" {
        let labels = labels_of_parameters(node);
        if labels.len() > 0 {
            Some(join(&labels, ", "))
        } else {
            None
        }
    } else if is_export(node_type) {
        match exported_index(node) {
            Some(i) => Some(label_for(&node.children[i])),
            None => None,
        }
    } else if *node_type == *"decorator" {
        find_first(node, Ghost(decorator_pick()), decorator_text)
    } else if is_resource(node_type) {
        find_first(node, Ghost(resource_pick()), resource_text)
    } else {
        own_name(node)
    }
}

/// The label of a node: the text of a leaf; of an inner node, the label that the rule for
/// its type finds, else the text of its first identifier, else its type.
pub fn label_for(node: &CstNode) -> (r: String)
    ensures
        r@ == label_of(node@),
    decreases node, 2nat,
{
    if node.is_leaf() {
        return node.text_or_empty().to_owned();
    }
    if let Some(label) = ruled_label(node) {
        return label;
    }
    match find_first(node, Ghost(identifier_pick()), identifier_text) {
        Some(name) => name,
        None => node.node_type.clone(),
    }
}

} // verus!
