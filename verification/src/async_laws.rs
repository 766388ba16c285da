//! What holds of `async` functions and methods: `async` survives into the semantic tree, and
//! changes nothing else there.

use vstd::prelude::*;

use crate::cst::Cst;
use crate::label::{first_some, label_of, name_pick, own_label};
use crate::lower::{an_async_token_is_found_at_any_place, carries_async, lowered};
use crate::plugin::{hashed_step, Step};
use crate::semantic::{
    child_id, class_below, converted, converted_children, evidence, facts_of, type_below, Hashes,
    NodeFacts, Semantic,
};
use crate::syntax::Syntax;
use crate::tree_laws::{
    class_at, converted_at, hashes_at, held_nodes_are_made, holds, ids_tell_paths, node_at,
    nodes_made_are_held, path_id, reaches, semantic_nodes_are_held, type_at,
};
use crate::vocabulary::{
    async_type, async_type_for, function_form, review_name_context, signature_context,
};
use crate::vocabulary_laws::{
    async_types_are_distinct, async_types_are_semantic_alike, async_types_are_those_given,
    functions_are_semantic, questions_are_answered_alike,
};

verus! {

/// Whether two enclosing types let the same leaves stay.
spec fn contexts_alike(a: Option<Seq<char>>, b: Option<Seq<char>>) -> bool {
    match (a, b) {
        (Some(x), Some(y)) => {
            &&& review_name_context(x) == review_name_context(y)
            &&& signature_context(x) == signature_context(y)
        },
        (None, None) => true,
        _ => false,
    }
}

/// Of the enclosing type, nothing counts but which leaves it lets stay.
proof fn converted_in_like_contexts(
    node: Cst,
    hashes: Hashes,
    id: Seq<char>,
    parent_class: Option<Seq<char>>,
    a: Option<Seq<char>>,
    b: Option<Seq<char>>,
)
    requires
        contexts_alike(a, b),
    ensures
        converted(node, hashes, id, parent_class, a) == converted(
            node,
            hashes,
            id,
            parent_class,
            b,
        ),
    decreases node,
{
    children_in_like_contexts(
        node.children,
        hashes.children,
        id,
        class_below(node, parent_class),
        type_below(node, a),
        type_below(node, b),
    );
}

/// The same, for children.
proof fn children_in_like_contexts(
    nodes: Seq<Cst>,
    hashes: Seq<Hashes>,
    id: Seq<char>,
    parent_class: Option<Seq<char>>,
    a: Option<Seq<char>>,
    b: Option<Seq<char>>,
)
    requires
        contexts_alike(a, b),
    ensures
        converted_children(nodes, hashes, id, parent_class, a) == converted_children(
            nodes,
            hashes,
            id,
            parent_class,
            b,
        ),
    decreases nodes,
{
    if nodes.len() > 0 {
        let last = nodes.len() - 1;
        children_in_like_contexts(nodes.drop_last(), hashes, id, parent_class, a, b);
        converted_in_like_contexts(
            nodes.last(),
            hashes[last],
            child_id(id, last as nat),
            parent_class,
            a,
            b,
        );
    }
}

/// A node of a function form, made `async`.
pub open spec fn made_async(node: Cst) -> Cst {
    Cst { node_type: "async_"@ + node.node_type, ..node }
}

/// An `async` function or method has the label of the plain one; where that is called by its
/// type, the other is too.
pub proof fn async_keeps_the_label(node: Cst)
    requires
        function_form(node.node_type),
    ensures
        label_of(made_async(node)) == label_of(node) || (label_of(node) == node.node_type
            && label_of(made_async(node)) == made_async(node).node_type),
{
    let other = made_async(node);
    assert forall|child: Cst| #[trigger]
        name_pick(node.node_type)(child) == name_pick(other.node_type)(child) by {
        questions_are_answered_alike(node.node_type, child.node_type);
    }
    assert(name_pick(node.node_type) =~= name_pick(other.node_type));
    questions_are_answered_alike(node.node_type, node.node_type);
    assert(own_label(node) == first_some(node.children, name_pick(node.node_type)));
    assert(own_label(other) == first_some(other.children, name_pick(other.node_type)));
}

/// An `async` function or method stays in the semantic tree where the plain one does, with the
/// same id, place, hash and class around it and over the same nodes. Its type and its facts say
/// that it is `async`. Its label is the plain one's, or its type where that was the label.
pub proof fn async_keeps_the_shape(
    node: Cst,
    hashes: Hashes,
    id: Seq<char>,
    parent_class: Option<Seq<char>>,
    enclosing: Option<Seq<char>>,
)
    requires
        function_form(node.node_type),
    ensures
        match converted(node, hashes, id, parent_class, enclosing) {
            Some(plain) => converted(
                made_async(node),
                hashes,
                id,
                parent_class,
                enclosing,
            ) == Some(
                Semantic {
                    node_type: "async_"@ + node.node_type,
                    label: label_of(made_async(node)),
                    facts: Some(NodeFacts { is_async: Some(true) }),
                    ..plain
                },
            ) && plain.facts is None,
            None => converted(made_async(node), hashes, id, parent_class, enclosing) is None,
        },
{
    let other = made_async(node);
    questions_are_answered_alike(node.node_type, node.node_type);
    async_types_are_semantic_alike(node.node_type);
    assert(async_type_for(node.node_type) == Some(other.node_type));
    async_types_are_those_given(other.node_type);
    plain_types_are_not_async(node.node_type);
    children_in_like_contexts(
        node.children,
        hashes.children,
        id,
        parent_class,
        type_below(node, enclosing),
        type_below(other, enclosing),
    );
    assert(evidence(node, enclosing) == evidence(other, enclosing));
}

/// A function form of the grammars is no `async` type.
proof fn plain_types_are_not_async(kind: Seq<char>)
    requires
        function_form(kind),
    ensures
        !async_type(kind),
{
    async_types_are_those_given(kind);
    if async_type(kind) {
        let other = choose|other: Seq<char>| #[trigger] async_type_for(other) == Some(kind);
        async_types_are_distinct(other, kind);
    }
}

/// Two semantic trees of which one shows a node are the same only where the other shows a node
/// of the same type at the same place.
pub proof fn types_are_visible(
    a: Cst,
    b: Cst,
    hashes_a: Hashes,
    hashes_b: Hashes,
    id: Seq<char>,
    path: Seq<nat>,
)
    requires
        reaches(a, path),
        reaches(b, path),
        node_at(a, path).node_type != node_at(b, path).node_type,
        converted_at(a, hashes_a, id, None, None, path) is Some,
    ensures
        converted(a, hashes_a, id, None, None) is Some,
        converted(a, hashes_a, id, None, None) != converted(b, hashes_b, id, None, None),
{
    nodes_made_are_held(a, hashes_a, id, None, None, path);
    let kept = converted_at(a, hashes_a, id, None, None, path)->0;
    if converted(a, hashes_a, id, None, None) == converted(b, hashes_b, id, None, None) {
        let other = held_nodes_are_made(b, hashes_b, id, None, None, kept);
        ids_tell_paths(id, path, other);
    }
}

/// Whether a path of indices of named children leads from `node` to a node.
pub open spec fn leads(node: Syntax, path: Seq<nat>) -> bool
    decreases path.len(),
{
    path.len() == 0 || (path[0] < node.named_children.len() && leads(
        node.named_children[path[0] as int],
        path.drop_first(),
    ))
}

/// The node to which a path leads.
pub open spec fn syntax_at(node: Syntax, path: Seq<nat>) -> Syntax
    decreases path.len(),
{
    if path.len() == 0 {
        node
    } else {
        syntax_at(node.named_children[path[0] as int], path.drop_first())
    }
}

/// A path leads through a syntax tree as through its concrete syntax tree.
pub proof fn lowered_at(node: Syntax, source: Seq<u8>, path: Seq<nat>)
    ensures
        reaches(lowered(node, source), path) == leads(node, path),
        leads(node, path) ==> node_at(lowered(node, source), path) == lowered(
            syntax_at(node, path),
            source,
        ),
    decreases path.len(),
{
    if path.len() > 0 && path[0] < node.named_children.len() {
        let i = path[0] as int;
        lowered_at(node.named_children[i], source, path.drop_first());
        assert(lowered(node, source).children[i] == lowered(node.named_children[i], source));
    }
}

/// An `async` function or method has the `async` type and the `async` fact. Any other node
/// keeps its kind and, where the grammar has no node type like an `async` one, has no facts.
pub proof fn facts_mark_async(
    node: Syntax,
    source: Seq<u8>,
    hashes: Hashes,
    id: Seq<char>,
    parent_class: Option<Seq<char>>,
    enclosing: Option<Seq<char>>,
)
    ensures
        function_form(node.kind) && carries_async(node) ==> lowered(node, source).node_type
            == "async_"@ + node.kind && facts_of(lowered(node, source).node_type) == Some(
            NodeFacts { is_async: Some(true) },
        ),
        !(function_form(node.kind) && carries_async(node)) ==> lowered(node, source).node_type
            == node.kind && (!async_type(node.kind) ==> facts_of(
            lowered(node, source).node_type,
        ) is None),
        match converted(lowered(node, source), hashes, id, parent_class, enclosing) {
            Some(tree) => tree.node_type == lowered(node, source).node_type && tree.facts
                == facts_of(lowered(node, source).node_type),
            None => true,
        },
{
    if function_form(node.kind) {
        assert(async_type_for(node.kind) == Some("async_"@ + node.kind));
        async_types_are_those_given("async_"@ + node.kind);
    }
}

/// In the semantic tree of a syntax tree, exactly the nodes made of an `async` function or
/// method have the `async` fact, where the grammar has no node type like an `async` one, and no
/// other node has any fact.
pub proof fn facts_are_true(
    root: Syntax,
    source: Seq<u8>,
    hashes: Hashes,
    kept: Semantic,
) -> (path: Seq<nat>)
    requires
        hashed_step(lowered(root, source), hashes) matches Step::Serialise(tree) && holds(tree, kept),
    ensures
        leads(root, path),
        kept.id == path_id("0"@, path),
        ({
            let node = syntax_at(root, path);
            if function_form(node.kind) && carries_async(node) {
                kept.node_type == "async_"@ + node.kind && kept.facts == Some(
                    NodeFacts { is_async: Some(true) },
                )
            } else {
                kept.node_type == node.kind && (kept.facts is None || async_type(node.kind))
            }
        }),
{
    let path = held_nodes_are_made(lowered(root, source), hashes, "0"@, None, None, kept);
    lowered_at(root, source, path);
    facts_mark_async(syntax_at(root, path), source, hashes_at(hashes, path), kept.id, None, None);
    path
}

/// Functions and methods stay in the semantic tree: all of them but function expressions for
/// their own sake, and function expressions with their parameters.
pub proof fn functions_stay(
    node: Syntax,
    source: Seq<u8>,
    hashes: Hashes,
    id: Seq<char>,
    parent_class: Option<Seq<char>>,
    enclosing: Option<Seq<char>>,
)
    requires
        function_form(node.kind),
        node.kind == "function_expression"@ ==> exists|i: int|
            0 <= i < node.named_children.len() && (#[trigger] node.named_children[i]).kind
                == "formal_parameters"@,
    ensures
        converted(lowered(node, source), hashes, id, parent_class, enclosing) is Some,
{
    functions_are_semantic(node.kind);
    async_types_are_semantic_alike(node.kind);
    if node.kind == "function_expression"@ {
        let i = choose|i: int|
            0 <= i < node.named_children.len() && (#[trigger] node.named_children[i]).kind
                == "formal_parameters"@;
        let path = seq![i as nat];
        reveal_with_fuel(leads, 2);
        reveal_with_fuel(syntax_at, 2);
        lowered_at(node, source, path);
        semantic_nodes_are_held(
            lowered(node, source),
            hashes,
            id,
            parent_class,
            enclosing,
            path,
        );
    }
}

/// Where of two syntax trees one has an `async` function or method at a place where the other
/// has a plain one of the same kind, the two do not come to the same semantic tree, whatever
/// else they hold, unless nothing is made of that function in either.
pub proof fn async_is_visible(
    a: Syntax,
    b: Syntax,
    source_a: Seq<u8>,
    source_b: Seq<u8>,
    hashes_a: Hashes,
    hashes_b: Hashes,
    path: Seq<nat>,
)
    requires
        leads(a, path),
        leads(b, path),
        function_form(syntax_at(a, path).kind),
        syntax_at(b, path).kind == syntax_at(a, path).kind,
        carries_async(syntax_at(a, path)) != carries_async(syntax_at(b, path)),
        converted_at(lowered(a, source_a), hashes_a, "0"@, None, None, path) is Some
            || converted_at(lowered(b, source_b), hashes_b, "0"@, None, None, path) is Some,
    ensures
        hashed_step(lowered(a, source_a), hashes_a) != hashed_step(
            lowered(b, source_b),
            hashes_b,
        ),
{
    let kind = syntax_at(a, path).kind;
    lowered_at(a, source_a, path);
    lowered_at(b, source_b, path);
    async_types_are_distinct(kind, kind);
    let (x, y) = (lowered(a, source_a), lowered(b, source_b));
    if converted_at(x, hashes_a, "0"@, None, None, path) is Some {
        types_are_visible(x, y, hashes_a, hashes_b, "0"@, path);
    } else {
        types_are_visible(y, x, hashes_b, hashes_a, "0"@, path);
    }
}

/// Where of two syntax trees one has an `async` function or method at a place where the other
/// has a plain one of the same kind, the two do not come to the same semantic tree. A function
/// expression is seen by its parameters.
pub proof fn async_functions_are_visible(
    a: Syntax,
    b: Syntax,
    source_a: Seq<u8>,
    source_b: Seq<u8>,
    hashes_a: Hashes,
    hashes_b: Hashes,
    path: Seq<nat>,
)
    requires
        leads(a, path),
        leads(b, path),
        function_form(syntax_at(a, path).kind),
        syntax_at(b, path).kind == syntax_at(a, path).kind,
        carries_async(syntax_at(a, path)) != carries_async(syntax_at(b, path)),
        syntax_at(a, path).kind == "function_expression"@ ==> exists|i: int|
            0 <= i < syntax_at(a, path).named_children.len() && (#[trigger] syntax_at(
                a,
                path,
            ).named_children[i]).kind == "formal_parameters"@,
    ensures
        hashed_step(lowered(a, source_a), hashes_a) != hashed_step(
            lowered(b, source_b),
            hashes_b,
        ),
{
    lowered_at(a, source_a, path);
    functions_stay(
        syntax_at(a, path),
        source_a,
        hashes_at(hashes_a, path),
        path_id("0"@, path),
        class_at(lowered(a, source_a), path, None),
        type_at(lowered(a, source_a), path, None),
    );
    async_is_visible(a, b, source_a, source_b, hashes_a, hashes_b, path);
}

/// A function or a method of which anything is made has the `async` type and the `async` fact in
/// the semantic tree where an `async` token stands among its children, at whatever place.
pub proof fn async_tokens_are_told(
    root: Syntax,
    source: Seq<u8>,
    hashes: Hashes,
    path: Seq<nat>,
    i: int,
) -> (kept: Semantic)
    requires
        leads(root, path),
        ({
            ||| syntax_at(root, path).kind == "function_declaration"@
            ||| syntax_at(root, path).kind == "function"@
            ||| syntax_at(root, path).kind == "function_expression"@
            ||| syntax_at(root, path).kind == "arrow_function"@
            ||| syntax_at(root, path).kind == "generator_function_declaration"@
            ||| syntax_at(root, path).kind == "generator_function"@
            ||| syntax_at(root, path).kind == "method_definition"@
        }),
        0 <= i < syntax_at(root, path).child_kinds.len(),
        syntax_at(root, path).child_kinds[i] == "async"@,
        converted_at(lowered(root, source), hashes, "0"@, None, None, path) is Some,
    ensures
        hashed_step(lowered(root, source), hashes) matches Step::Serialise(tree) && holds(tree, kept),
        kept.id == path_id("0"@, path),
        kept.node_type == "async_"@ + syntax_at(root, path).kind,
        kept.facts == Some(NodeFacts { is_async: Some(true) }),
{
    let node = syntax_at(root, path);
    lowered_at(root, source, path);
    an_async_token_is_found_at_any_place(node, source, i);
    assert(async_type_for(node.kind) == Some("async_"@ + node.kind));
    async_types_are_those_given("async_"@ + node.kind);
    nodes_made_are_held(lowered(root, source), hashes, "0"@, None, None, path);
    converted_at(lowered(root, source), hashes, "0"@, None, None, path)->0
}

} // verus!
