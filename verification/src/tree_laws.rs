//! What holds of the semantic tree as a whole.

use vstd::prelude::*;

use crate::cst::Cst;
use crate::label::label_of;
use crate::semantic::{
    child_id, class_below, converted, converted_children, evidence, facts_of, mirrors, type_below,
    Hashes, NodeFacts, Semantic,
};
use crate::text::{decimal, decimal_digits, decimal_is_injective};
use crate::vocabulary::{class_like, method_like, semantic};

verus! {

/// Whether a path of child indices leads from `node` to a node.
pub open spec fn reaches(node: Cst, path: Seq<nat>) -> bool
    decreases path.len(),
{
    path.len() == 0 || (path[0] < node.children.len() && reaches(
        node.children[path[0] as int],
        path.drop_first(),
    ))
}

/// The node to which a path leads.
pub open spec fn node_at(node: Cst, path: Seq<nat>) -> Cst
    decreases path.len(),
{
    if path.len() == 0 {
        node
    } else {
        node_at(node.children[path[0] as int], path.drop_first())
    }
}

/// The hashes to which a path leads.
pub open spec fn hashes_at(hashes: Hashes, path: Seq<nat>) -> Hashes
    decreases path.len(),
{
    if path.len() == 0 {
        hashes
    } else {
        hashes_at(hashes.children[path[0] as int], path.drop_first())
    }
}

/// The id of the node to which a path leads from the node with the id `id`.
pub open spec fn path_id(id: Seq<char>, path: Seq<nat>) -> Seq<char>
    decreases path.len(),
{
    if path.len() == 0 {
        id
    } else {
        path_id(id + "."@ + decimal(path[0]), path.drop_first())
    }
}

/// The label of the class around what stands under a node: that of the node where it is a class
/// or an interface, else that of the class around it.
pub open spec fn class_under(node: Cst, outer: Option<Seq<char>>) -> Option<Seq<char>> {
    if node.node_type == "class_declaration"@ || node.node_type == "class"@ || node.node_type
        == "abstract_class_declaration"@ || node.node_type == "interface_declaration"@ {
        Some(label_of(node))
    } else {
        outer
    }
}

/// The nearest semantic type above what stands under a node: that of the node where it is
/// semantic, else the one above it.
pub open spec fn type_under(node: Cst, outer: Option<Seq<char>>) -> Option<Seq<char>> {
    if semantic(node.node_type) {
        Some(node.node_type)
    } else {
        outer
    }
}

/// The label of the innermost class around the node to which a path leads.
pub open spec fn class_at(node: Cst, path: Seq<nat>, outer: Option<Seq<char>>) -> Option<Seq<char>>
    decreases path.len(),
{
    if path.len() == 0 {
        outer
    } else {
        class_at(node.children[path[0] as int], path.drop_first(), class_under(node, outer))
    }
}

/// The type of the nearest semantic node above the node to which a path leads.
pub open spec fn type_at(node: Cst, path: Seq<nat>, outer: Option<Seq<char>>) -> Option<Seq<char>>
    decreases path.len(),
{
    if path.len() == 0 {
        outer
    } else {
        type_at(node.children[path[0] as int], path.drop_first(), type_under(node, outer))
    }
}

/// What is made of the node to which a path leads.
pub open spec fn converted_at(
    node: Cst,
    hashes: Hashes,
    id: Seq<char>,
    parent_class: Option<Seq<char>>,
    enclosing: Option<Seq<char>>,
    path: Seq<nat>,
) -> Option<Semantic> {
    converted(
        node_at(node, path),
        hashes_at(hashes, path),
        path_id(id, path),
        class_at(node, path, parent_class),
        type_at(node, path, enclosing),
    )
}

/// Whether a semantic tree holds this node, with all that stands below it.
pub open spec fn holds(tree: Semantic, kept: Semantic) -> bool
    decreases tree,
{
    tree == kept || exists|i: int|
        0 <= i < tree.children.len() && holds(#[trigger] tree.children[i], kept)
}

/// What is made of a child stands among what is made of the children.
proof fn child_is_kept(
    nodes: Seq<Cst>,
    hashes: Seq<Hashes>,
    id: Seq<char>,
    parent_class: Option<Seq<char>>,
    enclosing: Option<Seq<char>>,
    i: int,
)
    requires
        0 <= i < nodes.len(),
        converted(nodes[i], hashes[i], child_id(id, i as nat), parent_class, enclosing) is Some,
    ensures
        converted_children(nodes, hashes, id, parent_class, enclosing).contains(
            converted(
                nodes[i],
                hashes[i],
                child_id(id, i as nat),
                parent_class,
                enclosing,
            )->0,
        ),
    decreases nodes.len(),
{
    let all = converted_children(nodes, hashes, id, parent_class, enclosing);
    let before = converted_children(nodes.drop_last(), hashes, id, parent_class, enclosing);
    let kept = converted(
        nodes[i],
        hashes[i],
        child_id(id, i as nat),
        parent_class,
        enclosing,
    )->0;
    if i == nodes.len() - 1 {
        assert(all == before.push(kept));
        assert(all[before.len() as int] == kept);
    } else {
        assert(nodes.drop_last()[i] == nodes[i]);
        child_is_kept(nodes.drop_last(), hashes, id, parent_class, enclosing, i);
        let k = choose|k: int| 0 <= k < before.len() && before[k] == kept;
        assert(all[k] == kept);
    }
}

/// What stands among what is made of the children is made of one of them.
proof fn kept_child_is_made(
    nodes: Seq<Cst>,
    hashes: Seq<Hashes>,
    id: Seq<char>,
    parent_class: Option<Seq<char>>,
    enclosing: Option<Seq<char>>,
    k: int,
) -> (i: nat)
    requires
        0 <= k < converted_children(nodes, hashes, id, parent_class, enclosing).len(),
    ensures
        i < nodes.len(),
        converted(nodes[i as int], hashes[i as int], child_id(id, i), parent_class, enclosing)
            == Some(converted_children(nodes, hashes, id, parent_class, enclosing)[k]),
    decreases nodes.len(),
{
    let before = converted_children(nodes.drop_last(), hashes, id, parent_class, enclosing);
    if k < before.len() {
        let i = kept_child_is_made(
            nodes.drop_last(),
            hashes,
            id,
            parent_class,
            enclosing,
            k,
        );
        assert(nodes.drop_last()[i as int] == nodes[i as int]);
        i
    } else {
        (nodes.len() - 1) as nat
    }
}

/// What is made of a node anywhere in a tree stands in the semantic tree: where anything
/// is made of a node, all the nodes above it stay too.
pub proof fn nodes_made_are_held(
    node: Cst,
    hashes: Hashes,
    id: Seq<char>,
    parent_class: Option<Seq<char>>,
    enclosing: Option<Seq<char>>,
    path: Seq<nat>,
)
    requires
        reaches(node, path),
        converted_at(node, hashes, id, parent_class, enclosing, path) is Some,
    ensures
        converted(node, hashes, id, parent_class, enclosing) is Some,
        holds(
            converted(node, hashes, id, parent_class, enclosing)->0,
            converted_at(node, hashes, id, parent_class, enclosing, path)->0,
        ),
    decreases path.len(),
{
    if path.len() > 0 {
        let i = path[0] as int;
        let class = class_below(node, parent_class);
        let outer = type_below(node, enclosing);
        let child = converted(
            node.children[i],
            hashes.children[i],
            child_id(id, path[0]),
            class,
            outer,
        );
        nodes_made_are_held(
            node.children[i],
            hashes.children[i],
            child_id(id, path[0]),
            class,
            outer,
            path.drop_first(),
        );
        child_is_kept(node.children, hashes.children, id, class, outer, i);
        let tree = converted(node, hashes, id, parent_class, enclosing)->0;
        let k = choose|k: int| 0 <= k < tree.children.len() && tree.children[k] == child->0;
        assert(holds(tree.children[k], converted_at(
            node,
            hashes,
            id,
            parent_class,
            enclosing,
            path,
        )->0));
    }
}

/// Every node of the semantic tree is made of a node of the concrete syntax tree, to which
/// the path leads that its id writes out. It has the type, the label, the place and the hash of
/// that node and, where it is a function or a method, the label of the innermost class around it.
pub proof fn held_nodes_are_made(
    node: Cst,
    hashes: Hashes,
    id: Seq<char>,
    parent_class: Option<Seq<char>>,
    enclosing: Option<Seq<char>>,
    kept: Semantic,
) -> (path: Seq<nat>)
    requires
        converted(node, hashes, id, parent_class, enclosing) is Some,
        holds(converted(node, hashes, id, parent_class, enclosing)->0, kept),
    ensures
        reaches(node, path),
        converted_at(node, hashes, id, parent_class, enclosing, path) == Some(kept),
        kept.id == path_id(id, path),
        kept.node_type == node_at(node, path).node_type,
        kept.label == label_of(node_at(node, path)),
        kept.start_line == node_at(node, path).start_line,
        kept.start_col == node_at(node, path).start_col,
        kept.end_line == node_at(node, path).end_line,
        kept.end_col == node_at(node, path).end_col,
        kept.structural_hash == hashes_at(hashes, path).hash,
        kept.parent_type == if method_like(kept.node_type) {
            class_at(node, path, parent_class)
        } else {
            None
        },
        kept.facts == facts_of(kept.node_type),
    decreases node,
{
    let tree = converted(node, hashes, id, parent_class, enclosing)->0;
    if tree == kept {
        Seq::empty()
    } else {
        let k = choose|k: int|
            0 <= k < tree.children.len() && holds(#[trigger] tree.children[k], kept);
        let class = class_below(node, parent_class);
        let outer = type_below(node, enclosing);
        let i = kept_child_is_made(node.children, hashes.children, id, class, outer, k);
        let rest = held_nodes_are_made(
            node.children[i as int],
            hashes.children[i as int],
            child_id(id, i),
            class,
            outer,
            kept,
        );
        let path = seq![i] + rest;
        assert(path.drop_first() =~= rest);
        path
    }
}

/// What a path adds to the id of the node that it starts from.
spec fn path_suffix(path: Seq<nat>) -> Seq<char>
    decreases path.len(),
{
    if path.len() == 0 {
        Seq::empty()
    } else {
        "."@ + decimal(path[0]) + path_suffix(path.drop_first())
    }
}

/// An id is that of the start of the path, with what the path adds.
proof fn path_id_extends(id: Seq<char>, path: Seq<nat>)
    ensures
        path_id(id, path) == id + path_suffix(path),
    decreases path.len(),
{
    if path.len() == 0 {
        assert(id + path_suffix(path) =~= id);
    } else {
        path_id_extends(child_id(id, path[0]), path.drop_first());
        assert(id + path_suffix(path) =~= child_id(id, path[0]) + path_suffix(path.drop_first()));
    }
}

/// What a path adds starts with a full stop, where it adds anything.
proof fn path_suffix_starts(path: Seq<nat>)
    ensures
        path.len() == 0 <==> path_suffix(path).len() == 0,
        path.len() > 0 ==> path_suffix(path)[0] == '.',
{
    reveal_strlit(".");
    if path.len() > 0 {
        assert("."@.len() == 1);
    }
}

/// Two paths add the same text only where they are the same path.
proof fn path_suffix_is_injective(a: Seq<nat>, b: Seq<nat>)
    requires
        path_suffix(a) == path_suffix(b),
    ensures
        a == b,
    decreases a.len(),
{
    path_suffix_starts(a);
    path_suffix_starts(b);
    if a.len() == 0 {
        assert(a =~= b);
    } else {
        reveal_strlit(".");
        assert("."@.len() == 1);
        let (x, y) = (decimal(a[0]), decimal(b[0]));
        let (ra, rb) = (path_suffix(a.drop_first()), path_suffix(b.drop_first()));
        let (m, n) = (x.len() as int, y.len() as int);
        let text = path_suffix(a);
        decimal_digits(a[0]);
        decimal_digits(b[0]);
        path_suffix_starts(a.drop_first());
        path_suffix_starts(b.drop_first());
        assert(text == "."@ + x + ra);
        assert(text == "."@ + y + rb);
        if m < n {
            assert(text[1 + m] == y[m]);
            assert(text[1 + m] == ra[0]);
        }
        if n < m {
            assert(text[1 + n] == x[n]);
            assert(text[1 + n] == rb[0]);
        }
        assert(x =~= text.subrange(1, 1 + m));
        assert(y =~= text.subrange(1, 1 + n));
        decimal_is_injective(a[0], b[0]);
        assert(ra =~= text.skip(1 + m));
        assert(rb =~= text.skip(1 + n));
        path_suffix_is_injective(a.drop_first(), b.drop_first());
        assert(a =~= seq![a[0]] + a.drop_first());
        assert(b =~= seq![b[0]] + b.drop_first());
    }
}

/// An id tells the path that leads to its node.
pub proof fn ids_tell_paths(id: Seq<char>, a: Seq<nat>, b: Seq<nat>)
    requires
        path_id(id, a) == path_id(id, b),
    ensures
        a == b,
{
    path_id_extends(id, a);
    path_id_extends(id, b);
    assert(path_suffix(a) =~= (id + path_suffix(a)).skip(id.len() as int));
    assert(path_suffix(b) =~= (id + path_suffix(b)).skip(id.len() as int));
    path_suffix_is_injective(a, b);
}

/// No two nodes of a semantic tree have the same id.
pub proof fn ids_are_unique(
    node: Cst,
    hashes: Hashes,
    id: Seq<char>,
    parent_class: Option<Seq<char>>,
    enclosing: Option<Seq<char>>,
    a: Semantic,
    b: Semantic,
)
    requires
        converted(node, hashes, id, parent_class, enclosing) is Some,
        holds(converted(node, hashes, id, parent_class, enclosing)->0, a),
        holds(converted(node, hashes, id, parent_class, enclosing)->0, b),
        a.id == b.id,
    ensures
        a == b,
{
    let path_a = held_nodes_are_made(node, hashes, id, parent_class, enclosing, a);
    let path_b = held_nodes_are_made(node, hashes, id, parent_class, enclosing, b);
    ids_tell_paths(id, path_a, path_b);
}

/// A node of a semantic type is never lost: the semantic tree holds what is made of it.
pub proof fn semantic_nodes_are_held(
    node: Cst,
    hashes: Hashes,
    id: Seq<char>,
    parent_class: Option<Seq<char>>,
    enclosing: Option<Seq<char>>,
    path: Seq<nat>,
)
    requires
        reaches(node, path),
        semantic(node_at(node, path).node_type),
    ensures
        converted(node, hashes, id, parent_class, enclosing) is Some,
        converted_at(node, hashes, id, parent_class, enclosing, path) is Some,
        holds(
            converted(node, hashes, id, parent_class, enclosing)->0,
            converted_at(node, hashes, id, parent_class, enclosing, path)->0,
        ),
{
    nodes_made_are_held(node, hashes, id, parent_class, enclosing, path);
}

/// What stands directly under a class has that class around it; what stands under any other
/// node has the class around that node.
pub proof fn classes_enclose_their_children(
    node: Cst,
    path: Seq<nat>,
    i: nat,
    outer: Option<Seq<char>>,
)
    requires
        reaches(node, path),
        i < node_at(node, path).children.len(),
    ensures
        class_at(node, path.push(i), outer) == if class_like(node_at(node, path).node_type) {
            Some(label_of(node_at(node, path)))
        } else {
            class_at(node, path, outer)
        },
    decreases path.len(),
{
    if path.len() == 0 {
        reveal_with_fuel(class_at, 2);
        assert(path.push(i).drop_first() =~= path);
    } else {
        assert(path.push(i).drop_first() =~= path.drop_first().push(i));
        classes_enclose_their_children(
            node.children[path[0] as int],
            path.drop_first(),
            i,
            class_below(node, outer),
        );
    }
}

/// Whether a node stays in the semantic tree: for its type, for what it shows, or for
/// something below it.
pub open spec fn stays(node: Cst, enclosing: Option<Seq<char>>) -> bool
    decreases node,
{
    ||| semantic(node.node_type)
    ||| evidence(node, enclosing)
    ||| exists|i: int|
        0 <= i < node.children.len() && stays(
            #[trigger] node.children[i],
            type_below(node, enclosing),
        )
}

/// Whether a node stays depends on nothing but the tree under it and the nearest semantic node
/// above it: not on hashes, ids or classes.
pub proof fn nodes_that_stay(
    node: Cst,
    hashes: Hashes,
    id: Seq<char>,
    parent_class: Option<Seq<char>>,
    enclosing: Option<Seq<char>>,
)
    ensures
        converted(node, hashes, id, parent_class, enclosing) is Some <==> stays(node, enclosing),
    decreases node,
{
    let class = class_below(node, parent_class);
    let outer = type_below(node, enclosing);
    let children = converted_children(node.children, hashes.children, id, class, outer);
    assert forall|i: int| 0 <= i < node.children.len() implies (converted(
        #[trigger] node.children[i],
        hashes.children[i],
        child_id(id, i as nat),
        class,
        outer,
    ) is Some <==> stays(node.children[i], outer)) by {
        nodes_that_stay(
            node.children[i],
            hashes.children[i],
            child_id(id, i as nat),
            class,
            outer,
        );
    }
    if children.len() > 0 {
        let i = kept_child_is_made(node.children, hashes.children, id, class, outer, 0);
        assert(stays(node.children[i as int], outer));
    }
    if exists|i: int| 0 <= i < node.children.len() && stays(#[trigger] node.children[i], outer) {
        let i = choose|i: int|
            0 <= i < node.children.len() && stays(#[trigger] node.children[i], outer);
        child_is_kept(node.children, hashes.children, id, class, outer, i);
    }
}

/// A semantic tree without its hashes.
pub open spec fn unhashed(tree: Semantic) -> Semantic
    decreases tree,
{
    Semantic {
        structural_hash: Seq::empty(),
        children: Seq::new(
            tree.children.len(),
            |i: int|
                if 0 <= i < tree.children.len() {
                    unhashed(tree.children[i])
                } else {
                    arbitrary()
                },
        ),
        ..tree
    }
}

/// Semantic trees without their hashes.
pub open spec fn all_unhashed(trees: Seq<Semantic>) -> Seq<Semantic> {
    trees.map_values(|tree: Semantic| unhashed(tree))
}

/// Hashes go into the semantic tree as they are, and nothing else in it depends on them.
pub proof fn hashes_change_nothing_else(
    node: Cst,
    a: Hashes,
    b: Hashes,
    id: Seq<char>,
    parent_class: Option<Seq<char>>,
    enclosing: Option<Seq<char>>,
)
    ensures
        match (
            converted(node, a, id, parent_class, enclosing),
            converted(node, b, id, parent_class, enclosing),
        ) {
            (Some(x), Some(y)) => unhashed(x) == unhashed(y),
            (None, None) => true,
            _ => false,
        },
    decreases node,
{
    let class = class_below(node, parent_class);
    let outer = type_below(node, enclosing);
    children_unhashed(node.children, a.children, b.children, id, class, outer);
    let x = converted_children(node.children, a.children, id, class, outer);
    let y = converted_children(node.children, b.children, id, class, outer);
    assert(all_unhashed(x).len() == x.len());
    assert(all_unhashed(y).len() == y.len());
    if let Some(s) = converted(node, a, id, parent_class, enclosing) {
        if let Some(t) = converted(node, b, id, parent_class, enclosing) {
            assert(unhashed(s).children =~= all_unhashed(x));
            assert(unhashed(t).children =~= all_unhashed(y));
        }
    }
}

/// The same, for children.
proof fn children_unhashed(
    nodes: Seq<Cst>,
    a: Seq<Hashes>,
    b: Seq<Hashes>,
    id: Seq<char>,
    parent_class: Option<Seq<char>>,
    enclosing: Option<Seq<char>>,
)
    ensures
        all_unhashed(converted_children(nodes, a, id, parent_class, enclosing)) == all_unhashed(
            converted_children(nodes, b, id, parent_class, enclosing),
        ),
    decreases nodes,
{
    let x = converted_children(nodes, a, id, parent_class, enclosing);
    let y = converted_children(nodes, b, id, parent_class, enclosing);
    if nodes.len() > 0 {
        let last = nodes.len() - 1;
        let before_x = converted_children(nodes.drop_last(), a, id, parent_class, enclosing);
        let before_y = converted_children(nodes.drop_last(), b, id, parent_class, enclosing);
        children_unhashed(nodes.drop_last(), a, b, id, parent_class, enclosing);
        hashes_change_nothing_else(
            nodes.last(),
            a[last],
            b[last],
            child_id(id, last as nat),
            parent_class,
            enclosing,
        );
        if x.len() > before_x.len() {
            assert(all_unhashed(x) =~= all_unhashed(before_x).push(unhashed(x.last())));
            assert(all_unhashed(y) =~= all_unhashed(before_y).push(unhashed(y.last())));
        }
    } else {
        assert(x =~= y);
    }
}

/// What is made of the `i`th child of a node, whose semantic tree has the id `id`.
pub open spec fn child_made(
    node: Cst,
    hashes: Hashes,
    id: Seq<char>,
    parent_class: Option<Seq<char>>,
    enclosing: Option<Seq<char>>,
    i: int,
) -> Option<Semantic> {
    converted(
        node.children[i],
        hashes.children[i],
        id + "."@ + decimal(i as nat),
        class_under(node, parent_class),
        type_under(node, enclosing),
    )
}

/// The kept children of a node stand in the order of the nodes they are made of: their ids end
/// in indices that grow from each to the next, so that none occurs twice. Whatever is made of a
/// child stands among them.
pub proof fn children_stand_in_order(
    node: Cst,
    hashes: Hashes,
    id: Seq<char>,
    parent_class: Option<Seq<char>>,
    enclosing: Option<Seq<char>>,
) -> (kept: Seq<nat>)
    requires
        converted(node, hashes, id, parent_class, enclosing) is Some,
    ensures
        ({
            let tree = converted(node, hashes, id, parent_class, enclosing)->0;
            &&& kept.len() == tree.children.len()
            &&& forall|k: int, l: int|
                0 <= k < l < kept.len() ==> #[trigger] kept[k] < #[trigger] kept[l]
            &&& forall|k: int|
                0 <= k < kept.len() ==> {
                    &&& #[trigger] kept[k] < node.children.len()
                    &&& tree.children[k].id == id + "."@ + decimal(kept[k])
                    &&& tree.children[k].node_type == node.children[kept[k] as int].node_type
                    &&& tree.children[k].label == label_of(node.children[kept[k] as int])
                    &&& Some(tree.children[k]) == child_made(
                        node,
                        hashes,
                        id,
                        parent_class,
                        enclosing,
                        kept[k] as int,
                    )
                }
            &&& forall|i: int|
                0 <= i < node.children.len() && #[trigger] child_made(
                    node,
                    hashes,
                    id,
                    parent_class,
                    enclosing,
                    i,
                ) is Some ==> kept.contains(i as nat)
        }),
{
    let kept = kept_indices(
        node.children,
        hashes.children,
        id,
        class_under(node, parent_class),
        type_under(node, enclosing),
    );
    let tree = converted(node, hashes, id, parent_class, enclosing)->0;
    assert forall|k: int| 0 <= k < kept.len() implies ({
        &&& #[trigger] kept[k] < node.children.len()
        &&& tree.children[k].id == id + "."@ + decimal(kept[k])
        &&& Some(tree.children[k]) == child_made(
            node,
            hashes,
            id,
            parent_class,
            enclosing,
            kept[k] as int,
        )
    }) by {}
    kept
}

/// The indices of the children of which anything is made, in order.
proof fn kept_indices(
    nodes: Seq<Cst>,
    hashes: Seq<Hashes>,
    id: Seq<char>,
    parent_class: Option<Seq<char>>,
    enclosing: Option<Seq<char>>,
) -> (kept: Seq<nat>)
    ensures
        ({
            let trees = converted_children(nodes, hashes, id, parent_class, enclosing);
            &&& kept.len() == trees.len()
            &&& forall|k: int, l: int|
                0 <= k < l < kept.len() ==> #[trigger] kept[k] < #[trigger] kept[l]
            &&& forall|k: int|
                0 <= k < kept.len() ==> #[trigger] kept[k] < nodes.len() && converted(
                    nodes[kept[k] as int],
                    hashes[kept[k] as int],
                    id + "."@ + decimal(kept[k]),
                    parent_class,
                    enclosing,
                ) == Some(trees[k])
            &&& forall|i: int|
                0 <= i < nodes.len() && converted(
                    #[trigger] nodes[i],
                    hashes[i],
                    id + "."@ + decimal(i as nat),
                    parent_class,
                    enclosing,
                ) is Some ==> kept.contains(i as nat)
        }),
    decreases nodes.len(),
{
    let trees = converted_children(nodes, hashes, id, parent_class, enclosing);
    if nodes.len() == 0 {
        Seq::empty()
    } else {
        let n = (nodes.len() - 1) as nat;
        let before = kept_indices(nodes.drop_last(), hashes, id, parent_class, enclosing);
        let trees_before = converted_children(
            nodes.drop_last(),
            hashes,
            id,
            parent_class,
            enclosing,
        );
        assert(forall|i: int| 0 <= i < n ==> #[trigger] nodes[i] == nodes.drop_last()[i]);
        let made = converted(
            nodes[n as int],
            hashes[n as int],
            id + "."@ + decimal(n),
            parent_class,
            enclosing,
        );
        let kept = if made is Some {
            before.push(n)
        } else {
            before
        };
        if made is Some {
            assert(trees == trees_before.push(made->0));
            assert(kept[before.len() as int] == n);
        }
        assert forall|k: int| 0 <= k < kept.len() implies #[trigger] kept[k] < nodes.len()
            && converted(
            nodes[kept[k] as int],
            hashes[kept[k] as int],
            id + "."@ + decimal(kept[k]),
            parent_class,
            enclosing,
        ) == Some(trees[k]) by {
            if k < before.len() {
                assert(kept[k] == before[k]);
                assert(trees[k] == trees_before[k]);
            }
        }
        assert forall|i: int|
            0 <= i < nodes.len() && converted(
                #[trigger] nodes[i],
                hashes[i],
                id + "."@ + decimal(i as nat),
                parent_class,
                enclosing,
            ) is Some implies kept.contains(i as nat) by {
            if i < n {
                assert(nodes.drop_last()[i] == nodes[i]);
                assert(before.contains(i as nat));
                let k = choose|k: int| 0 <= k < before.len() && before[k] == i as nat;
                assert(kept[k] == i as nat);
            }
        }
        kept
    }
}

/// A node stays for one of three reasons, and for no other: its type is semantic; it is a leaf
/// that shows a name or a literal where that is worth showing; or a child of it stays.
pub proof fn nodes_stay_for_a_reason(
    node: Cst,
    hashes: Hashes,
    id: Seq<char>,
    parent_class: Option<Seq<char>>,
    enclosing: Option<Seq<char>>,
)
    ensures
        converted(node, hashes, id, parent_class, enclosing) is Some <==> {
            ||| semantic(node.node_type)
            ||| node.children.len() == 0 && enclosing is Some && ({
                ||| node.node_type == "identifier"@
                ||| node.node_type == "property_identifier"@
                ||| node.node_type == "private_property_identifier"@
                ||| node.node_type == "shorthand_property_identifier"@
                ||| node.node_type == "type_identifier"@
                ||| node.node_type == "statement_identifier"@
            }) && ({
                ||| enclosing->0 == "formal_parameters"@
                ||| enclosing->0 == "required_parameter"@
                ||| enclosing->0 == "optional_parameter"@
                ||| enclosing->0 == "rest_pattern"@
                ||| enclosing->0 == "pair_pattern"@
                ||| enclosing->0 == "object_pattern"@
                ||| enclosing->0 == "array_pattern"@
                ||| enclosing->0 == "type_annotation"@
                ||| enclosing->0 == "type_parameters"@
                ||| enclosing->0 == "type_arguments"@
                ||| enclosing->0 == "member_expression"@
                ||| enclosing->0 == "call_expression"@
                ||| enclosing->0 == "binary_expression"@
                ||| enclosing->0 == "object"@
                ||| enclosing->0 == "pair"@
                ||| enclosing->0 == "parenthesized_expression"@
                ||| enclosing->0 == "unary_expression"@
                ||| enclosing->0 == "for_in_statement"@
                ||| enclosing->0 == "for_of_statement"@
                ||| enclosing->0 == "lexical_declaration"@
                ||| enclosing->0 == "variable_declaration"@
                ||| enclosing->0 == "variable_declarator"@
            })
            ||| node.children.len() == 0 && enclosing is Some && ({
                ||| node.node_type == "string"@
                ||| node.node_type == "string_fragment"@
                ||| node.node_type == "template_string"@
                ||| node.node_type == "number"@
                ||| node.node_type == "regex"@
            }) && !({
                ||| enclosing->0 == "formal_parameters"@
                ||| enclosing->0 == "required_parameter"@
                ||| enclosing->0 == "optional_parameter"@
                ||| enclosing->0 == "rest_pattern"@
                ||| enclosing->0 == "pair_pattern"@
                ||| enclosing->0 == "object_pattern"@
                ||| enclosing->0 == "array_pattern"@
                ||| enclosing->0 == "type_annotation"@
                ||| enclosing->0 == "type_parameters"@
                ||| enclosing->0 == "type_arguments"@
            })
            ||| exists|i: int|
                0 <= i < node.children.len() && #[trigger] child_made(
                    node,
                    hashes,
                    id,
                    parent_class,
                    enclosing,
                    i,
                ) is Some
        },
{
    let kept = kept_indices(
        node.children,
        hashes.children,
        id,
        class_under(node, parent_class),
        type_under(node, enclosing),
    );
    if kept.len() > 0 {
        assert(child_made(node, hashes, id, parent_class, enclosing, kept[0] as int) is Some);
    }
    if exists|i: int|
        0 <= i < node.children.len() && #[trigger] child_made(
            node,
            hashes,
            id,
            parent_class,
            enclosing,
            i,
        ) is Some {
        let i = choose|i: int|
            0 <= i < node.children.len() && #[trigger] child_made(
                node,
                hashes,
                id,
                parent_class,
                enclosing,
                i,
            ) is Some;
        assert(node.children[i] == node.children[i]);
        assert(kept.contains(i as nat));
    }
}

/// Whether the node to which the first `m` steps of a path lead is the nearest semantic one above
/// the node to which the whole path leads.
pub open spec fn nearest_semantic(root: Cst, path: Seq<nat>, m: int) -> bool {
    &&& 0 <= m < path.len()
    &&& semantic(node_at(root, path.take(m)).node_type)
    &&& forall|n: int|
        m < n < path.len() ==> !semantic(node_at(root, #[trigger] path.take(n)).node_type)
}

/// The type of the nearest semantic node is the one that counts for what stands under it.
proof fn nearest_type(root: Cst, path: Seq<nat>, m: int, outer: Option<Seq<char>>)
    requires
        reaches(root, path),
        nearest_semantic(root, path, m),
    ensures
        type_at(root, path, outer) == Some(node_at(root, path.take(m)).node_type),
    decreases path.len(),
{
    let rest = path.drop_first();
    let child = root.children[path[0] as int];
    assert forall|n: int| 0 < n < path.len() implies node_at(root, #[trigger] path.take(n))
        == node_at(child, rest.take(n - 1)) by {
        assert(path.take(n).drop_first() =~= rest.take(n - 1));
    }
    if m == 0 {
        assert forall|n: int| 0 <= n < rest.len() implies !semantic(
            node_at(child, #[trigger] rest.take(n)).node_type,
        ) by {
            assert(!semantic(node_at(root, path.take(n + 1)).node_type));
        }
        no_semantic_between(child, rest, Some(root.node_type));
    } else {
        assert forall|n: int| m - 1 < n < rest.len() implies !semantic(
            node_at(child, #[trigger] rest.take(n)).node_type,
        ) by {
            assert(!semantic(node_at(root, path.take(n + 1)).node_type));
        }
        nearest_type(child, rest, m - 1, type_under(root, outer));
    }
}

/// Where no node along a path is semantic, the type above its start counts at its end.
proof fn no_semantic_between(root: Cst, path: Seq<nat>, outer: Option<Seq<char>>)
    requires
        forall|n: int|
            0 <= n < path.len() ==> !semantic(node_at(root, #[trigger] path.take(n)).node_type),
    ensures
        type_at(root, path, outer) == outer,
    decreases path.len(),
{
    if path.len() > 0 {
        let rest = path.drop_first();
        let child = root.children[path[0] as int];
        assert(node_at(root, path.take(0)) == root);
        assert forall|n: int| 0 <= n < rest.len() implies !semantic(
            node_at(child, #[trigger] rest.take(n)).node_type,
        ) by {
            assert(path.take(n + 1).drop_first() =~= rest.take(n));
            assert(!semantic(node_at(root, path.take(n + 1)).node_type));
        }
        no_semantic_between(child, rest, outer);
    }
}

/// A literal is never lost outside of signatures: of every leaf that is a literal, or a piece of
/// one, under a nearest semantic node that belongs to no signature, the semantic tree holds a
/// node with the id of that leaf, and its text for its label.
pub proof fn literals_are_held(root: Cst, hashes: Hashes, path: Seq<nat>, m: int) -> (kept: Semantic)
    requires
        reaches(root, path),
        node_at(root, path).children.len() == 0,
        ({
            ||| node_at(root, path).node_type == "string"@
            ||| node_at(root, path).node_type == "string_fragment"@
            ||| node_at(root, path).node_type == "template_string"@
            ||| node_at(root, path).node_type == "number"@
            ||| node_at(root, path).node_type == "regex"@
        }),
        nearest_semantic(root, path, m),
        !({
            ||| node_at(root, path.take(m)).node_type == "formal_parameters"@
            ||| node_at(root, path.take(m)).node_type == "required_parameter"@
            ||| node_at(root, path.take(m)).node_type == "optional_parameter"@
            ||| node_at(root, path.take(m)).node_type == "rest_pattern"@
            ||| node_at(root, path.take(m)).node_type == "pair_pattern"@
            ||| node_at(root, path.take(m)).node_type == "object_pattern"@
            ||| node_at(root, path.take(m)).node_type == "array_pattern"@
            ||| node_at(root, path.take(m)).node_type == "type_annotation"@
            ||| node_at(root, path.take(m)).node_type == "type_parameters"@
            ||| node_at(root, path.take(m)).node_type == "type_arguments"@
        }),
    ensures
        converted(root, hashes, "0"@, None, None) is Some,
        holds(converted(root, hashes, "0"@, None, None)->0, kept),
        kept.id == path_id("0"@, path),
        kept.node_type == node_at(root, path).node_type,
        kept.label == node_at(root, path).text_or_empty(),
{
    nearest_type(root, path, m, None);
    nodes_made_are_held(root, hashes, "0"@, None, None, path);
    converted_at(root, hashes, "0"@, None, None, path)->0
}

/// A name is never lost where names are worth showing: of every leaf that is a name, under a
/// nearest semantic node that belongs to a signature, an expression or a declaration of
/// variables, the semantic tree holds a node with the id of that leaf, and its text for its
/// label.
pub proof fn names_are_held(root: Cst, hashes: Hashes, path: Seq<nat>, m: int) -> (kept: Semantic)
    requires
        reaches(root, path),
        node_at(root, path).children.len() == 0,
        ({
            ||| node_at(root, path).node_type == "identifier"@
            ||| node_at(root, path).node_type == "property_identifier"@
            ||| node_at(root, path).node_type == "private_property_identifier"@
            ||| node_at(root, path).node_type == "shorthand_property_identifier"@
            ||| node_at(root, path).node_type == "type_identifier"@
            ||| node_at(root, path).node_type == "statement_identifier"@
        }),
        nearest_semantic(root, path, m),
        ({
            ||| node_at(root, path.take(m)).node_type == "formal_parameters"@
            ||| node_at(root, path.take(m)).node_type == "required_parameter"@
            ||| node_at(root, path.take(m)).node_type == "optional_parameter"@
            ||| node_at(root, path.take(m)).node_type == "rest_pattern"@
            ||| node_at(root, path.take(m)).node_type == "pair_pattern"@
            ||| node_at(root, path.take(m)).node_type == "object_pattern"@
            ||| node_at(root, path.take(m)).node_type == "array_pattern"@
            ||| node_at(root, path.take(m)).node_type == "type_annotation"@
            ||| node_at(root, path.take(m)).node_type == "type_parameters"@
            ||| node_at(root, path.take(m)).node_type == "type_arguments"@
            ||| node_at(root, path.take(m)).node_type == "member_expression"@
            ||| node_at(root, path.take(m)).node_type == "call_expression"@
            ||| node_at(root, path.take(m)).node_type == "binary_expression"@
            ||| node_at(root, path.take(m)).node_type == "object"@
            ||| node_at(root, path.take(m)).node_type == "pair"@
            ||| node_at(root, path.take(m)).node_type == "parenthesized_expression"@
            ||| node_at(root, path.take(m)).node_type == "unary_expression"@
            ||| node_at(root, path.take(m)).node_type == "for_in_statement"@
            ||| node_at(root, path.take(m)).node_type == "for_of_statement"@
            ||| node_at(root, path.take(m)).node_type == "lexical_declaration"@
            ||| node_at(root, path.take(m)).node_type == "variable_declaration"@
            ||| node_at(root, path.take(m)).node_type == "variable_declarator"@
        }),
    ensures
        converted(root, hashes, "0"@, None, None) is Some,
        holds(converted(root, hashes, "0"@, None, None)->0, kept),
        kept.id == path_id("0"@, path),
        kept.node_type == node_at(root, path).node_type,
        kept.label == node_at(root, path).text_or_empty(),
{
    nearest_type(root, path, m, None);
    nodes_made_are_held(root, hashes, "0"@, None, None, path);
    converted_at(root, hashes, "0"@, None, None, path)->0
}

/// Nothing else is shown: a node of the semantic tree with nothing below it is of a semantic
/// type, a name or a literal.
pub proof fn what_is_shown(root: Cst, hashes: Hashes, kept: Semantic)
    requires
        converted(root, hashes, "0"@, None, None) is Some,
        holds(converted(root, hashes, "0"@, None, None)->0, kept),
        kept.children.len() == 0,
    ensures
        semantic(kept.node_type) || ({
            ||| kept.node_type == "identifier"@
            ||| kept.node_type == "property_identifier"@
            ||| kept.node_type == "private_property_identifier"@
            ||| kept.node_type == "shorthand_property_identifier"@
            ||| kept.node_type == "type_identifier"@
            ||| kept.node_type == "statement_identifier"@
            ||| kept.node_type == "string"@
            ||| kept.node_type == "string_fragment"@
            ||| kept.node_type == "template_string"@
            ||| kept.node_type == "number"@
            ||| kept.node_type == "regex"@
        }),
{
    let path = held_nodes_are_made(root, hashes, "0"@, None, None, kept);
}

/// The facts of a node say that it is `async` exactly where its type does, and nothing else.
pub proof fn facts_follow_from_types(node_type: Seq<char>)
    ensures
        ({
            ||| node_type == "async_function_declaration"@
            ||| node_type == "async_function"@
            ||| node_type == "async_function_expression"@
            ||| node_type == "async_arrow_function"@
            ||| node_type == "async_generator_function_declaration"@
            ||| node_type == "async_generator_function"@
            ||| node_type == "async_method_definition"@
        }) ==> facts_of(node_type) == Some(NodeFacts { is_async: Some(true) }),
        !({
            ||| node_type == "async_function_declaration"@
            ||| node_type == "async_function"@
            ||| node_type == "async_function_expression"@
            ||| node_type == "async_arrow_function"@
            ||| node_type == "async_generator_function_declaration"@
            ||| node_type == "async_generator_function"@
            ||| node_type == "async_method_definition"@
        }) ==> facts_of(node_type) is None,
{
}

/// There is one hash for each node of a tree exactly where at every place of the tree there are
/// as many hashes as children.
pub proof fn hashes_mirror_every_place(hashes: Hashes, node: Cst)
    ensures
        mirrors(hashes, node) <==> forall|path: Seq<nat>| #[trigger]
            reaches(node, path) ==> hashes_at(hashes, path).children.len() == node_at(
                node,
                path,
            ).children.len(),
    decreases node,
{
    if mirrors(hashes, node) {
        assert forall|path: Seq<nat>| #[trigger] reaches(node, path) implies hashes_at(
            hashes,
            path,
        ).children.len() == node_at(node, path).children.len() by {
            if path.len() > 0 {
                let i = path[0] as int;
                assert(mirrors(hashes.children[i], node.children[i]));
                hashes_mirror_every_place(hashes.children[i], node.children[i]);
                assert(reaches(node.children[i], path.drop_first()));
            }
        }
    }
    if forall|path: Seq<nat>| #[trigger]
        reaches(node, path) ==> hashes_at(hashes, path).children.len() == node_at(
            node,
            path,
        ).children.len() {
        assert(reaches(node, Seq::<nat>::empty()));
        assert forall|i: int| 0 <= i < node.children.len() implies mirrors(
            hashes.children[i],
            #[trigger] node.children[i],
        ) by {
            let child = node.children[i];
            assert forall|path: Seq<nat>| #[trigger] reaches(child, path) implies hashes_at(
                hashes.children[i],
                path,
            ).children.len() == node_at(child, path).children.len() by {
                let longer = seq![i as nat] + path;
                assert(longer.drop_first() =~= path);
                assert(reaches(node, longer));
            }
            hashes_mirror_every_place(hashes.children[i], child);
        }
    }
}

} // verus!
