//! The semantic tree: what of a concrete syntax tree matters to who compares two versions.

use vstd::prelude::*;

use crate::cst::{cst_child, optional_text, Cst, CstNode};
use crate::label::{label_for, label_of};
use crate::text::{decimal, decimal_text};
use crate::vocabulary::{
    async_type, class_like, is_async_node_type, is_class_like, is_literal_evidence_leaf,
    is_method_like, is_review_name_context, is_semantic, is_signature_context,
    is_signature_name_leaf, literal_evidence_leaf, method_like, review_name_context, semantic,
    signature_context, signature_name_leaf,
};

verus! {

broadcast use cst_child;

/// Facts about a node that hold no text of the source.
#[derive(Clone, Copy, PartialEq, Eq, Structural, Debug)]
pub struct NodeFacts {
    /// Whether the node is an `async` function, where that is known.
    pub is_async: Option<bool>,
}

/// A node of the semantic tree.
#[derive(Debug)]
pub struct SemanticNode {
    /// The path of the node from the root of the concrete syntax tree.
    pub id: String,
    pub node_type: String,
    pub label: String,
    pub start_line: u32,
    pub start_col: u32,
    pub end_line: u32,
    pub end_col: u32,
    /// The structural hash of the concrete syntax node.
    pub structural_hash: String,
    pub children: Vec<SemanticNode>,
    /// The label of the class that encloses a function or a method.
    pub parent_type: Option<String>,
    pub facts: Option<NodeFacts>,
}

/// What a `SemanticNode` holds.
pub struct Semantic {
    pub id: Seq<char>,
    pub node_type: Seq<char>,
    pub label: Seq<char>,
    pub start_line: u32,
    pub start_col: u32,
    pub end_line: u32,
    pub end_col: u32,
    pub structural_hash: Seq<char>,
    pub children: Seq<Semantic>,
    pub parent_type: Option<Seq<char>>,
    pub facts: Option<NodeFacts>,
}

/// What `node` holds, with everything below it.
pub open spec fn semantic_tree(node: SemanticNode) -> Semantic
    decreases node,
{
    Semantic {
        id: node.id@,
        node_type: node.node_type@,
        label: node.label@,
        start_line: node.start_line,
        start_col: node.start_col,
        end_line: node.end_line,
        end_col: node.end_col,
        structural_hash: node.structural_hash@,
        children: semantic_trees(node.children@),
        parent_type: optional_text(node.parent_type),
        facts: node.facts,
    }
}

/// What some nodes hold, with everything below them.
pub open spec fn semantic_trees(nodes: Seq<SemanticNode>) -> Seq<Semantic>
    decreases nodes,
{
    Seq::new(
        nodes.len(),
        |i: int|
            if 0 <= i < nodes.len() {
                semantic_tree(nodes[i])
            } else {
                arbitrary()
            },
    )
}

impl View for SemanticNode {
    type V = Semantic;

    open spec fn view(&self) -> Semantic {
        semantic_tree(*self)
    }
}

/// What an optional semantic tree holds.
pub open spec fn optional_tree(tree: Option<SemanticNode>) -> Option<Semantic> {
    match tree {
        Some(node) => Some(node@),
        None => None,
    }
}

/// The structural hashes of a concrete syntax tree, node for node.
#[derive(Debug)]
pub struct HashTree {
    /// The structural hash of the node.
    pub hash: String,
    /// The hashes of its children.
    pub children: Vec<HashTree>,
}

/// What a `HashTree` holds.
pub struct Hashes {
    pub hash: Seq<char>,
    pub children: Seq<Hashes>,
}

/// What `hashes` holds, with everything below it.
pub open spec fn hashes_of(tree: HashTree) -> Hashes
    decreases tree,
{
    Hashes {
        hash: tree.hash@,
        children: Seq::new(
            tree.children@.len(),
            |i: int|
                if 0 <= i < tree.children@.len() {
                    hashes_of(tree.children@[i])
                } else {
                    arbitrary()
                },
        ),
    }
}

impl View for HashTree {
    type V = Hashes;

    open spec fn view(&self) -> Hashes {
        hashes_of(*self)
    }
}

/// Whether there is one hash for each node of a tree, in the shape of the tree.
pub open spec fn mirrors(hashes: Hashes, node: Cst) -> bool
    decreases node,
{
    &&& hashes.children.len() == node.children.len()
    &&& forall|i: int|
        0 <= i < node.children.len() ==> mirrors(hashes.children[i], #[trigger] node.children[i])
}

impl HashTree {
    /// Whether there is one hash for each node of `node`, in its shape.
    pub fn matches(&self, node: &CstNode) -> (r: bool)
        ensures
            r == mirrors(self@, node@),
        decreases node,
    {
        if self.children.len() != node.children.len() {
            return false;
        }
        let mut i: usize = 0;
        while i < node.children.len()
            invariant
                i <= node.children.len(),
                self.children.len() == node.children.len(),
                forall|j: int|
                    0 <= j < i ==> mirrors(self@.children[j], #[trigger] node@.children[j]),
            decreases node.children.len() - i,
        {
            if !self.children[i].matches(&node.children[i]) {
                assert(!mirrors(self@.children[i as int], node@.children[i as int]));
                return false;
            }
            i += 1;
        }
        true
    }
}

/// The id of the `i`th child of the node with the id `id`.
pub open spec fn child_id(id: Seq<char>, i: nat) -> Seq<char> {
    id + "."@ + decimal(i)
}

/// The label of the class that encloses what stands under `node`.
pub open spec fn class_below(node: Cst, parent_class: Option<Seq<char>>) -> Option<Seq<char>> {
    if class_like(node.node_type) {
        Some(label_of(node))
    } else {
        parent_class
    }
}

/// The type of the nearest semantic node above what stands under `node`.
pub open spec fn type_below(node: Cst, enclosing: Option<Seq<char>>) -> Option<Seq<char>> {
    if semantic(node.node_type) {
        Some(node.node_type)
    } else {
        enclosing
    }
}

/// Whether a leaf is kept for what it shows: a name where names are worth showing, a
/// literal outside of signatures.
pub open spec fn evidence(node: Cst, enclosing: Option<Seq<char>>) -> bool {
    node.leaf() && match enclosing {
        Some(outer) => {
            ||| signature_name_leaf(node.node_type) && review_name_context(outer)
            ||| literal_evidence_leaf(node.node_type) && !signature_context(outer)
        },
        None => false,
    }
}

/// The facts that the type of a node shows.
pub open spec fn facts_of(node_type: Seq<char>) -> Option<NodeFacts> {
    if async_type(node_type) {
        Some(NodeFacts { is_async: Some(true) })
    } else {
        None
    }
}

/// The semantic tree of a concrete syntax tree: a node stays where its type is semantic,
/// where it is evidence, or where something below it stays.
pub open spec fn converted(
    node: Cst,
    hashes: Hashes,
    id: Seq<char>,
    parent_class: Option<Seq<char>>,
    enclosing: Option<Seq<char>>,
) -> Option<Semantic>
    decreases node,
{
    let children = converted_children(
        node.children,
        hashes.children,
        id,
        class_below(node, parent_class),
        type_below(node, enclosing),
    );
    if semantic(node.node_type) || evidence(node, enclosing) || children.len() > 0 {
        Some(
            Semantic {
                id,
                node_type: node.node_type,
                label: label_of(node),
                start_line: node.start_line,
                start_col: node.start_col,
                end_line: node.end_line,
                end_col: node.end_col,
                structural_hash: hashes.hash,
                children,
                parent_type: if method_like(node.node_type) {
                    parent_class
                } else {
                    None
                },
                facts: facts_of(node.node_type),
            },
        )
    } else {
        None
    }
}

/// The semantic trees of the children of the node with the id `id`, of those that stay.
pub open spec fn converted_children(
    nodes: Seq<Cst>,
    hashes: Seq<Hashes>,
    id: Seq<char>,
    parent_class: Option<Seq<char>>,
    enclosing: Option<Seq<char>>,
) -> Seq<Semantic>
    decreases nodes,
{
    if nodes.len() == 0 {
        Seq::empty()
    } else {
        let last = nodes.len() - 1;
        let before = converted_children(nodes.drop_last(), hashes, id, parent_class, enclosing);
        match converted(
            nodes.last(),
            hashes[last],
            child_id(id, last as nat),
            parent_class,
            enclosing,
        ) {
            Some(tree) => before.push(tree),
            None => before,
        }
    }
}

/// What an optional string slice holds.
pub open spec fn optional_str(text: Option<&str>) -> Option<Seq<char>> {
    match text {
        Some(s) => Some(s@),
        None => None,
    }
}

/// Whether a leaf is kept for what it shows.
fn is_evidence(node: &CstNode, enclosing: Option<&str>) -> (r: bool)
    ensures
        r == evidence(node@, optional_str(enclosing)),
{
    let node_type = node.node_type.as_str();
    match enclosing {
        Some(outer) => node.is_leaf() && (is_signature_name_leaf(node_type)
            && is_review_name_context(outer) || is_literal_evidence_leaf(node_type)
            && !is_signature_context(outer)),
        None => false,
    }
}

/// The id of the `i`th child of the node with the id `id`.
fn child_id_text(id: &str, i: usize) -> (r: String)
    ensures
        r@ == child_id(id@, i as nat),
{
    let mut r = id.to_owned();
    r.append(".");
    r.append(decimal_text(i).as_str());
    r
}

/// The semantic tree of `node`, which has the id `id_prefix`, the structural hashes
/// `hashes`, the label `parent_class` of the class around it and the type
/// `parent_semantic_type` of the nearest semantic node above it.
pub fn convert(
    node: &CstNode,
    hashes: &HashTree,
    id_prefix: &str,
    parent_class: Option<&str>,
    parent_semantic_type: Option<&str>,
) -> (r: Option<SemanticNode>)
    requires
        mirrors(hashes@, node@),
    ensures
        optional_tree(r) == converted(
            node@,
            hashes@,
            id_prefix@,
            optional_str(parent_class),
            optional_str(parent_semantic_type),
        ),
    decreases node,
{
    let node_type = node.node_type.as_str();
    let own_class_label: Option<String> = if is_class_like(node_type) {
        Some(label_for(node))
    } else {
        None
    };
    let child_parent_class: Option<&str> = match &own_class_label {
        Some(label) => Some(label.as_str()),
        None => parent_class,
    };
    let semantic_here = is_semantic(node_type);
    let child_semantic_type: Option<&str> = if semantic_here {
        Some(node_type)
    } else {
        parent_semantic_type
    };
    let mut children: Vec<SemanticNode> = Vec::new();
    let mut i: usize = 0;
    while i < node.children.len()
        invariant
            i <= node.children.len(),
            mirrors(hashes@, node@),
            semantic_trees(children@) == converted_children(
                node@.children.take(i as int),
                hashes@.children,
                id_prefix@,
                optional_str(child_parent_class),
                optional_str(child_semantic_type),
            ),
        decreases node.children.len() - i,
    {
        assert(node@.children.take(i + 1).drop_last() == node@.children.take(i as int));
        assert(mirrors(hashes@.children[i as int], node@.children[i as int]));
        let id = child_id_text(id_prefix, i);
        if let Some(child) = convert(
            &node.children[i],
            &hashes.children[i],
            id.as_str(),
            child_parent_class,
            child_semantic_type,
        ) {
            let ghost before = children@;
            children.push(child);
            assert(semantic_trees(children@) =~= semantic_trees(before).push(child@));
        }
        i += 1;
    }
    assert(node@.children.take(node.children.len() as int) == node@.children);
    if !semantic_here && !is_evidence(node, parent_semantic_type) && children.len() == 0 {
        return None;
    }
    let parent_type: Option<String> = match parent_class {
        Some(class_name) => if is_method_like(node_type) {
            Some(class_name.to_owned())
        } else {
            None
        },
        None => None,
    };
    let facts: Option<NodeFacts> = if is_async_node_type(node_type) {
        Some(NodeFacts { is_async: Some(true) })
    } else {
        None
    };
    Some(
        SemanticNode {
            id: id_prefix.to_owned(),
            node_type: node.node_type.clone(),
            label: label_for(node),
            start_line: node.start_line,
            start_col: node.start_col,
            end_line: node.end_line,
            end_col: node.end_col,
            structural_hash: hashes.hash.clone(),
            children,
            parent_type,
            facts,
        },
    )
}

/// A node of a semantic tree holds its fields as they are, and its children one for one.
pub proof fn semantic_nodes_hold_their_fields(node: SemanticNode)
    ensures
        node@.id == node.id@,
        node@.node_type == node.node_type@,
        node@.label == node.label@,
        node@.start_line == node.start_line,
        node@.start_col == node.start_col,
        node@.end_line == node.end_line,
        node@.end_col == node.end_col,
        node@.structural_hash == node.structural_hash@,
        node.parent_type is None ==> node@.parent_type is None,
        node.parent_type is Some ==> node@.parent_type == Some(node.parent_type->0@),
        node@.facts == node.facts,
        node@.children.len() == node.children@.len(),
        forall|i: int|
            0 <= i < node.children@.len() ==> #[trigger] node@.children[i] == node.children@[i]@,
{
}

/// Hashes are held as they are, and those of the children one for one.
pub proof fn hash_trees_hold_their_fields(tree: HashTree)
    ensures
        tree@.hash == tree.hash@,
        tree@.children.len() == tree.children@.len(),
        forall|i: int|
            0 <= i < tree.children@.len() ==> #[trigger] tree@.children[i] == tree.children@[i]@,
{
}

/// What may be missing is missing in what it holds, and nothing else is.
pub proof fn optional_values_are_held(tree: Option<SemanticNode>, text: Option<&str>)
    ensures
        tree is None ==> optional_tree(tree) is None,
        tree is Some ==> optional_tree(tree) == Some(tree->0@),
        text is None ==> optional_str(text) is None,
        text is Some ==> optional_str(text) == Some(text->0@),
{
}

} // verus!
