//! The concrete syntax tree: named nodes only, with the text of the leaves.

use vstd::prelude::*;

verus! {

/// A node of the concrete syntax tree.
#[derive(Debug)]
pub struct CstNode {
    /// The type of the node: its kind in the grammar, or the `async` form of it.
    pub node_type: String,
    /// Whether the grammar names this node.
    pub named: bool,
    /// The text of a leaf.
    pub text: Option<String>,
    pub start_line: u32,
    pub start_col: u32,
    pub end_line: u32,
    pub end_col: u32,
    pub children: Vec<CstNode>,
}

/// What a `CstNode` holds.
pub struct Cst {
    pub node_type: Seq<char>,
    pub named: bool,
    pub text: Option<Seq<char>>,
    pub start_line: u32,
    pub start_col: u32,
    pub end_line: u32,
    pub end_col: u32,
    pub children: Seq<Cst>,
}

/// What an optional string holds.
pub open spec fn optional_text(text: Option<String>) -> Option<Seq<char>> {
    match text {
        Some(s) => Some(s@),
        None => None,
    }
}

/// What `node` holds, with everything below it.
pub open spec fn cst(node: CstNode) -> Cst
    decreases node,
{
    Cst {
        node_type: node.node_type@,
        named: node.named,
        text: optional_text(node.text),
        start_line: node.start_line,
        start_col: node.start_col,
        end_line: node.end_line,
        end_col: node.end_col,
        children: Seq::new(
            node.children@.len(),
            |i: int|
                if 0 <= i < node.children@.len() {
                    cst(node.children@[i])
                } else {
                    arbitrary()
                },
        ),
    }
}

impl View for CstNode {
    type V = Cst;

    open spec fn view(&self) -> Cst {
        cst(*self)
    }
}

impl Cst {
    /// Whether nothing stands below the node.
    pub open spec fn leaf(self) -> bool {
        self.children.len() == 0
    }

    /// The text of the node; empty where it has none.
    pub open spec fn text_or_empty(self) -> Seq<char> {
        match self.text {
            Some(text) => text,
            None => Seq::empty(),
        }
    }
}

impl CstNode {
    /// Whether nothing stands below the node.
    pub fn is_leaf(&self) -> (r: bool)
        ensures
            r == self@.leaf(),
    {
        self.children.len() == 0
    }

    /// The text of the node; empty where it has none.
    pub fn text_or_empty(&self) -> (r: &str)
        ensures
            r@ == self@.text_or_empty(),
    {
        match &self.text {
            Some(text) => text.as_str(),
            None => {
                proof {
                    reveal_strlit("");
                }
                assert(""@ =~= Seq::<char>::empty());
                ""
            },
        }
    }
}

/// The `i`th child of what a node holds is what its `i`th child holds.
pub broadcast proof fn cst_child(node: CstNode, i: int)
    requires
        0 <= i < node.children@.len(),
    ensures
        #[trigger] cst(node).children[i] == cst(node.children@[i]),
{
}

/// A node holds its fields as they are, and its children one for one.
pub proof fn nodes_hold_their_fields(node: CstNode)
    ensures
        node@.node_type == node.node_type@,
        node@.named == node.named,
        node.text is None ==> node@.text is None,
        node.text is Some ==> node@.text == Some(node.text->0@),
        node@.start_line == node.start_line,
        node@.start_col == node.start_col,
        node@.end_line == node.end_line,
        node@.end_col == node.end_col,
        node@.children.len() == node.children@.len(),
        forall|i: int|
            0 <= i < node.children@.len() ==> #[trigger] node@.children[i] == node.children@[i]@,
{
}

/// A leaf is a node without children, and a node without a text has the empty one.
pub proof fn leaves_have_no_children(node: Cst)
    ensures
        node.leaf() <==> node.children.len() == 0,
        node.text is Some ==> node.text_or_empty() == node.text->0,
        node.text is None ==> node.text_or_empty().len() == 0,
{
}

} // verus!
