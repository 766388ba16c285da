//! Syntax trees as the grammars give them, read out of `tree_sitter` into plain values.

use vstd::prelude::*;
use vstd::utf8::*;

use crate::text::texts;

verus! {

/// The grammars that sources are parsed with.
#[derive(Clone, Copy, PartialEq, Eq, Structural, Debug)]
pub enum Grammar {
    JavaScript,
    TypeScript,
    Tsx,
}

/// A node of a syntax tree, as far as anything here looks at it.
#[derive(Debug)]
pub struct SyntaxNode {
    /// The kind of the node in the grammar.
    pub kind: String,
    /// Whether the grammar names this node, or it is a token written out in a rule.
    pub named: bool,
    /// Where the node starts in the source, and where it ends, in bytes.
    pub start_byte: usize,
    pub end_byte: usize,
    /// Where the node starts and ends, in rows and in bytes from the start of the row.
    pub start_row: usize,
    pub start_column: usize,
    pub end_row: usize,
    pub end_column: usize,
    /// The kinds of all the children, named or not.
    pub child_kinds: Vec<String>,
    /// The children that the grammar names.
    pub named_children: Vec<SyntaxNode>,
}

/// What a `SyntaxNode` holds.
pub struct Syntax {
    pub kind: Seq<char>,
    pub named: bool,
    pub start_byte: usize,
    pub end_byte: usize,
    pub start_row: usize,
    pub start_column: usize,
    pub end_row: usize,
    pub end_column: usize,
    pub child_kinds: Seq<Seq<char>>,
    pub named_children: Seq<Syntax>,
}

/// What `node` holds, with everything below it.
pub open spec fn syntax(node: SyntaxNode) -> Syntax
    decreases node,
{
    Syntax {
        kind: node.kind@,
        named: node.named,
        start_byte: node.start_byte,
        end_byte: node.end_byte,
        start_row: node.start_row,
        start_column: node.start_column,
        end_row: node.end_row,
        end_column: node.end_column,
        child_kinds: texts(node.child_kinds@),
        named_children: Seq::new(
            node.named_children@.len(),
            |i: int|
                if 0 <= i < node.named_children@.len() {
                    syntax(node.named_children@[i])
                } else {
                    arbitrary()
                },
        ),
    }
}

impl View for SyntaxNode {
    type V = Syntax;

    open spec fn view(&self) -> Syntax {
        syntax(*self)
    }
}

/// Whether all that stands under a node in the lists of named children is named.
pub open spec fn children_are_named(node: Syntax) -> bool
    decreases node,
{
    forall|i: int|
        0 <= i < node.named_children.len() ==> (#[trigger] node.named_children[i]).named
            && children_are_named(node.named_children[i])
}

/// What a parser comes to.
#[derive(Debug)]
pub enum ParseOutcome {
    /// The grammar does not fit the parser.
    GrammarRejected,
    /// The parser stopped before it had a tree.
    NoTree,
    /// The root of the syntax tree.
    Tree(SyntaxNode),
}

/// A syntax tree of `tree_sitter`.
#[verifier::external_type_specification]
#[verifier::external_body]
pub struct ExTree(tree_sitter::Tree);

/// A node of a syntax tree of `tree_sitter`, by which all that stands below it is reached.
#[verifier::external_type_specification]
#[verifier::external_body]
pub struct ExNode<'tree>(tree_sitter::Node<'tree>);

/// The error of a parser that a grammar does not fit, which nothing here looks into.
#[verifier::external_type_specification]
#[verifier::external_body]
pub struct ExLanguageError(tree_sitter::LanguageError);

/// What a `tree_sitter::Tree` holds.
pub uninterp spec fn tree_contents(tree: tree_sitter::Tree) -> Syntax;

/// What a `tree_sitter::Node` holds, with everything below it.
pub uninterp spec fn node_contents(node: tree_sitter::Node<'_>) -> Syntax;

/// Whether `tree_sitter::Parser::parse` may build this tree from a text, by a grammar.
pub uninterp spec fn may_build(grammar: Grammar, source: Seq<char>, tree: Syntax) -> bool;

/// The syntax tree that `tree_sitter::Parser::parse` builds from a text of ASCII
/// characters, by a grammar.
pub uninterp spec fn parsed(grammar: Grammar, source: Seq<char>) -> Syntax;

/// `Tree::root_node` hands out the node that stands for the whole tree.
pub assume_specification[ tree_sitter::Tree::root_node ](tree: &tree_sitter::Tree) -> (r:
    tree_sitter::Node<'_>)
    ensures
        node_contents(r) == tree_contents(*tree),
;

/// `Node::kind` gives the name of the node's kind.
pub assume_specification<'tree>[ tree_sitter::Node::<'tree>::kind ](
    node: &tree_sitter::Node<'tree>,
) -> (r: &'static str)
    ensures
        r@ == node_contents(*node).kind,
;

/// `Node::is_named` says whether the grammar names the node.
pub assume_specification<'tree>[ tree_sitter::Node::<'tree>::is_named ](
    node: &tree_sitter::Node<'tree>,
) -> (r: bool)
    ensures
        r == node_contents(*node).named,
;

/// `Node::start_byte` gives the offset of the node's first byte.
pub assume_specification<'tree>[ tree_sitter::Node::<'tree>::start_byte ](
    node: &tree_sitter::Node<'tree>,
) -> (r: usize)
    ensures
        r == node_contents(*node).start_byte,
;

/// `Node::end_byte` gives the offset of the byte behind the node's last one.
pub assume_specification<'tree>[ tree_sitter::Node::<'tree>::end_byte ](
    node: &tree_sitter::Node<'tree>,
) -> (r: usize)
    ensures
        r == node_contents(*node).end_byte,
;

/// `Node::start_position` gives the row and the column at which the node starts.
#[verifier::external_body]
fn start_position(node: &tree_sitter::Node<'_>) -> (r: (usize, usize))
    ensures
        r.0 == node_contents(*node).start_row,
        r.1 == node_contents(*node).start_column,
{
    let point = node.start_position();
    (point.row, point.column)
}

/// `Node::end_position` gives the row and the column at which the node ends.
#[verifier::external_body]
fn end_position(node: &tree_sitter::Node<'_>) -> (r: (usize, usize))
    ensures
        r.0 == node_contents(*node).end_row,
        r.1 == node_contents(*node).end_column,
{
    let point = node.end_position();
    (point.row, point.column)
}

/// `Node::children` walks all the children of the node in order; here the kind of each
/// is taken.
#[verifier::external_body]
fn child_kinds(node: &tree_sitter::Node<'_>) -> (r: Vec<String>)
    ensures
        texts(r@) == node_contents(*node).child_kinds,
{
    let mut cursor = node.walk();
    node.children(&mut cursor).map(|child| child.kind().to_string()).collect()
}

/// `Node::named_child_count` counts the children that the grammar names.
pub assume_specification<'tree>[ tree_sitter::Node::<'tree>::named_child_count ](
    node: &tree_sitter::Node<'tree>,
) -> (r: usize)
    ensures
        r == node_contents(*node).named_children.len(),
;

/// `Node::named_child` hands out the `i`th of the children that the grammar names, for
/// each `i` below their number, and never a node that the grammar does not name.
pub assume_specification<'tree>[ tree_sitter::Node::<'tree>::named_child ](
    node: &tree_sitter::Node<'tree>,
    i: usize,
) -> (r: Option<tree_sitter::Node<'tree>>)
    ensures
        i < node_contents(*node).named_children.len() ==> r is Some,
        i < node_contents(*node).named_children.len() ==> node_contents(r->0) == node_contents(
            *node,
        ).named_children[i as int],
        r is Some ==> node_contents(r->0).named,
;

/// `Parser::parse`, on a fresh parser that `Parser::set_language` gave the JavaScript
/// grammar. The grammar has an ABI version that the parser takes, and a parser with a
/// language, without a time limit and without a way to cancel it, always builds a tree.
/// Of a text of ASCII characters the tree depends on the text alone; of another it may
/// also depend on what the C library takes for a space or a letter, so all that is said of
/// that tree is that the parser may build it. Offsets in a tree have 32 bits, which bounds
/// the text.
#[verifier::external_body]
fn parse_javascript(source: &str) -> (r: Result<Option<tree_sitter::Tree>, tree_sitter::LanguageError>)
    requires
        encode_utf8(source@).len() <= u32::MAX,
    ensures
        r matches Ok(Some(_)),
        may_build(Grammar::JavaScript, source@, tree_contents(r->Ok_0->0)),
        is_ascii_chars(source@) ==> tree_contents(r->Ok_0->0) == parsed(
            Grammar::JavaScript,
            source@,
        ),
{
    let mut parser = tree_sitter::Parser::new();
    parser.set_language(&tree_sitter_javascript::LANGUAGE.into())?;
    Ok(parser.parse(source, None))
}

/// `Parser::parse`, on a fresh parser that `Parser::set_language` gave the TypeScript
/// grammar. The grammar has an ABI version that the parser takes, and a parser with a
/// language, without a time limit and without a way to cancel it, always builds a tree.
/// Of a text of ASCII characters the tree depends on the text alone; of another it may
/// also depend on what the C library takes for a space or a letter, so all that is said of
/// that tree is that the parser may build it. Offsets in a tree have 32 bits, which bounds
/// the text.
#[verifier::external_body]
fn parse_typescript(source: &str) -> (r: Result<Option<tree_sitter::Tree>, tree_sitter::LanguageError>)
    requires
        encode_utf8(source@).len() <= u32::MAX,
    ensures
        r matches Ok(Some(_)),
        may_build(Grammar::TypeScript, source@, tree_contents(r->Ok_0->0)),
        is_ascii_chars(source@) ==> tree_contents(r->Ok_0->0) == parsed(
            Grammar::TypeScript,
            source@,
        ),
{
    let mut parser = tree_sitter::Parser::new();
    parser.set_language(&tree_sitter_typescript::LANGUAGE_TYPESCRIPT.into())?;
    Ok(parser.parse(source, None))
}

/// `Parser::parse`, on a fresh parser that `Parser::set_language` gave the TSX
/// grammar. The grammar has an ABI version that the parser takes, and a parser with a
/// language, without a time limit and without a way to cancel it, always builds a tree.
/// Of a text of ASCII characters the tree depends on the text alone; of another it may
/// also depend on what the C library takes for a space or a letter, so all that is said of
/// that tree is that the parser may build it. Offsets in a tree have 32 bits, which bounds
/// the text.
#[verifier::external_body]
fn parse_tsx(source: &str) -> (r: Result<Option<tree_sitter::Tree>, tree_sitter::LanguageError>)
    requires
        encode_utf8(source@).len() <= u32::MAX,
    ensures
        r matches Ok(Some(_)),
        may_build(Grammar::Tsx, source@, tree_contents(r->Ok_0->0)),
        is_ascii_chars(source@) ==> tree_contents(r->Ok_0->0) == parsed(
            Grammar::Tsx,
            source@,
        ),
{
    let mut parser = tree_sitter::Parser::new();
    parser.set_language(&tree_sitter_typescript::LANGUAGE_TSX.into())?;
    Ok(parser.parse(source, None))
}

/// Reads a node of a syntax tree into plain values, with everything below it.
pub fn read_node(node: tree_sitter::Node<'_>) -> (r: SyntaxNode)
    ensures
        r@ == node_contents(node),
        children_are_named(r@),
    decreases node_contents(node),
{
    let start = start_position(&node);
    let end = end_position(&node);
    let mut named_children: Vec<SyntaxNode> = Vec::new();
    let count: usize = node.named_child_count();
    let mut i: usize = 0;
    while i < count
        invariant
            i <= count,
            count == node_contents(node).named_children.len(),
            named_children.len() == i,
            forall|j: int|
                0 <= j < i ==> syntax(#[trigger] named_children@[j]) == node_contents(
                    node,
                ).named_children[j],
            forall|j: int|
                0 <= j < i ==> (#[trigger] node_contents(node).named_children[j]).named
                    && children_are_named(node_contents(node).named_children[j]),
        decreases count - i,
    {
        if let Some(child) = node.named_child(i) {
            named_children.push(read_node(child));
        }
        i += 1;
    }
    let r = SyntaxNode {
        kind: node.kind().to_owned(),
        named: node.is_named(),
        start_byte: node.start_byte(),
        end_byte: node.end_byte(),
        start_row: start.0,
        start_column: start.1,
        end_row: end.0,
        end_column: end.1,
        child_kinds: child_kinds(&node),
        named_children,
    };
    assert(r@.named_children =~= node_contents(node).named_children);
    r
}

/// Parses `source` with a grammar.
pub fn parse_text(grammar: Grammar, source: &str) -> (r: ParseOutcome)
    requires
        encode_utf8(source@).len() <= u32::MAX,
    ensures
        r is Tree,
        may_build(grammar, source@, r->Tree_0@),
        children_are_named(r->Tree_0@),
        is_ascii_chars(source@) ==> r->Tree_0@ == parsed(grammar, source@),
{
    let tree = match grammar {
        Grammar::JavaScript => parse_javascript(source),
        Grammar::TypeScript => parse_typescript(source),
        Grammar::Tsx => parse_tsx(source),
    };
    match tree {
        Ok(Some(tree)) => ParseOutcome::Tree(read_node(tree.root_node())),
        Ok(None) => ParseOutcome::NoTree,
        Err(_) => ParseOutcome::GrammarRejected,
    }
}

/// A node holds its fields as they are, and its named children one for one.
pub proof fn syntax_nodes_hold_their_fields(node: SyntaxNode)
    ensures
        node@.kind == node.kind@,
        node@.named == node.named,
        node@.start_byte == node.start_byte,
        node@.end_byte == node.end_byte,
        node@.start_row == node.start_row,
        node@.start_column == node.start_column,
        node@.end_row == node.end_row,
        node@.end_column == node.end_column,
        node@.child_kinds.len() == node.child_kinds@.len(),
        forall|i: int|
            0 <= i < node.child_kinds@.len() ==> #[trigger] node@.child_kinds[i]
                == node.child_kinds@[i]@,
        node@.named_children.len() == node.named_children@.len(),
        forall|i: int|
            0 <= i < node.named_children@.len() ==> #[trigger] node@.named_children[i]
                == node.named_children@[i]@,
{
}

} // verus!
