//! From syntax trees to concrete syntax trees: named nodes only, `async` in the node type.

use vstd::prelude::*;
use vstd::slice::*;
use vstd::utf8::*;

use crate::cst::{cst, Cst, CstNode};
use crate::syntax::{children_are_named, Syntax, SyntaxNode};
use crate::text::{clip, clipped};
use crate::vocabulary::{async_type_for, async_type_of};

verus! {

/// How many characters of the text of a leaf are kept.
pub const LEAF_TEXT_LIMIT: usize = 4096;

/// Whether a node has the `async` keyword among its children.
pub open spec fn carries_async(node: Syntax) -> bool {
    node.child_kinds.contains("async"@)
}

/// The node type of an `async` function or method; none where the node is no function form
/// or carries no `async` keyword.
pub open spec fn async_variant(node: Syntax) -> Option<Seq<char>> {
    if carries_async(node) {
        async_type_for(node.kind)
    } else {
        None
    }
}

/// Whether `node` has the `async` keyword among its children, at any place.
fn has_async(node: &SyntaxNode) -> (r: bool)
    ensures
        r == carries_async(node@),
{
    let mut i: usize = 0;
    while i < node.child_kinds.len()
        invariant
            i <= node.child_kinds.len(),
            forall|j: int| 0 <= j < i ==> #[trigger] node@.child_kinds[j] != "async"@,
        decreases node.child_kinds.len() - i,
    {
        if *node.child_kinds[i].as_str() == *"async" {
            assert(node@.child_kinds[i as int] == "async"@);
            return true;
        }
        i += 1;
    }
    false
}

/// The distinct node type for an `async` function or method, or `None` where the node is not a
/// function form or carries no `async` keyword.
///
/// The grammars give `async` as an unnamed token: `async function f() {}` is a plain
/// `function_declaration` with an unnamed child. A tree of named nodes alone would not tell
/// it from `function f() {}`, though every caller now receives a promise. The token is not
/// always the first child (`static async m()`), so all of them are looked at. `async` as a
/// plain name is an `identifier`, and never this token.
pub fn async_variant_of(node: &SyntaxNode) -> (r: Option<&'static str>)
    ensures
        r is Some <==> async_variant(node@) is Some,
        r matches Some(t) ==> async_variant(node@) == Some(t@),
{
    match async_type_of(node.kind.as_str()) {
        Some(variant) => if has_async(node) {
            Some(variant)
        } else {
            None
        },
        None => None,
    }
}

/// Whether the span of each node without named children lies within `len` bytes.
pub open spec fn spans_fit(node: Syntax, len: nat) -> bool
    decreases node,
{
    if node.named_children.len() == 0 {
        node.start_byte <= node.end_byte <= len
    } else {
        forall|i: int|
            0 <= i < node.named_children.len() ==> spans_fit(
                #[trigger] node.named_children[i],
                len,
            )
    }
}

/// Whether the span of each node without named children lies within `len` bytes.
pub fn spans_lie_within(node: &SyntaxNode, len: usize) -> (r: bool)
    ensures
        r == spans_fit(node@, len as nat),
    decreases node,
{
    if node.named_children.len() == 0 {
        return node.start_byte <= node.end_byte && node.end_byte <= len;
    }
    let mut i: usize = 0;
    while i < node.named_children.len()
        invariant
            i <= node.named_children.len(),
            forall|j: int|
                0 <= j < i ==> spans_fit(#[trigger] node@.named_children[j], len as nat),
        decreases node.named_children.len() - i,
    {
        if !spans_lie_within(&node.named_children[i], len) {
            assert(!spans_fit(node@.named_children[i as int], len as nat));
            return false;
        }
        i += 1;
    }
    true
}

/// The text of a part of the source; empty where the part is no valid UTF-8.
pub open spec fn source_text(source: Seq<u8>, start: int, end: int) -> Seq<char> {
    let part = source.subrange(start, end);
    if valid_utf8(part) {
        decode_utf8(part)
    } else {
        Seq::empty()
    }
}

/// The concrete syntax tree of a syntax tree: its named nodes, each with its kind or the
/// `async` form of it, those without named children with their text.
pub open spec fn lowered(node: Syntax, source: Seq<u8>) -> Cst
    decreases node,
{
    Cst {
        node_type: match async_variant(node) {
            Some(variant) => variant,
            None => node.kind,
        },
        named: node.named,
        text: if node.named_children.len() == 0 {
            Some(
                clipped(
                    source_text(source, node.start_byte as int, node.end_byte as int),
                    LEAF_TEXT_LIMIT as nat,
                ),
            )
        } else {
            None
        },
        start_line: node.start_row as u32,
        start_col: node.start_column as u32,
        end_line: node.end_row as u32,
        end_col: node.end_column as u32,
        children: Seq::new(
            node.named_children.len(),
            |i: int|
                if 0 <= i < node.named_children.len() {
                    lowered(node.named_children[i], source)
                } else {
                    arbitrary()
                },
        ),
    }
}

/// The text of a part of the source, as far as it is kept.
fn kept_text(source: &[u8], start: usize, end: usize) -> (r: String)
    requires
        start <= end <= source@.len(),
    ensures
        r@ == clipped(source_text(source@, start as int, end as int), LEAF_TEXT_LIMIT as nat),
{
    match core::str::from_utf8(slice_subrange(source, start, end)) {
        Ok(text) => clip(text, LEAF_TEXT_LIMIT),
        Err(_) => String::new(),
    }
}

/// The concrete syntax tree of `node`, whose spans lie within `source`.
pub fn node_to_cst(node: &SyntaxNode, source: &[u8]) -> (r: CstNode)
    requires
        spans_fit(node@, source@.len()),
    ensures
        r@ == lowered(node@, source@),
    decreases node,
{
    let mut children: Vec<CstNode> = Vec::new();
    let mut i: usize = 0;
    while i < node.named_children.len()
        invariant
            i <= node.named_children.len(),
            spans_fit(node@, source@.len()),
            children.len() == i,
            forall|j: int|
                0 <= j < i ==> cst(#[trigger] children@[j]) == lowered(
                    node@.named_children[j],
                    source@,
                ),
        decreases node.named_children.len() - i,
    {
        assert(spans_fit(node@.named_children[i as int], source@.len()));
        children.push(node_to_cst(&node.named_children[i], source));
        i += 1;
    }
    let text: Option<String> = if children.len() == 0 {
        Some(kept_text(source, node.start_byte, node.end_byte))
    } else {
        None
    };
    let node_type = match async_variant_of(node) {
        Some(variant) => variant.to_owned(),
        None => node.kind.clone(),
    };
    let r = CstNode {
        node_type,
        named: node.named,
        text,
        start_line: node.start_row as u32,
        start_col: node.start_column as u32,
        end_line: node.end_row as u32,
        end_col: node.end_column as u32,
        children,
    };
    assert(r@.children =~= lowered(node@, source@).children);
    r
}

/// Whether every leaf of a tree has a text, which is not longer than what is kept of a text,
/// and no other node has one.
pub open spec fn texts_are_in_place(node: Cst) -> bool
    decreases node,
{
    &&& node.leaf() <==> node.text is Some
    &&& node.text_or_empty().len() <= LEAF_TEXT_LIMIT
    &&& forall|i: int|
        0 <= i < node.children.len() ==> texts_are_in_place(#[trigger] node.children[i])
}

/// In a concrete syntax tree that is made of a syntax tree, leaves have their text, as far as
/// it is kept, and no other node has a text.
pub proof fn leaves_have_texts(node: Syntax, source: Seq<u8>)
    ensures
        texts_are_in_place(lowered(node, source)),
    decreases node,
{
    let tree = lowered(node, source);
    assert forall|i: int| 0 <= i < tree.children.len() implies texts_are_in_place(
        #[trigger] tree.children[i],
    ) by {
        leaves_have_texts(node.named_children[i], source);
    }
}

/// Whether every node under `node` is named.
pub open spec fn descendants_are_named(node: Cst) -> bool
    decreases node,
{
    forall|i: int|
        0 <= i < node.children.len() ==> (#[trigger] node.children[i]).named
            && descendants_are_named(node.children[i])
}

/// In a concrete syntax tree that is made of a syntax tree, every node under the root is named,
/// where the lists of named children hold what they say.
pub proof fn named_nodes_alone_stay(node: Syntax, source: Seq<u8>)
    requires
        children_are_named(node),
    ensures
        descendants_are_named(lowered(node, source)),
    decreases node,
{
    let tree = lowered(node, source);
    assert forall|i: int| 0 <= i < tree.children.len() implies (#[trigger] tree.children[i]).named
        && descendants_are_named(tree.children[i]) by {
        assert(node.named_children[i].named);
        named_nodes_alone_stay(node.named_children[i], source);
    }
}

/// An `async` token among the children of a function form, at whatever place, makes the type of
/// the node the `async` one.
pub proof fn an_async_token_is_found_at_any_place(node: Syntax, source: Seq<u8>, i: int)
    requires
        ({
            ||| node.kind == "function_declaration"@
            ||| node.kind == "function"@
            ||| node.kind == "function_expression"@
            ||| node.kind == "arrow_function"@
            ||| node.kind == "generator_function_declaration"@
            ||| node.kind == "generator_function"@
            ||| node.kind == "method_definition"@
        }),
        0 <= i < node.child_kinds.len(),
        node.child_kinds[i] == "async"@,
    ensures
        lowered(node, source).node_type == "async_"@ + node.kind,
{
    assert(node.child_kinds.contains(node.child_kinds[i]));
}

/// A node without an `async` token among its children, and a node that is no function form,
/// keeps its kind for its type.
pub proof fn other_nodes_keep_their_kind(node: Syntax, source: Seq<u8>)
    requires
        (forall|i: int| 0 <= i < node.child_kinds.len() ==> #[trigger] node.child_kinds[i]
            != "async"@) || !({
            ||| node.kind == "function_declaration"@
            ||| node.kind == "function"@
            ||| node.kind == "function_expression"@
            ||| node.kind == "arrow_function"@
            ||| node.kind == "generator_function_declaration"@
            ||| node.kind == "generator_function"@
            ||| node.kind == "method_definition"@
        }),
    ensures
        lowered(node, source).node_type == node.kind,
{
}

/// A node is lowered field by field, its places to 32 bits each, and its named children one for
/// one, in order.
pub proof fn nodes_are_lowered_in_place(node: Syntax, source: Seq<u8>)
    ensures
        lowered(node, source).named == node.named,
        lowered(node, source).start_line == node.start_row as int % 0x1_0000_0000,
        lowered(node, source).start_col == node.start_column as int % 0x1_0000_0000,
        lowered(node, source).end_line == node.end_row as int % 0x1_0000_0000,
        lowered(node, source).end_col == node.end_column as int % 0x1_0000_0000,
        lowered(node, source).children.len() == node.named_children.len(),
        forall|i: int|
            0 <= i < node.named_children.len() ==> #[trigger] lowered(node, source).children[i]
                == lowered(node.named_children[i], source),
{
    low_half(node.start_row);
    low_half(node.start_column);
    low_half(node.end_row);
    low_half(node.end_column);
}

/// Cut down to 32 bits, a number keeps its value where it has no more.
proof fn low_half(n: usize)
    ensures
        n as u32 == n as int % 0x1_0000_0000,
{
    assert(n as u32 == (n as u64) % 0x1_0000_0000u64) by (bit_vector);
}

/// A leaf has the text that its part of the source encodes, up to the limit; where that part is
/// no valid UTF-8, its text is empty. A node with named children has none.
pub proof fn leaves_read_the_source(node: Syntax, source: Seq<u8>, text: Seq<char>)
    requires
        node.start_byte <= node.end_byte <= source.len(),
    ensures
        node.named_children.len() > 0 ==> lowered(node, source).text is None,
        node.named_children.len() == 0 && !valid_utf8(
            source.subrange(node.start_byte as int, node.end_byte as int),
        ) ==> lowered(node, source).text == Some(Seq::<char>::empty()),
        node.named_children.len() == 0 && source.subrange(
            node.start_byte as int,
            node.end_byte as int,
        ) == encode_utf8(text) ==> lowered(node, source).text == Some(
            if text.len() <= 4096 {
                text
            } else {
                text.take(4096)
            },
        ),
{
    encode_utf8_valid_utf8(text);
    encode_utf8_decode_utf8(text);
}

/// The spans of a tree lie within a source exactly where those of all its leaves do, each with
/// its start before its end.
pub proof fn spans_are_those_of_leaves(node: Syntax, len: nat)
    ensures
        node.named_children.len() == 0 ==> (spans_fit(node, len) <==> node.start_byte
            <= node.end_byte && node.end_byte <= len),
        node.named_children.len() > 0 ==> (spans_fit(node, len) <==> forall|i: int|
            0 <= i < node.named_children.len() ==> spans_fit(
                #[trigger] node.named_children[i],
                len,
            )),
{
}

} // verus!
