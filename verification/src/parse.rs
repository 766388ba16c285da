//! From the text of a source to its concrete syntax tree.

use vstd::prelude::*;
use vstd::utf8::*;

use crate::cst::{Cst, CstNode};
use crate::language::{grammar, grammar_for, languages_are_known, select_language, selected};
use crate::lower::{
    descendants_are_named, leaves_have_texts, lowered, named_nodes_alone_stay, node_to_cst, spans_fit,
    spans_lie_within, texts_are_in_place,
};
use crate::syntax::{children_are_named, may_build, parse_text, parsed, ParseOutcome, Syntax};

verus! {

/// What comes of parsing a source: a tree, or a message that says why there is none.
pub enum Parsed {
    Tree(Cst),
    Failed(Seq<char>),
}

/// What a parse result holds.
pub open spec fn result_of(result: Result<CstNode, String>) -> Parsed {
    match result {
        Ok(node) => Parsed::Tree(node@),
        Err(message) => Parsed::Failed(message@),
    }
}

/// What an optional parse result holds.
pub open spec fn optional_result(result: Option<Result<CstNode, String>>) -> Option<Parsed> {
    match result {
        Some(r) => Some(result_of(r)),
        None => None,
    }
}

/// What comes of a syntax tree: its concrete syntax tree; nothing where a span reaches beyond
/// the source.
pub open spec fn tree_result(tree: Syntax, source: Seq<u8>) -> Option<Parsed> {
    if spans_fit(tree, source.len()) {
        Some(Parsed::Tree(lowered(tree, source)))
    } else {
        None
    }
}

/// The message that the grammar of a language could not be loaded.
pub open spec fn load_failure(language: Seq<char>) -> Seq<char> {
    "Failed to load "@ + language + " grammar"@
}

/// What comes of `outcome`, to which the parser came on `source` with the grammar of
/// `language`; nothing where a span of the tree reaches beyond the source.
pub fn cst_from(outcome: &ParseOutcome, language: &str, source: &[u8]) -> (r: Option<
    Result<CstNode, String>,
>)
    ensures
        optional_result(r) == match *outcome {
            ParseOutcome::GrammarRejected => Some(Parsed::Failed(load_failure(language@))),
            ParseOutcome::NoTree => Some(Parsed::Failed("Parse failed"@)),
            ParseOutcome::Tree(root) => tree_result(root@, source@),
        },
{
    match outcome {
        ParseOutcome::GrammarRejected => {
            let mut message = "Failed to load ".to_owned();
            message.append(language);
            message.append(" grammar");
            Some(Err(message))
        },
        ParseOutcome::NoTree => Some(Err("Parse failed".to_owned())),
        ParseOutcome::Tree(root) => if spans_lie_within(root, source.len()) {
            Some(Ok(node_to_cst(root, source)))
        } else {
            None
        },
    }
}

/// Whether `tree` may come of parsing `source` with the grammar of `language`. Of a source of
/// ASCII characters no other tree does.
pub open spec fn may_parse_to(source: Seq<char>, language: Seq<char>, tree: Syntax) -> bool {
    &&& may_build(grammar(language), source, tree)
    &&& children_are_named(tree)
    &&& is_ascii_chars(source) ==> tree == parsed(grammar(language), source)
}

/// Whether `result` may come of `source` in the language `language`: nothing where the length
/// of the source takes more than 32 bits, else what comes of a syntax tree of the source.
pub open spec fn may_come_to(
    source: Seq<char>,
    language: Seq<char>,
    result: Option<Parsed>,
) -> bool {
    if encode_utf8(source).len() > u32::MAX {
        result is None
    } else {
        exists|tree: Syntax|
            {
                &&& #[trigger] may_parse_to(source, language, tree)
                &&& result == tree_result(tree, encode_utf8(source))
            }
    }
}

/// One result comes of a source of ASCII characters in each language.
pub proof fn ascii_sources_have_one_result(
    source: Seq<char>,
    language: Seq<char>,
    a: Option<Parsed>,
    b: Option<Parsed>,
)
    requires
        is_ascii_chars(source),
        may_come_to(source, language, a),
        may_come_to(source, language, b),
    ensures
        a == b,
{
}

/// The language that a source is parsed in where it is selected: JavaScript where none is.
pub open spec fn parsed_language(language: Seq<char>) -> Seq<char> {
    if language == ""@ {
        "javascript"@
    } else {
        language
    }
}

/// The language that is asked for and the name of the file count only through the language that
/// is selected by them, and where none is, the source is parsed as JavaScript: asking for that
/// language with any other name admits the same results.
pub proof fn the_selected_language_alone_counts(
    source: Seq<char>,
    language: Seq<char>,
    filename: Seq<char>,
    other: Seq<char>,
    result: Option<Parsed>,
)
    ensures
        selected(parsed_language(selected(language, filename)), other) == parsed_language(
            selected(language, filename),
        ),
        may_come_to(source, selected(language, filename), result) == may_come_to(
            source,
            selected(parsed_language(selected(language, filename)), other),
            result,
        ),
{
    let chosen = selected(language, filename);
    let asked = parsed_language(chosen);
    languages_are_known(language, filename);
    reveal_strlit("");
    reveal_strlit("javascript");
    reveal_strlit("typescript");
    reveal_strlit("tsx");
    assert("javascript"@[0] != "typescript"@[0]);
    assert("javascript"@.len() == 10 && "tsx"@.len() == 3 && ""@.len() == 0);
    assert("typescript"@.len() == 10);
    assert(grammar(chosen) == grammar(asked));
    assert forall|tree: Syntax|
        #![trigger may_parse_to(source, chosen, tree)]
        #![trigger may_parse_to(source, asked, tree)]
        may_parse_to(source, chosen, tree) == may_parse_to(source, asked, tree) by {}
}

/// In every concrete syntax tree that may come of a source, leaves alone have a text, and every
/// node under the root is named.
pub proof fn trees_are_in_order(source: Seq<char>, language: Seq<char>, tree: Cst)
    requires
        may_come_to(source, language, Some(Parsed::Tree(tree))),
    ensures
        texts_are_in_place(tree),
        descendants_are_named(tree),
{
    let root = choose|root: Syntax|
        {
            &&& #[trigger] may_parse_to(source, language, root)
            &&& Some(Parsed::Tree(tree)) == tree_result(root, encode_utf8(source))
        };
    leaves_have_texts(root, encode_utf8(source));
    named_nodes_alone_stay(root, encode_utf8(source));
}

/// The concrete syntax tree of `source`, in the language `language` or, where there is no such
/// language, in the one that `filename` stands for. There is none where the length of the
/// source takes more than 32 bits, or where a span of the tree reaches beyond the source.
pub fn parse_source(source: &str, language: &str, filename: &str) -> (r: Option<
    Result<CstNode, String>,
>)
    ensures
        may_come_to(source@, selected(language@, filename@), optional_result(r)),
{
    let bytes = source.as_bytes();
    if bytes.len() > u32::MAX as usize {
        return None;
    }
    let language = select_language(language, filename);
    let outcome = parse_text(grammar_for(language.as_str()), source);
    let r = cst_from(&outcome, language.as_str(), bytes);
    proof {
        if let ParseOutcome::Tree(root) = outcome {
            assert(may_parse_to(source@, language@, root@));
        }
    }
    r
}

/// What may be missing is missing in what it holds, a tree is held as a tree, and a message as a
/// message.
pub proof fn results_are_held(result: Option<Result<CstNode, String>>)
    ensures
        result is None ==> optional_result(result) is None,
        result matches Some(Ok(node)) ==> optional_result(result) == Some(Parsed::Tree(node@)),
        result matches Some(Err(message)) ==> optional_result(result) == Some(
            Parsed::Failed(message@),
        ),
{
}

/// The message about a grammar names the language.
pub proof fn load_failures_name_the_language(language: Seq<char>)
    ensures
        load_failure(language) == "Failed to load "@ + language + " grammar"@,
{
}

/// What comes of a source is made of a syntax tree of that source, by the grammar of the language:
/// its concrete syntax tree, where the source has at most 32 bits of length and the spans of the
/// tree lie within it, and nothing where they do not. Of a source of ASCII characters it is the
/// one syntax tree there is.
pub proof fn results_come_of_the_source(
    source: Seq<char>,
    language: Seq<char>,
    result: Option<Parsed>,
) -> (tree: Syntax)
    requires
        may_come_to(source, language, result),
    ensures
        encode_utf8(source).len() > u32::MAX ==> result is None,
        encode_utf8(source).len() <= u32::MAX ==> {
            &&& may_build(grammar(language), source, tree)
            &&& is_ascii_chars(source) ==> tree == parsed(grammar(language), source)
            &&& children_are_named(tree)
            &&& spans_fit(tree, encode_utf8(source).len()) ==> result == Some(
                Parsed::Tree(lowered(tree, encode_utf8(source))),
            )
            &&& !spans_fit(tree, encode_utf8(source).len()) ==> result is None
        },
{
    if encode_utf8(source).len() > u32::MAX {
        arbitrary()
    } else {
        choose|tree: Syntax|
            {
                &&& #[trigger] may_parse_to(source, language, tree)
                &&& result == tree_result(tree, encode_utf8(source))
            }
    }
}

} // verus!
