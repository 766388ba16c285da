//! The plugin: what it is, what it offers, and what it answers.

use vstd::prelude::*;
use vstd::utf8::*;

use crate::cst::{Cst, CstNode};
use crate::language::{
    detect, detected, grammar, language_by_ending, language_id, language_of, selected,
    told_by_ending,
};
use crate::lower::{lowered, spans_fit};
use crate::parse::{
    ascii_sources_have_one_result, may_come_to, optional_result, parse_source, result_of,
    results_come_of_the_source, Parsed,
};
use crate::semantic::{convert, converted, mirrors, HashTree, Hashes, Semantic, SemanticNode};
use crate::syntax::{may_build, parsed, Syntax};
use crate::text::ascii_lowered;
use crate::vocabulary::{semantic, SEMANTIC_TYPES, TRIVIA};

verus! {

/// How a plugin gets at the syntax of a source.
#[derive(Clone, Copy, PartialEq, Eq, Structural, Debug)]
pub enum ParserMode {
    /// The plugin parses the source itself.
    FullParse,
}

/// Two versions of a source that show what a comparison looks like.
#[derive(Debug)]
pub struct ExamplePair {
    pub old: String,
    pub new: String,
}

/// What is known of one language.
#[derive(Debug)]
pub struct LanguageInfo {
    pub language_id: String,
    pub language_name: String,
    pub language_short_name: String,
    pub monaco_language: String,
    pub default_filename: String,
    pub language_file_extensions: Vec<String>,
}

/// What is known of one language, and of the plugin that handles it.
#[derive(Debug)]
pub struct LanguageInfoRecord {
    pub language_id: String,
    pub language_name: String,
    pub language_short_name: String,
    pub monaco_language: String,
    pub default_filename: String,
    pub language_file_extensions: Vec<String>,
    pub author: String,
    pub plugin_version: String,
    pub last_updated: String,
}

/// Whether a record says of a language what `info` says, and of the plugin what the three
/// texts say.
pub open spec fn records(
    record: LanguageInfoRecord,
    info: LanguageInfo,
    author: Seq<char>,
    plugin_version: Seq<char>,
    last_updated: Seq<char>,
) -> bool {
    &&& record.language_id == info.language_id
    &&& record.language_name == info.language_name
    &&& record.language_short_name == info.language_short_name
    &&& record.monaco_language == info.monaco_language
    &&& record.default_filename == info.default_filename
    &&& record.language_file_extensions == info.language_file_extensions
    &&& record.author@ == author
    &&& record.plugin_version@ == plugin_version
    &&& record.last_updated@ == last_updated
}

/// One record for each of `infos`, in order.
pub fn language_info_for(
    infos: Vec<LanguageInfo>,
    author: &str,
    plugin_version: &str,
    last_updated: &str,
) -> (r: Vec<LanguageInfoRecord>)
    ensures
        r.len() == infos.len(),
        forall|i: int|
            0 <= i < infos.len() ==> records(
                #[trigger] r@[i],
                infos@[i],
                author@,
                plugin_version@,
                last_updated@,
            ),
{
    let ghost all = infos@;
    let mut rest = infos;
    let mut r: Vec<LanguageInfoRecord> = Vec::new();
    while rest.len() > 0
        invariant
            r.len() + rest.len() == all.len(),
            rest@ == all.skip(r.len() as int),
            forall|i: int|
                0 <= i < r.len() ==> records(
                    #[trigger] r@[i],
                    all[i],
                    author@,
                    plugin_version@,
                    last_updated@,
                ),
        decreases rest.len(),
    {
        let info = rest.remove(0);
        r.push(
            LanguageInfoRecord {
                language_id: info.language_id,
                language_name: info.language_name,
                language_short_name: info.language_short_name,
                monaco_language: info.monaco_language,
                default_filename: info.default_filename,
                language_file_extensions: info.language_file_extensions,
                author: author.to_owned(),
                plugin_version: plugin_version.to_owned(),
                last_updated: last_updated.to_owned(),
            },
        );
    }
    r
}

/// The answer that reports a failure.
pub open spec fn error_report(message: Seq<char>) -> Seq<char> {
    "{\"error\":\""@ + message + "\"}"@
}

/// The answer that reports a failure.
pub fn report_error(message: &str) -> (r: String)
    ensures
        r@ == error_report(message@),
{
    let mut r = "{\"error\":\"".to_owned();
    r.append(message);
    r.append("\"}");
    r
}

/// What is to be done next for a request.
#[derive(Debug)]
pub enum ProcessStep {
    /// Compute the structural hash of each node of this tree.
    Hash(CstNode),
    /// Serialise this tree.
    Serialise(SemanticNode),
    /// Give this answer.
    Done(String),
}

/// What a `ProcessStep` holds.
pub enum Step {
    Hash(Cst),
    Serialise(Semantic),
    Done(Seq<char>),
}

impl View for ProcessStep {
    type V = Step;

    open spec fn view(&self) -> Step {
        match *self {
            ProcessStep::Hash(root) => Step::Hash(root@),
            ProcessStep::Serialise(tree) => Step::Serialise(tree@),
            ProcessStep::Done(answer) => Step::Done(answer@),
        }
    }
}

/// The step that follows parsing: hash the tree, or report why there is none.
pub open spec fn parsed_step(parsed: Parsed) -> Step {
    match parsed {
        Parsed::Tree(root) => Step::Hash(root),
        Parsed::Failed(message) => Step::Done(error_report(message)),
    }
}

/// The step that follows parsing.
pub fn process_parsed(parsed: Result<CstNode, String>) -> (r: ProcessStep)
    ensures
        r@ == parsed_step(result_of(parsed)),
{
    match parsed {
        Ok(root) => ProcessStep::Hash(root),
        Err(message) => ProcessStep::Done(report_error(message.as_str())),
    }
}

/// The first step for a request of whose source this comes; none where nothing does.
pub open spec fn first_step(parsed: Option<Parsed>) -> Option<Step> {
    match parsed {
        Some(result) => Some(parsed_step(result)),
        None => None,
    }
}

/// What an optional step holds.
pub open spec fn optional_step(step: Option<ProcessStep>) -> Option<Step> {
    match step {
        Some(next) => Some(next@),
        None => None,
    }
}

/// Whether `step` may be the first one for a request to parse `source` in the language
/// `language`.
pub open spec fn may_start_with(
    source: Seq<char>,
    language: Seq<char>,
    step: Option<Step>,
) -> bool {
    exists|parsed: Option<Parsed>|
        #[trigger] may_come_to(source, language, parsed) && step == first_step(parsed)
}

/// Where a language is asked for that there is, the name of the file does not count.
pub proof fn a_language_goes_before_a_filename(
    source: Seq<char>,
    language: Seq<char>,
    a: Seq<char>,
    b: Seq<char>,
    step: Option<Step>,
)
    requires
        language_id(language),
    ensures
        may_start_with(source, selected(language, a), step) == may_start_with(
            source,
            selected(language, b),
            step,
        ),
{
}

/// One step is the first one for a request with a source of ASCII characters.
pub proof fn ascii_requests_have_one_first_step(
    source: Seq<char>,
    language: Seq<char>,
    a: Option<Step>,
    b: Option<Step>,
)
    requires
        is_ascii_chars(source),
        may_start_with(source, language, a),
        may_start_with(source, language, b),
    ensures
        a == b,
{
    let x = choose|parsed: Option<Parsed>|
        #[trigger] may_come_to(source, language, parsed) && a == first_step(parsed);
    let y = choose|parsed: Option<Parsed>|
        #[trigger] may_come_to(source, language, parsed) && b == first_step(parsed);
    ascii_sources_have_one_result(source, language, x, y);
}

/// The first step for a request: parses `source`, in the language `language` or, where there is
/// no such language, in the one that `filename` stands for. There is none where the length of
/// the source takes more than 32 bits, or where a span of its tree reaches beyond it.
pub fn process_impl(source: &str, language: &str, filename: &str) -> (r: Option<ProcessStep>)
    ensures
        may_start_with(source@, selected(language@, filename@), optional_step(r)),
{
    let parsed = parse_source(source, language, filename);
    assert(may_come_to(source@, selected(language@, filename@), optional_result(parsed)));
    match parsed {
        Some(result) => Some(process_parsed(result)),
        None => None,
    }
}

/// The step that follows hashing: serialise the semantic tree, or report that nothing is left.
pub open spec fn hashed_step(root: Cst, hashes: Hashes) -> Step {
    match converted(root, hashes, "0"@, None, None) {
        Some(tree) => Step::Serialise(tree),
        None => Step::Done(error_report("Empty semantic tree"@)),
    }
}

/// The step that follows hashing the tree under `root`.
pub fn process_hashed(root: &CstNode, hashes: &HashTree) -> (r: ProcessStep)
    requires
        mirrors(hashes@, root@),
    ensures
        r@ == hashed_step(root@, hashes@),
{
    match convert(root, hashes, "0", None, None) {
        Some(tree) => ProcessStep::Serialise(tree),
        None => ProcessStep::Done(report_error("Empty semantic tree")),
    }
}

/// A tree whose root is of a semantic type, such as that of a whole program, is serialised,
/// whatever stands in it.
pub proof fn programs_are_serialised(root: Cst, hashes: Hashes)
    ensures
        semantic(root.node_type) ==> hashed_step(root, hashes) is Serialise,
        semantic("program"@),
{
    assert(SEMANTIC_TYPES@[0]@ == "program"@);
}

/// The answer that follows serialising: the serialised tree, or a report of what went wrong.
pub fn process_serialised(serialised: Result<String, String>) -> (r: String)
    ensures
        r@ == match serialised {
            Ok(answer) => answer@,
            Err(message) => error_report("Serialisation error: "@ + message@),
        },
{
    match serialised {
        Ok(answer) => answer,
        Err(message) => {
            let mut text = "Serialisation error: ".to_owned();
            text.append(message.as_str());
            report_error(text.as_str())
        },
    }
}

/// The older version of the TypeScript example.
pub const TYPED_OLD: &'static str = "function getUser(id) {\n  return { id: id, name: \"Alice\" };\n}\n\nfunction formatName(user) {\n  return user.name.toUpperCase();\n}\n";

/// The newer version of the TypeScript example.
pub const TYPED_NEW: &'static str = "interface User {\n  id: number;\n  name: string;\n}\n\nfunction getUser(id: number): User {\n  return { id, name: \"Alice\" };\n}\n\nfunction formatName(user: User): string {\n  return user.name.toUpperCase();\n}\n";

/// The older version of the JavaScript example.
pub const PLAIN_OLD: &'static str = "var PI = 3.14159;\n\nfunction circleArea(radius) {\n  return PI * radius * radius;\n}\n\nfunction greet(name) {\n  return \"Hello, \" + name + \"!\";\n}\n\nmodule.exports = { circleArea, greet };\n";

/// The newer version of the JavaScript example.
pub const PLAIN_NEW: &'static str = "const PI = 3.14159;\n\nconst circleArea = (radius) => PI * radius ** 2;\n\nconst greet = (name) => `Hello, ${name}!`;\n\nmodule.exports = { circleArea, greet };\n";

/// The parser plugin for JavaScript and TypeScript.
#[derive(Debug)]
pub struct JsTsParser;

impl JsTsParser {
    /// How the plugin gets at the syntax of a source: it parses it.
    pub fn get_parser_mode() -> (r: ParserMode)
        ensures
            r == ParserMode::FullParse,
    {
        ParserMode::FullParse
    }

    /// The id of the grammar that the plugin goes by.
    pub fn grammar_id() -> (r: String)
        ensures
            r@ == "javascript"@,
    {
        "javascript".to_owned()
    }

    /// The id of the language that `filename` stands for, whatever its case and whatever the
    /// file holds; empty where it stands for none.
    pub fn detect_language(filename: String, _content: String) -> (r: String)
        ensures
            r@ == detected(filename@),
            is_ascii_chars(filename@) ==> r@ == language_of(ascii_lowered(filename@)),
            told_by_ending(filename@) ==> r@ == language_by_ending(filename@),
    {
        detect(filename.as_str())
    }

    /// Sources are taken as they are.
    pub fn preprocess_source(source: String) -> (r: String)
        ensures
            r == source,
    {
        source
    }

    /// The first step for a request.
    pub fn process(input: String, language: String, filename: String) -> (r: Option<ProcessStep>)
        ensures
            may_start_with(input@, selected(language@, filename@), optional_step(r)),
    {
        process_impl(input.as_str(), language.as_str(), filename.as_str())
    }

    /// The node types of comments, white space and other text without meaning.
    pub fn trivia_node_types() -> (r: Vec<String>)
        ensures
            r.len() == TRIVIA@.len(),
            forall|i: int| 0 <= i < r.len() ==> #[trigger] r@[i]@ == TRIVIA@[i]@,
    {
        let mut r: Vec<String> = Vec::new();
        let mut i: usize = 0;
        while i < TRIVIA.len()
            invariant
                i <= TRIVIA@.len(),
                r.len() == i,
                forall|j: int| 0 <= j < i ==> #[trigger] r@[j]@ == TRIVIA@[j]@,
            decreases TRIVIA@.len() - i,
        {
            r.push(TRIVIA[i].to_owned());
            i += 1;
        }
        r
    }

    /// The ids of the languages that the plugin handles.
    pub fn language_ids() -> (r: Vec<String>)
        ensures
            r.len() == 3,
            r@[0]@ == "javascript"@,
            r@[1]@ == "typescript"@,
            r@[2]@ == "tsx"@,
    {
        vec!["javascript".to_owned(), "typescript".to_owned(), "tsx".to_owned()]
    }

    /// The priority of the plugin among those that handle a language.
    pub fn priority() -> (r: i32)
        ensures
            r == 0,
    {
        0
    }

    /// Two versions of a source in `language`: in TypeScript where that is asked for, else in
    /// JavaScript.
    pub fn example(language: String) -> (r: ExamplePair)
        ensures
            language@ == "typescript"@ || language@ == "tsx"@ ==> r.old@ == TYPED_OLD@ && r.new@
                == TYPED_NEW@,
            language@ != "typescript"@ && language@ != "tsx"@ ==> r.old@ == PLAIN_OLD@ && r.new@
                == PLAIN_NEW@,
    {
        if *language.as_str() == *"typescript" || *language.as_str() == *"tsx" {
            ExamplePair { old: TYPED_OLD.to_owned(), new: TYPED_NEW.to_owned() }
        } else {
            ExamplePair { old: PLAIN_OLD.to_owned(), new: PLAIN_NEW.to_owned() }
        }
    }
}

/// A step holds the tree or the answer in it, and is missing only where it is missing.
pub proof fn steps_hold_what_is_in_them(step: Option<ProcessStep>)
    ensures
        step is None ==> optional_step(step) is None,
        step matches Some(ProcessStep::Hash(root)) ==> optional_step(step) == Some(
            Step::Hash(root@),
        ),
        step matches Some(ProcessStep::Serialise(tree)) ==> optional_step(step) == Some(
            Step::Serialise(tree@),
        ),
        step matches Some(ProcessStep::Done(answer)) ==> optional_step(step) == Some(
            Step::Done(answer@),
        ),
{
}

/// A tree that came of a source is hashed next, and a failure is answered by a report with its
/// message. A semantic tree is serialised next, under the id `0` and with nothing around it, and
/// where there is none, that is reported.
pub proof fn steps_follow_from_what_came(
    message: Seq<char>,
    root: Cst,
    hashes: Hashes,
    tree: Semantic,
)
    ensures
        first_step(None) is None,
        first_step(Some(Parsed::Tree(root))) == Some(Step::Hash(root)),
        first_step(Some(Parsed::Failed(message))) == Some(
            Step::Done("{\"error\":\""@ + message + "\"}"@),
        ),
        hashed_step(root, hashes) == Step::Serialise(tree) <==> converted(
            root,
            hashes,
            "0"@,
            None,
            None,
        ) == Some(tree),
        converted(root, hashes, "0"@, None, None) is None ==> hashed_step(root, hashes)
            == Step::Done("{\"error\":\""@ + "Empty semantic tree"@ + "\"}"@),
{
}

/// The first step for a request follows from a syntax tree of its source, by the grammar of the
/// language: the concrete syntax tree of that tree is hashed.
pub proof fn first_steps_come_of_the_source(
    source: Seq<char>,
    language: Seq<char>,
    step: Option<Step>,
) -> (tree: Syntax)
    requires
        may_start_with(source, language, step),
    ensures
        encode_utf8(source).len() > u32::MAX ==> step is None,
        encode_utf8(source).len() <= u32::MAX ==> {
            &&& may_build(grammar(language), source, tree)
            &&& is_ascii_chars(source) ==> tree == parsed(grammar(language), source)
            &&& spans_fit(tree, encode_utf8(source).len()) ==> step == Some(
                Step::Hash(lowered(tree, encode_utf8(source))),
            )
            &&& !spans_fit(tree, encode_utf8(source).len()) ==> step is None
        },
{
    let result = choose|result: Option<Parsed>|
        #[trigger] may_come_to(source, language, result) && step == first_step(result);
    results_come_of_the_source(source, language, result)
}

/// A record has each text in its own field.
pub proof fn records_have_their_fields(
    record: LanguageInfoRecord,
    info: LanguageInfo,
    author: Seq<char>,
    plugin_version: Seq<char>,
    last_updated: Seq<char>,
)
    requires
        records(record, info, author, plugin_version, last_updated),
    ensures
        record.language_id@ == info.language_id@,
        record.language_name@ == info.language_name@,
        record.language_short_name@ == info.language_short_name@,
        record.monaco_language@ == info.monaco_language@,
        record.default_filename@ == info.default_filename@,
        record.language_file_extensions@ == info.language_file_extensions@,
        record.author@ == author,
        record.plugin_version@ == plugin_version,
        record.last_updated@ == last_updated,
{
}

} // verus!
