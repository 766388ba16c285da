//! The languages, and how one is chosen for a file.

use vstd::prelude::*;
use vstd::utf8::*;

use crate::syntax::Grammar;
use crate::text::{
    ascii_ending, ascii_ending_behind, ascii_ending_of_ascii, ascii_ending_uppered, ascii_lowered,
    ascii_uppered, ends_with, has_suffix, lowercase, suffix_of_ending, suffix_of_whole,
};

verus! {

/// The id of the language whose files have names that end like this one, which is in
/// lower case; empty where there is none.
pub open spec fn language_of(lower: Seq<char>) -> Seq<char> {
    if has_suffix(lower, ".tsx"@) {
        "tsx"@
    } else if has_suffix(lower, ".ts"@) || has_suffix(lower, ".mts"@) || has_suffix(
        lower,
        ".cts"@,
    ) {
        "typescript"@
    } else if has_suffix(lower, ".js"@) || has_suffix(lower, ".mjs"@) || has_suffix(lower, ".cjs"@)
        || has_suffix(lower, ".jsx"@) {
        "javascript"@
    } else {
        ""@
    }
}

/// The id of the language that the name of a file stands for, whatever its case.
pub open spec fn detected(filename: Seq<char>) -> Seq<char> {
    language_of(lowercase(filename))
}

/// The id of the language that the ASCII characters at the end of a name stand for, whatever
/// their case.
pub open spec fn language_by_ending(filename: Seq<char>) -> Seq<char> {
    language_of(ascii_lowered(ascii_ending(filename)))
}

/// Whether `ending` is the end of `extension` and not all of it.
pub open spec fn cuts(ending: Seq<char>, extension: Seq<char>) -> bool {
    ending.len() < extension.len() && has_suffix(extension, ending)
}

/// Whether an ending is the end of an extension and not all of it, so that what stands before
/// it decides on the language.
pub open spec fn cuts_an_extension(ending: Seq<char>) -> bool {
    ||| cuts(ending, ".tsx"@)
    ||| cuts(ending, ".ts"@)
    ||| cuts(ending, ".mts"@)
    ||| cuts(ending, ".cts"@)
    ||| cuts(ending, ".js"@)
    ||| cuts(ending, ".mjs"@)
    ||| cuts(ending, ".cjs"@)
    ||| cuts(ending, ".jsx"@)
}

/// Whether the ASCII characters at the end of a name are enough to tell its language: they are
/// all of it, or more than the end of an extension.
pub open spec fn told_by_ending(filename: Seq<char>) -> bool {
    ||| is_ascii_chars(filename)
    ||| !cuts_an_extension(ascii_lowered(ascii_ending(filename)))
}

/// The id of the language that `filename` stands for, whatever its case; empty where it
/// stands for none.
pub fn detect(filename: &str) -> (r: String)
    ensures
        r@ == detected(filename@),
        is_ascii_chars(filename@) ==> r@ == language_of(ascii_lowered(filename@)),
        told_by_ending(filename@) ==> r@ == language_by_ending(filename@),
{
    let lower = filename.to_lowercase();
    let name = lower.as_str();
    proof {
        if is_ascii_chars(filename@) {
            ascii_ending_of_ascii(filename@);
        } else if told_by_ending(filename@) {
            ending_tells_language(name@, ascii_lowered(ascii_ending(filename@)));
        }
    }
    if ends_with(name, ".tsx") {
        "tsx".to_owned()
    } else if ends_with(name, ".ts") || ends_with(name, ".mts") || ends_with(name, ".cts") {
        "typescript".to_owned()
    } else if ends_with(name, ".js") || ends_with(name, ".mjs") || ends_with(name, ".cjs")
        || ends_with(name, ".jsx") {
        "javascript".to_owned()
    } else {
        "".to_owned()
    }
}

/// Whether this is the id of a language.
pub open spec fn language_id(language: Seq<char>) -> bool {
    ||| language == "javascript"@
    ||| language == "typescript"@
    ||| language == "tsx"@
}

/// The id of the language of a source: the one that is asked for, where there is such a
/// language, else the one that the name of the file stands for.
pub open spec fn selected(language: Seq<char>, filename: Seq<char>) -> Seq<char> {
    if language_id(language) {
        language
    } else {
        detected(filename)
    }
}

/// The id of the language of a source: `language`, where there is such a language, else the
/// one that `filename` stands for.
pub fn select_language(language: &str, filename: &str) -> (r: String)
    ensures
        r@ == selected(language@, filename@),
        !language_id(language@) && is_ascii_chars(filename@) ==> r@ == language_of(
            ascii_lowered(filename@),
        ),
        !language_id(language@) && told_by_ending(filename@) ==> r@ == language_by_ending(
            filename@,
        ),
{
    if *language == *"javascript" || *language == *"typescript" || *language == *"tsx" {
        language.to_owned()
    } else {
        detect(filename)
    }
}

/// The grammar of the language with this id; that of JavaScript for any other text.
pub open spec fn grammar(language: Seq<char>) -> Grammar {
    if language == "typescript"@ {
        Grammar::TypeScript
    } else if language == "tsx"@ {
        Grammar::Tsx
    } else {
        Grammar::JavaScript
    }
}

/// The grammar of the language with this id; that of JavaScript for any other text.
pub fn grammar_for(language: &str) -> (r: Grammar)
    ensures
        r == grammar(language@),
{
    if *language == *"typescript" {
        Grammar::TypeScript
    } else if *language == *"tsx" {
        Grammar::Tsx
    } else {
        Grammar::JavaScript
    }
}

/// The language of a file is one of those that there are, or none.
pub proof fn languages_are_known(language: Seq<char>, filename: Seq<char>)
    ensures
        language_id(detected(filename)) || detected(filename) == ""@,
        language_id(selected(language, filename)) || selected(language, filename) == ""@,
{
}

/// Asking for the language that was chosen for a file chooses it again.
pub proof fn choosing_again_changes_nothing(language: Seq<char>, filename: Seq<char>)
    ensures
        selected(selected(language, filename), filename) == selected(language, filename),
{
    languages_are_known(language, filename);
    reveal_strlit("");
    reveal_strlit("javascript");
    reveal_strlit("typescript");
    reveal_strlit("tsx");
    assert(""@.len() == 0);
    assert("javascript"@.len() == 10);
    assert("typescript"@.len() == 10);
    assert("tsx"@.len() == 3);
}

/// A name that ends in one extension does not end in another that differs from it in some
/// place, counted from the end.
proof fn other_extension(base: Seq<char>, extension: Seq<char>, other: Seq<char>, place: int)
    requires
        0 <= place < extension.len(),
        place < other.len(),
        extension[extension.len() - 1 - place] != other[other.len() - 1 - place],
    ensures
        !has_suffix(base + extension, other),
{
    let name = base + extension;
    if has_suffix(name, other) {
        let end = name.subrange(name.len() - other.len(), name.len() as int);
        assert(end[other.len() - 1 - place] == name[name.len() - 1 - place]);
    }
}

/// Each extension stands for its language, whatever comes before it.
pub proof fn extensions_stand_for_languages(base: Seq<char>)
    ensures
        language_of(base + ".tsx"@) == "tsx"@,
        language_of(base + ".ts"@) == "typescript"@,
        language_of(base + ".mts"@) == "typescript"@,
        language_of(base + ".cts"@) == "typescript"@,
        language_of(base + ".js"@) == "javascript"@,
        language_of(base + ".mjs"@) == "javascript"@,
        language_of(base + ".cjs"@) == "javascript"@,
        language_of(base + ".jsx"@) == "javascript"@,
{
    reveal_strlit(".tsx");
    reveal_strlit(".ts");
    reveal_strlit(".mts");
    reveal_strlit(".cts");
    reveal_strlit(".js");
    reveal_strlit(".mjs");
    reveal_strlit(".cjs");
    reveal_strlit(".jsx");
    suffix_of_whole(base, ".tsx"@);
    suffix_of_whole(base, ".ts"@);
    suffix_of_whole(base, ".mts"@);
    suffix_of_whole(base, ".cts"@);
    suffix_of_whole(base, ".js"@);
    suffix_of_whole(base, ".mjs"@);
    suffix_of_whole(base, ".cjs"@);
    suffix_of_whole(base, ".jsx"@);
    other_extension(base, ".ts"@, ".tsx"@, 0);
    other_extension(base, ".mts"@, ".tsx"@, 0);
    other_extension(base, ".cts"@, ".tsx"@, 0);
    other_extension(base, ".js"@, ".tsx"@, 0);
    other_extension(base, ".js"@, ".ts"@, 1);
    other_extension(base, ".js"@, ".mts"@, 1);
    other_extension(base, ".js"@, ".cts"@, 1);
    other_extension(base, ".mjs"@, ".tsx"@, 0);
    other_extension(base, ".mjs"@, ".ts"@, 1);
    other_extension(base, ".mjs"@, ".mts"@, 1);
    other_extension(base, ".mjs"@, ".cts"@, 1);
    other_extension(base, ".cjs"@, ".tsx"@, 0);
    other_extension(base, ".cjs"@, ".ts"@, 1);
    other_extension(base, ".cjs"@, ".mts"@, 1);
    other_extension(base, ".cjs"@, ".cts"@, 1);
    other_extension(base, ".jsx"@, ".tsx"@, 2);
    other_extension(base, ".jsx"@, ".ts"@, 0);
    other_extension(base, ".jsx"@, ".mts"@, 0);
    other_extension(base, ".jsx"@, ".cts"@, 0);
}

/// A text with an ending that is more than the end of an extension has that extension where
/// the ending has it.
proof fn ending_has_extension(name: Seq<char>, ending: Seq<char>, extension: Seq<char>)
    requires
        has_suffix(name, ending),
        !cuts(ending, extension),
    ensures
        has_suffix(name, extension) == has_suffix(ending, extension),
{
    if extension.len() <= ending.len() {
        suffix_of_ending(name, ending, extension);
    } else if has_suffix(name, extension) {
        suffix_of_ending(name, extension, ending);
    }
}

/// Where a name has an ending that is more than the end of an extension, the name stands for the
/// language that the ending stands for.
proof fn ending_tells_language(name: Seq<char>, ending: Seq<char>)
    requires
        has_suffix(name, ending),
        !cuts_an_extension(ending),
    ensures
        language_of(name) == language_of(ending),
{
    ending_has_extension(name, ending, ".tsx"@);
    ending_has_extension(name, ending, ".ts"@);
    ending_has_extension(name, ending, ".mts"@);
    ending_has_extension(name, ending, ".cts"@);
    ending_has_extension(name, ending, ".js"@);
    ending_has_extension(name, ending, ".mjs"@);
    ending_has_extension(name, ending, ".cjs"@);
    ending_has_extension(name, ending, ".jsx"@);
}

/// An ending with an extension in it is more than the end of an extension.
proof fn extensions_are_whole(ending: Seq<char>)
    requires
        language_of(ending) != ""@,
    ensures
        !cuts_an_extension(ending),
{
    reveal_strlit(".tsx");
    reveal_strlit(".ts");
    reveal_strlit(".mts");
    reveal_strlit(".cts");
    reveal_strlit(".js");
    reveal_strlit(".mjs");
    reveal_strlit(".cjs");
    reveal_strlit(".jsx");
    if ending.len() < 4 {
        assert(ending.subrange(ending.len() - 3, ending.len() as int) =~= ending);
        assert(ending[0] == '.');
    }
    assert(!cuts(ending, ".tsx"@)) by {
        if cuts(ending, ".tsx"@) {
            assert(".tsx"@.subrange(1, 4)[0] == ".tsx"@[1]);
        }
    }
    assert(!cuts(ending, ".mts"@)) by {
        if cuts(ending, ".mts"@) {
            assert(".mts"@.subrange(1, 4)[0] == ".mts"@[1]);
        }
    }
    assert(!cuts(ending, ".cts"@)) by {
        if cuts(ending, ".cts"@) {
            assert(".cts"@.subrange(1, 4)[0] == ".cts"@[1]);
        }
    }
    assert(!cuts(ending, ".mjs"@)) by {
        if cuts(ending, ".mjs"@) {
            assert(".mjs"@.subrange(1, 4)[0] == ".mjs"@[1]);
        }
    }
    assert(!cuts(ending, ".cjs"@)) by {
        if cuts(ending, ".cjs"@) {
            assert(".cjs"@.subrange(1, 4)[0] == ".cjs"@[1]);
        }
    }
    assert(!cuts(ending, ".jsx"@)) by {
        if cuts(ending, ".jsx"@) {
            assert(".jsx"@.subrange(1, 4)[0] == ".jsx"@[1]);
        }
    }
}

/// Upper-case ASCII letters in a name do not change its language.
pub proof fn upper_case_changes_nothing(filename: Seq<char>)
    ensures
        told_by_ending(ascii_uppered(filename)) == told_by_ending(filename),
        language_by_ending(ascii_uppered(filename)) == language_by_ending(filename),
{
    ascii_ending_uppered(filename);
    let upper = ascii_uppered(filename);
    assert forall|i: int| 0 <= i < filename.len() implies (#[trigger] filename[i] <= '\u{7f}')
        == (upper[i] <= '\u{7f}') by {}
    if is_ascii_chars(upper) {
        assert forall|i: int| 0 <= i < filename.len() implies '\0' <= #[trigger] filename[i]
            <= '\u{7f}' by {
            assert(upper[i] <= '\u{7f}');
        }
    }
}

/// What stands before a name that has a language, such as a directory, does not change it.
pub proof fn a_prefix_changes_nothing(prefix: Seq<char>, filename: Seq<char>)
    requires
        language_by_ending(filename) != ""@,
    ensures
        told_by_ending(filename),
        told_by_ending(prefix + filename),
        language_by_ending(prefix + filename) == language_by_ending(filename),
{
    let (whole, ending) = (
        ascii_lowered(ascii_ending(prefix + filename)),
        ascii_lowered(ascii_ending(filename)),
    );
    ascii_ending_behind(prefix, filename);
    extensions_are_whole(ending);
    ending_tells_language(whole, ending);
    extensions_are_whole(whole);
}

/// The language of a file follows from the end of its name in lower case, and from nothing else:
/// each language has its extensions, and a name with none of the eight has no language.
pub proof fn extensions_alone_make_a_language(filename: Seq<char>)
    ensures
        detected(filename) == "tsx"@ <==> ".tsx"@.is_suffix_of(lowercase(filename)),
        detected(filename) == "typescript"@ <==> ".ts"@.is_suffix_of(lowercase(filename))
            || ".mts"@.is_suffix_of(lowercase(filename))
            || ".cts"@.is_suffix_of(lowercase(filename)),
        detected(filename) == "javascript"@ <==> ".js"@.is_suffix_of(lowercase(filename))
            || ".mjs"@.is_suffix_of(lowercase(filename))
            || ".cjs"@.is_suffix_of(lowercase(filename))
            || ".jsx"@.is_suffix_of(lowercase(filename)),
        !(".tsx"@.is_suffix_of(lowercase(filename))
            || ".ts"@.is_suffix_of(lowercase(filename))
            || ".mts"@.is_suffix_of(lowercase(filename))
            || ".cts"@.is_suffix_of(lowercase(filename))
            || ".js"@.is_suffix_of(lowercase(filename))
            || ".mjs"@.is_suffix_of(lowercase(filename))
            || ".cjs"@.is_suffix_of(lowercase(filename))
            || ".jsx"@.is_suffix_of(lowercase(filename))) <==> detected(filename) == ""@,
{
    let name = lowercase(filename);
    reveal_strlit("tsx");
    assert("tsx"@.len() == 3);
    reveal_strlit("typescript");
    assert("typescript"@.len() == 10);
    reveal_strlit("javascript");
    assert("javascript"@.len() == 10);
    reveal_strlit("");
    assert(""@.len() == 0);
    assert("javascript"@[0] != "typescript"@[0]);
    reveal_strlit(".tsx");
    assert(has_suffix(name, ".tsx"@) == ".tsx"@.is_suffix_of(name));
    reveal_strlit(".ts");
    assert(has_suffix(name, ".ts"@) == ".ts"@.is_suffix_of(name));
    reveal_strlit(".mts");
    assert(has_suffix(name, ".mts"@) == ".mts"@.is_suffix_of(name));
    reveal_strlit(".cts");
    assert(has_suffix(name, ".cts"@) == ".cts"@.is_suffix_of(name));
    reveal_strlit(".js");
    assert(has_suffix(name, ".js"@) == ".js"@.is_suffix_of(name));
    reveal_strlit(".mjs");
    assert(has_suffix(name, ".mjs"@) == ".mjs"@.is_suffix_of(name));
    reveal_strlit(".cjs");
    assert(has_suffix(name, ".cjs"@) == ".cjs"@.is_suffix_of(name));
    reveal_strlit(".jsx");
    assert(has_suffix(name, ".jsx"@) == ".jsx"@.is_suffix_of(name));
    if language_of(name) != ""@ {
        let n = name.len() as int;
        assert(".tsx"@.is_suffix_of(name) ==> name[n - 4] == '.'
            && name[n - 3] == 't' && name[n - 2] == 's' && name[n - 1] == 'x') by {
            if ".tsx"@.is_suffix_of(name) {
                let end = name.subrange(n - 4, n);
                assert(end[0] == name[n - 4]);
                assert(end[1] == name[n - 3]);
                assert(end[2] == name[n - 2]);
                assert(end[3] == name[n - 1]);
            }
        }
        assert(".ts"@.is_suffix_of(name) ==> name[n - 3] == '.'
            && name[n - 2] == 't' && name[n - 1] == 's') by {
            if ".ts"@.is_suffix_of(name) {
                let end = name.subrange(n - 3, n);
                assert(end[0] == name[n - 3]);
                assert(end[1] == name[n - 2]);
                assert(end[2] == name[n - 1]);
            }
        }
        assert(".mts"@.is_suffix_of(name) ==> name[n - 4] == '.'
            && name[n - 3] == 'm' && name[n - 2] == 't' && name[n - 1] == 's') by {
            if ".mts"@.is_suffix_of(name) {
                let end = name.subrange(n - 4, n);
                assert(end[0] == name[n - 4]);
                assert(end[1] == name[n - 3]);
                assert(end[2] == name[n - 2]);
                assert(end[3] == name[n - 1]);
            }
        }
        assert(".cts"@.is_suffix_of(name) ==> name[n - 4] == '.'
            && name[n - 3] == 'c' && name[n - 2] == 't' && name[n - 1] == 's') by {
            if ".cts"@.is_suffix_of(name) {
                let end = name.subrange(n - 4, n);
                assert(end[0] == name[n - 4]);
                assert(end[1] == name[n - 3]);
                assert(end[2] == name[n - 2]);
                assert(end[3] == name[n - 1]);
            }
        }
        assert(".js"@.is_suffix_of(name) ==> name[n - 3] == '.'
            && name[n - 2] == 'j' && name[n - 1] == 's') by {
            if ".js"@.is_suffix_of(name) {
                let end = name.subrange(n - 3, n);
                assert(end[0] == name[n - 3]);
                assert(end[1] == name[n - 2]);
                assert(end[2] == name[n - 1]);
            }
        }
        assert(".mjs"@.is_suffix_of(name) ==> name[n - 4] == '.'
            && name[n - 3] == 'm' && name[n - 2] == 'j' && name[n - 1] == 's') by {
            if ".mjs"@.is_suffix_of(name) {
                let end = name.subrange(n - 4, n);
                assert(end[0] == name[n - 4]);
                assert(end[1] == name[n - 3]);
                assert(end[2] == name[n - 2]);
                assert(end[3] == name[n - 1]);
            }
        }
        assert(".cjs"@.is_suffix_of(name) ==> name[n - 4] == '.'
            && name[n - 3] == 'c' && name[n - 2] == 'j' && name[n - 1] == 's') by {
            if ".cjs"@.is_suffix_of(name) {
                let end = name.subrange(n - 4, n);
                assert(end[0] == name[n - 4]);
                assert(end[1] == name[n - 3]);
                assert(end[2] == name[n - 2]);
                assert(end[3] == name[n - 1]);
            }
        }
        assert(".jsx"@.is_suffix_of(name) ==> name[n - 4] == '.'
            && name[n - 3] == 'j' && name[n - 2] == 's' && name[n - 1] == 'x') by {
            if ".jsx"@.is_suffix_of(name) {
                let end = name.subrange(n - 4, n);
                assert(end[0] == name[n - 4]);
                assert(end[1] == name[n - 3]);
                assert(end[2] == name[n - 2]);
                assert(end[3] == name[n - 1]);
            }
        }
    }
}

/// One of the three ids of languages is taken as it is asked for; for anything else the name of
/// the file decides.
pub proof fn three_languages_can_be_asked_for(language: Seq<char>, filename: Seq<char>)
    ensures
        language == "javascript"@ || language == "typescript"@ || language == "tsx"@ ==> selected(
            language,
            filename,
        ) == language,
        language != "javascript"@ && language != "typescript"@ && language != "tsx"@ ==> selected(
            language,
            filename,
        ) == detected(filename),
{
}

/// TypeScript and TSX have a grammar of their own, and everything else is parsed as JavaScript.
pub proof fn languages_have_their_grammars(language: Seq<char>)
    ensures
        grammar(language) == Grammar::TypeScript <==> language == "typescript"@,
        grammar(language) == Grammar::Tsx <==> language == "tsx"@,
        grammar(language) == Grammar::JavaScript <==> language != "typescript"@ && language
            != "tsx"@,
{
    reveal_strlit("tsx");
    reveal_strlit("typescript");
    assert("tsx"@.len() != "typescript"@.len());
}

} // verus!
