//! What the plugin says of itself, and the steps of a request.

use js_ts_parser::cst::CstNode;
use js_ts_parser::language::{detect, grammar_for, select_language};
use js_ts_parser::plugin::{
    language_info_for, process_hashed, process_parsed, process_serialised, report_error,
    JsTsParser, LanguageInfo, ParserMode, ProcessStep,
};
use js_ts_parser::semantic::HashTree;
use js_ts_parser::syntax::Grammar;

fn leaf(node_type: &str, text: &str) -> CstNode {
    CstNode {
        node_type: node_type.to_string(),
        named: true,
        text: Some(text.to_string()),
        start_line: 0,
        start_col: 0,
        end_line: 0,
        end_col: 0,
        children: vec![],
    }
}

#[test]
fn grammar_id_nonempty() {
    assert!(!JsTsParser::grammar_id().is_empty());
}

#[test]
fn language_ids_contain_grammar_id() {
    let gid = JsTsParser::grammar_id();
    let ids = JsTsParser::language_ids();
    assert!(ids.contains(&gid), "language_ids {:?} must contain {:?}", ids, gid);
}

#[test]
fn detect_language_known_ext() {
    let r = JsTsParser::detect_language("test.js".to_string(), "".to_string());
    assert_eq!(r.as_str(), "javascript");
}

#[test]
fn detect_language_unknown_ext() {
    let r = JsTsParser::detect_language("test.xyz_notareal_ext_9z8y".to_string(), "".to_string());
    assert_eq!(r.as_str(), "");
}

#[test]
fn every_extension_has_its_language() {
    for (extension, language) in [
        (".js", "javascript"),
        (".mjs", "javascript"),
        (".cjs", "javascript"),
        (".jsx", "javascript"),
        (".ts", "typescript"),
        (".mts", "typescript"),
        (".cts", "typescript"),
        (".tsx", "tsx"),
        (".json", ""),
        (".tsz", ""),
        ("", ""),
    ] {
        let name = format!("src/a.b{extension}");
        assert_eq!(detect(&name), language, "{name}");
        assert_eq!(detect(&name.to_uppercase()), language, "{name}");
        let content = "let x;".to_string();
        assert_eq!(JsTsParser::detect_language(name.clone(), content), language, "{name}");
    }
}

#[test]
fn an_extension_alone_is_a_name_too() {
    assert_eq!(detect(".ts"), "typescript");
    assert_eq!(detect("ts"), "");
    assert_eq!(detect("ÄÖÜ.TSX"), "tsx");
    // The lower case of the Kelvin sign is an ASCII letter.
    assert_eq!(detect("a.\u{212A}ts"), "");
    assert_eq!(detect("\u{212A}.mTs"), "typescript");
}

#[test]
fn neither_upper_case_nor_a_prefix_nor_the_content_changes_the_language() {
    for name in ["a.ts", "ä.mts", "größe/ß.jsx", "日本.tsx", ".cjs", "ä.ts.txt", "tsä", "ü.py", "ä.c", "äTS"] {
        let language = detect(name);
        assert_eq!(detect(&name.to_ascii_uppercase()), language, "{name}");
        for prefix in ["", "src/", "Ä", "\u{3a3}", "a.tsx"] {
            if !language.is_empty() {
                assert_eq!(detect(&format!("{prefix}{name}")), language, "{prefix}{name}");
            }
        }
        let by_content =
            |content: &str| JsTsParser::detect_language(name.to_string(), content.to_string());
        assert_eq!(by_content("let x: number;"), by_content(""));
    }
}

#[test]
fn a_known_language_goes_before_the_name_of_the_file() {
    assert_eq!(select_language("javascript", "a.ts"), "javascript");
    assert_eq!(select_language("typescript", "a.js"), "typescript");
    assert_eq!(select_language("tsx", "a.js"), "tsx");
    assert_eq!(select_language("TSX", "a.js"), "javascript");
    assert_eq!(select_language("", "a.tsx"), "tsx");
    assert_eq!(select_language("python", "a.py"), "");
    for language in ["javascript", "typescript", "tsx", "other"] {
        let chosen = select_language(language, "a.mts");
        assert_eq!(select_language(&chosen, "a.mts"), chosen);
    }
}

#[test]
fn each_language_has_its_grammar() {
    assert_eq!(grammar_for("typescript"), Grammar::TypeScript);
    assert_eq!(grammar_for("tsx"), Grammar::Tsx);
    assert_eq!(grammar_for("javascript"), Grammar::JavaScript);
    assert_eq!(grammar_for(""), Grammar::JavaScript);
}

#[test]
fn the_plugin_describes_itself() {
    assert_eq!(JsTsParser::get_parser_mode(), ParserMode::FullParse);
    assert_eq!(JsTsParser::grammar_id(), "javascript");
    assert_eq!(JsTsParser::language_ids(), vec!["javascript", "typescript", "tsx"]);
    assert_eq!(JsTsParser::priority(), 0);
    assert_eq!(JsTsParser::preprocess_source(" a\r\n".to_string()), " a\r\n");
    assert_eq!(
        JsTsParser::trivia_node_types(),
        vec![
            "comment",
            "line_comment",
            "block_comment",
            "html_comment",
            "whitespace",
            "automatic_semicolon",
        ]
    );
}

#[test]
fn examples_are_in_the_language_that_is_asked_for() {
    for language in ["typescript", "tsx"] {
        let pair = JsTsParser::example(language.to_string());
        assert_eq!(
            pair.old,
            "function getUser(id) {\n  return { id: id, name: \"Alice\" };\n}\n\nfunction formatName(user) {\n  return user.name.toUpperCase();\n}\n"
        );
        assert_eq!(
            pair.new,
            "interface User {\n  id: number;\n  name: string;\n}\n\nfunction getUser(id: number): User {\n  return { id, name: \"Alice\" };\n}\n\nfunction formatName(user: User): string {\n  return user.name.toUpperCase();\n}\n"
        );
    }
    for language in ["javascript", "", "other"] {
        let pair = JsTsParser::example(language.to_string());
        assert_eq!(
            pair.old,
            "var PI = 3.14159;\n\nfunction circleArea(radius) {\n  return PI * radius * radius;\n}\n\nfunction greet(name) {\n  return \"Hello, \" + name + \"!\";\n}\n\nmodule.exports = { circleArea, greet };\n"
        );
        assert_eq!(
            pair.new,
            "const PI = 3.14159;\n\nconst circleArea = (radius) => PI * radius ** 2;\n\nconst greet = (name) => `Hello, ${name}!`;\n\nmodule.exports = { circleArea, greet };\n"
        );
    }
}

#[test]
fn each_language_gets_a_record() {
    let info = |id: &str| LanguageInfo {
        language_id: id.to_string(),
        language_name: format!("{id} name"),
        language_short_name: format!("{id} short"),
        monaco_language: format!("{id} monaco"),
        default_filename: format!("{id} file"),
        language_file_extensions: vec![format!("{id} extension")],
    };
    let records = language_info_for(vec![info("a"), info("b")], "author", "version", "updated");
    assert_eq!(records.len(), 2);
    for (record, id) in records.iter().zip(["a", "b"]) {
        assert_eq!(record.language_id, id);
        assert_eq!(record.language_name, format!("{id} name"));
        assert_eq!(record.language_short_name, format!("{id} short"));
        assert_eq!(record.monaco_language, format!("{id} monaco"));
        assert_eq!(record.default_filename, format!("{id} file"));
        assert_eq!(record.language_file_extensions, vec![format!("{id} extension")]);
        assert_eq!(record.author, "author");
        assert_eq!(record.plugin_version, "version");
        assert_eq!(record.last_updated, "updated");
    }
    assert!(language_info_for(vec![], "author", "version", "updated").is_empty());
}

#[test]
fn failures_are_reported_as_json() {
    assert_eq!(report_error("x"), "{\"error\":\"x\"}");
    match process_parsed(Err("Parse failed".to_string())) {
        ProcessStep::Done(answer) => assert_eq!(answer, "{\"error\":\"Parse failed\"}"),
        step => panic!("no answer: {step:?}"),
    }
    assert_eq!(
        process_serialised(Err("too deep".to_string())),
        "{\"error\":\"Serialisation error: too deep\"}"
    );
    assert_eq!(process_serialised(Ok("{}".to_string())), "{}");
}

#[test]
fn a_parsed_tree_is_hashed_next() {
    match process_parsed(Ok(leaf("program", "x"))) {
        ProcessStep::Hash(root) => assert_eq!(root.text.as_deref(), Some("x")),
        step => panic!("no tree to hash: {step:?}"),
    }
}

#[test]
fn an_empty_semantic_tree_is_reported() {
    let root = leaf("comment", "// x");
    let hashes = HashTree { hash: "h".to_string(), children: vec![] };
    match process_hashed(&root, &hashes) {
        ProcessStep::Done(answer) => assert_eq!(answer, "{\"error\":\"Empty semantic tree\"}"),
        step => panic!("no answer: {step:?}"),
    }
}

#[test]
fn a_program_is_serialised_next() {
    let root = leaf("program", "");
    let hashes = HashTree { hash: "h".to_string(), children: vec![] };
    match process_hashed(&root, &hashes) {
        ProcessStep::Serialise(tree) => {
            assert_eq!(tree.id, "0");
            assert_eq!(tree.structural_hash, "h");
        }
        step => panic!("no tree to serialise: {step:?}"),
    }
}
