# js_ts_parser

A parser plugin for JavaScript and TypeScript, written and proved in Verus. It parses a source
with the tree-sitter grammars, and prunes the syntax tree to a semantic tree that shows what
matters when two versions of a source are compared.

- `src/` is the library. Every function says in its contract what it returns. What holds of the
  trees as a whole is proved in `tree_laws`, `async_laws`, `label_laws` and
  `vocabulary_laws`.
- `tests/` runs the library on concrete sources and trees, with the real grammars.
- `app/` puts the library behind the interface of the plugin's host. It hashes and serialises
  trees with the plugin kit, and needs `wit/plugin.wit` and `plugin_metadata.info` beside it.
