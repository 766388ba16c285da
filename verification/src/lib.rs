//! A parser plugin for JavaScript and TypeScript.
//!
//! A source is parsed with the grammar of its language ([`parse`]). Its syntax tree ([`syntax`])
//! is lowered to a concrete syntax tree ([`lower`], [`cst`]), and that is pruned to a semantic
//! tree ([`semantic`]), which keeps what matters when two versions of a source are compared,
//! under labels that a reader knows ([`label`]). Which node types matter, and for what, is the
//! business of [`vocabulary`]; how a language is told from the name of a file, that of
//! [`language`]. The plugin itself ([`plugin`]) answers a request in steps, between which its
//! host hashes and serialises trees.
//!
//! The languages are
//!
//! - `javascript`: `.js`, `.mjs`, `.cjs` and `.jsx`;
//! - `typescript`: `.ts`, `.mts` and `.cts`;
//! - `tsx`: `.tsx`.
//!
//! What holds of the trees as a whole stands in [`vocabulary_laws`], [`label_laws`],
//! [`tree_laws`] and [`async_laws`]: ids are unique and tell where a node stood, nothing of a
//! semantic type is lost, and an `async` function never looks like a plain one.

pub mod async_laws;
pub mod cst;
pub mod label;
pub mod label_laws;
pub mod language;
pub mod lower;
pub mod parse;
pub mod plugin;
pub mod semantic;
pub mod syntax;
pub mod text;
pub mod tree_laws;
pub mod vocabulary;
pub mod vocabulary_laws;
