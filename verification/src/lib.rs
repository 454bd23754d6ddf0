//! A consistency linter core: a universal value model with a JSON wire
//! encoding, lint definitions with severity policy, a dual-source diff
//! engine, a sandboxed-plugin lifecycle model, and the pure resolution
//! logic of the domain adapters (filesystem, item graph, API documents).

pub mod config;
pub mod engine;
pub mod filesystem;
pub mod hacker_news;
pub mod lint;
pub mod lint_data;
pub mod openapi;
pub mod plugin_config;
pub mod rows;
pub mod sandbox;
pub mod text;
pub mod value;
