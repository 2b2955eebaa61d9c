//! Renders documents written in a markdown dialect extended with custom
//! markup tags. Markdown is compiled to markup text, the markup is parsed
//! into a node forest, and the forest is rendered depth first: standard
//! tags are re-serialized, custom tags (name starting with an ASCII
//! uppercase letter) are delegated to a caller-supplied [`handler::Handler`].

pub mod handler;
pub mod laws;
pub mod markdown;
pub mod markup;
pub mod markup_types;
pub mod node;
pub mod pipeline;
pub mod render;
