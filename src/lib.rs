//! Rendering of classified source tokens as cross-referenced markup.
//!
//! The library turns a stream of tokens, each tagged with a syntactic class,
//! into one `<span>` element per token. Identifiers can be enriched with what
//! an analysis backend knows about them (type, docs, definition link, URLs, a
//! stable id); the overlay highlighter instead stamps caller-registered classes
//! and ids onto exact byte ranges.

pub mod markup;
pub mod span;
pub mod enrich;
pub mod highlight;
