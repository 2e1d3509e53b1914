//! Markdown to styled rows, for the transcript and approval surfaces.
//!
//! Styling is additive: the visible text and word boundaries are unchanged by formatting, so the transcript's
//! line-count scroll offsets stay exact for a given width.
//!
//! Supported: bold, italic, strikethrough, inline code, fenced code blocks, headings, unordered/ordered lists,
//! blockquotes, paragraphs, and hard breaks. Links render as their text. Unsupported block constructs fall back to
//! paragraph text so nothing is lost. A fenced block with a recognized language tag gets per-token syntax
//! highlighting; an untagged or unrecognized tag keeps the flat code style.
//!
//! Split along the `Block` boundary: `events` reads the markdown, `parse` turns it into blocks, and `render` lays
//! them out.

pub mod cache;
pub mod events;
pub mod laws;
pub mod parse;
pub mod parse_laws;
pub mod render;
