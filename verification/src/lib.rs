//! Content-rendering core for a static-site pipeline.
//!
//! The crate turns author-written Markdown into HTML with anchored,
//! linkable headings and an aggregated table of contents, and offers the
//! block extensions (math typesetting, ASCII-art diagrams) that the
//! surrounding template engine registers.  The event-stream transform,
//! the slug derivation, the block-extension parsing rules, the theme
//! gate and the partial-source map are verified; the Markdown tokenizer,
//! the HTML serializer, the typesetter and the diagram renderer are
//! external collaborators reached through trusted wrappers.

pub mod ascii_art;
pub mod equation;
pub mod errors;
pub mod mark;
pub mod partials;
pub mod slug;
pub mod template;
pub mod toc;
