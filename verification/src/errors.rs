//! Error taxonomy: structural errors (malformed block syntax, wrong
//! argument arity, unmatched heading events), resource errors (a syntax
//! theme confirmed absent), and external-tool errors (the typesetting
//! engine could not be invoked).  Every fallible boundary returns one of
//! these values; nothing in the library aborts the process.

use vstd::prelude::*;

verus! {

/// Failure of a block extension's parse routine.
#[derive(Debug, Clone, PartialEq, Eq)]
pub enum BlockError {
    /// The block tag requires an argument and none was supplied.
    MissingArgument,
    /// More arguments were supplied than the block extension declares.
    UnexpectedArgument,
    /// The external tool behind the block could not be invoked.
    ExternalTool { detail: String },
}

/// Structural failure of the heading-anchor transform.
#[derive(Debug, Clone, PartialEq, Eq)]
pub enum TocError {
    /// A heading-end event arrived with no heading open.
    UnmatchedHeadingEnd,
    /// A heading-end event carried a level outside 1..=6.
    InvalidHeadingLevel,
}

/// A needed resource is confirmed unusable.
#[derive(Debug, Clone, PartialEq, Eq)]
pub enum ResourceError {
    /// The requested syntax theme is confirmed absent from the registry.
    UnsupportedTheme { theme: String },
}

/// Failure of the Markdown rendering pipeline.
#[derive(Debug, Clone, PartialEq, Eq)]
pub enum MarkdownError {
    /// The heading-anchor transform refused the event stream.
    Transform(TocError),
    /// The configured syntax theme cannot be used.
    Resource(ResourceError),
}

} // verus!
