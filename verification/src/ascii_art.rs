//! The ASCII-art block extension:
//! `{% ascii_art "PATH" %}…{% endascii_art %}`.
//!
//! The body is a line-art diagram.  Parsing converts it to SVG through
//! the external diagram renderer and asks for that SVG to be written
//! under the configured base directory: the write is a documented side
//! effect of parsing, returned as a pending [`FileEffect`] so the host
//! decides when to touch the filesystem.  The produced node emits its
//! `<img>` markup with the original, unresolved argument string; the
//! leading path separator is stripped only when resolving the
//! filesystem path.

use vstd::prelude::*;

use crate::errors::BlockError;

verus! {

/// The SVG markup the external diagram renderer produces for a
/// diagram text; a function of that text alone.
pub uninterp spec fn svg_of(diagram: Seq<char>) -> Seq<char>;

/// Relies on svgbob::to_svg_string_compressed (a cell buffer read with
/// default settings, rendered to a string): the SVG markup is a
/// function of the diagram text alone.
#[verifier::external_body]
fn diagram_to_svg(diagram: &str) -> (r: String)
    ensures
        r@ == svg_of(diagram@),
{
    svgbob::to_svg_string_compressed(diagram)
}

/// `arg` with one leading `/` removed, if present.
pub open spec fn stripped(arg: Seq<char>) -> Seq<char> {
    if arg.len() > 0 && arg[0] == '/' {
        arg.skip(1)
    } else {
        arg
    }
}

/// Where the rendered SVG is to be stored: the argument, stripped of
/// its leading separator, under the base directory.
pub open spec fn resolved_path(base: Seq<char>, arg: Seq<char>) -> Seq<char> {
    if base.len() == 0 {
        stripped(arg)
    } else {
        base + "/"@ + stripped(arg)
    }
}

/// The markup the produced node renders: the original argument string,
/// unquoted and unmodified.
pub open spec fn art_markup(arg: Seq<char>) -> Seq<char> {
    "<div class='ascii_art'><img src="@ + arg + "/></div>"@
}

/// A pending filesystem write produced by parsing: store `contents` at
/// `path`, creating missing parent directories and overwriting any
/// existing file.  Executing it is the host's affair.
pub struct FileEffect {
    pub path: String,
    pub contents: String,
}

/// The renderable unit an ASCII-art block parses to: cached `<img>`
/// markup, written unchanged at render time.
pub struct AsciiArt {
    content: String,
}

impl View for AsciiArt {
    type V = Seq<char>;

    closed spec fn view(&self) -> Seq<char> {
        self.content@
    }
}

impl AsciiArt {
    /// Render-time output: the cached markup, unchanged.
    pub fn render_to(&self) -> (r: &str)
        ensures
            r@ == self@,
    {
        self.content.as_str()
    }
}

/// The ASCII-art block extension, configured with the base output
/// directory for generated diagrams.
pub struct AsciiArtBlock {
    base_path: String,
}

impl AsciiArtBlock {
    /// The configured base output directory.
    pub closed spec fn base(&self) -> Seq<char> {
        self.base_path@
    }

    pub fn new(destination: String) -> (r: Self)
        ensures
            r.base() == destination@,
    {
        AsciiArtBlock { base_path: destination }
    }

    /// The tag that opens the block.
    pub fn start_tag(&self) -> (r: &'static str)
        ensures
            r@ == "ascii_art"@,
    {
        "ascii_art"
    }

    /// The tag that closes the block.
    pub fn end_tag(&self) -> (r: &'static str)
        ensures
            r@ == "endascii_art"@,
    {
        "endascii_art"
    }

    fn parse_input_path(&self, input: &str) -> (r: String)
        ensures
            r@ == resolved_path(self.base(), input@),
    {
        let n = input.unicode_len();
        let rest: &str = if n > 0 && input.get_char(0) == '/' {
            let t = input.substring_char(1, n);
            proof {
                assert(t@ =~= input@.skip(1));
            }
            t
        } else {
            input
        };
        let mut s = String::new();
        if self.base_path.as_str().unicode_len() > 0 {
            s.append(self.base_path.as_str());
            s.append("/");
        }
        s.append(rest);
        proof {
            assert(s@ =~= resolved_path(self.base(), input@));
        }
        s
    }

    /// Parse one occurrence of the block: exactly one argument, the
    /// target path.  The body is rendered to SVG once, the pending
    /// write of that SVG is returned beside the node, and the node's
    /// markup carries the argument exactly as given.
    pub fn parse(&self, arguments: &Vec<String>, raw_content: &str) -> (r: Result<
        (AsciiArt, FileEffect),
        BlockError,
    >)
        ensures
            arguments@.len() == 0 ==> r == Result::<(AsciiArt, FileEffect), BlockError>::Err(
                BlockError::MissingArgument,
            ),
            arguments@.len() >= 2 ==> r == Result::<(AsciiArt, FileEffect), BlockError>::Err(
                BlockError::UnexpectedArgument,
            ),
            arguments@.len() == 1 ==> (r matches Ok(p) && {
                &&& p.0@ == art_markup(arguments@[0]@)
                &&& p.1.path@ == resolved_path(self.base(), arguments@[0]@)
                &&& p.1.contents@ == svg_of(raw_content@)
            }),
    {
        if arguments.len() == 0 {
            return Err(BlockError::MissingArgument);
        }
        if arguments.len() >= 2 {
            return Err(BlockError::UnexpectedArgument);
        }
        let target = &arguments[0];
        let svg = diagram_to_svg(raw_content);
        let svg_path = self.parse_input_path(target.as_str());
        let mut content = String::from_str("<div class='ascii_art'><img src=");
        content.append(target.as_str());
        content.append("/></div>");
        proof {
            assert(content@ =~= art_markup(arguments@[0]@));
        }
        Ok((AsciiArt { content }, FileEffect { path: svg_path, contents: svg }))
    }
}

} // verus!
