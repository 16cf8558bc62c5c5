//! The equation block extension: `{% equation [inline] %}…{% endequation %}`.
//!
//! The body between the tags is literal math source, never evaluated as
//! nested template syntax.  Parsing invokes the external typesetter
//! exactly once and caches the resulting markup in the produced node;
//! rendering is a pure write of that cached markup.  The single
//! argument `inline` switches the typesetter to inline mode; any other
//! single argument leaves display mode on; more than one argument is a
//! structural error.

use vstd::prelude::*;

use crate::errors::BlockError;

verus! {

/// The markup the external typesetter produces for a math source in
/// the given display mode; a function of those two arguments alone.
pub uninterp spec fn katex_html(src: Seq<char>, display: bool) -> Seq<char>;

/// Relies on katex::render_with_opts, configured with HTML output and
/// throw_on_error off: the returned markup is a function of the math
/// source and the display-mode flag alone; an error means the
/// JavaScript engine behind the typesetter could not be invoked.
#[verifier::external_body]
fn typeset(src: &str, display: bool) -> (r: Result<String, String>)
    ensures
        r matches Ok(html) ==> html@ == katex_html(src@, display),
{
    let mut opts = katex::Opts::default();
    opts.set_display_mode(display);
    opts.set_output_type(katex::OutputType::Html);
    opts.set_throw_on_error(false);
    match katex::render_with_opts(src, &opts) {
        Ok(html) => Ok(html),
        Err(e) => Err(e.to_string()),
    }
}

/// The views of a block's argument values.
pub open spec fn args_view(args: Seq<String>) -> Seq<Seq<char>> {
    args.map_values(|s: String| s@)
}

/// Whether the given arguments leave display mode on: only the single
/// argument `inline` switches it off.
pub open spec fn display_of(args: Seq<Seq<char>>) -> bool {
    !(args.len() == 1 && args[0] == "inline"@)
}

/// What a parsed block caches for given arguments and body: refused
/// outright for surplus arguments, else the body typeset once in the
/// mode the argument selects.
pub open spec fn equation_markup(args: Seq<Seq<char>>, body: Seq<char>) -> Option<Seq<char>> {
    if args.len() >= 2 {
        None
    } else {
        Some(katex_html(body, display_of(args)))
    }
}

/// The renderable unit an equation block parses to.  The typeset
/// markup is cached at parse time; rendering never typesets again.
pub struct Equation {
    content: String,
}

impl View for Equation {
    type V = Seq<char>;

    closed spec fn view(&self) -> Seq<char> {
        self.content@
    }
}

impl Equation {
    /// Render-time output: the cached markup, unchanged.
    pub fn render_to(&self) -> (r: &str)
        ensures
            r@ == self@,
    {
        self.content.as_str()
    }
}

/// The equation block extension.
pub struct EquationBlock {}

impl EquationBlock {
    pub fn new() -> (r: Self) {
        EquationBlock {  }
    }

    /// The tag that opens the block.
    pub fn start_tag(&self) -> (r: &'static str)
        ensures
            r@ == "equation"@,
    {
        "equation"
    }

    /// The tag that closes the block.
    pub fn end_tag(&self) -> (r: &'static str)
        ensures
            r@ == "endequation"@,
    {
        "endequation"
    }

    /// Parse one occurrence of the block: refuse more than one
    /// argument, typeset the body once in the mode the argument
    /// selects, and cache the markup.  A typesetter that cannot be
    /// invoked is a recoverable external-tool error, not an abort.
    pub fn parse(&self, arguments: &Vec<String>, raw_content: &str) -> (r: Result<
        Equation,
        BlockError,
    >)
        ensures
            arguments@.len() >= 2 ==> r == Result::<Equation, BlockError>::Err(
                BlockError::UnexpectedArgument,
            ),
            arguments@.len() <= 1 ==> ({
                &&& r matches Ok(eq) ==> Some(eq@) == equation_markup(
                    args_view(arguments@),
                    raw_content@,
                )
                &&& r matches Err(e) ==> e matches BlockError::ExternalTool { .. }
            }),
    {
        if arguments.len() >= 2 {
            return Err(BlockError::UnexpectedArgument);
        }
        let inline = if arguments.len() == 1 {
            let pat = String::from_str("inline");
            arguments[0] == pat
        } else {
            false
        };
        proof {
            assert(args_view(arguments@).len() == arguments@.len());
            if arguments@.len() == 1 {
                assert(args_view(arguments@)[0] == arguments@[0]@);
            }
        }
        match typeset(raw_content, !inline) {
            Ok(content) => Ok(Equation { content }),
            Err(detail) => Err(BlockError::ExternalTool { detail }),
        }
    }
}

/// The two forms of the block hand the typesetter the same math
/// source — the body itself — and differ only in the display-mode
/// flag: no argument selects display mode, the single argument
/// `inline` selects inline mode, and any other single argument still
/// selects display mode.
pub proof fn lemma_equation_modes(body: Seq<char>)
    ensures
        equation_markup(Seq::<Seq<char>>::empty(), body) == Some(katex_html(body, true)),
        equation_markup(seq!["inline"@], body) == Some(katex_html(body, false)),
        forall|other: Seq<char>|
            other != "inline"@ ==> equation_markup(seq![other], body) == Some(
                katex_html(body, true),
            ),
{
}

} // verus!
