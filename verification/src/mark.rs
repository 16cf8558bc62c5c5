//! The Markdown rendering pipeline.
//!
//! Raw Markdown text is tokenized by the external event source, the
//! event stream runs once through the heading-anchor transform, and
//! the transformed stream is serialized by the external HTML renderer.
//! The transform itself — which events are suppressed, what markup a
//! heading becomes, what the table of contents holds — is verified in
//! [`crate::toc`].  The tokenizer stands behind a trusted wrapper
//! whose classified output is named `md_events_of`, so the renderer's
//! contract ties the table of contents to the document text; the HTML
//! serializer is trusted as well, and the string it produces is not
//! pinned (pass-through events stay opaque).  Before any work, the
//! theme gate of [`crate::template`] runs against what the host's
//! registry said of the configured syntax theme: a theme confirmed
//! absent fails the whole parse, as the code-block decorator would.

use vstd::prelude::*;

use pulldown_cmark::{CowStr, Event, Options, Parser, Tag, TagEnd};

use crate::errors::{MarkdownError, ResourceError, TocError};
use crate::template::{LiquidBuilder, ThemeLookup};
use crate::toc::{
    evs_view, first_bad, run_ok, run_state, step_err, toc_is_empty, MdAction, MdEvent, MdEventV,
    Toc,
};

verus! {

#[verifier::external_type_specification]
#[verifier::external_body]
pub struct ExEvent<'a>(Event<'a>);

/// The upstream parse events of a Markdown text, as the transform
/// classifies them; a function of the text alone, since the tokenizer
/// is deterministic.
pub uninterp spec fn md_events_of(content: Seq<char>) -> Seq<MdEventV>;

/// Relies on pulldown_cmark::Parser::new_ext: tokenize the text with
/// footnotes, tables, strikethrough, task lists, heading attributes,
/// GFM, superscript, subscript, definition lists and math enabled.
/// Beside each owned event stands its classification — the variants
/// the transform reads, told apart with their fields moved over as
/// plain values.  A heading level is one of H1 through H6, declared
/// with values 1 through 6.
#[verifier::external_body]
fn markdown_events(content: &str) -> (r: (Vec<Event<'static>>, Vec<MdEvent>))
    ensures
        evs_view(r.1@) == md_events_of(content@),
        r.0@.len() == r.1@.len(),
        forall|i: int|
            0 <= i < r.1@.len() ==> ((#[trigger] r.1@[i])@ matches MdEventV::HeadingEnd { level }
                ==> 1 <= level <= 6),
{
    let o = Options::ENABLE_FOOTNOTES | Options::ENABLE_TABLES | Options::ENABLE_STRIKETHROUGH
        | Options::ENABLE_TASKLISTS | Options::ENABLE_HEADING_ATTRIBUTES | Options::ENABLE_GFM
        | Options::ENABLE_SUPERSCRIPT | Options::ENABLE_SUBSCRIPT
        | Options::ENABLE_DEFINITION_LIST | Options::ENABLE_MATH;
    let (mut events, mut kinds) = (Vec::new(), Vec::new());
    for ev in Parser::new_ext(content, o) {
        kinds.push(match &ev {
            Event::Start(Tag::Heading { id, .. }) => MdEvent::HeadingStart { id: id.as_ref().map(|s| s.to_string()) },
            Event::Text(t) => MdEvent::Text { text: t.to_string() },
            Event::End(TagEnd::Heading(l)) => MdEvent::HeadingEnd { level: *l as u8 },
            _ => MdEvent::Other,
        });
        events.push(ev.into_static());
    }
    (events, kinds)
}

/// Relies on pulldown_cmark::Event::Text: an event holding empty text.
#[verifier::external_body]
fn empty_text_event() -> (r: Event<'static>) {
    Event::Text(CowStr::Borrowed(""))
}

/// Relies on pulldown_cmark::Event::Html: an event holding the given
/// markup as one opaque HTML node.
#[verifier::external_body]
fn html_event(html: String) -> (r: Event<'static>) {
    Event::Html(CowStr::Boxed(html.into_boxed_str()))
}

/// Relies on pulldown_cmark::html::push_html: serialize the event
/// sequence into an HTML string.
#[verifier::external_body]
fn render_html(events: Vec<Event<'static>>) -> (r: String) {
    let mut buf = String::new();
    pulldown_cmark::html::push_html(&mut buf, events.into_iter());
    buf
}

/// Configuration of the Markdown renderer: the optional
/// syntax-highlight theme name.
#[derive(Debug, Clone, PartialEq, Eq)]
pub struct MarkdownBuilder {
    pub theme: Option<String>,
}

impl MarkdownBuilder {
    pub fn build(self) -> (r: Markdown)
        ensures
            r.theme == self.theme,
    {
        Markdown { theme: self.theme }
    }
}

/// The Markdown renderer.
#[derive(Debug, Clone, PartialEq, Eq)]
pub struct Markdown {
    pub theme: Option<String>,
}

/// A configured theme stands confirmed absent from the registry: the
/// document cannot be rendered with it.
pub open spec fn theme_refused(theme: Option<String>, lookup: ThemeLookup) -> bool {
    theme is Some && lookup is Absent
}

impl Markdown {
    /// Render Markdown text to HTML and gather the table of contents.
    ///
    /// A configured theme that the host's registry lookup confirmed
    /// absent fails the parse outright, naming the theme — the
    /// decorating collaborator cannot use it; an unconfirmable lookup
    /// only warrants the host's warning.  Otherwise the classified
    /// event stream `md_events_of(content)` runs once through the
    /// verified heading-anchor transform: the table of contents is
    /// exactly the transform's — absent iff the document has no
    /// headings — and a structurally malformed stream yields the
    /// first offending event's error, never an abort.  The HTML
    /// string itself is the external serializer's and is not pinned.
    pub fn parse(&self, content: &str, theme_lookup: &ThemeLookup) -> (r: Result<
        (String, Option<Toc>),
        MarkdownError,
    >)
        ensures
            theme_lookup is Absent ==> (self.theme matches Some(t) ==> (r matches Err(
                MarkdownError::Resource(ResourceError::UnsupportedTheme { theme: u }),
            ) && u@ == t@)),
            !theme_refused(self.theme, *theme_lookup) ==> ({
                let evs = md_events_of(content@);
                &&& run_ok(evs) ==> (r matches Ok(p) && {
                    &&& toc_is_empty(run_state(evs).toc) ==> p.1 is None
                    &&& !toc_is_empty(run_state(evs).toc) ==> (p.1 matches Some(t) && t@
                        == run_state(evs).toc)
                })
                &&& !run_ok(evs) ==> (exists|i: int|
                    first_bad(evs, i) && r == Result::<(String, Option<Toc>), MarkdownError>::Err(
                        MarkdownError::Transform(step_err(run_state(evs.take(i)), evs[i])),
                    ))
            }),
    {
        match &self.theme {
            Some(t) => {
                match LiquidBuilder::highlight(t, theme_lookup) {
                    Ok(_) => {},
                    Err(e) => {
                        return Err(MarkdownError::Resource(e));
                    },
                }
            },
            None => {},
        }
        let (mut events, kinds) = markdown_events(content);
        let tr = crate::toc::transform_events(&kinds);
        let ghost trg = tr;
        let pair = match tr {
            Ok(p) => p,
            Err(e) => {
                let out: Result<(String, Option<Toc>), MarkdownError> = Err(
                    MarkdownError::Transform(e),
                );
                proof {
                    let evs0 = md_events_of(content@);
                    assert(evs0 == evs_view(kinds@));
                    assert(!run_ok(evs0));
                    let i0 = choose|i: int|
                        first_bad(evs0, i) && trg == Result::<
                            (Vec<MdAction>, Option<Toc>),
                            TocError,
                        >::Err(step_err(run_state(evs0.take(i)), evs0[i]));
                    assert(first_bad(evs0, i0) && out == Result::<
                        (String, Option<Toc>),
                        MarkdownError,
                    >::Err(MarkdownError::Transform(step_err(run_state(evs0.take(i0)), evs0[i0]))));
                }
                return out;
            },
        };
        let mut actions = pair.0;
        let toc = pair.1;
        proof {
            assert(md_events_of(content@) == evs_view(kinds@));
            assert(run_ok(evs_view(kinds@)));
            assert(actions@.len() == events@.len()) by {
                assert(crate::toc::actions_view(actions@).len() == actions@.len());
                assert(evs_view(kinds@).len() == kinds@.len());
            }
        }
        let mut out: Vec<Event<'static>> = Vec::new();
        while events.len() > 0
            invariant
                actions@.len() == events@.len(),
            decreases events.len(),
        {
            let ev = events.remove(0);
            let act = actions.remove(0);
            match act {
                MdAction::EmptyText => out.push(empty_text_event()),
                MdAction::Html { html } => out.push(html_event(html)),
                MdAction::PassThrough => out.push(ev),
            }
        }
        let html = render_html(out);
        Ok((html, toc))
    }
}

} // verus!
