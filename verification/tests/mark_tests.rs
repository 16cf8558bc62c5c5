use cobalt_render::errors::{MarkdownError, ResourceError};
use cobalt_render::mark::{Markdown, MarkdownBuilder};
use cobalt_render::template::ThemeLookup;

fn renderer() -> Markdown {
    MarkdownBuilder { theme: None }.build()
}

#[test]
fn heading_gets_anchor_and_toc() {
    let (html, toc) = renderer().parse("# Hello World\n\nbody text\n", &ThemeLookup::Present).unwrap();
    assert!(html.contains("<h1 id=\"hello-world\">"));
    assert!(html.contains("href=\"#hello-world\""));
    assert!(html.contains("body text"));
    let toc = toc.expect("a document with a heading has a toc");
    assert_eq!(toc.h1.len(), 1);
    assert_eq!(toc.h1[0].title, "Hello World");
    assert_eq!(toc.h1[0].id, "hello-world");
}

#[test]
fn no_heading_means_no_toc() {
    let (html, toc) = renderer().parse("just a paragraph\n", &ThemeLookup::Present).unwrap();
    assert!(html.contains("just a paragraph"));
    assert!(toc.is_none());
}

#[test]
fn explicit_heading_attribute_id_wins() {
    let (html, toc) = renderer().parse("# Some Title {#custom-id}\n", &ThemeLookup::Present).unwrap();
    assert!(html.contains("id=\"custom-id\""));
    let toc = toc.unwrap();
    assert_eq!(toc.h1[0].id, "custom-id");
}

#[test]
fn levels_fill_their_buckets_in_order() {
    let doc = "# Top\n\n## First\n\n## Second\n";
    let (_html, toc) = renderer().parse(doc, &ThemeLookup::Present).unwrap();
    let toc = toc.unwrap();
    assert_eq!(toc.h1.len(), 1);
    assert_eq!(toc.h2.len(), 2);
    assert_eq!(toc.h2[0].title, "First");
    assert_eq!(toc.h2[1].title, "Second");
}

#[test]
fn duplicate_document_headings_share_id() {
    let doc = "## Hello World\n\n## Hello World\n";
    let (_html, toc) = renderer().parse(doc, &ThemeLookup::Present).unwrap();
    let toc = toc.unwrap();
    assert_eq!(toc.h2.len(), 2);
    assert_eq!(toc.h2[0].id, "hello-world");
    assert_eq!(toc.h2[1].id, "hello-world");
}

#[test]
fn builder_keeps_theme() {
    let m = MarkdownBuilder { theme: Some("InspiredGitHub".to_string()) }.build();
    assert_eq!(m.theme.as_deref(), Some("InspiredGitHub"));
}

#[test]
fn absent_theme_fails_the_parse_naming_it() {
    let m = MarkdownBuilder { theme: Some("no-such-theme".to_string()) }.build();
    let r = m.parse("# Heading\n", &ThemeLookup::Absent);
    assert_eq!(
        r,
        Err(MarkdownError::Resource(ResourceError::UnsupportedTheme {
            theme: "no-such-theme".to_string()
        }))
    );
}

#[test]
fn unavailable_registry_still_renders() {
    let m = MarkdownBuilder { theme: Some("whatever".to_string()) }.build();
    let (html, toc) = m.parse("# Hi\n", &ThemeLookup::Unavailable).unwrap();
    assert!(html.contains("<h1 id=\"hi\">"));
    assert!(toc.is_some());
}

#[test]
fn no_theme_ignores_the_registry() {
    let r = renderer().parse("plain text\n", &ThemeLookup::Absent);
    assert!(r.is_ok());
}
