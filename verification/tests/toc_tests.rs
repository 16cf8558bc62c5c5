use cobalt_render::errors::TocError;
use cobalt_render::toc::{transform_events, MdAction, MdEvent, TOCGenerator, TocEntry};

fn heading(level: u8, text: &str, id: Option<&str>) -> Vec<MdEvent> {
    vec![
        MdEvent::HeadingStart { id: id.map(|s| s.to_string()) },
        MdEvent::Text { text: text.to_string() },
        MdEvent::HeadingEnd { level },
    ]
}

#[test]
fn entry_and_permalink() {
    let e = TocEntry::new("Intro".to_string(), "intro".to_string());
    assert_eq!(e.title, "Intro");
    assert_eq!(e.id, "intro");
    assert_eq!(e.permalink(), "#intro");
}

#[test]
fn heading_markup_is_exact() {
    let mut gen = TOCGenerator::new();
    let mut events = heading(1, "Hi", None);
    let a1 = gen.next(&events.remove(0)).unwrap();
    let a2 = gen.next(&events.remove(0)).unwrap();
    let a3 = gen.next(&events.remove(0)).unwrap();
    assert_eq!(a1, MdAction::EmptyText);
    assert_eq!(a2, MdAction::EmptyText);
    assert_eq!(
        a3,
        MdAction::Html {
            html: "<h1 id=\"hi\">Hi<a hidden=\"\" class=\"anchor\" aria-hidden=\"true\" href=\"#hi\">#</a></h1>"
                .to_string()
        }
    );
}

#[test]
fn duplicate_headings_share_id_without_dedup() {
    let mut events = Vec::new();
    events.extend(heading(2, "Hello World", None));
    events.extend(heading(2, "Hello World", None));
    let (_actions, toc) = transform_events(&events).unwrap();
    let toc = toc.expect("two headings must give a toc");
    assert_eq!(toc.h2.len(), 2);
    assert_eq!(toc.h2[0].id, "hello-world");
    assert_eq!(toc.h2[1].id, "hello-world");
    assert_eq!(toc.h2[0].title, "Hello World");
    assert_eq!(toc.h2[1].title, "Hello World");
}

#[test]
fn explicit_id_kept_verbatim() {
    let mut events = Vec::new();
    events.extend(heading(1, "Completely Different Text", Some("My-Explicit.Id")));
    let (actions, toc) = transform_events(&events).unwrap();
    let toc = toc.unwrap();
    assert_eq!(toc.h1.len(), 1);
    assert_eq!(toc.h1[0].id, "My-Explicit.Id");
    match &actions[2] {
        MdAction::Html { html } => {
            assert!(html.contains("id=\"My-Explicit.Id\""));
            assert!(html.contains("href=\"#My-Explicit.Id\""));
        }
        other => panic!("expected html action, got {:?}", other),
    }
}

#[test]
fn toc_absent_without_headings_and_ordered_with() {
    let plain = vec![
        MdEvent::Other,
        MdEvent::Text { text: "just text".to_string() },
        MdEvent::Other,
    ];
    let (actions, toc) = transform_events(&plain).unwrap();
    assert!(toc.is_none());
    assert_eq!(
        actions,
        vec![MdAction::PassThrough, MdAction::PassThrough, MdAction::PassThrough]
    );

    let mut events = Vec::new();
    events.extend(heading(1, "Top", None));
    events.extend(heading(2, "First", None));
    events.extend(heading(2, "Second", None));
    let (_actions, toc) = transform_events(&events).unwrap();
    let toc = toc.unwrap();
    assert_eq!(toc.h1.len(), 1);
    assert_eq!(toc.h2.len(), 2);
    assert!(toc.h3.is_empty());
    assert_eq!(toc.h1[0].title, "Top");
    assert_eq!(toc.h2[0].title, "First");
    assert_eq!(toc.h2[1].title, "Second");
    assert_eq!(toc.bucket(2).len(), 2);
    assert_eq!(toc.bucket(2)[1].title, "Second");
}

#[test]
fn text_runs_overwrite_not_append() {
    let events = vec![
        MdEvent::HeadingStart { id: None },
        MdEvent::Text { text: "plain ".to_string() },
        MdEvent::Text { text: "emphasized".to_string() },
        MdEvent::HeadingEnd { level: 1 },
    ];
    let (_actions, toc) = transform_events(&events).unwrap();
    let toc = toc.unwrap();
    assert_eq!(toc.h1[0].title, "emphasized");
    assert_eq!(toc.h1[0].id, "emphasized");
}

#[test]
fn unmatched_heading_end_is_structural_error() {
    let events = vec![MdEvent::HeadingEnd { level: 1 }];
    assert_eq!(transform_events(&events), Err(TocError::UnmatchedHeadingEnd));

    let mut gen = TOCGenerator::new();
    let r = gen.next(&MdEvent::HeadingEnd { level: 3 });
    assert_eq!(r, Err(TocError::UnmatchedHeadingEnd));
}

#[test]
fn out_of_range_level_is_structural_error() {
    let events = vec![
        MdEvent::HeadingStart { id: None },
        MdEvent::Text { text: "x".to_string() },
        MdEvent::HeadingEnd { level: 7 },
    ];
    assert_eq!(transform_events(&events), Err(TocError::InvalidHeadingLevel));
}

#[test]
fn text_outside_heading_passes_through() {
    let mut gen = TOCGenerator::new();
    let r = gen.next(&MdEvent::Text { text: "outside".to_string() }).unwrap();
    assert_eq!(r, MdAction::PassThrough);
}
