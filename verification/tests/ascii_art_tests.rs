use cobalt_render::ascii_art::AsciiArtBlock;
use cobalt_render::errors::BlockError;

#[test]
fn ascii_art_tags_are_fixed() {
    let b = AsciiArtBlock::new("out".to_string());
    assert_eq!(b.start_tag(), "ascii_art");
    assert_eq!(b.end_tag(), "endascii_art");
}

#[test]
fn leading_slash_stripped_for_path_kept_in_markup() {
    let b = AsciiArtBlock::new("base_dir".to_string());
    let (node, effect) = b
        .parse(&vec!["/diagram.svg".to_string()], "----->")
        .expect("one argument is accepted");
    assert_eq!(effect.path, "base_dir/diagram.svg");
    assert_eq!(
        node.render_to(),
        "<div class='ascii_art'><img src=/diagram.svg/></div>"
    );
    assert!(node.render_to().contains("src=/diagram.svg"));
}

#[test]
fn relative_argument_resolves_under_base() {
    let b = AsciiArtBlock::new("out".to_string());
    let (node, effect) = b.parse(&vec!["img.svg".to_string()], "----->").unwrap();
    assert_eq!(effect.path, "out/img.svg");
    assert_eq!(node.render_to(), "<div class='ascii_art'><img src=img.svg/></div>");
}

#[test]
fn diagram_is_rendered_to_svg() {
    let b = AsciiArtBlock::new("out".to_string());
    let (_node, effect) = b.parse(&vec!["a.svg".to_string()], "+----+\n|    |\n+----+").unwrap();
    assert!(effect.contents.contains("<svg"));
    assert!(effect.contents.contains("</svg>"));
}

#[test]
fn missing_argument_is_refused() {
    let b = AsciiArtBlock::new("out".to_string());
    let r = b.parse(&vec![], "----->");
    assert!(matches!(r, Err(BlockError::MissingArgument)));
}

#[test]
fn ascii_art_extra_arguments_are_refused() {
    let b = AsciiArtBlock::new("out".to_string());
    let r = b.parse(&vec!["a.svg".to_string(), "b.svg".to_string()], "----->");
    assert!(matches!(r, Err(BlockError::UnexpectedArgument)));
}

#[test]
fn empty_base_uses_stripped_argument_alone() {
    let b = AsciiArtBlock::new(String::new());
    let (_node, effect) = b.parse(&vec!["/x.svg".to_string()], "-").unwrap();
    assert_eq!(effect.path, "x.svg");
}
