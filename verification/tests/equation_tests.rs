use cobalt_render::errors::BlockError;
use cobalt_render::equation::EquationBlock;

#[test]
fn equation_tags_are_fixed() {
    let b = EquationBlock::new();
    assert_eq!(b.start_tag(), "equation");
    assert_eq!(b.end_tag(), "endequation");
}

#[test]
fn display_mode_typesets() {
    let b = EquationBlock::new();
    let eq = b.parse(&vec![], "\\omega").expect("typesetter available");
    let html = eq.render_to();
    assert!(html.contains("katex"));
    assert!(html.contains("ω"));
    assert!(html.contains("katex-display"));
}

#[test]
fn display_mode_exact_markup() {
    let b = EquationBlock::new();
    let eq = b.parse(&vec![], "\\omega").unwrap();
    assert_eq!(
        eq.render_to(),
        "<span class=\"katex-display\"><span class=\"katex\"><span class=\"katex-html\" aria-hidden=\"true\"><span class=\"base\"><span class=\"strut\" style=\"height:0.4306em;\"></span><span class=\"mord mathnormal\" style=\"margin-right:0.03588em;\">ω</span></span></span></span></span>"
    );
}

#[test]
fn inline_mode_exact_markup() {
    let b = EquationBlock::new();
    let eq = b.parse(&vec!["inline".to_string()], "\\omega").unwrap();
    assert_eq!(
        eq.render_to(),
        "<span class=\"katex\"><span class=\"katex-html\" aria-hidden=\"true\"><span class=\"base\"><span class=\"strut\" style=\"height:0.4306em;\"></span><span class=\"mord mathnormal\" style=\"margin-right:0.03588em;\">ω</span></span></span></span>"
    );
}

#[test]
fn inline_mode_differs_only_in_wrapper() {
    let b = EquationBlock::new();
    let display = b.parse(&vec![], "\\omega").unwrap();
    let inline = b.parse(&vec!["inline".to_string()], "\\omega").unwrap();
    assert!(!inline.render_to().contains("katex-display"));
    assert_eq!(
        display.render_to(),
        format!("<span class=\"katex-display\">{}</span>", inline.render_to())
    );
}

#[test]
fn unknown_argument_still_means_display_mode() {
    let b = EquationBlock::new();
    let display = b.parse(&vec![], "x^2").unwrap();
    let odd = b.parse(&vec!["blockish".to_string()], "x^2").unwrap();
    assert_eq!(display.render_to(), odd.render_to());
}

#[test]
fn equation_extra_arguments_are_refused() {
    let b = EquationBlock::new();
    let r = b.parse(&vec!["inline".to_string(), "extra".to_string()], "x");
    assert!(matches!(r, Err(BlockError::UnexpectedArgument)));
}

#[test]
fn bad_latex_is_annotated_not_fatal() {
    let b = EquationBlock::new();
    let eq = b.parse(&vec![], "\\undefinedmacro{x}").expect("errors render as annotations");
    assert!(eq.render_to().contains("katex"));
}
