use cobalt_render::errors::ResourceError;
use cobalt_render::partials::{normalize_key, PartialSource};
use cobalt_render::template::{LiquidBuilder, ThemeDecision, ThemeLookup};

#[test]
fn present_theme_proceeds() {
    let theme = "InspiredGitHub".to_string();
    let r = LiquidBuilder::highlight(&theme, &ThemeLookup::Present);
    assert_eq!(r, Ok(ThemeDecision::Proceed));
}

#[test]
fn absent_theme_fails_naming_it() {
    let theme = "no-such-theme".to_string();
    let r = LiquidBuilder::highlight(&theme, &ThemeLookup::Absent);
    assert_eq!(
        r,
        Err(ResourceError::UnsupportedTheme { theme: "no-such-theme".to_string() })
    );
}

#[test]
fn unavailable_registry_downgrades_to_warning() {
    let theme = "whatever".to_string();
    let r = LiquidBuilder::highlight(&theme, &ThemeLookup::Unavailable);
    assert_eq!(r, Ok(ThemeDecision::ProceedWithWarning));
}

#[test]
fn builder_carries_configuration() {
    let b = LiquidBuilder { includes_path: "_includes".to_string(), theme: "t".to_string() };
    assert_eq!(b.includes_path, "_includes");
    assert_eq!(b.theme, "t");
}

#[test]
fn partials_store_and_lookup() {
    let mut p = PartialSource::new();
    p.add("header.liquid".to_string(), "<header/>".to_string());
    p.add("footer.liquid".to_string(), "<footer/>".to_string());
    assert_eq!(p.count(), 2);
    let key = "header.liquid".to_string();
    assert_eq!(p.get(&key).map(|s| s.as_str()), Some("<header/>"));
    let missing = "nope".to_string();
    assert!(p.get(&missing).is_none());
}

#[test]
fn partials_last_write_wins() {
    let mut p = PartialSource::new();
    p.add("a.liquid".to_string(), "first".to_string());
    p.add("a.liquid".to_string(), "second".to_string());
    let key = "a.liquid".to_string();
    assert_eq!(p.get(&key).map(|s| s.as_str()), Some("second"));
}

#[test]
fn keys_use_forward_slashes() {
    assert_eq!(normalize_key("sub\\dir\\file.liquid"), "sub/dir/file.liquid");
    assert_eq!(normalize_key("already/fine.liquid"), "already/fine.liquid");
}
