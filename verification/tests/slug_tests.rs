use cobalt_render::slug::generate_id;

#[test]
fn slug_basic() {
    assert_eq!(generate_id("Hello World"), "hello-world");
}

#[test]
fn slug_lowercases_ascii() {
    assert_eq!(generate_id("MiXeD CaSe 123"), "mixed-case-123");
}

#[test]
fn slug_collapses_hyphen_runs() {
    assert_eq!(generate_id("a -- b ?! c"), "a-b-c");
}

#[test]
fn slug_trims_ends() {
    assert_eq!(generate_id("--a--b--"), "a-b");
    assert_eq!(generate_id("!leading and trailing!"), "leading-and-trailing");
}

#[test]
fn slug_empty_and_all_punctuation() {
    assert_eq!(generate_id(""), "");
    assert_eq!(generate_id("!!!"), "");
    assert_eq!(generate_id("-"), "");
}

#[test]
fn slug_non_ascii_becomes_hyphen() {
    assert_eq!(generate_id("éclair"), "clair");
    assert_eq!(generate_id("naïve plan"), "na-ve-plan");
}

#[test]
fn slug_idempotent_on_samples() {
    let samples = [
        "Hello World",
        "--a--b--",
        "",
        "!!!",
        "MiXeD CaSe 123",
        "naïve plan",
        "a -- b ?! c",
    ];
    for s in samples {
        let once = generate_id(s);
        let twice = generate_id(&once);
        assert_eq!(twice, once);
    }
}

#[test]
fn slug_output_charset() {
    let samples = ["Hello World", "--a--b--", "x!y@z#1$2%3", "ÄÖÜ", "tab\tand\nnewline"];
    for s in samples {
        let id = generate_id(s);
        assert!(!id.starts_with('-'));
        assert!(!id.ends_with('-'));
        assert!(!id.contains("--"));
        for c in id.chars() {
            assert!(c == '-' || c.is_ascii_lowercase() || c.is_ascii_digit());
        }
    }
}
