use labcolors_core::rust_source::strip_comments;

fn normalized_production_code(source: &str) -> String {
    strip_comments(source)
        .lines()
        .filter(|line| !line.trim().is_empty())
        .collect::<Vec<_>>()
        .join("\n")
        .to_ascii_lowercase()
}

#[test]
fn rust_comment_stripping_ignores_prose_without_erasing_live_identifiers() {
    let source = [
        "//! writer in documentation\n",
        "/* quality_auto in a nested /* checkpoint */ comment */\n",
        "const URL: &str = \"https://example.test/path\";\n",
        "fn checkpoint_writer() {}\n",
    ]
    .concat();
    let source = source.as_str();
    let code = normalized_production_code(source);

    assert_eq!(code.matches("writer").count(), 1);
    assert_eq!(code.matches("checkpoint").count(), 1);
    assert!(!code.contains("quality_auto"));
    assert!(code.contains("https://example.test/path"));
}

#[test]
fn rust_comment_stripping_preserves_live_identifiers_after_literal_comment_tokens() {
    for source in [
        r##"fn probe() { let _ = (r#""//"#, |writer: ()| writer); }"##,
        r##"fn probe() { let _ = (br#""//"#, |writer: ()| writer); }"##,
        r#"fn probe() { let _ = ('"', "//", |writer: ()| writer); }"#,
    ] {
        let code = normalized_production_code(source);
        assert_eq!(
            code.matches("writer").count(),
            2,
            "literal content must not hide live identifiers: {source}",
        );
    }
}

#[test]
fn stripping_keeps_line_breaks_and_separates_tokens() {
    assert_eq!(strip_comments("a/* x */b // c\nd"), "a b \nd");
    assert_eq!(strip_comments("/* one\ntwo */x"), " \nx");
    assert_eq!(strip_comments("let s = \"a\\\"//b\";"), "let s = \"a\\\"//b\";");
    assert_eq!(strip_comments("'\\'' // q"), "'\\'' ");
    assert_eq!(strip_comments("fn f<'a>(x: &'a u8) {} // end"), "fn f<'a>(x: &'a u8) {} ");
}

#[test]
fn stripping_keeps_every_line_break_and_slash_free_text() {
    for source in [
        "a // x\n/* y\nz */ b\n\"//\n\"\n",
        "/* /* nested\n */\n still */ c",
        "r#\"\n//\"# d\n// e",
    ] {
        assert_eq!(
            strip_comments(source).matches('\n').count(),
            source.matches('\n').count(),
            "{source}"
        );
    }
    let plain = "fn main() {\n    let s = \"a*b\"; let c = '\\''; let r = r#\"x\"#;\n}\n";
    assert_eq!(strip_comments(plain), plain);
}
