use maziq::catalog::SoftwareId;
use maziq::templates::{eq_ignore_ascii_case, find_template, template_from_file, Template, TemplateError};

fn template(name: &str) -> Template {
    Template { name: name.into(), description: None, software: vec![], path: String::new() }
}

#[test]
fn slug_is_lowercase_with_dashes() {
    assert_eq!(template("Full Stack Dev").slug(), "full-stack-dev");
    assert_eq!(template("hmziq").slug(), "hmziq");
}

#[test]
fn ascii_case_comparison() {
    assert!(eq_ignore_ascii_case("HmZiQ", "hmziq"));
    assert!(!eq_ignore_ascii_case("hmziq", "hmzi"));
    assert!(!eq_ignore_ascii_case("É", "é"));
}

#[test]
fn templates_are_found_by_slug_or_name() {
    let all = vec![template("Web Dev"), template("Mobile"), template("mobile")];
    assert_eq!(find_template(&all, "web-dev"), Some(0));
    assert_eq!(find_template(&all, "WEB DEV"), Some(0));
    assert_eq!(find_template(&all, "MOBILE"), Some(1));
    assert_eq!(find_template(&all, "desktop"), None);
}

#[test]
fn template_keys_must_be_known() {
    let t = template_from_file(
        None,
        "dev".into(),
        Some("tools".into()),
        vec!["rustup".into(), "rust_stable".into()],
        "templates/dev.toml".into(),
    )
    .ok()
    .unwrap();
    assert_eq!(t.name, "dev");
    assert_eq!(t.software, vec![SoftwareId::Rustup, SoftwareId::RustStable]);
    let err = template_from_file(
        Some("Named".into()),
        "dev".into(),
        None,
        vec!["go".into(), "nope".into(), "also_nope".into()],
        "p".into(),
    );
    match err {
        Err(TemplateError::UnknownSoftware { key, template }) => {
            assert_eq!(key, "nope");
            assert_eq!(template, "Named");
        }
        _ => panic!("expected an unknown key"),
    }
}

#[test]
fn template_error_messages() {
    let e = TemplateError::UnknownSoftware { key: "x".into(), template: "t".into() };
    assert_eq!(e.message(), "Template `t` references unknown software id `x`");
    assert_eq!(TemplateError::NotFound("t".into()).message(), "Template `t` was not found");
    let e = TemplateError::Parse { path: "a.toml".into(), message: "bad".into() };
    assert_eq!(e.message(), "Failed to parse a.toml: bad");
    let e = TemplateError::Io { path: "a.toml".into(), message: "gone".into() };
    assert_eq!(e.message(), "Failed to read template file a.toml");
}
