use k_releaser::template::{release_name, render_template, tag_name, TemplateError};
use k_releaser::version::Version;

#[test]
fn templates_render_known_variables() {
    assert_eq!(render_template("{{ package }}-v{{version}}", "p", "1.0.0").unwrap(), "p-v1.0.0");
    assert_eq!(render_template("plain", "p", "1").unwrap(), "plain");
    assert!(matches!(render_template("{{ nope }}", "p", "1"), Err(TemplateError::UnknownVariable(ref n)) if n == "nope"));
    assert!(matches!(render_template("v{{ version", "p", "1"), Err(TemplateError::Unclosed)));
}

#[test]
fn tag_and_release_names_have_defaults() {
    let v = Version::new(1, 2, 3);
    assert_eq!(tag_name(None, "p", &v, false).unwrap(), "p-v1.2.3");
    assert_eq!(tag_name(None, "p", &v, true).unwrap(), "v1.2.3");
    assert_eq!(tag_name(Some("rel-{{ version }}"), "p", &v, false).unwrap(), "rel-1.2.3");
    assert_eq!(release_name(None, "p", &v, true).unwrap(), "Version 1.2.3");
    assert_eq!(release_name(Some("{{ package }} {{ version }}"), "p", &v, true).unwrap(), "workspace 1.2.3");
    assert!(release_name(Some("{{ date }}"), "p", &v, false).is_err());
}
