use std::borrow::Cow;

use blossom::error::ErrorKind;
use blossom::package::Info;
use blossom::replace_vars;

fn info(version: &str) -> Info {
    Info {
        name: "pkg".to_string(),
        version: version.to_string(),
        description: "a package".to_string(),
        license: "MIT".to_string(),
    }
}

#[test]
fn text_without_placeholder_is_unchanged() {
    let info = info("1.2.3");
    let text = "https://example.test/pkg.tar.gz";
    let out = replace_vars(text, &info).unwrap();
    assert_eq!(out, text);
    assert!(matches!(out, Cow::Borrowed(_)));
}

#[test]
fn empty_text_is_unchanged() {
    let out = replace_vars("", &info("1.2.3")).unwrap();
    assert_eq!(out, "");
    assert!(matches!(out, Cow::Borrowed(_)));
}

#[test]
fn version_alone_becomes_the_version() {
    let out = replace_vars("%{version}", &info("1.2.3")).unwrap();
    assert_eq!(out, "1.2.3");
    assert!(matches!(out, Cow::Owned(_)));
}

#[test]
fn version_between_texts_keeps_the_texts() {
    let out = replace_vars("pre-%{version}-post", &info("1.2.3")).unwrap();
    assert_eq!(out, "pre-1.2.3-post");
}

#[test]
fn every_occurrence_is_replaced() {
    let out = replace_vars("%{version}/pkg-%{version}.tar.gz%{version}", &info("2.0")).unwrap();
    assert_eq!(out, "2.0/pkg-2.0.tar.gz2.0");
}

#[test]
fn adjacent_placeholders_are_both_replaced() {
    let out = replace_vars("%{version}%{version}", &info("7")).unwrap();
    assert_eq!(out, "77");
}

#[test]
fn empty_version_removes_the_placeholder() {
    let out = replace_vars("a%{version}b", &info("")).unwrap();
    assert_eq!(out, "ab");
    assert!(matches!(out, Cow::Owned(_)));
}

#[test]
fn unknown_placeholder_is_refused() {
    let e = replace_vars("https://example.test/%{name}.tar.gz", &info("1.2.3")).unwrap_err();
    assert_eq!(e.kind, ErrorKind::UnrecognizedPlaceholder);
    assert_eq!(e.subject, "name");
    assert_eq!(e.detail, "");
}

#[test]
fn unknown_placeholder_after_a_known_one_is_refused() {
    let e = replace_vars("%{version}-%{release}", &info("1.2.3")).unwrap_err();
    assert_eq!(e.kind, ErrorKind::UnrecognizedPlaceholder);
    assert_eq!(e.subject, "release");
}

#[test]
fn first_unknown_placeholder_is_the_one_reported() {
    let e = replace_vars("%{a}%{version}%{b}", &info("1")).unwrap_err();
    assert_eq!(e.subject, "a");
}

#[test]
fn empty_placeholder_name_is_refused() {
    let e = replace_vars("x%{}y", &info("1")).unwrap_err();
    assert_eq!(e.kind, ErrorKind::UnrecognizedPlaceholder);
    assert_eq!(e.subject, "");
}

#[test]
fn placeholder_names_are_case_sensitive() {
    let e = replace_vars("%{Version}", &info("1")).unwrap_err();
    assert_eq!(e.subject, "Version");
    let e = replace_vars("%{version_2}", &info("1")).unwrap_err();
    assert_eq!(e.subject, "version_2");
}

#[test]
fn what_is_no_placeholder_is_kept() {
    let info = info("1.2.3");
    for text in [
        "%{version",
        "%version}",
        "{version}",
        "% {version}",
        "%{ver sion}",
        "%{ver-sion}",
        "%{ver.sion}",
        "100%",
        "%",
        "%{",
        "%%",
        "%{é}",
    ] {
        let out = replace_vars(text, &info).unwrap();
        assert_eq!(out, text);
        assert!(matches!(out, Cow::Borrowed(_)));
    }
}

#[test]
fn percent_before_a_placeholder_is_kept() {
    let out = replace_vars("%%{version}", &info("1.2.3")).unwrap();
    assert_eq!(out, "%1.2.3");
}

#[test]
fn broken_placeholder_before_a_real_one() {
    let out = replace_vars("%{ver%{version}", &info("3")).unwrap();
    assert_eq!(out, "%{ver3");
}

#[test]
fn the_value_is_not_scanned_again() {
    let out = replace_vars("a-%{version}-b", &info("%{version}")).unwrap();
    assert_eq!(out, "a-%{version}-b");
    let out = replace_vars("a-%{version}-b", &info("%{name}")).unwrap();
    assert_eq!(out, "a-%{name}-b");
}

#[test]
fn the_value_is_put_in_as_it_is() {
    let out = replace_vars("v%{version}", &info("$1 ${version} \\0")).unwrap();
    assert_eq!(out, "v$1 ${version} \\0");
}

#[test]
fn text_beyond_ascii_is_kept() {
    let out = replace_vars("päckage-%{version}-日本", &info("1.0-β")).unwrap();
    assert_eq!(out, "päckage-1.0-β-日本");
}
