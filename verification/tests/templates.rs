use gencomp::domain::TemplateKind;
use gencomp::templates::{template_filename, TemplateError, TemplateStore};
use std::io;

#[test]
fn template_filenames() {
    assert_eq!(template_filename(TemplateKind::Component), "component.hbs");
    assert_eq!(template_filename(TemplateKind::Mocks), "mocks.hbs");
    assert_eq!(template_filename(TemplateKind::Story), "story.hbs");
}

#[test]
fn local_template_path_under_project_root() {
    let store = TemplateStore::new("/proj".to_string());
    assert_eq!(
        store.local_template_path(TemplateKind::Story),
        "/proj/.gencomp/templates/story.hbs"
    );
    let store = TemplateStore::new("/proj/".to_string());
    assert_eq!(
        store.local_template_path(TemplateKind::Mocks),
        "/proj/.gencomp/templates/mocks.hbs"
    );
}

#[test]
fn local_override_wins() {
    let store = TemplateStore::new("/proj".to_string());
    let got = store
        .load(
            TemplateKind::Component,
            Some(Ok("local {{component_name}}".to_string())),
            Some(b"embedded".to_vec()),
        )
        .unwrap();
    assert_eq!(got, "local {{component_name}}");
}

#[test]
fn unreadable_local_template_is_a_read_error() {
    let store = TemplateStore::new("/proj".to_string());
    let err = store
        .load(
            TemplateKind::Mocks,
            Some(Err(io::Error::new(io::ErrorKind::PermissionDenied, "denied"))),
            Some(b"embedded".to_vec()),
        )
        .unwrap_err();
    match err {
        TemplateError::Read(path, cause) => {
            assert_eq!(path, "/proj/.gencomp/templates/mocks.hbs");
            assert_eq!(cause.kind(), io::ErrorKind::PermissionDenied);
        }
        other => panic!("expected Read, got {:?}", other),
    }
}

#[test]
fn embedded_template_used_without_override() {
    let store = TemplateStore::new("/proj".to_string());
    let got = store
        .load(TemplateKind::Story, None, Some("story \u{e9}".as_bytes().to_vec()))
        .unwrap();
    assert_eq!(got, "story \u{e9}");
}

#[test]
fn invalid_utf8_is_replaced() {
    let store = TemplateStore::new("/proj".to_string());
    let got = store
        .load(TemplateKind::Story, None, Some(vec![b'a', 0xff, b'b']))
        .unwrap();
    assert_eq!(got, "a\u{fffd}b");
}

#[test]
fn missing_template_is_not_found() {
    let store = TemplateStore::new("/proj".to_string());
    let err = store.load(TemplateKind::Component, None, None).unwrap_err();
    assert!(matches!(err, TemplateError::NotFound(TemplateKind::Component)));
}
