use gencomp::case::to_camel_case;
use gencomp::domain::{ComponentContext, GeneratedFile, TargetLocation, TemplateKind};
use std::path::PathBuf;

#[test]
fn template_kind_filename_pattern() {
    assert_eq!(TemplateKind::Component.filename_pattern(), "{{component_name}}.tsx");
    assert_eq!(TemplateKind::Mocks.filename_pattern(), "{{component_name}}.mocks.ts");
    assert_eq!(TemplateKind::Story.filename_pattern(), "{{component_name}}.stories.tsx");
}

#[test]
fn template_kind_source_key() {
    assert_eq!(TemplateKind::Component.source_key(), "component");
    assert_eq!(TemplateKind::Mocks.source_key(), "mocks");
    assert_eq!(TemplateKind::Story.source_key(), "story");
}

#[test]
fn template_kind_all() {
    let all = TemplateKind::all();
    assert_eq!(all.len(), 3);
    assert!(all.contains(&TemplateKind::Component));
    assert!(all.contains(&TemplateKind::Mocks));
    assert!(all.contains(&TemplateKind::Story));
    assert_eq!(all[0], TemplateKind::Component);
    assert_eq!(all[1], TemplateKind::Mocks);
    assert_eq!(all[2], TemplateKind::Story);
}

#[test]
fn to_camel_case_works() {
    assert_eq!(to_camel_case(""), "");
    assert_eq!(to_camel_case("U"), "u");
    assert_eq!(to_camel_case("UserCard"), "userCard");
    assert_eq!(to_camel_case("HTTPRequest"), "hTTPRequest");
    assert_eq!(to_camel_case("userCard"), "userCard");
    assert_eq!(to_camel_case("ABC"), "aBC");
}

#[test]
fn component_context_new() {
    let ctx = ComponentContext::new("UserCard".to_string());
    assert_eq!(ctx.component_name, "UserCard");
    assert_eq!(ctx.component_name_camel, "userCard");

    let ctx_empty = ComponentContext::new("".to_string());
    assert_eq!(ctx_empty.component_name, "");
    assert_eq!(ctx_empty.component_name_camel, "");

    let ctx_single = ComponentContext::new("X".to_string());
    assert_eq!(ctx_single.component_name, "X");
    assert_eq!(ctx_single.component_name_camel, "x");
}

#[test]
fn component_context_non_ascii_first_letter() {
    let ctx = ComponentContext::new("Éclair".to_string());
    assert_eq!(ctx.component_name_camel, "éclair");
    // U+0130 lowercases to two characters.
    let ctx = ComponentContext::new("\u{130}x".to_string());
    assert_eq!(ctx.component_name_camel, "i\u{307}x");
}

#[test]
fn target_location_full_path() {
    let loc = TargetLocation {
        base_path: "/project/components".to_string(),
        component_type_dir: "ui".to_string(),
        component_dir: "button".to_string(),
    };
    assert_eq!(PathBuf::from(loc.full_path()), PathBuf::from("/project/components/button"));

    let loc_relative = TargetLocation {
        base_path: "./src".to_string(),
        component_type_dir: "ui".to_string(),
        component_dir: "card".to_string(),
    };
    assert_eq!(PathBuf::from(loc_relative.full_path()), PathBuf::from("./src/card"));
}

#[test]
fn full_path_ignores_component_type_dir() {
    let a = TargetLocation {
        base_path: "/base".to_string(),
        component_type_dir: "ui".to_string(),
        component_dir: "card".to_string(),
    };
    let b = TargetLocation {
        base_path: "/base".to_string(),
        component_type_dir: "layout".to_string(),
        component_dir: "card".to_string(),
    };
    assert_eq!(a.full_path(), b.full_path());
    assert_eq!(a.full_path(), "/base/card");
}

#[test]
fn generated_file_holds_data() {
    let file = GeneratedFile {
        kind: TemplateKind::Component,
        content: "some content".to_string(),
        filename: "Button.tsx".to_string(),
    };
    assert_eq!(file.kind, TemplateKind::Component);
    assert_eq!(file.content, "some content");
    assert_eq!(file.filename, "Button.tsx");
}

#[test]
fn patterns_and_keys_are_distinct() {
    let all = TemplateKind::all();
    for i in 0..3 {
        assert!(all[i].filename_pattern().starts_with("{{component_name}}"));
        for j in 0..3 {
            if i != j {
                assert_ne!(all[i].filename_pattern(), all[j].filename_pattern());
                assert_ne!(all[i].source_key(), all[j].source_key());
            }
        }
    }
}
