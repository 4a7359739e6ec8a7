use susi::config::{parse_devcontainer, ConfigError};
use susi::locate::{identify_devcontainer, Workspace};
use susi::strip::strip_comments;

const SIMPLE: &str =
    "{\n    \"name\": \"Rust\",\n    \"image\": \"mcr.microsoft.com/devcontainers/rust:1-bullseye\"\n}\n";

const ALPINE: &str =
    "{\n    \"name\": \"Alpine Custom\",\n    \"image\": \"mcr.microsoft.com/devcontainers/base:alpine\"\n}\n";

#[test]
fn parse_simple_devcontainer() {
    let result = parse_devcontainer(SIMPLE).unwrap();
    assert_eq!(result.name, "Rust");
    assert_eq!(result.image, "mcr.microsoft.com/devcontainers/rust:1-bullseye");
}

#[test]
fn parse_devcontainer_with_comment() {
    let text = "// this line is a comment\n{\n    \"name\": \"Rust\", // trailing note\n    \"image\": \"img\"\n}\n";
    let result = parse_devcontainer(text).unwrap();
    assert_eq!(result.name, "Rust");
    assert_eq!(result.image, "img");
}

#[test]
fn identify_devcontainer_simple() {
    let workspace = Workspace {
        primary: Some(SIMPLE.to_string()),
        root_file: None,
        nested: None,
    };
    let result_identify = identify_devcontainer(&workspace).unwrap();
    let result_baseline = parse_devcontainer(SIMPLE).unwrap();
    assert_eq!(result_identify.name, result_baseline.name);
    assert_eq!(result_identify.image, result_baseline.image);
}

#[test]
fn identify_devcontainer_complex_one() {
    let workspace = Workspace {
        primary: None,
        root_file: Some(ALPINE.to_string()),
        nested: None,
    };
    let result_identify = identify_devcontainer(&workspace).unwrap();
    let result_baseline = parse_devcontainer(ALPINE).unwrap();
    assert_eq!(result_identify.name, result_baseline.name);
    assert_eq!(result_identify.image, result_baseline.image);
}

#[test]
fn identify_devcontainer_complex_two() {
    let workspace = Workspace {
        primary: None,
        root_file: None,
        nested: Some(vec![Some(SIMPLE.to_string())]),
    };
    let result_identify = identify_devcontainer(&workspace).unwrap();
    let result_baseline = parse_devcontainer(SIMPLE).unwrap();
    assert_eq!(result_identify.name, result_baseline.name);
    assert_eq!(result_identify.image, result_baseline.image);
}

#[test]
fn identify_devcontainer_empty() {
    let workspace = Workspace { primary: None, root_file: None, nested: None };
    let result_identify = identify_devcontainer(&workspace).unwrap();
    assert_eq!(result_identify.name, "Alpine");
    assert_eq!(result_identify.image, "mcr.microsoft.com/devcontainers/base:alpine-3.16");
}

#[test]
fn identify_devcontainer_empty_dot_directory() {
    let workspace = Workspace {
        primary: None,
        root_file: None,
        nested: Some(vec![]),
    };
    let result_identify = identify_devcontainer(&workspace).unwrap();
    assert_eq!(result_identify.name, "Alpine");
    assert_eq!(result_identify.image, "mcr.microsoft.com/devcontainers/base:alpine-3.16");
}

#[test]
fn identify_devcontainer_subdirs_without_file() {
    let workspace = Workspace {
        primary: None,
        root_file: None,
        nested: Some(vec![None, None]),
    };
    let result_identify = identify_devcontainer(&workspace).unwrap();
    assert_eq!(result_identify.name, "Alpine");
    assert_eq!(result_identify.image, "mcr.microsoft.com/devcontainers/base:alpine-3.16");
}

#[test]
fn identify_devcontainer_idempotent() {
    let workspace = Workspace {
        primary: Some(SIMPLE.to_string()),
        root_file: Some(ALPINE.to_string()),
        nested: Some(vec![None, Some(ALPINE.to_string())]),
    };
    let first = identify_devcontainer(&workspace).unwrap();
    let second = identify_devcontainer(&workspace).unwrap();
    assert_eq!(first.name, second.name);
    assert_eq!(first.image, second.image);
}

#[test]
fn identify_devcontainer_priority() {
    let workspace = Workspace {
        primary: Some(SIMPLE.to_string()),
        root_file: Some(ALPINE.to_string()),
        nested: None,
    };
    let result = identify_devcontainer(&workspace).unwrap();
    assert_eq!(result.name, "Rust");
    assert_eq!(result.image, "mcr.microsoft.com/devcontainers/rust:1-bullseye");
}

#[test]
fn identify_devcontainer_first_nested_wins() {
    let workspace = Workspace {
        primary: None,
        root_file: None,
        nested: Some(vec![None, Some(ALPINE.to_string()), Some(SIMPLE.to_string())]),
    };
    let result = identify_devcontainer(&workspace).unwrap();
    assert_eq!(result.name, "Alpine Custom");
    assert_eq!(result.image, "mcr.microsoft.com/devcontainers/base:alpine");
}

#[test]
fn parse_invalid_json_is_parse_error() {
    let err = parse_devcontainer("{ not json").unwrap_err();
    assert_eq!(err, ConfigError::ParseError);
}

#[test]
fn parse_missing_image_is_missing_field() {
    let err = parse_devcontainer("{ \"name\": \"Rust\" }").unwrap_err();
    assert_eq!(err, ConfigError::MissingField);
}

#[test]
fn parse_missing_name_is_missing_field() {
    let err = parse_devcontainer("{ \"image\": \"img\" }").unwrap_err();
    assert_eq!(err, ConfigError::MissingField);
}

#[test]
fn parse_non_string_field_is_missing_field() {
    let err = parse_devcontainer("{ \"name\": 3, \"image\": \"img\" }").unwrap_err();
    assert_eq!(err, ConfigError::MissingField);
}

#[test]
fn parse_non_object_is_missing_field() {
    let err = parse_devcontainer("[1, 2, 3]").unwrap_err();
    assert_eq!(err, ConfigError::MissingField);
}

#[test]
fn identify_devcontainer_surfaces_parse_error() {
    // A malformed chosen candidate is a terminal error; the locator must not
    // fall through to the valid lower-priority candidate.
    let workspace = Workspace {
        primary: Some("{ broken".to_string()),
        root_file: Some(ALPINE.to_string()),
        nested: None,
    };
    let err = identify_devcontainer(&workspace).unwrap_err();
    assert_eq!(err, ConfigError::ParseError);
}

#[test]
fn strip_comments_removes_comment_lines() {
    assert_eq!(strip_comments("// note\n{\n}\n"), "{\n}\n");
    assert_eq!(strip_comments("a // tail\nb\n"), "a b\n");
}

#[test]
fn strip_comments_keeps_comment_free_text() {
    assert_eq!(strip_comments("{ \"name\": \"x\" }\n"), "{ \"name\": \"x\" }\n");
    assert_eq!(strip_comments(""), "");
}

#[test]
fn strip_comments_keeps_unterminated_comment() {
    // A trailing comment with no newline after it is not removed.
    assert_eq!(strip_comments("a // tail"), "a // tail");
}

#[test]
fn strip_comments_is_blind_to_string_literals() {
    // The removal is purely textual: a `//` inside a quoted value opens a
    // comment too.
    assert_eq!(strip_comments("\"http://x\"\ny"), "\"http:y");
}
