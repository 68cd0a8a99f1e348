use memora::domain::models::{ClipMetadata, ClipboardEntry, ContentType};

fn all_types() -> Vec<ContentType> {
    vec![
        ContentType::Text,
        ContentType::Url,
        ContentType::Email,
        ContentType::Json,
        ContentType::PhoneNumber,
        ContentType::Color,
        ContentType::Code { language: None },
        ContentType::Code { language: Some("rust".to_string()) },
        ContentType::Code { language: Some("".to_string()) },
        ContentType::Code { language: Some("a:b".to_string()) },
        ContentType::FilePath,
        ContentType::Command,
        ContentType::Other,
    ]
}

#[test]
fn content_type_persisted_forms() {
    assert_eq!(ContentType::Text.as_str(), "text");
    assert_eq!(ContentType::Url.as_str(), "url");
    assert_eq!(ContentType::Email.as_str(), "email");
    assert_eq!(ContentType::Json.as_str(), "json");
    assert_eq!(ContentType::PhoneNumber.as_str(), "phone");
    assert_eq!(ContentType::Color.as_str(), "color");
    assert_eq!(ContentType::FilePath.as_str(), "file_path");
    assert_eq!(ContentType::Command.as_str(), "command");
    assert_eq!(ContentType::Other.as_str(), "other");
    assert_eq!(ContentType::Code { language: None }.as_str(), "code");
    assert_eq!(ContentType::Code { language: Some("rust".into()) }.as_str(), "code:rust");
}

#[test]
fn content_type_parse_reads_as_str_back() {
    for ct in all_types() {
        assert_eq!(ContentType::parse(&ct.as_str()), ct);
    }
}

#[test]
fn content_type_parse_edge_cases() {
    // Code without a language is written "code" and read back as such.
    assert_eq!(ContentType::parse("code"), ContentType::Code { language: None });
    assert_eq!(ContentType::parse("code:sql"), ContentType::Code { language: Some("sql".into()) });
    assert_eq!(ContentType::parse("code:a:b"), ContentType::Code { language: Some("a:b".into()) });
    assert_eq!(ContentType::parse("foo:bar"), ContentType::Other);
    assert_eq!(ContentType::parse("Text"), ContentType::Other);
    assert_eq!(ContentType::parse(""), ContentType::Other);
    assert_eq!(ContentType::parse("phone"), ContentType::PhoneNumber);
}

#[test]
fn metadata_fields_read_back() {
    let m = ClipMetadata::new();
    assert!(m.get("language").is_none());
    let m = m
        .with_field("language", serde_json::Value::from("sql"))
        .with_field("lines", serde_json::Value::from(3));
    assert_eq!(m.get("language"), Some(&serde_json::Value::from("sql")));
    assert_eq!(m.get("lines"), Some(&serde_json::Value::from(3)));
    let m = m.with_field("language", serde_json::Value::from("rust"));
    assert_eq!(m.get("language"), Some(&serde_json::Value::from("rust")));
    assert_eq!(m.to_json().unwrap(), r#"{"language":"rust","lines":3}"#);
    assert_eq!(ClipMetadata::new().to_json().unwrap(), "{}");
}

#[test]
fn metadata_from_stored_json() {
    let m = ClipMetadata::from_json_or_empty(r#"{"domain":"example.com"}"#);
    assert_eq!(m.get("domain"), Some(&serde_json::Value::from("example.com")));
    let bad = ClipMetadata::from_json_or_empty("not json");
    assert_eq!(bad, ClipMetadata::new());
    let array = ClipMetadata::from_json_or_empty("[1, 2]");
    assert_eq!(array, ClipMetadata::new());
}

#[test]
fn record_copy_counts_and_refreshes() {
    let mut e = ClipboardEntry::default();
    e.content = "docker compose up".into();
    e.created_at = "t0".into();
    let before = e.clone();
    e.record_copy("t1");
    assert_eq!(e.copy_count, 2);
    assert_eq!(e.last_copied_at, "t1");
    assert_eq!(e.updated_at, "t1");
    assert_eq!(e.created_at, "t0");
    assert_eq!(e.id, before.id);
    assert_eq!(e.content, before.content);
}

#[test]
fn move_to_workspace_sets_workspace_and_updated_at() {
    let mut e = ClipboardEntry::default();
    e.move_to_workspace(Some(42), "t2");
    assert_eq!(e.workspace_id, Some(42));
    assert_eq!(e.updated_at, "t2");
    assert_eq!(e.copy_count, 1);
    e.move_to_workspace(None, "t3");
    assert_eq!(e.workspace_id, None);
}

#[test]
fn default_entry() {
    let e = ClipboardEntry::default();
    assert_eq!(e.copy_count, 1);
    assert_eq!(e.content_type, ContentType::Other);
    assert!(e.content.is_empty());
    assert!(!e.favorite && !e.pinned && !e.is_secret && !e.is_image);
    assert_eq!(uuid::Uuid::from_u128(e.id).get_version_num(), 7);
    assert_ne!(ClipboardEntry::default().id, e.id);
}

#[test]
fn metadata_clone_keeps_fields() {
    let m = ClipMetadata::new().with_field("app", serde_json::Value::from("terminal"));
    let c = m.clone();
    assert_eq!(c, m);
    assert_eq!(c.get("app"), Some(&serde_json::Value::from("terminal")));
}
