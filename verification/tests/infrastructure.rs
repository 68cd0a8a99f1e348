use memora::domain::models::ContentType;
use memora::domain::repositories::ListQuery;
use memora::infrastructure::storage::repositories::{
    flag_statements, insert_statement, list_statement, SqlValue, CLIP_COLUMNS, INSERT_CLIP,
    SET_FAVORITE, SET_PINNED,
};
use memora::domain::models::ClipboardEntry;
use memora::infrastructure::commands::{
    command_id, AppInfo, DeleteWorkspaceParams, APP_NAME, APP_VERSION, HealthInfo, ListClipsParams, RenameWorkspaceParams,
    SearchParams, INVALID_ID_MESSAGE,
};
use memora::infrastructure::events::{CLIP_BOARD_CHANGED, SECRET_DETECTED};
use memora::infrastructure::search::fts::search_term;
use memora::infrastructure::storage::db::{default_database_path, CountRow};
use memora::infrastructure::storage::repositories::{row_to_workspace, ClipRow};

const ID_TEXT: &str = "550e8400-e29b-41d4-a716-446655440000";
const ID_VALUE: u128 = 0x550e8400_e29b_41d4_a716_446655440000;

#[test]
fn search_term_trims_and_drops_blank_queries() {
    assert_eq!(search_term("  docker "), Some("docker"));
    assert_eq!(search_term("   "), None);
    assert_eq!(search_term(""), None);
}

#[test]
fn empty_query_returns_nothing() {
    assert!(search_term("   ").is_none());
}

#[test]
fn search_limit_defaults_to_fifty() {
    let p = SearchParams { query: "sql".into(), limit: None };
    assert_eq!(p.effective_limit(), 50);
    let p = SearchParams { query: "sql".into(), limit: Some(7) };
    assert_eq!(p.effective_limit(), 7);
}

#[test]
fn list_params_become_a_query() {
    let p = ListClipsParams {
        workspace_id: Some(ID_TEXT.into()),
        content_type: Some("url".into()),
        favorite_only: true,
        pinned_only: false,
        limit: 20,
        offset: 40,
    };
    let q = p.into_query();
    assert_eq!(q.workspace_id, Some(ID_VALUE));
    assert_eq!(q.content_type.as_deref(), Some("url"));
    assert!(q.favorite_only && !q.pinned_only);
    assert!(q.search.is_none());
    assert_eq!((q.limit, q.offset), (20, 40));
    let bad = ListClipsParams {
        workspace_id: Some("nope".into()),
        content_type: None,
        favorite_only: false,
        pinned_only: true,
        limit: 1,
        offset: 0,
    };
    assert_eq!(bad.into_query().workspace_id, None);
}

#[test]
fn command_ids_parse_or_fail_with_message() {
    assert_eq!(command_id(ID_TEXT), Ok(ID_VALUE));
    assert_eq!(command_id("zzz"), Err("id inválido".to_string()));
    assert_eq!(INVALID_ID_MESSAGE, "id inválido");
    let r = RenameWorkspaceParams { id: ID_TEXT.into(), name: "x".into() };
    assert_eq!(r.workspace_id(), Ok(ID_VALUE));
    let d = DeleteWorkspaceParams { id: "".into() };
    assert!(d.workspace_id().is_err());
}

#[test]
fn health_report() {
    let app = AppInfo { name: "memora".into(), version: "0.1.0".into() };
    let h = HealthInfo::new(app, 12, 3);
    assert!(h.database_healthy);
    assert_eq!((h.clip_count, h.workspace_count), (12, 3));
    assert_eq!(h.app.name, "memora");
}

#[test]
fn database_path_is_inside_the_data_dir() {
    let p = default_database_path(std::path::Path::new("/data/app"));
    assert_eq!(p, std::path::PathBuf::from("/data/app/memora.db"));
    let c = CountRow { count: 2 };
    assert_eq!(c.count, 2);
}

#[test]
fn event_names() {
    assert_eq!(CLIP_BOARD_CHANGED, "clipboard-changed");
    assert_eq!(SECRET_DETECTED, "secret-detected");
}

#[test]
fn workspace_rows() {
    let row = (ID_TEXT.to_string(), "Dev".to_string(), Some("d".to_string()), None, "t".to_string(), 1i64);
    let w = row_to_workspace(&row);
    assert_eq!(w.id, ID_VALUE);
    assert_eq!(w.name, "Dev");
    assert_eq!(w.description.as_deref(), Some("d"));
    assert!(w.icon.is_none());
    assert!(w.is_default);
    let row = ("bad".to_string(), "X".to_string(), None, Some("i".to_string()), "t".to_string(), 0i64);
    let w = row_to_workspace(&row);
    assert_eq!(w.id, 0);
    assert!(!w.is_default);
}

#[test]
fn clip_rows() {
    let row = ClipRow {
        id: ID_TEXT.into(),
        content: "SELECT * FROM users;".into(),
        content_type: "code:sql".into(),
        metadata: r#"{"language":"sql"}"#.into(),
        content_hash: "h".into(),
        copy_count: 2,
        favorite: 1,
        pinned: 0,
        created_at: "a".into(),
        updated_at: "b".into(),
        last_copied_at: "c".into(),
        workspace_id: Some("not-a-uuid".into()),
    };
    let e = ClipboardEntry::from_row(row);
    assert_eq!(e.id, ID_VALUE);
    assert_eq!(e.content_type, ContentType::Code { language: Some("sql".into()) });
    assert_eq!(e.metadata.get("language"), Some(&serde_json::Value::from("sql")));
    assert!(e.favorite && !e.pinned && !e.is_image && !e.is_secret);
    assert_eq!(e.copy_count, 2);
    assert_eq!((e.created_at.as_str(), e.updated_at.as_str(), e.last_copied_at.as_str()), ("a", "b", "c"));
    assert_eq!(e.workspace_id, None);
    let row = ClipRow {
        id: "x".into(),
        content: "".into(),
        content_type: "weird".into(),
        metadata: "oops".into(),
        content_hash: "".into(),
        copy_count: 1,
        favorite: 0,
        pinned: 5,
        created_at: "".into(),
        updated_at: "".into(),
        last_copied_at: "".into(),
        workspace_id: Some(ID_TEXT.into()),
    };
    let e = ClipboardEntry::from_row(row);
    assert_eq!(e.id, 0);
    assert_eq!(e.content_type, ContentType::Other);
    assert!(e.metadata.get("language").is_none());
    assert!(e.pinned);
    assert_eq!(e.workspace_id, Some(ID_VALUE));
}

#[test]
fn list_statement_filters_what_the_query_sets() {
    let s = list_statement(&ListQuery::default());
    assert_eq!(
        s.sql,
        format!("{CLIP_COLUMNS} WHERE 1=1 ORDER BY last_copied_at DESC LIMIT ? OFFSET ?")
    );
    assert_eq!(s.binds, vec![SqlValue::Integer(50), SqlValue::Integer(0)]);

    let q = ListQuery {
        workspace_id: Some(9),
        content_type: Some("url".into()),
        favorite_only: true,
        pinned_only: true,
        search: None,
        limit: 5,
        offset: 10,
    };
    let s = list_statement(&q);
    assert_eq!(
        s.sql,
        format!(
            "{CLIP_COLUMNS} WHERE 1=1 AND workspace_id = ? AND content_type = ? AND favorite = 1 \
             AND pinned = 1 ORDER BY last_copied_at DESC LIMIT ? OFFSET ?"
        )
    );
    assert_eq!(
        s.binds,
        vec![
            SqlValue::Text("00000000-0000-0000-0000-000000000009".into()),
            SqlValue::Text("url".into()),
            SqlValue::Integer(5),
            SqlValue::Integer(10)
        ]
    );
    assert_eq!(s.sql.matches('?').count(), s.binds.len());
}

#[test]
fn insert_statement_binds_every_column() {
    let mut e = ClipboardEntry::default();
    e.id = ID_VALUE;
    e.content = "docker compose up".into();
    e.content_type = ContentType::Command;
    e.content_hash = "h".into();
    e.favorite = true;
    e.created_at = "a".into();
    e.updated_at = "b".into();
    e.last_copied_at = "c".into();
    let s = insert_statement(&e).unwrap();
    assert_eq!(s.sql, INSERT_CLIP);
    assert_eq!(s.sql.matches('?').count(), s.binds.len());
    assert_eq!(
        s.binds,
        vec![
            SqlValue::Text(ID_TEXT.into()),
            SqlValue::Text("docker compose up".into()),
            SqlValue::Text("command".into()),
            SqlValue::Text("{}".into()),
            SqlValue::Text("h".into()),
            SqlValue::Integer(1),
            SqlValue::Integer(1),
            SqlValue::Integer(0),
            SqlValue::Integer(0),
            SqlValue::Text("a".into()),
            SqlValue::Text("b".into()),
            SqlValue::Text("c".into()),
            SqlValue::Null,
        ]
    );
}

#[test]
fn inserted_entry_reads_back() {
    let mut e = ClipboardEntry::default();
    e.content = "SELECT 1".into();
    e.content_type = ContentType::Code { language: Some("sql".into()) };
    e.metadata = e.metadata.clone().with_field("language", serde_json::Value::from("sql"));
    e.workspace_id = Some(ID_VALUE);
    e.pinned = true;
    e.copy_count = 4;
    let s = insert_statement(&e).unwrap();
    let text = |i: usize| match &s.binds[i] {
        SqlValue::Text(t) => t.clone(),
        other => panic!("unexpected {:?}", other),
    };
    let int = |i: usize| match &s.binds[i] {
        SqlValue::Integer(n) => *n,
        other => panic!("unexpected {:?}", other),
    };
    let row = ClipRow {
        id: text(0),
        content: text(1),
        content_type: text(2),
        metadata: text(3),
        content_hash: text(4),
        copy_count: int(5),
        favorite: int(6),
        pinned: int(7),
        created_at: text(9),
        updated_at: text(10),
        last_copied_at: text(11),
        workspace_id: Some(text(12)),
    };
    assert_eq!(ClipboardEntry::from_row(row), e);
}

/// The row that the statement inserting `e` writes, as a read gives it back.
fn row_written_by(e: &ClipboardEntry) -> ClipRow {
    let s = insert_statement(e).unwrap();
    let text = |i: usize| match &s.binds[i] {
        SqlValue::Text(t) => Some(t.clone()),
        SqlValue::Null => None,
        other => panic!("unexpected {:?}", other),
    };
    let int = |i: usize| match &s.binds[i] {
        SqlValue::Integer(n) => *n,
        other => panic!("unexpected {:?}", other),
    };
    ClipRow {
        id: text(0).unwrap(),
        content: text(1).unwrap(),
        content_type: text(2).unwrap(),
        metadata: text(3).unwrap(),
        content_hash: text(4).unwrap(),
        copy_count: int(5),
        favorite: int(6),
        pinned: int(7),
        created_at: text(9).unwrap(),
        updated_at: text(10).unwrap(),
        last_copied_at: text(11).unwrap(),
        workspace_id: text(12),
    }
}

#[test]
fn code_without_language_reads_back() {
    let mut e = ClipboardEntry::default();
    e.content = "fn main() {}".into();
    e.content_type = ContentType::Code { language: None };
    let row = row_written_by(&e);
    assert_eq!(row.content_type, "code");
    assert_eq!(row.workspace_id, None);
    assert_eq!(ClipboardEntry::from_row(row), e);
}

#[test]
fn every_content_type_reads_back() {
    let types = vec![
        ContentType::Text,
        ContentType::Url,
        ContentType::Email,
        ContentType::Json,
        ContentType::PhoneNumber,
        ContentType::Color,
        ContentType::FilePath,
        ContentType::Command,
        ContentType::Other,
        ContentType::Code { language: None },
        ContentType::Code { language: Some("rust".into()) },
    ];
    for ct in types {
        let mut e = ClipboardEntry::default();
        e.content = "x".into();
        e.content_type = ct;
        let row = row_written_by(&e);
        assert_eq!(ClipboardEntry::from_row(row), e);
    }
}

#[test]
fn app_info_names_the_library() {
    let app = AppInfo::current();
    assert_eq!(app.name, "memora");
    assert_eq!(app.version, "0.1.0");
    assert_eq!((APP_NAME, APP_VERSION), ("memora", "0.1.0"));
}

#[test]
fn flag_statements_update_the_given_flags() {
    assert!(flag_statements(ID_VALUE, None, None).is_empty());
    let both = flag_statements(ID_VALUE, Some(true), Some(false));
    assert_eq!(both.len(), 2);
    assert_eq!(both[0].sql, SET_FAVORITE);
    assert_eq!(both[0].binds, vec![SqlValue::Integer(1), SqlValue::Text(ID_TEXT.into())]);
    assert_eq!(both[1].sql, SET_PINNED);
    assert_eq!(both[1].binds, vec![SqlValue::Integer(0), SqlValue::Text(ID_TEXT.into())]);
    let pinned = flag_statements(ID_VALUE, None, Some(true));
    assert_eq!(pinned.len(), 1);
    assert_eq!(pinned[0].sql, SET_PINNED);
}
