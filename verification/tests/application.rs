use std::sync::Arc;

use memora::application::save_clip::{SaveClip, SaveOutcome, SaveWrite, EMPTY_CLIPBOARD_MESSAGE};
use memora::application::search_clips::SearchClips;
use memora::application::workspaces::{WorkspaceService, EMPTY_NAME_MESSAGE};
use memora::domain::errors::DomainError;
use memora::domain::models::{ClipMetadata, ClipboardEntry, ContentType, Workspace};
use memora::domain::value_objects::ContentHash;

/// A store of clips in memory, driven the way the shell drives the
/// repository: look up by hash, then perform the write that was decided.
#[derive(Default)]
struct Clips {
    entries: Vec<ClipboardEntry>,
}

impl Clips {
    fn save(&mut self, uc: &SaveClip<()>, content: &str, ct: ContentType, id: u128, now: &str) -> Result<SaveOutcome, DomainError> {
        let prepared = uc.prepare(content)?;
        let existing = self.entries.iter().find(|e| e.content_hash == prepared.hash).cloned();
        let (outcome, write) = uc.resolve(prepared, existing, now, id, ct, ClipMetadata::new(), None);
        match (&outcome, write) {
            (SaveOutcome::Created(e), SaveWrite::Insert) => self.entries.push(e.clone()),
            (SaveOutcome::Duplicate(_), SaveWrite::RecordCopy { id, now }) => {
                let e = self.entries.iter_mut().find(|e| e.id == id).unwrap();
                e.record_copy(&now);
            }
            _ => panic!("outcome and write disagree"),
        }
        Ok(outcome)
    }
}

#[test]
fn first_copy_creates_entry() {
    let uc = SaveClip::new(Arc::new(()));
    let mut clips = Clips::default();
    let outcome = clips.save(&uc, "  docker compose up  ", ContentType::Command, 1, "t0").unwrap();
    match outcome {
        SaveOutcome::Created(entry) => {
            assert_eq!(entry.content, "docker compose up");
            assert_eq!(entry.copy_count, 1);
            assert_eq!(entry.id, 1);
            assert_eq!(entry.content_type, ContentType::Command);
            assert_eq!(entry.content_hash, ContentHash::compute("docker compose up").as_str());
            assert_eq!(entry.created_at, "t0");
            assert_eq!(entry.last_copied_at, "t0");
        }
        SaveOutcome::Duplicate(_) => panic!("the first copy creates an entry"),
    }
    assert_eq!(clips.entries.len(), 1);
}

#[test]
fn repeated_copy_dedupes_and_increments() {
    let uc = SaveClip::new(Arc::new(()));
    let mut clips = Clips::default();
    clips.save(&uc, "docker compose up", ContentType::Command, 1, "t0").unwrap();
    let second = clips.save(&uc, " docker compose up\n", ContentType::Command, 2, "t1").unwrap();
    match second {
        SaveOutcome::Duplicate(entry) => {
            assert_eq!(entry.copy_count, 2);
            assert_eq!(entry.id, 1);
            assert_eq!(entry.last_copied_at, "t1");
            assert_eq!(entry.created_at, "t0");
        }
        SaveOutcome::Created(_) => panic!("a repeated copy is no new entry"),
    }
    assert_eq!(clips.entries.len(), 1);
    assert_eq!(clips.entries[0].copy_count, 2);
}

#[test]
fn surrounding_whitespace_never_makes_a_new_clip() {
    let uc = SaveClip::new(Arc::new(()));
    let mut clips = Clips::default();
    clips.save(&uc, "git status", ContentType::Command, 1, "t0").unwrap();
    let first = clips.save(&uc, "\tgit status  ", ContentType::Command, 2, "t1").unwrap();
    let second = clips.save(&uc, "\n git status\r\n", ContentType::Text, 3, "t2").unwrap();
    match (first, second) {
        (SaveOutcome::Duplicate(a), SaveOutcome::Duplicate(b)) => {
            assert_eq!((a.id, b.id), (1, 1));
            assert_eq!(a.content_hash, b.content_hash);
            assert_eq!((a.copy_count, b.copy_count), (2, 3));
            assert_eq!(b.content, "git status");
            assert_eq!(b.content_type, ContentType::Command);
        }
        _ => panic!("content equal once trimmed is counted, never created"),
    }
    assert_eq!(clips.entries.len(), 1);
    assert_eq!(clips.entries[0].copy_count, 3);
    assert_eq!(clips.entries[0].last_copied_at, "t2");
}

#[test]
fn empty_content_is_rejected() {
    let uc = SaveClip::new(Arc::new(()));
    let err = uc.prepare("   ").unwrap_err();
    match err {
        DomainError::InvalidContent(m) => assert_eq!(m, EMPTY_CLIPBOARD_MESSAGE),
        other => panic!("unexpected {:?}", other),
    }
    assert_eq!(EMPTY_CLIPBOARD_MESSAGE, "el portapapeles está vacío");
}

#[test]
fn use_cases_keep_their_repository() {
    let repo = Arc::new(5u8);
    assert!(Arc::ptr_eq(SaveClip::new(repo.clone()).repo(), &repo));
    assert!(Arc::ptr_eq(SearchClips::new(repo.clone()).repo(), &repo));
    assert!(Arc::ptr_eq(WorkspaceService::new(repo.clone()).repo(), &repo));
}

/// The search of a use case: the repository is asked only for a positive
/// limit; the fake repository answers one entry per non-empty query.
fn search(uc: &SearchClips<()>, query: &str, limit: i64) -> Vec<String> {
    if !uc.queries_repository(limit) {
        return Vec::new();
    }
    if query.is_empty() {
        Vec::new()
    } else {
        vec![query.to_string()]
    }
}

#[test]
fn search_requires_repo_impl() {
    let uc = SearchClips::new(Arc::new(()));
    let results = search(&uc, "sql", 10);
    assert_eq!(results.len(), 1);
    assert_eq!(results[0], "sql");
    let empty = search(&uc, "", 10);
    assert!(empty.is_empty());
}

#[test]
fn non_positive_limit_returns_empty() {
    let uc = SearchClips::new(Arc::new(()));
    assert!(search(&uc, "sql", 0).is_empty());
}

#[test]
fn repository_is_asked_only_for_positive_limits() {
    let uc = SearchClips::new(Arc::new(()));
    assert!(uc.queries_repository(10));
    assert!(uc.queries_repository(1));
    assert!(!uc.queries_repository(0));
    assert!(!uc.queries_repository(-3));
}

fn create(svc: &WorkspaceService<()>, store: &mut Vec<Workspace>, name: &str, id: u128) -> Result<Workspace, DomainError> {
    let name = svc.validate_name(name)?;
    let existing = store.iter().find(|w| w.name == name).cloned();
    let ws = svc.resolve_create(name, existing, None, id, "t0".to_string())?;
    store.push(ws.clone());
    Ok(ws)
}

#[test]
fn create_workspace() {
    let svc = WorkspaceService::new(Arc::new(()));
    let mut store = Vec::new();
    let ws = create(&svc, &mut store, " Universidad ", 7).unwrap();
    assert_eq!(ws.name, "Universidad");
    assert_eq!(ws.id, 7);
    assert!(!ws.is_default);
    assert!(ws.icon.is_none());
    assert_eq!(store.len(), 1);
    let with_description = svc
        .resolve_create("Notas".into(), None, Some("apuntes"), 8, "t1".into())
        .unwrap();
    assert_eq!(with_description.description.as_deref(), Some("apuntes"));
}

#[test]
fn duplicate_name_rejected() {
    let svc = WorkspaceService::new(Arc::new(()));
    let mut store = Vec::new();
    create(&svc, &mut store, "Dev", 1).unwrap();
    match create(&svc, &mut store, "Dev", 2).unwrap_err() {
        DomainError::Conflict(m) => assert_eq!(m, "ya existe un workspace llamado 'Dev'"),
        other => panic!("unexpected {:?}", other),
    }
    assert_eq!(store.len(), 1);
}

#[test]
fn empty_name_rejected() {
    let svc = WorkspaceService::new(Arc::new(()));
    match svc.validate_name("   ").unwrap_err() {
        DomainError::InvalidContent(m) => assert_eq!(m, EMPTY_NAME_MESSAGE),
        other => panic!("unexpected {:?}", other),
    }
}

#[test]
fn rename_updates_name() {
    let svc = WorkspaceService::new(Arc::new(()));
    let mut store = Vec::new();
    let ws = create(&svc, &mut store, "Old", 3).unwrap();
    let renamed = svc.apply_rename(ws.clone(), "  New ").unwrap();
    assert_eq!(renamed.name, "New");
    assert_eq!(renamed.id, ws.id);
    assert_eq!(renamed.created_at, ws.created_at);
    assert!(matches!(svc.apply_rename(ws, " "), Err(DomainError::InvalidContent(_))));
}

#[test]
fn end_to_end_flow_in_memory() {
    let svc = WorkspaceService::new(Arc::new(()));
    let mut store = Vec::new();
    let dev = create(&svc, &mut store, "Desarrollo", 100).unwrap();

    let uc = SaveClip::new(Arc::new(()));
    let mut clips = Clips::default();
    let sql = ContentType::Code { language: Some("sql".into()) };
    let prepared = uc.prepare("SELECT * FROM users;").unwrap();
    let metadata = ClipMetadata::new().with_field("language", serde_json::Value::from("sql"));
    let (outcome, write) = uc.resolve(prepared, None, "t0", 1, sql.clone(), metadata, Some(dev.id));
    assert!(matches!(write, SaveWrite::Insert));
    let entry = match outcome {
        SaveOutcome::Created(e) => e,
        _ => panic!("debe crear"),
    };
    assert_eq!(entry.copy_count, 1);
    assert_eq!(entry.workspace_id, Some(dev.id));
    clips.entries.push(entry.clone());

    // A duplicate counts a copy and creates no new row.
    let second = clips.save(&uc, "SELECT * FROM users;", sql, 2, "t1").unwrap();
    assert!(matches!(second, SaveOutcome::Duplicate(_)));
    let in_workspace: Vec<_> = clips.entries.iter().filter(|e| e.workspace_id == Some(dev.id)).collect();
    assert_eq!(in_workspace.len(), 1);
    let found = clips.entries.iter().find(|e| e.content_hash == entry.content_hash).unwrap();
    assert_eq!(found.copy_count, 2);
}
