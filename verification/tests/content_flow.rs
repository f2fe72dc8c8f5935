//! End-to-end behavior of the content store and service.

use backend_core::content::Content;
use backend_core::content_repository::ContentRepository;
use backend_core::content_usecase::{ContentService, ContentUseCase};

#[test]
fn new_content_is_unpersisted() {
    let c = Content::new("T".to_string(), "B".to_string());
    assert_eq!(c.id, 0);
    assert_eq!(c.title, "T");
    assert_eq!(c.body, "B");
    assert!(c.created_at.is_none());
    assert!(c.updated_at.is_none());
}

#[test]
fn create_returns_populated_record() {
    let repo = ContentRepository::new();
    let mut service = ContentUseCase::new(repo);
    let created = service
        .create(Content::new("T".to_string(), "B".to_string()))
        .unwrap();
    assert_eq!(created.id, 1);
    assert_eq!(created.title, "T");
    assert_eq!(created.body, "B");
    assert!(created.created_at.is_some());
    assert!(created.updated_at.is_some());
    assert_eq!(created.created_at, created.updated_at);
}

#[test]
fn find_after_create_returns_identical_record() {
    let repo = ContentRepository::new();
    let mut service = ContentUseCase::new(repo);
    let created = service
        .create(Content::new("T".to_string(), "B".to_string()))
        .unwrap();
    let found = service.find(1).unwrap().unwrap();
    assert_eq!(found.id, created.id);
    assert_eq!(found.title, created.title);
    assert_eq!(found.body, created.body);
    assert_eq!(found.created_at, created.created_at);
    assert_eq!(found.updated_at, created.updated_at);
}

#[test]
fn find_on_empty_store_is_absence_not_error() {
    let repo = ContentRepository::new();
    let service = ContentUseCase::new(repo);
    let found = service.find(1).unwrap();
    assert!(found.is_none());
}

#[test]
fn find_never_inserted_id_is_absence_not_error() {
    let repo = ContentRepository::new();
    let mut service = ContentUseCase::new(repo);
    service
        .create(Content::new("a".to_string(), "b".to_string()))
        .unwrap();
    service
        .create(Content::new("c".to_string(), "d".to_string()))
        .unwrap();
    assert!(service.find(99).unwrap().is_none());
    assert!(service.find(0).unwrap().is_none());
    assert!(service.find(-1).unwrap().is_none());
}

#[test]
fn ids_are_assigned_sequentially() {
    let mut repo = ContentRepository::new();
    let first = repo
        .create(Content::new("one".to_string(), "1".to_string()))
        .unwrap();
    let second = repo
        .create(Content::new("two".to_string(), "2".to_string()))
        .unwrap();
    let third = repo
        .create(Content::new("three".to_string(), "3".to_string()))
        .unwrap();
    assert_eq!(first.id, 1);
    assert_eq!(second.id, 2);
    assert_eq!(third.id, 3);
}

#[test]
fn each_record_is_found_under_its_own_id() {
    let mut repo = ContentRepository::new();
    repo.create(Content::new("one".to_string(), "1".to_string()))
        .unwrap();
    repo.create(Content::new("two".to_string(), "2".to_string()))
        .unwrap();
    let found_one = repo.find(1).unwrap().unwrap();
    let found_two = repo.find(2).unwrap().unwrap();
    assert_eq!(found_one.title, "one");
    assert_eq!(found_one.body, "1");
    assert_eq!(found_two.title, "two");
    assert_eq!(found_two.body, "2");
}
