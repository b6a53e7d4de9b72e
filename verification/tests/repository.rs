use std::sync::Arc;

use user_store::repository::{MemoryRepository, Repository, RepositoryError, StubRepository};
use user_store::user::{CustomData, Date, User, UserId};

fn plain_user(bits: u128, name: &str) -> User {
    User {
        id: UserId { bits },
        name: String::from(name),
        birth_date: Date { year: 1984, month: 2, day: 14 },
        custom_data: CustomData { random: 1 },
        created_at: None,
        updated_at: None,
    }
}

#[test]
fn full_lifecycle_scenario() {
    let repo = MemoryRepository::new();
    let a = UserId { bits: 0xa };

    let created = repo.create_user(&plain_user(0xa, "Ana")).unwrap();
    assert!(created.created_at.is_some());
    assert_eq!(created.updated_at, None);

    let got = repo.get_user(&a).unwrap();
    assert_eq!(got.name, "Ana");
    assert!(got.created_at.is_some());
    assert_eq!(got.updated_at, None);

    let updated = repo.update_user(&plain_user(0xa, "Ana M.")).unwrap();
    assert_eq!(updated.name, "Ana M.");
    let got = repo.get_user(&a).unwrap();
    assert_eq!(got.name, "Ana M.");
    assert!(got.updated_at.is_some());
    assert_eq!(got.created_at, created.created_at);

    assert_eq!(repo.delete_user(&a), Ok(a));
    assert_eq!(repo.get_user(&a), Err(RepositoryError::InvalidId));
    assert_eq!(repo.delete_user(&a), Ok(a));
}

#[test]
fn repository_create_rejects_duplicates() {
    let repo = MemoryRepository::new();
    repo.create_user(&plain_user(1, "Juan Carlos")).unwrap();
    let r = repo.create_user(&plain_user(1, "Pancho"));
    assert_eq!(r, Err(RepositoryError::AlreadyExists));
    assert_eq!(repo.get_user(&UserId { bits: 1 }).unwrap().name, "Juan Carlos");
}

#[test]
fn repository_update_requires_presence() {
    let repo = MemoryRepository::default();
    let r = repo.update_user(&plain_user(3, "Juan Carlos"));
    assert_eq!(r, Err(RepositoryError::DoesNotExist));
    assert_eq!(repo.get_user(&UserId { bits: 3 }), Err(RepositoryError::InvalidId));
}

#[test]
fn repository_update_timestamps_are_monotonic() {
    let repo = MemoryRepository::new();
    let created = repo.create_user(&plain_user(4, "Juan Carlos")).unwrap();
    let updated = repo.update_user(&plain_user(4, "Juan C.")).unwrap();
    assert_eq!(updated.created_at, created.created_at);
    assert!(updated.updated_at.unwrap() >= updated.created_at.unwrap());
}

#[test]
fn shared_repository_serves_concurrent_callers() {
    let repo = Arc::new(MemoryRepository::new());
    let other = Arc::clone(&repo);
    repo.create_user(&plain_user(7, "Juan Carlos")).unwrap();
    assert_eq!(other.get_user(&UserId { bits: 7 }).unwrap().name, "Juan Carlos");
}

#[test]
fn stub_get_user_echoes_requested_id() {
    let stub = StubRepository::new(plain_user(1, "Juan Carlos"));
    let got = stub.get_user(&UserId { bits: 99 }).unwrap();
    assert_eq!(got.id, UserId { bits: 99 });
    assert_eq!(got.name, "Juan Carlos");
}

#[test]
fn stub_operations_echo_their_argument() {
    let stub = StubRepository::new(plain_user(1, "Juan Carlos"));
    let created = stub.create_user(&plain_user(2, "Pancho")).unwrap();
    assert_eq!(created.id, UserId { bits: 2 });
    assert_eq!(created.name, "Pancho");
    assert!(created.created_at.is_some());
    assert_eq!(created.updated_at, None);
    let updated = stub.update_user(&plain_user(2, "Pancho")).unwrap();
    assert!(updated.updated_at.is_some());
    assert_eq!(stub.delete_user(&UserId { bits: 5 }), Ok(UserId { bits: 5 }));
}
