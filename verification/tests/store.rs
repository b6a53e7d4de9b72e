use user_store::repository::RepositoryError;
use user_store::store::Store;
use user_store::user::{CustomData, Date, User, UserId};

fn sample_user(bits: u128, name: &str) -> User {
    User {
        id: UserId { bits },
        name: String::from(name),
        birth_date: Date { year: 1984, month: 2, day: 14 },
        custom_data: CustomData { random: 1 },
        created_at: None,
        updated_at: None,
    }
}

#[test]
fn create_sets_created_at_and_clears_updated_at() {
    let mut s = Store::new();
    let mut u = sample_user(1, "Juan Carlos");
    u.created_at = Some(5);
    u.updated_at = Some(6);
    let stored = s.create(&u, 100).unwrap();
    assert_eq!(stored.created_at, Some(100));
    assert_eq!(stored.updated_at, None);
    assert_eq!(stored.name, "Juan Carlos");
    assert_eq!(stored.id, UserId { bits: 1 });
}

#[test]
fn create_rejects_duplicate_and_leaves_store_unchanged() {
    let mut s = Store::new();
    s.create(&sample_user(1, "Juan Carlos"), 100).unwrap();
    let r = s.create(&sample_user(1, "Pancho"), 200);
    assert_eq!(r, Err(RepositoryError::AlreadyExists));
    let got = s.get(&UserId { bits: 1 }).unwrap();
    assert_eq!(got.name, "Juan Carlos");
    assert_eq!(got.created_at, Some(100));
}

#[test]
fn get_round_trip_after_create() {
    let mut s = Store::new();
    let u = sample_user(9, "Juan Carlos");
    let stored = s.create(&u, 100).unwrap();
    let got = s.get(&u.id).unwrap();
    assert_eq!(got, stored);
    assert_eq!(got.id, u.id);
    assert_eq!(got.name, u.name);
    assert_eq!(got.birth_date, u.birth_date);
    assert_eq!(got.custom_data, u.custom_data);
    assert_eq!(got.updated_at, u.updated_at);
    assert_eq!(got.created_at, Some(100));
}

#[test]
fn get_absent_id_yields_invalid_id() {
    let s = Store::new();
    assert_eq!(s.get(&UserId { bits: 42 }), Err(RepositoryError::InvalidId));
}

#[test]
fn update_absent_id_yields_does_not_exist_and_leaves_store_unchanged() {
    let mut s = Store::new();
    s.create(&sample_user(1, "Juan Carlos"), 100).unwrap();
    let r = s.update(&sample_user(2, "Pancho"), 200);
    assert_eq!(r, Err(RepositoryError::DoesNotExist));
    let got = s.get(&UserId { bits: 1 }).unwrap();
    assert_eq!(got.name, "Juan Carlos");
    assert_eq!(got.updated_at, None);
    assert_eq!(s.get(&UserId { bits: 2 }), Err(RepositoryError::InvalidId));
}

#[test]
fn update_preserves_created_at_and_sets_updated_at() {
    let mut s = Store::new();
    s.create(&sample_user(1, "Juan Carlos"), 100).unwrap();
    let updated = s.update(&sample_user(1, "Juan C."), 250).unwrap();
    assert_eq!(updated.created_at, Some(100));
    assert_eq!(updated.updated_at, Some(250));
    assert!(updated.updated_at.unwrap() >= updated.created_at.unwrap());
    let got = s.get(&UserId { bits: 1 }).unwrap();
    assert_eq!(got, updated);
    assert_eq!(got.name, "Juan C.");
}

#[test]
fn delete_present_id_removes_it_and_returns_it() {
    let mut s = Store::new();
    s.create(&sample_user(1, "Juan Carlos"), 100).unwrap();
    assert_eq!(s.delete(&UserId { bits: 1 }), Ok(UserId { bits: 1 }));
    assert_eq!(s.get(&UserId { bits: 1 }), Err(RepositoryError::InvalidId));
}

#[test]
fn delete_absent_id_still_succeeds() {
    let mut s = Store::new();
    assert_eq!(s.delete(&UserId { bits: 8 }), Ok(UserId { bits: 8 }));
    assert_eq!(s.delete(&UserId { bits: 8 }), Ok(UserId { bits: 8 }));
}

#[test]
fn delete_keeps_other_entities() {
    let mut s = Store::new();
    s.create(&sample_user(1, "Juan Carlos"), 100).unwrap();
    s.create(&sample_user(2, "Pancho"), 110).unwrap();
    s.delete(&UserId { bits: 1 }).unwrap();
    let got = s.get(&UserId { bits: 2 }).unwrap();
    assert_eq!(got.name, "Pancho");
    assert_eq!(s.get(&UserId { bits: 1 }), Err(RepositoryError::InvalidId));
}
