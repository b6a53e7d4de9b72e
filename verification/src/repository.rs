//! The repository capability contract, its error taxonomy, and the
//! lock-guarded in-memory backend.

use vstd::prelude::*;
use vstd::rwlock::{RwLock, RwLockPredicate};

use crate::clock::now_millis;
use crate::store::Store;
use crate::user::{User, UserId};

verus! {

/// The closed set of failure kinds used uniformly by every repository
/// operation. Each operation returns a success value or exactly one of
/// these kinds.
#[derive(Clone, PartialEq, Eq, Debug)]
pub enum RepositoryError {
    /// The shared-state guard was found in a poisoned or inconsistent
    /// state. Carries a diagnostic string. An infrastructure failure,
    /// distinct from the business-rule failures below.
    LockError(String),
    /// Create was called with an id already present.
    AlreadyExists,
    /// Update was called with an id not present.
    DoesNotExist,
    /// A lookup found no entity with the requested id.
    InvalidId,
}

/// The result type shared by all repository operations.
pub type RepositoryResult<T> = Result<T, RepositoryError>;

/// The storage capability contract: any backend offers the four
/// operations, safely callable from concurrent execution contexts with no
/// caller-side synchronization. Success values echo the caller's id and
/// payload fields and carry the promised timestamp shape; business-rule
/// failures are the variant named by each operation, and any backend may
/// also surface an infrastructure failure as `LockError`.
pub trait Repository: Send + Sync {
    /// Returns a copy of the stored entity matching `user_id`. Read-only.
    fn get_user(&self, user_id: &UserId) -> (r: RepositoryResult<User>)
        ensures
            r matches Ok(u) ==> u.id == *user_id,
            r matches Err(e) ==> (e == RepositoryError::InvalidId || e is LockError),
    ;

    /// Inserts a copy of `user` with `created_at` freshly set and
    /// `updated_at` cleared, and returns the stored copy.
    fn create_user(&self, user: &User) -> (r: RepositoryResult<User>)
        ensures
            r matches Ok(u) ==> {
                &&& u.id == user.id
                &&& u.name == user.name
                &&& u.birth_date == user.birth_date
                &&& u.custom_data == user.custom_data
                &&& u.created_at is Some
                &&& u.updated_at is None
            },
            r matches Err(e) ==> (e == RepositoryError::AlreadyExists || e is LockError),
    ;

    /// Replaces the stored entity with id `user.id` by a copy of `user`
    /// that keeps the original `created_at` and has `updated_at` freshly
    /// set, and returns the new stored copy.
    fn update_user(&self, user: &User) -> (r: RepositoryResult<User>)
        ensures
            r matches Ok(u) ==> {
                &&& u.id == user.id
                &&& u.name == user.name
                &&& u.birth_date == user.birth_date
                &&& u.custom_data == user.custom_data
                &&& u.updated_at is Some
            },
            r matches Err(e) ==> (e == RepositoryError::DoesNotExist || e is LockError),
    ;

    /// Removes any entity matching `user_id` and returns the id; deleting
    /// an absent id is not an error.
    fn delete_user(&self, user_id: &UserId) -> (r: RepositoryResult<UserId>)
        ensures
            r matches Ok(id) ==> id == *user_id,
            r matches Err(e) ==> e is LockError,
    ;
}

/// The lock invariant of the in-memory backend: only well-formed store
/// states (ids unique) may rest in the lock.
pub struct StorePred;

impl RwLockPredicate<Store> for StorePred {
    open spec fn inv(self, s: Store) -> bool {
        s.wf()
    }
}

/// The concrete in-memory backend: the whole collection behind one
/// reader/writer lock. Reads proceed concurrently; each write holds the
/// lock for exactly one critical section, so no intermediate state is
/// ever observable. This lock is a verified primitive that cannot be
/// poisoned, so no operation of this backend ever returns `LockError`.
pub struct MemoryRepository {
    store: RwLock<Store, StorePred>,
}

impl MemoryRepository {
    #[verifier::type_invariant]
    spec fn lock_pred_fixed(&self) -> bool {
        self.store.pred() == StorePred
    }

    /// A repository with an empty collection.
    pub fn new() -> MemoryRepository {
        MemoryRepository { store: RwLock::new(Store::new(), Ghost(StorePred)) }
    }
}

impl Default for MemoryRepository {
    /// A repository with an empty collection.
    fn default() -> MemoryRepository {
        MemoryRepository::new()
    }
}

impl Repository for MemoryRepository {
    /// The verified lock cannot fail, so a lookup of this backend fails
    /// only with `InvalidId`, never with `LockError`.
    fn get_user(&self, user_id: &UserId) -> (r: RepositoryResult<User>)
        ensures
            r matches Err(e) ==> e == RepositoryError::InvalidId,
    {
        proof {
            use_type_invariant(self);
        }
        let handle = self.store.acquire_read();
        let r = handle.borrow().get(user_id);
        handle.release_read();
        r
    }

    /// The verified lock cannot fail, so a create through this backend
    /// fails only with `AlreadyExists`, never with `LockError`.
    fn create_user(&self, user: &User) -> (r: RepositoryResult<User>)
        ensures
            r matches Err(e) ==> e == RepositoryError::AlreadyExists,
    {
        proof {
            use_type_invariant(self);
        }
        let now = now_millis();
        let (mut store, write_handle) = self.store.acquire_write();
        let r = store.create(user, now);
        write_handle.release_write(store);
        r
    }

    /// The verified lock cannot fail, so an update through this backend
    /// fails only with `DoesNotExist`, never with `LockError`.
    fn update_user(&self, user: &User) -> (r: RepositoryResult<User>)
        ensures
            r matches Err(e) ==> e == RepositoryError::DoesNotExist,
    {
        proof {
            use_type_invariant(self);
        }
        let now = now_millis();
        let (mut store, write_handle) = self.store.acquire_write();
        let r = store.update(user, now);
        write_handle.release_write(store);
        r
    }

    /// Deletion through this backend is total: the verified lock cannot
    /// fail, so the operation always succeeds and returns the id.
    fn delete_user(&self, user_id: &UserId) -> (r: RepositoryResult<UserId>)
        ensures
            r == Ok::<UserId, RepositoryError>(*user_id),
    {
        proof {
            use_type_invariant(self);
        }
        let (mut store, write_handle) = self.store.acquire_write();
        let r = store.delete(user_id);
        write_handle.release_write(store);
        r
    }
}

/// A hand-written test double for callers that are generic over
/// [`Repository`]: a stateless backend that answers every operation
/// successfully from a fixed template entity, in place of a
/// macro-generated mock.
pub struct StubRepository {
    template: User,
}

impl StubRepository {
    /// A stub whose answers are built from `template`.
    pub fn new(template: User) -> StubRepository {
        StubRepository { template }
    }
}

impl Repository for StubRepository {
    fn get_user(&self, user_id: &UserId) -> (r: RepositoryResult<User>) {
        let mut u = self.template.clone();
        u.id = *user_id;
        Ok(u)
    }

    fn create_user(&self, user: &User) -> (r: RepositoryResult<User>) {
        let mut u = user.clone();
        u.created_at = Some(now_millis());
        u.updated_at = None;
        Ok(u)
    }

    fn update_user(&self, user: &User) -> (r: RepositoryResult<User>) {
        let mut u = user.clone();
        u.updated_at = Some(now_millis());
        Ok(u)
    }

    fn delete_user(&self, user_id: &UserId) -> (r: RepositoryResult<UserId>) {
        Ok(*user_id)
    }
}

} // verus!
