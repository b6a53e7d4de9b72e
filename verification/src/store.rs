//! The core store: an ordered sequence of users with unique ids, and the
//! four repository operations as verified sequential transitions.

use vstd::prelude::*;

use crate::repository::RepositoryError;
use crate::user::{User, UserId};

verus! {

/// Whether some position of `s` holds an entity with id `id`.
pub open spec fn contains_id(s: Seq<User>, id: UserId) -> bool {
    exists|i: int| 0 <= i < s.len() && s[i].id == id
}

/// Whether no two positions of `s` hold the same id.
pub open spec fn ids_unique(s: Seq<User>) -> bool {
    forall|i: int, j: int| 0 <= i < j < s.len() ==> s[i].id != s[j].id
}

/// Some position of `s` holding id `id` (meaningful when `contains_id`
/// holds; unique when `ids_unique` holds as well).
pub open spec fn id_index(s: Seq<User>, id: UserId) -> int {
    choose|i: int| 0 <= i < s.len() && s[i].id == id
}

/// The entity stored under id `id`.
pub open spec fn stored_user(s: Seq<User>, id: UserId) -> User {
    s[id_index(s, id)]
}

/// `s` with every entity whose id is `id` taken out, order preserved.
pub open spec fn removed(s: Seq<User>, id: UserId) -> Seq<User>
    decreases s.len(),
{
    if s.len() == 0 {
        Seq::empty()
    } else if s.last().id == id {
        removed(s.drop_last(), id)
    } else {
        removed(s.drop_last(), id).push(s.last())
    }
}

/// At most one stored entity has any given id: in a well-formed store
/// state, two positions holding the same id are the same position. Every
/// store operation below preserves well-formedness, and the repository
/// lock admits only well-formed states, so this holds of the collection
/// at every observation point.
pub proof fn lemma_at_most_one_id(s: Seq<User>, i: int, j: int)
    requires
        ids_unique(s),
        0 <= i < s.len(),
        0 <= j < s.len(),
        s[i].id == s[j].id,
    ensures
        i == j,
{
    if i < j {
        assert(s[i].id != s[j].id);
    } else if j < i {
        assert(s[j].id != s[i].id);
    }
}

/// In a well-formed state, any position holding id `s[i].id` is position
/// `i` itself, so `stored_user` at that id is exactly `s[i]`.
pub proof fn lemma_unique_id_index(s: Seq<User>, i: int)
    requires
        ids_unique(s),
        0 <= i < s.len(),
    ensures
        contains_id(s, s[i].id),
        id_index(s, s[i].id) == i,
        stored_user(s, s[i].id) == s[i],
{
    assert(contains_id(s, s[i].id));
    let j = id_index(s, s[i].id);
    assert(0 <= j < s.len() && s[j].id == s[i].id);
    lemma_at_most_one_id(s, i, j);
}

/// Appending an entity with a fresh id keeps ids unique, and the new
/// entity is the one stored under its id afterwards.
pub proof fn lemma_push_fresh(s: Seq<User>, u: User)
    requires
        ids_unique(s),
        !contains_id(s, u.id),
    ensures
        ids_unique(s.push(u)),
        contains_id(s.push(u), u.id),
        stored_user(s.push(u), u.id) == u,
{
    let t = s.push(u);
    assert forall|i: int, j: int| 0 <= i < j < t.len() implies t[i].id != t[j].id by {
        if j < s.len() {
            assert(s[i].id != s[j].id);
        } else {
            assert(t[j] == u);
            assert(t[i] == s[i]);
            if s[i].id == u.id {
                assert(contains_id(s, u.id));
            }
        }
    }
    assert(t[s.len() as int] == u);
    lemma_unique_id_index(t, s.len() as int);
}

/// Taking an id out: the result holds id `x` exactly when `s` holds it
/// and `x` is not the id taken out.
pub proof fn lemma_removed_contains(s: Seq<User>, id: UserId, x: UserId)
    ensures
        contains_id(removed(s, id), x) <==> (x != id && contains_id(s, x)),
    decreases s.len(),
{
    if s.len() == 0 {
        assert(removed(s, id) =~= Seq::<User>::empty());
    } else {
        let t = s.drop_last();
        lemma_removed_contains(t, id, x);
        assert(contains_id(t, x) ==> contains_id(s, x)) by {
            if contains_id(t, x) {
                let i = choose|i: int| 0 <= i < t.len() && t[i].id == x;
                assert(s[i].id == x);
            }
        }
        if s.last().id == id {
            assert(removed(s, id) == removed(t, id));
            if contains_id(s, x) && x != id {
                let i = choose|i: int| 0 <= i < s.len() && s[i].id == x;
                assert(i < t.len() && t[i].id == x);
                assert(contains_id(t, x));
            }
        } else {
            let r = removed(t, id).push(s.last());
            assert(removed(s, id) == r);
            assert(s[s.len() - 1] == s.last());
            if contains_id(r, x) {
                let i = choose|i: int| 0 <= i < r.len() && r[i].id == x;
                if i < removed(t, id).len() {
                    assert(contains_id(removed(t, id), x));
                } else {
                    assert(r[i] == s.last());
                    assert(contains_id(s, x));
                }
            }
            if x != id && contains_id(s, x) {
                let i = choose|i: int| 0 <= i < s.len() && s[i].id == x;
                if i < t.len() {
                    assert(t[i].id == x);
                    assert(contains_id(t, x));
                    assert(contains_id(removed(t, id), x));
                    let k = choose|k: int| 0 <= k < removed(t, id).len() && removed(t, id)[k].id == x;
                    assert(r[k].id == x);
                } else {
                    assert(r[r.len() - 1] == s.last());
                    assert(r[r.len() - 1].id == x);
                }
            }
        }
    }
}

/// Taking an id out preserves uniqueness of the remaining ids.
pub proof fn lemma_removed_unique(s: Seq<User>, id: UserId)
    requires
        ids_unique(s),
    ensures
        ids_unique(removed(s, id)),
    decreases s.len(),
{
    if s.len() == 0 {
    } else {
        let t = s.drop_last();
        assert(ids_unique(t)) by {
            assert forall|i: int, j: int| 0 <= i < j < t.len() implies t[i].id != t[j].id by {
                assert(s[i].id != s[j].id);
            }
        }
        lemma_removed_unique(t, id);
        if s.last().id == id {
        } else {
            assert(!contains_id(t, s.last().id)) by {
                if contains_id(t, s.last().id) {
                    let i = choose|i: int| 0 <= i < t.len() && t[i].id == s.last().id;
                    assert(s[i].id == s[s.len() - 1].id);
                    assert(s[i].id != s[s.len() - 1].id);
                }
            }
            lemma_removed_contains(t, id, s.last().id);
            lemma_push_fresh(removed(t, id), s.last());
        }
    }
}

/// Timestamp monotonicity across an entity's lifecycle. In the state a
/// create at time `now1` leaves, the entity has `created_at` set to
/// `now1` and `updated_at` absent; in the state an update at time `now2`
/// then leaves, `created_at` still equals `now1` and `updated_at` is set
/// to `now2`, which is at least `created_at`. The last part asks that the
/// clock did not go backwards between the two operations (`now1 <= now2`);
/// nothing is assumed of the wall clock, so it cannot be promised of two
/// arbitrary clock readings.
pub proof fn lemma_timestamp_monotonic(s: Seq<User>, u: User, v: User, now1: i64, now2: i64)
    requires
        ids_unique(s),
        !contains_id(s, u.id),
        v.id == u.id,
        now1 <= now2,
    ensures
        ({
            let created = (User { created_at: Some(now1), updated_at: None, ..u });
            let after_create = s.push(created);
            let updated = (User {
                created_at: stored_user(after_create, v.id).created_at,
                updated_at: Some(now2),
                ..v
            });
            let after_update = removed(after_create, v.id).push(updated);
            &&& stored_user(after_create, u.id).created_at == Some(now1)
            &&& stored_user(after_create, u.id).updated_at is None
            &&& stored_user(after_update, v.id).created_at == Some(now1)
            &&& stored_user(after_update, v.id).updated_at == Some(now2)
            &&& stored_user(after_update, v.id).updated_at->Some_0
                >= stored_user(after_update, v.id).created_at->Some_0
        }),
{
    let created = (User { created_at: Some(now1), updated_at: None, ..u });
    lemma_push_fresh(s, created);
    let after_create = s.push(created);
    let updated = (User {
        created_at: stored_user(after_create, v.id).created_at,
        updated_at: Some(now2),
        ..v
    });
    lemma_removed_unique(after_create, v.id);
    lemma_removed_contains(after_create, v.id, v.id);
    lemma_push_fresh(removed(after_create, v.id), updated);
}

/// Round trip: in the state a create leaves, looking the created id up
/// yields an entity equal to the caller's in every field except
/// `created_at`, which is now set. The caller's entity must carry no
/// update timestamp, since create clears `updated_at`.
pub proof fn lemma_create_get_round_trip(s: Seq<User>, u: User, now: i64)
    requires
        ids_unique(s),
        !contains_id(s, u.id),
        u.updated_at is None,
    ensures
        ({
            let after = s.push((User { created_at: Some(now), updated_at: None, ..u }));
            &&& ids_unique(after)
            &&& contains_id(after, u.id)
            &&& stored_user(after, u.id).id == u.id
            &&& stored_user(after, u.id).name == u.name
            &&& stored_user(after, u.id).birth_date == u.birth_date
            &&& stored_user(after, u.id).custom_data == u.custom_data
            &&& stored_user(after, u.id).updated_at == u.updated_at
            &&& stored_user(after, u.id).created_at == Some(now)
        }),
{
    lemma_push_fresh(s, (User { created_at: Some(now), updated_at: None, ..u }));
}

/// The backing structure of the in-memory backend: an ordered collection
/// of entities, well-formed when ids are unique. The repository guards a
/// value of this type with a reader/writer lock; each operation below is
/// one critical section's worth of work.
pub struct Store {
    users: Vec<User>,
}

impl View for Store {
    type V = Seq<User>;

    closed spec fn view(&self) -> Seq<User> {
        self.users@
    }
}

impl Store {
    /// Whether the collection satisfies the store invariant: ids unique.
    pub open spec fn wf(&self) -> bool {
        ids_unique(self@)
    }

    /// An empty store.
    pub fn new() -> (s: Store)
        ensures
            s@ == Seq::<User>::empty(),
            s.wf(),
    {
        Store { users: Vec::new() }
    }

    /// A linear scan for the position holding `id`.
    fn find_index(&self, id: &UserId) -> (r: Option<usize>)
        ensures
            r matches Some(i) ==> 0 <= i < self@.len() && self@[i as int].id == *id,
            r is None ==> !contains_id(self@, *id),
    {
        let mut i: usize = 0;
        while i < self.users.len()
            invariant
                i <= self.users.len(),
                forall|k: int| 0 <= k < i ==> self@[k].id != *id,
            decreases self.users.len() - i,
        {
            if self.users[i].id == *id {
                return Some(i);
            }
            i += 1;
        }
        None
    }

    /// Rebuilds the collection without any entity whose id is `id`.
    fn remove_all(&mut self, id: &UserId)
        ensures
            final(self)@ == removed(old(self)@, *id),
    {
        let ghost s = self@;
        let mut kept: Vec<User> = Vec::new();
        let mut i: usize = 0;
        while i < self.users.len()
            invariant
                i <= self.users.len(),
                self@ == s,
                kept@ == removed(s.subrange(0, i as int), *id),
            decreases self.users.len() - i,
        {
            if self.users[i].id != *id {
                kept.push(self.users[i].clone());
            }
            proof {
                let pre = s.subrange(0, i as int);
                let post = s.subrange(0, i + 1);
                assert(post.drop_last() =~= pre);
                assert(post.last() == s[i as int]);
            }
            i += 1;
        }
        proof {
            assert(s.subrange(0, s.len() as int) =~= s);
        }
        self.users = kept;
    }

    /// Looks the entity with id `user_id` up. Read-only: returns a copy of
    /// the stored entity, or `InvalidId` when the id is absent.
    pub fn get(&self, user_id: &UserId) -> (r: Result<User, RepositoryError>)
        requires
            self.wf(),
        ensures
            r is Ok <==> contains_id(self@, *user_id),
            r matches Ok(u) ==> u == stored_user(self@, *user_id) && u.id == *user_id,
            r matches Err(e) ==> e == RepositoryError::InvalidId,
    {
        match self.find_index(user_id) {
            Some(i) => {
                proof {
                    lemma_unique_id_index(self@, i as int);
                }
                Ok(self.users[i].clone())
            },
            None => Err(RepositoryError::InvalidId),
        }
    }

    /// Inserts a copy of `user` with `created_at` set to `now` and
    /// `updated_at` cleared, and returns the stored copy; fails with
    /// `AlreadyExists`, leaving the store unchanged, exactly when the id
    /// is already present.
    pub fn create(&mut self, user: &User, now: i64) -> (r: Result<User, RepositoryError>)
        requires
            old(self).wf(),
        ensures
            final(self).wf(),
            contains_id(old(self)@, user.id) ==> {
                &&& r == Err::<User, RepositoryError>(RepositoryError::AlreadyExists)
                &&& final(self)@ == old(self)@
            },
            !contains_id(old(self)@, user.id) ==> {
                let stored = (User { created_at: Some(now), updated_at: None, ..*user });
                &&& r == Ok::<User, RepositoryError>(stored)
                &&& final(self)@ == old(self)@.push(stored)
                &&& contains_id(final(self)@, user.id)
                &&& stored_user(final(self)@, user.id) == stored
            },
    {
        match self.find_index(&user.id) {
            Some(_) => Err(RepositoryError::AlreadyExists),
            None => {
                let stored = User {
                    id: user.id,
                    name: user.name.clone(),
                    birth_date: user.birth_date,
                    custom_data: user.custom_data,
                    created_at: Some(now),
                    updated_at: None,
                };
                let result = stored.clone();
                proof {
                    lemma_push_fresh(self@, stored);
                }
                self.users.push(stored);
                Ok(result)
            },
        }
    }

    /// Replaces the stored entity with id `user.id` by a copy of `user`
    /// that keeps the prior `created_at` and has `updated_at` set to
    /// `now`, and returns the new stored copy; fails with `DoesNotExist`,
    /// leaving the store unchanged, exactly when the id is absent.
    pub fn update(&mut self, user: &User, now: i64) -> (r: Result<User, RepositoryError>)
        requires
            old(self).wf(),
        ensures
            final(self).wf(),
            !contains_id(old(self)@, user.id) ==> {
                &&& r == Err::<User, RepositoryError>(RepositoryError::DoesNotExist)
                &&& final(self)@ == old(self)@
            },
            contains_id(old(self)@, user.id) ==> {
                let updated = (User {
                    created_at: stored_user(old(self)@, user.id).created_at,
                    updated_at: Some(now),
                    ..*user
                });
                &&& r == Ok::<User, RepositoryError>(updated)
                &&& final(self)@ == removed(old(self)@, user.id).push(updated)
                &&& contains_id(final(self)@, user.id)
                &&& stored_user(final(self)@, user.id) == updated
            },
    {
        match self.find_index(&user.id) {
            None => Err(RepositoryError::DoesNotExist),
            Some(i) => {
                proof {
                    lemma_unique_id_index(self@, i as int);
                }
                let updated = User {
                    id: user.id,
                    name: user.name.clone(),
                    birth_date: user.birth_date,
                    custom_data: user.custom_data,
                    created_at: self.users[i].created_at,
                    updated_at: Some(now),
                };
                let result = updated.clone();
                proof {
                    lemma_removed_unique(old(self)@, user.id);
                    lemma_removed_contains(old(self)@, user.id, user.id);
                    lemma_push_fresh(removed(old(self)@, user.id), updated);
                }
                self.remove_all(&user.id);
                self.users.push(updated);
                Ok(result)
            },
        }
    }

    /// Removes any entity with id `user_id` and returns the id. Absence is
    /// not an error: deletion always succeeds, and afterwards the store
    /// holds no entity with that id.
    pub fn delete(&mut self, user_id: &UserId) -> (r: Result<UserId, RepositoryError>)
        requires
            old(self).wf(),
        ensures
            final(self).wf(),
            r == Ok::<UserId, RepositoryError>(*user_id),
            final(self)@ == removed(old(self)@, *user_id),
            !contains_id(final(self)@, *user_id),
    {
        proof {
            lemma_removed_unique(self@, *user_id);
            lemma_removed_contains(self@, *user_id, *user_id);
        }
        self.remove_all(user_id);
        Ok(*user_id)
    }
}

} // verus!
