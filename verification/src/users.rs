//! The user store and the user service: the same exclusive-access design as
//! the post store, for user accounts looked up by identifier or by username.
use vstd::prelude::*;

use crate::errors::{LookupKey, ResourceKind, ServiceError};
use crate::model::{User, UserStatus};
use crate::search::{first_match, lemma_first_match_at, lemma_first_match_none};
use vstd::pervasive::VecAdditionalExecFns;

verus! {

/// Input for creating a user; the store assigns the identifier and the
/// timestamps, and a fresh account has never logged in.
pub struct CreateUserRequest {
    pub username: String,
    pub password: String,
    pub status: UserStatus,
}

/// Input for updating a user in place; identifier and creation timestamp are
/// untouched.
pub struct UpdateUserRequest {
    pub username: String,
    pub password: String,
    pub status: UserStatus,
    pub last_login: Option<i64>,
}

/// The first user in `items` carrying `id`.
pub open spec fn find_user_by_id(items: Seq<User>, id: i64) -> Option<User> {
    first_match(items, |u: User| u.id == id)
}

/// The first user in `items` carrying `name`. Usernames are not required to
/// be unique, so which account carries a duplicated name is a fact about
/// insertion order.
pub open spec fn find_user_by_name(items: Seq<User>, name: Seq<char>) -> Option<User> {
    first_match(items, |u: User| u.username@ == name)
}

/// Well-formedness of a user store: the counter never ran backwards, every
/// identifier was assigned by it, and no identifier is held twice.
pub open spec fn user_store_wf(items: Seq<User>, counter: int) -> bool {
    &&& 0 <= counter <= i64::MAX
    &&& forall|i: int| 0 <= i < items.len() ==> 1 <= (#[trigger] items[i]).id <= counter
    &&& forall|i: int, j: int|
        0 <= i < j < items.len() ==> (#[trigger] items[i]).id != (#[trigger] items[j]).id
}

/// The user that an insert of `req` at time `now` builds, once the store has
/// assigned `id`.
pub open spec fn created_user(req: CreateUserRequest, id: i64, now: i64) -> User {
    User {
        id,
        username: req.username,
        password: req.password,
        status: req.status,
        created: now,
        updated: now,
        last_login: None,
    }
}

/// The user that an update of `old_u` with `req` at time `now` leaves behind.
pub open spec fn updated_user(old_u: User, req: UpdateUserRequest, now: i64) -> User {
    User {
        id: old_u.id,
        username: req.username,
        password: req.password,
        status: req.status,
        created: old_u.created,
        updated: now,
        last_login: req.last_login,
    }
}

/// Exclusive-access mapping from identifier to user, plus the monotonic
/// counter that assigns identifiers.
pub struct InMemoryUserStore {
    pub counter: i64,
    pub items: Vec<User>,
}

impl InMemoryUserStore {
    pub open spec fn wf(&self) -> bool {
        user_store_wf(self.items@, self.counter as int)
    }

    /// An empty store; the first insert assigns identifier 1.
    pub fn new() -> (r: Self)
        ensures
            r.wf(),
            r.counter == 0,
            r.items@ == Seq::<User>::empty(),
    {
        InMemoryUserStore { counter: 0, items: Vec::new() }
    }

    /// Index of the first user carrying `id`, if any.
    fn find_index_by_id(&self, id: i64) -> (r: Option<usize>)
        ensures
            match r {
                Some(j) => j < self.items@.len() && self.items@[j as int].id == id && (forall|
                    k: int,
                |
                    0 <= k < j ==> (#[trigger] self.items@[k]).id != id),
                None => forall|k: int|
                    0 <= k < self.items@.len() ==> (#[trigger] self.items@[k]).id != id,
            },
    {
        let n = self.items.len();
        let mut i: usize = 0;
        while i < n
            invariant
                i <= n == self.items@.len(),
                forall|k: int| 0 <= k < i ==> (#[trigger] self.items@[k]).id != id,
            decreases n - i,
        {
            if self.items[i].id == id {
                return Some(i);
            }
            i = i + 1;
        }
        None
    }

    /// Assigns `counter + 1` as the new user's identifier, stamps
    /// `created == updated == now`, stores the user and returns a copy of it.
    pub fn insert(&mut self, req: CreateUserRequest, now: i64) -> (r: User)
        requires
            old(self).wf(),
            old(self).counter < i64::MAX,
        ensures
            final(self).wf(),
            final(self).counter == old(self).counter + 1,
            final(self).items@ == old(self).items@.push(
                created_user(req, (old(self).counter + 1) as i64, now),
            ),
            r@ == created_user(req, (old(self).counter + 1) as i64, now)@,
    {
        self.counter = self.counter + 1;
        let user = User {
            id: self.counter,
            username: req.username,
            password: req.password,
            status: req.status,
            created: now,
            updated: now,
            last_login: None,
        };
        let copy = user.clone();
        self.items.push(user);
        copy
    }

    /// A copy of the user carrying `id`, if the store holds one.
    pub fn get_by_id(&self, id: i64) -> (r: Option<User>)
        ensures
            r is Some <==> find_user_by_id(self.items@, id) is Some,
            r matches Some(u) ==> u@ == find_user_by_id(self.items@, id)->Some_0@,
    {
        match self.find_index_by_id(id) {
            Some(j) => {
                proof {
                    lemma_first_match_at(self.items@, |u: User| u.id == id, j as int);
                }
                Some(self.items[j].clone())
            },
            None => {
                proof {
                    lemma_first_match_none(self.items@, |u: User| u.id == id);
                }
                None
            },
        }
    }

    /// A copy of the first user carrying `name`, if the store holds one.
    pub fn get_by_name(&self, name: &String) -> (r: Option<User>)
        ensures
            r is Some <==> find_user_by_name(self.items@, name@) is Some,
            r matches Some(u) ==> u@ == find_user_by_name(self.items@, name@)->Some_0@,
    {
        let n = self.items.len();
        let mut i: usize = 0;
        while i < n
            invariant
                i <= n == self.items@.len(),
                forall|k: int| 0 <= k < i ==> (#[trigger] self.items@[k]).username@ != name@,
            decreases n - i,
        {
            if self.items[i].username == *name {
                proof {
                    lemma_first_match_at(self.items@, |u: User| u.username@ == name@, i as int);
                }
                return Some(self.items[i].clone());
            }
            i = i + 1;
        }
        proof {
            lemma_first_match_none(self.items@, |u: User| u.username@ == name@);
        }
        None
    }

    /// Replaces the mutable fields of the user carrying `id` and refreshes its
    /// update stamp; identifier and creation stamp are untouched. Returns a
    /// copy of the new value, or `None` when no user carries `id` (the store
    /// is then unchanged).
    pub fn update(&mut self, id: i64, req: UpdateUserRequest, now: i64) -> (r: Option<User>)
        requires
            old(self).wf(),
        ensures
            final(self).wf(),
            final(self).counter == old(self).counter,
            final(self).items@.len() == old(self).items@.len(),
            r is Some <==> find_user_by_id(old(self).items@, id) is Some,
            r is None ==> *final(self) == *old(self),
            forall|k: int|
                0 <= k < old(self).items@.len() && (#[trigger] old(self).items@[k]).id != id
                    ==> final(self).items@[k] == old(self).items@[k],
            forall|k: int|
                0 <= k < old(self).items@.len() && (#[trigger] old(self).items@[k]).id == id
                    ==> final(self).items@[k] == updated_user(old(self).items@[k], req, now),
            r matches Some(u) ==> u@ == updated_user(
                find_user_by_id(old(self).items@, id)->Some_0,
                req,
                now,
            )@,
    {
        match self.find_index_by_id(id) {
            Some(j) => {
                proof {
                    lemma_first_match_at(self.items@, |u: User| u.id == id, j as int);
                }
                let user = User {
                    id: self.items[j].id,
                    username: req.username,
                    password: req.password,
                    status: req.status,
                    created: self.items[j].created,
                    updated: now,
                    last_login: req.last_login,
                };
                let copy = user.clone();
                self.items.set(j, user);
                proof {
                    assert forall|k: int|
                        0 <= k < old(self).items@.len() && (#[trigger] old(
                            self,
                        ).items@[k]).id == id implies final(self).items@[k] == updated_user(
                        old(self).items@[k],
                        req,
                        now,
                    ) by {
                        if k != j {
                            assert(old(self).items@[k].id != old(self).items@[j as int].id);
                        }
                    }
                }
                Some(copy)
            },
            None => {
                proof {
                    lemma_first_match_none(self.items@, |u: User| u.id == id);
                }
                None
            },
        }
    }

    /// Removes the user carrying `id`; `true` exactly when one was held. The
    /// counter is untouched, so the identifier is never handed out again.
    pub fn delete(&mut self, id: i64) -> (r: bool)
        requires
            old(self).wf(),
        ensures
            final(self).wf(),
            final(self).counter == old(self).counter,
            r <==> find_user_by_id(old(self).items@, id) is Some,
            !r ==> *final(self) == *old(self),
            r ==> exists|j: int|
                0 <= j < old(self).items@.len() && (#[trigger] old(self).items@[j]).id == id
                    && final(self).items@ == old(self).items@.remove(j),
    {
        match self.find_index_by_id(id) {
            Some(j) => {
                proof {
                    lemma_first_match_at(self.items@, |u: User| u.id == id, j as int);
                }
                self.items.remove(j);
                proof {
                    assert(final(self).items@ == old(self).items@.remove(j as int));
                }
                true
            },
            None => {
                proof {
                    lemma_first_match_none(self.items@, |u: User| u.id == id);
                }
                false
            },
        }
    }
}

/// The service interface for user accounts: the five operations, each with
/// the contract any backend owes its callers. Backend selection is a
/// construction-time decision.
pub trait UserService: Sized {
    /// The users this backend currently holds, in insertion order.
    spec fn users(&self) -> Seq<User>;

    /// The highest identifier this backend ever assigned.
    spec fn counter(&self) -> int;

    open spec fn wf(&self) -> bool {
        user_store_wf(self.users(), self.counter())
    }

    /// Stores a new user; never fails. The user's identifier is one above the
    /// highest ever assigned, and its two timestamps are both `now`.
    fn create_user(&mut self, req: CreateUserRequest, now: i64) -> (r: Result<User, ServiceError>)
        requires
            old(self).wf(),
            old(self).counter() < i64::MAX,
        ensures
            final(self).wf(),
            final(self).counter() == old(self).counter() + 1,
            final(self).users() == old(self).users().push(
                created_user(req, (old(self).counter() + 1) as i64, now),
            ),
            r matches Ok(u) && u@ == created_user(req, (old(self).counter() + 1) as i64, now)@,
    ;

    /// The user carrying `id`, or `NotFound` naming the identifier.
    fn get_user_by_id(&self, id: i64) -> (r: Result<User, ServiceError>)
        ensures
            r is Ok <==> find_user_by_id(self.users(), id) is Some,
            r matches Ok(u) ==> u@ == find_user_by_id(self.users(), id)->Some_0@,
            r is Err ==> r == Err::<User, ServiceError>(
                ServiceError::NotFound(ResourceKind::User, LookupKey::Id(id)),
            ),
    ;

    /// The first user carrying `name`, or `NotFound` naming the username.
    fn get_user_by_name(&self, name: &String) -> (r: Result<User, ServiceError>)
        ensures
            r is Ok <==> find_user_by_name(self.users(), name@) is Some,
            r matches Ok(u) ==> u@ == find_user_by_name(self.users(), name@)->Some_0@,
            r matches Err(e) ==> (e matches ServiceError::NotFound(k, key) && k
                == ResourceKind::User && (key matches LookupKey::Name(s) && s@ == name@)),
    ;

    /// Updates the user carrying `id` in place, or `NotFound` naming the
    /// identifier (the backend is then unchanged).
    fn update_user(&mut self, id: i64, req: UpdateUserRequest, now: i64) -> (r: Result<
        User,
        ServiceError,
    >)
        requires
            old(self).wf(),
        ensures
            final(self).wf(),
            final(self).counter() == old(self).counter(),
            final(self).users().len() == old(self).users().len(),
            r is Ok <==> find_user_by_id(old(self).users(), id) is Some,
            r is Err ==> *final(self) == *old(self) && r == Err::<
                User,
                ServiceError,
            >(ServiceError::NotFound(ResourceKind::User, LookupKey::Id(id))),
            forall|k: int|
                0 <= k < old(self).users().len() && (#[trigger] old(self).users()[k]).id != id
                    ==> final(self).users()[k] == old(self).users()[k],
            forall|k: int|
                0 <= k < old(self).users().len() && (#[trigger] old(self).users()[k]).id == id
                    ==> final(self).users()[k] == updated_user(old(self).users()[k], req, now),
            r matches Ok(u) ==> u@ == updated_user(
                find_user_by_id(old(self).users(), id)->Some_0,
                req,
                now,
            )@,
    ;

    /// Removes the user carrying `id`, or `NotFound` naming the identifier
    /// (the backend is then unchanged).
    fn delete_user(&mut self, id: i64) -> (r: Result<(), ServiceError>)
        requires
            old(self).wf(),
        ensures
            final(self).wf(),
            final(self).counter() == old(self).counter(),
            r is Ok <==> find_user_by_id(old(self).users(), id) is Some,
            r is Err ==> *final(self) == *old(self) && r == Err::<
                (),
                ServiceError,
            >(ServiceError::NotFound(ResourceKind::User, LookupKey::Id(id))),
            r is Ok ==> exists|j: int|
                0 <= j < old(self).users().len() && (#[trigger] old(self).users()[j]).id == id
                    && final(self).users() == old(self).users().remove(j),
    ;
}

/// The in-memory user service: wraps the user store's outcomes into the
/// domain failure taxonomy, with the key that missed.
pub struct InMemoryUserService {
    data: InMemoryUserStore,
}

impl InMemoryUserService {
    /// A service over an empty store.
    pub fn new() -> (r: Self)
        ensures
            r.wf(),
            r.counter() == 0,
            r.users() == Seq::<User>::empty(),
    {
        InMemoryUserService { data: InMemoryUserStore::new() }
    }

    /// The highest identifier ever assigned (the store's counter); the next
    /// insert assigns one more. Callers check this against `i64::MAX` before
    /// creating.
    pub fn last_assigned_id(&self) -> (r: i64)
        ensures
            r as int == self.counter(),
    {
        self.data.counter
    }
}

impl UserService for InMemoryUserService {
    closed spec fn users(&self) -> Seq<User> {
        self.data.items@
    }

    closed spec fn counter(&self) -> int {
        self.data.counter as int
    }

    fn create_user(&mut self, req: CreateUserRequest, now: i64) -> (r: Result<
        User,
        ServiceError,
    >) {
        Ok(self.data.insert(req, now))
    }

    fn get_user_by_id(&self, id: i64) -> (r: Result<User, ServiceError>) {
        match self.data.get_by_id(id) {
            Some(u) => Ok(u),
            None => Err(ServiceError::NotFound(ResourceKind::User, LookupKey::Id(id))),
        }
    }

    fn get_user_by_name(&self, name: &String) -> (r: Result<User, ServiceError>) {
        match self.data.get_by_name(name) {
            Some(u) => Ok(u),
            None => Err(
                ServiceError::NotFound(ResourceKind::User, LookupKey::Name(name.clone())),
            ),
        }
    }

    fn update_user(&mut self, id: i64, req: UpdateUserRequest, now: i64) -> (r: Result<
        User,
        ServiceError,
    >) {
        match self.data.update(id, req, now) {
            Some(u) => Ok(u),
            None => Err(ServiceError::NotFound(ResourceKind::User, LookupKey::Id(id))),
        }
    }

    fn delete_user(&mut self, id: i64) -> (r: Result<(), ServiceError>) {
        if self.data.delete(id) {
            Ok(())
        } else {
            Err(ServiceError::NotFound(ResourceKind::User, LookupKey::Id(id)))
        }
    }
}

impl Default for InMemoryUserService {
    /// A service over an empty store.
    fn default() -> (r: Self)
        ensures
            r.wf(),
            r.counter() == 0,
            r.users() == Seq::<User>::empty(),
    {
        InMemoryUserService::new()
    }
}

} // verus!
