//! The post store and the post service.
//!
//! The store is an exclusive-access collection of posts keyed by an
//! auto-incrementing identifier; exclusive access is expressed here as
//! `&mut self`, and a caller that serves concurrent requests guards one store
//! behind one lock. The service wraps the store's outcomes into the
//! domain failure taxonomy.
use vstd::prelude::*;

use crate::errors::{LookupKey, ResourceKind, ServiceError};
use crate::model::{Post, PostStatus};
use crate::search::{first_match, lemma_first_match_at, lemma_first_match_none};
use vstd::pervasive::VecAdditionalExecFns;

verus! {

/// Input for creating a post; the store assigns the identifier and the
/// timestamps.
pub struct CreatePostRequest {
    pub author_id: i64,
    pub slug: String,
    pub title: String,
    pub content: String,
    pub status: PostStatus,
}

/// Input for updating a post in place; identifier, author and creation
/// timestamp are untouched.
pub struct UpdatePostRequest {
    pub slug: String,
    pub title: String,
    pub content: String,
    pub status: PostStatus,
}

/// The first post in `items` carrying `id`.
pub open spec fn find_post_by_id(items: Seq<Post>, id: i64) -> Option<Post> {
    first_match(items, |p: Post| p.id == id)
}

/// The first post in `items` carrying `slug`. Slugs are not required to be
/// unique, so which post carries a duplicated slug is a fact about insertion
/// order.
pub open spec fn find_post_by_slug(items: Seq<Post>, slug: Seq<char>) -> Option<Post> {
    first_match(items, |p: Post| p.slug@ == slug)
}

/// Well-formedness of a post store: the counter never ran backwards, every
/// identifier was assigned by it, and no identifier is held twice.
pub open spec fn post_store_wf(items: Seq<Post>, counter: int) -> bool {
    &&& 0 <= counter <= i64::MAX
    &&& forall|i: int| 0 <= i < items.len() ==> 1 <= (#[trigger] items[i]).id <= counter
    &&& forall|i: int, j: int|
        0 <= i < j < items.len() ==> (#[trigger] items[i]).id != (#[trigger] items[j]).id
}

/// The post that an insert of `req` at time `now` builds, once the store has
/// assigned `id`: creation and update stamps coincide.
pub open spec fn created_post(req: CreatePostRequest, id: i64, now: i64) -> Post {
    Post {
        id,
        author_id: req.author_id,
        slug: req.slug,
        title: req.title,
        content: req.content,
        status: req.status,
        created: now,
        updated: now,
    }
}

/// The post that an update of `old_p` with `req` at time `now` leaves behind:
/// identifier, author and creation stamp are kept, the update stamp is
/// refreshed, everything else comes from the request.
pub open spec fn updated_post(old_p: Post, req: UpdatePostRequest, now: i64) -> Post {
    Post {
        id: old_p.id,
        author_id: old_p.author_id,
        slug: req.slug,
        title: req.title,
        content: req.content,
        status: req.status,
        created: old_p.created,
        updated: now,
    }
}

/// Exclusive-access mapping from identifier to post, plus the monotonic
/// counter that assigns identifiers. Identifiers are never reused, even after
/// deletion.
pub struct InMemoryPostStore {
    pub counter: i64,
    pub items: Vec<Post>,
}

impl InMemoryPostStore {
    pub open spec fn wf(&self) -> bool {
        post_store_wf(self.items@, self.counter as int)
    }

    /// An empty store; the first insert assigns identifier 1.
    pub fn new() -> (r: Self)
        ensures
            r.wf(),
            r.counter == 0,
            r.items@ == Seq::<Post>::empty(),
    {
        InMemoryPostStore { counter: 0, items: Vec::new() }
    }

    /// Index of the first post carrying `id`, if any.
    fn find_index_by_id(&self, id: i64) -> (r: Option<usize>)
        ensures
            match r {
                Some(j) => j < self.items@.len() && self.items@[j as int].id == id && (forall|
                    k: int,
                |
                    0 <= k < j ==> (#[trigger] self.items@[k]).id != id),
                None => forall|k: int|
                    0 <= k < self.items@.len() ==> (#[trigger] self.items@[k]).id != id,
            },
    {
        let n = self.items.len();
        let mut i: usize = 0;
        while i < n
            invariant
                i <= n == self.items@.len(),
                forall|k: int| 0 <= k < i ==> (#[trigger] self.items@[k]).id != id,
            decreases n - i,
        {
            if self.items[i].id == id {
                return Some(i);
            }
            i = i + 1;
        }
        None
    }

    /// Assigns `counter + 1` as the new post's identifier, stamps
    /// `created == updated == now`, stores the post and returns a copy of it.
    pub fn insert(&mut self, req: CreatePostRequest, now: i64) -> (r: Post)
        requires
            old(self).wf(),
            old(self).counter < i64::MAX,
        ensures
            final(self).wf(),
            final(self).counter == old(self).counter + 1,
            final(self).items@ == old(self).items@.push(
                created_post(req, (old(self).counter + 1) as i64, now),
            ),
            r@ == created_post(req, (old(self).counter + 1) as i64, now)@,
    {
        self.counter = self.counter + 1;
        let post = Post {
            id: self.counter,
            author_id: req.author_id,
            slug: req.slug,
            title: req.title,
            content: req.content,
            status: req.status,
            created: now,
            updated: now,
        };
        let copy = post.clone();
        self.items.push(post);
        copy
    }

    /// A copy of the post carrying `id`, if the store holds one.
    pub fn get_by_id(&self, id: i64) -> (r: Option<Post>)
        ensures
            r is Some <==> find_post_by_id(self.items@, id) is Some,
            r matches Some(p) ==> p@ == find_post_by_id(self.items@, id)->Some_0@,
    {
        match self.find_index_by_id(id) {
            Some(j) => {
                proof {
                    lemma_first_match_at(self.items@, |p: Post| p.id == id, j as int);
                }
                Some(self.items[j].clone())
            },
            None => {
                proof {
                    lemma_first_match_none(self.items@, |p: Post| p.id == id);
                }
                None
            },
        }
    }

    /// A copy of the first post carrying `slug`, if the store holds one.
    pub fn get_by_slug(&self, slug: &String) -> (r: Option<Post>)
        ensures
            r is Some <==> find_post_by_slug(self.items@, slug@) is Some,
            r matches Some(p) ==> p@ == find_post_by_slug(self.items@, slug@)->Some_0@,
    {
        let n = self.items.len();
        let mut i: usize = 0;
        while i < n
            invariant
                i <= n == self.items@.len(),
                forall|k: int| 0 <= k < i ==> (#[trigger] self.items@[k]).slug@ != slug@,
            decreases n - i,
        {
            if self.items[i].slug == *slug {
                proof {
                    lemma_first_match_at(self.items@, |p: Post| p.slug@ == slug@, i as int);
                }
                return Some(self.items[i].clone());
            }
            i = i + 1;
        }
        proof {
            lemma_first_match_none(self.items@, |p: Post| p.slug@ == slug@);
        }
        None
    }

    /// Replaces the mutable fields of the post carrying `id` and refreshes its
    /// update stamp; identifier and creation stamp are untouched. Returns a
    /// copy of the new value, or `None` when no post carries `id` (the store
    /// is then unchanged).
    pub fn update(&mut self, id: i64, req: UpdatePostRequest, now: i64) -> (r: Option<Post>)
        requires
            old(self).wf(),
        ensures
            final(self).wf(),
            final(self).counter == old(self).counter,
            final(self).items@.len() == old(self).items@.len(),
            r is Some <==> find_post_by_id(old(self).items@, id) is Some,
            r is None ==> *final(self) == *old(self),
            forall|k: int|
                0 <= k < old(self).items@.len() && (#[trigger] old(self).items@[k]).id != id
                    ==> final(self).items@[k] == old(self).items@[k],
            forall|k: int|
                0 <= k < old(self).items@.len() && (#[trigger] old(self).items@[k]).id == id
                    ==> final(self).items@[k] == updated_post(old(self).items@[k], req, now),
            r matches Some(p) ==> p@ == updated_post(
                find_post_by_id(old(self).items@, id)->Some_0,
                req,
                now,
            )@,
    {
        match self.find_index_by_id(id) {
            Some(j) => {
                proof {
                    lemma_first_match_at(self.items@, |p: Post| p.id == id, j as int);
                }
                let post = Post {
                    id: self.items[j].id,
                    author_id: self.items[j].author_id,
                    slug: req.slug,
                    title: req.title,
                    content: req.content,
                    status: req.status,
                    created: self.items[j].created,
                    updated: now,
                };
                let copy = post.clone();
                self.items.set(j, post);
                proof {
                    assert forall|k: int|
                        0 <= k < old(self).items@.len() && (#[trigger] old(
                            self,
                        ).items@[k]).id == id implies final(self).items@[k] == updated_post(
                        old(self).items@[k],
                        req,
                        now,
                    ) by {
                        if k != j {
                            assert(old(self).items@[k].id != old(self).items@[j as int].id);
                        }
                    }
                }
                Some(copy)
            },
            None => {
                proof {
                    lemma_first_match_none(self.items@, |p: Post| p.id == id);
                }
                None
            },
        }
    }

    /// Removes the post carrying `id`; `true` exactly when one was held. The
    /// counter is untouched, so the identifier is never handed out again.
    pub fn delete(&mut self, id: i64) -> (r: bool)
        requires
            old(self).wf(),
        ensures
            final(self).wf(),
            final(self).counter == old(self).counter,
            r <==> find_post_by_id(old(self).items@, id) is Some,
            !r ==> *final(self) == *old(self),
            r ==> exists|j: int|
                0 <= j < old(self).items@.len() && (#[trigger] old(self).items@[j]).id == id
                    && final(self).items@ == old(self).items@.remove(j),
    {
        match self.find_index_by_id(id) {
            Some(j) => {
                proof {
                    lemma_first_match_at(self.items@, |p: Post| p.id == id, j as int);
                }
                self.items.remove(j);
                proof {
                    assert(final(self).items@ == old(self).items@.remove(j as int));
                }
                true
            },
            None => {
                proof {
                    lemma_first_match_none(self.items@, |p: Post| p.id == id);
                }
                false
            },
        }
    }

    /// Copies of all posts, in insertion order (a snapshot; callers never
    /// alias the store's own values).
    pub fn list(&self) -> (r: Vec<Post>)
        ensures
            r@.len() == self.items@.len(),
            forall|k: int| 0 <= k < r@.len() ==> (#[trigger] r@[k])@ == self.items@[k]@,
    {
        let n = self.items.len();
        let mut out: Vec<Post> = Vec::new();
        let mut i: usize = 0;
        while i < n
            invariant
                i <= n == self.items@.len(),
                out@.len() == i,
                forall|k: int| 0 <= k < i ==> (#[trigger] out@[k])@ == self.items@[k]@,
            decreases n - i,
        {
            out.push(self.items[i].clone());
            i = i + 1;
        }
        out
    }
}

/// The service interface the request pipeline is written against: the five
/// resource operations plus the listing, each with the contract any backend
/// owes its callers. Backend selection is a construction-time decision
/// injected into the pipeline.
pub trait PostService: Sized {
    /// The posts this backend currently holds, in insertion order.
    spec fn posts(&self) -> Seq<Post>;

    /// The highest identifier this backend ever assigned.
    spec fn counter(&self) -> int;

    open spec fn wf(&self) -> bool {
        post_store_wf(self.posts(), self.counter())
    }

    /// Stores a new post; never fails. The post's identifier is one above the
    /// highest ever assigned, and its two timestamps are both `now`.
    fn create_post(&mut self, req: CreatePostRequest, now: i64) -> (r: Result<Post, ServiceError>)
        requires
            old(self).wf(),
            old(self).counter() < i64::MAX,
        ensures
            final(self).wf(),
            final(self).counter() == old(self).counter() + 1,
            final(self).posts() == old(self).posts().push(
                created_post(req, (old(self).counter() + 1) as i64, now),
            ),
            r matches Ok(p) && p@ == created_post(req, (old(self).counter() + 1) as i64, now)@,
    ;

    /// The post carrying `id`, or `NotFound` naming the identifier.
    fn get_post_by_id(&self, id: i64) -> (r: Result<Post, ServiceError>)
        ensures
            r is Ok <==> find_post_by_id(self.posts(), id) is Some,
            r matches Ok(p) ==> p@ == find_post_by_id(self.posts(), id)->Some_0@,
            r is Err ==> r == Err::<Post, ServiceError>(
                ServiceError::NotFound(ResourceKind::Post, LookupKey::Id(id)),
            ),
    ;

    /// The first post carrying `slug`, or `NotFound` naming the slug.
    fn get_post_by_slug(&self, slug: &String) -> (r: Result<Post, ServiceError>)
        ensures
            r is Ok <==> find_post_by_slug(self.posts(), slug@) is Some,
            r matches Ok(p) ==> p@ == find_post_by_slug(self.posts(), slug@)->Some_0@,
            r matches Err(e) ==> (e matches ServiceError::NotFound(k, key) && k
                == ResourceKind::Post && (key matches LookupKey::Name(s) && s@ == slug@)),
    ;

    /// Updates the post carrying `id` in place, or `NotFound` naming the
    /// identifier (the backend is then unchanged).
    fn update_post(&mut self, id: i64, req: UpdatePostRequest, now: i64) -> (r: Result<
        Post,
        ServiceError,
    >)
        requires
            old(self).wf(),
        ensures
            final(self).wf(),
            final(self).counter() == old(self).counter(),
            final(self).posts().len() == old(self).posts().len(),
            r is Ok <==> find_post_by_id(old(self).posts(), id) is Some,
            r is Err ==> *final(self) == *old(self) && r == Err::<
                Post,
                ServiceError,
            >(ServiceError::NotFound(ResourceKind::Post, LookupKey::Id(id))),
            forall|k: int|
                0 <= k < old(self).posts().len() && (#[trigger] old(self).posts()[k]).id != id
                    ==> final(self).posts()[k] == old(self).posts()[k],
            forall|k: int|
                0 <= k < old(self).posts().len() && (#[trigger] old(self).posts()[k]).id == id
                    ==> final(self).posts()[k] == updated_post(old(self).posts()[k], req, now),
            r matches Ok(p) ==> p@ == updated_post(
                find_post_by_id(old(self).posts(), id)->Some_0,
                req,
                now,
            )@,
    ;

    /// Removes the post carrying `id`, or `NotFound` naming the identifier
    /// (the backend is then unchanged). The identifier is never handed out
    /// again.
    fn delete_post(&mut self, id: i64) -> (r: Result<(), ServiceError>)
        requires
            old(self).wf(),
        ensures
            final(self).wf(),
            final(self).counter() == old(self).counter(),
            r is Ok <==> find_post_by_id(old(self).posts(), id) is Some,
            r is Err ==> *final(self) == *old(self) && r == Err::<
                (),
                ServiceError,
            >(ServiceError::NotFound(ResourceKind::Post, LookupKey::Id(id))),
            r is Ok ==> exists|j: int|
                0 <= j < old(self).posts().len() && (#[trigger] old(self).posts()[j]).id == id
                    && final(self).posts() == old(self).posts().remove(j),
    ;

    /// Copies of all posts: a snapshot of the backend at call time, in
    /// insertion order. Never fails.
    fn get_all_posts(&self) -> (r: Result<Vec<Post>, ServiceError>)
        ensures
            r matches Ok(v) && v@.len() == self.posts().len() && (forall|k: int|
                0 <= k < v@.len() ==> (#[trigger] v@[k])@ == self.posts()[k]@),
    ;
}

/// The in-memory post service: the only component the request pipeline
/// invokes. It owns the store and wraps "not found" into the domain failure
/// taxonomy, with the key that missed. It performs no business validation
/// beyond what the store guarantees.
pub struct InMemoryPostService {
    data: InMemoryPostStore,
}

impl InMemoryPostService {
    /// A service over an empty store.
    pub fn new() -> (r: Self)
        ensures
            r.wf(),
            r.counter() == 0,
            r.posts() == Seq::<Post>::empty(),
    {
        InMemoryPostService { data: InMemoryPostStore::new() }
    }

    /// The highest identifier ever assigned (the store's counter); the next
    /// insert assigns one more. Callers check this against `i64::MAX` before
    /// creating.
    pub fn last_assigned_id(&self) -> (r: i64)
        ensures
            r as int == self.counter(),
    {
        self.data.counter
    }
}

impl PostService for InMemoryPostService {
    closed spec fn posts(&self) -> Seq<Post> {
        self.data.items@
    }

    closed spec fn counter(&self) -> int {
        self.data.counter as int
    }

    fn create_post(&mut self, req: CreatePostRequest, now: i64) -> (r: Result<
        Post,
        ServiceError,
    >) {
        Ok(self.data.insert(req, now))
    }

    fn get_post_by_id(&self, id: i64) -> (r: Result<Post, ServiceError>) {
        match self.data.get_by_id(id) {
            Some(p) => Ok(p),
            None => Err(ServiceError::NotFound(ResourceKind::Post, LookupKey::Id(id))),
        }
    }

    fn get_post_by_slug(&self, slug: &String) -> (r: Result<Post, ServiceError>) {
        match self.data.get_by_slug(slug) {
            Some(p) => Ok(p),
            None => Err(
                ServiceError::NotFound(ResourceKind::Post, LookupKey::Name(slug.clone())),
            ),
        }
    }

    fn update_post(&mut self, id: i64, req: UpdatePostRequest, now: i64) -> (r: Result<
        Post,
        ServiceError,
    >) {
        match self.data.update(id, req, now) {
            Some(p) => Ok(p),
            None => Err(ServiceError::NotFound(ResourceKind::Post, LookupKey::Id(id))),
        }
    }

    fn delete_post(&mut self, id: i64) -> (r: Result<(), ServiceError>) {
        if self.data.delete(id) {
            Ok(())
        } else {
            Err(ServiceError::NotFound(ResourceKind::Post, LookupKey::Id(id)))
        }
    }

    fn get_all_posts(&self) -> (r: Result<Vec<Post>, ServiceError>) {
        Ok(self.data.list())
    }
}

impl Default for InMemoryPostService {
    /// A service over an empty store.
    fn default() -> (r: Self)
        ensures
            r.wf(),
            r.counter() == 0,
            r.posts() == Seq::<Post>::empty(),
    {
        InMemoryPostService::new()
    }
}

} // verus!
