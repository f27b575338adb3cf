//! Domain entities: posts and users, their status enumerations, and the
//! numeric wire codes those statuses travel as.
//!
//! Timestamps are Unix seconds (UTC), held as `i64` exactly as the clock
//! reports them.
use vstd::prelude::*;

verus! {

/// Lifecycle state of a user account.
#[derive(Clone, Copy, Debug, PartialEq, Eq, Structural)]
pub enum UserStatus {
    Active,
    Blocked,
}

/// Publication state of a post.
#[derive(Clone, Copy, Debug, PartialEq, Eq, Structural)]
pub enum PostStatus {
    Draft,
    Published,
}

/// Numeric wire code of a user status.
pub open spec fn user_status_code(s: UserStatus) -> i32 {
    match s {
        UserStatus::Active => 1,
        UserStatus::Blocked => 2,
    }
}

/// User status decoded from its numeric wire code; unknown codes fall back
/// to `Active`.
pub open spec fn user_status_from_code(v: i32) -> UserStatus {
    if v == 2 {
        UserStatus::Blocked
    } else {
        UserStatus::Active
    }
}

/// Numeric wire code of a post status.
pub open spec fn post_status_code(s: PostStatus) -> i32 {
    match s {
        PostStatus::Draft => 1,
        PostStatus::Published => 2,
    }
}

/// Post status decoded from its numeric wire code; unknown codes fall back
/// to `Draft`.
pub open spec fn post_status_from_code(v: i32) -> PostStatus {
    if v == 2 {
        PostStatus::Published
    } else {
        PostStatus::Draft
    }
}

impl From<i32> for UserStatus {
    fn from(value: i32) -> (r: Self) {
        match value {
            2 => UserStatus::Blocked,
            _ => UserStatus::Active,
        }
    }
}

impl vstd::std_specs::convert::FromSpecImpl<i32> for UserStatus {
    open spec fn obeys_from_spec() -> bool {
        true
    }

    open spec fn from_spec(v: i32) -> Self {
        user_status_from_code(v)
    }
}

impl From<UserStatus> for i32 {
    fn from(value: UserStatus) -> (r: Self) {
        match value {
            UserStatus::Active => 1,
            UserStatus::Blocked => 2,
        }
    }
}

impl vstd::std_specs::convert::FromSpecImpl<UserStatus> for i32 {
    open spec fn obeys_from_spec() -> bool {
        true
    }

    open spec fn from_spec(v: UserStatus) -> Self {
        user_status_code(v)
    }
}

impl From<i32> for PostStatus {
    fn from(value: i32) -> (r: Self) {
        match value {
            2 => PostStatus::Published,
            _ => PostStatus::Draft,
        }
    }
}

impl vstd::std_specs::convert::FromSpecImpl<i32> for PostStatus {
    open spec fn obeys_from_spec() -> bool {
        true
    }

    open spec fn from_spec(v: i32) -> Self {
        post_status_from_code(v)
    }
}

impl From<PostStatus> for i32 {
    fn from(value: PostStatus) -> (r: Self) {
        match value {
            PostStatus::Draft => 1,
            PostStatus::Published => 2,
        }
    }
}

impl vstd::std_specs::convert::FromSpecImpl<PostStatus> for i32 {
    open spec fn obeys_from_spec() -> bool {
        true
    }

    open spec fn from_spec(v: PostStatus) -> Self {
        post_status_code(v)
    }
}

/// A post: the resource managed by the post store. The identifier is assigned
/// by the store on creation and never changes; `created` is set once and
/// `updated` refreshed on every mutation.
#[derive(Debug)]
pub struct Post {
    pub id: i64,
    pub author_id: i64,
    pub slug: String,
    pub title: String,
    pub content: String,
    pub status: PostStatus,
    pub created: i64,
    pub updated: i64,
}

/// The mathematical value of a post: its strings as character sequences,
/// everything else as itself.
pub ghost struct PostView {
    pub id: i64,
    pub author_id: i64,
    pub slug: Seq<char>,
    pub title: Seq<char>,
    pub content: Seq<char>,
    pub status: PostStatus,
    pub created: i64,
    pub updated: i64,
}

impl View for Post {
    type V = PostView;

    open spec fn view(&self) -> PostView {
        PostView {
            id: self.id,
            author_id: self.author_id,
            slug: self.slug@,
            title: self.title@,
            content: self.content@,
            status: self.status,
            created: self.created,
            updated: self.updated,
        }
    }
}

impl Clone for Post {
    /// A cloned post carries the same value as the original.
    fn clone(&self) -> (r: Self)
        ensures
            r@ == self@,
    {
        Post {
            id: self.id,
            author_id: self.author_id,
            slug: self.slug.clone(),
            title: self.title.clone(),
            content: self.content.clone(),
            status: self.status,
            created: self.created,
            updated: self.updated,
        }
    }
}

impl PartialEq for Post {
    fn eq(&self, other: &Post) -> (r: bool) {
        self.id == other.id && self.author_id == other.author_id && self.slug == other.slug
            && self.title == other.title && self.content == other.content && self.status
            == other.status && self.created == other.created && self.updated == other.updated
    }
}

impl vstd::std_specs::cmp::PartialEqSpecImpl for Post {
    open spec fn obeys_eq_spec() -> bool {
        true
    }

    open spec fn eq_spec(&self, other: &Post) -> bool {
        self.id == other.id && self.author_id == other.author_id && self.slug@ == other.slug@
            && self.title@ == other.title@ && self.content@ == other.content@ && self.status
            == other.status && self.created == other.created && self.updated == other.updated
    }
}

/// A user account managed by the user store.
#[derive(Debug)]
pub struct User {
    pub id: i64,
    pub username: String,
    pub password: String,
    pub status: UserStatus,
    pub created: i64,
    pub updated: i64,
    pub last_login: Option<i64>,
}

/// The mathematical value of a user account.
pub ghost struct UserView {
    pub id: i64,
    pub username: Seq<char>,
    pub password: Seq<char>,
    pub status: UserStatus,
    pub created: i64,
    pub updated: i64,
    pub last_login: Option<i64>,
}

impl View for User {
    type V = UserView;

    open spec fn view(&self) -> UserView {
        UserView {
            id: self.id,
            username: self.username@,
            password: self.password@,
            status: self.status,
            created: self.created,
            updated: self.updated,
            last_login: self.last_login,
        }
    }
}

impl Clone for User {
    /// A cloned user carries the same value as the original.
    fn clone(&self) -> (r: Self)
        ensures
            r@ == self@,
    {
        User {
            id: self.id,
            username: self.username.clone(),
            password: self.password.clone(),
            status: self.status,
            created: self.created,
            updated: self.updated,
            last_login: self.last_login,
        }
    }
}

impl PartialEq for User {
    fn eq(&self, other: &User) -> (r: bool) {
        self.id == other.id && self.username == other.username && self.password == other.password
            && self.status == other.status && self.created == other.created && self.updated
            == other.updated && self.last_login == other.last_login
    }
}

impl vstd::std_specs::cmp::PartialEqSpecImpl for User {
    open spec fn obeys_eq_spec() -> bool {
        true
    }

    open spec fn eq_spec(&self, other: &User) -> bool {
        self.id == other.id && self.username@ == other.username@ && self.password@
            == other.password@ && self.status == other.status && self.created == other.created
            && self.updated == other.updated && self.last_login == other.last_login
    }
}

} // verus!
