//! Scenarios against the post and user stores and services, with explicit
//! clock values.
use blog_core::errors::{LookupKey, ResourceKind, ServiceError};
use blog_core::model::{PostStatus, UserStatus};
use blog_core::posts::{
    CreatePostRequest, InMemoryPostService, InMemoryPostStore, PostService, UpdatePostRequest,
};
use blog_core::users::{CreateUserRequest, InMemoryUserService, UpdateUserRequest, UserService};

fn post_request(slug: &str, title: &str, status: PostStatus) -> CreatePostRequest {
    CreatePostRequest {
        author_id: 1,
        slug: String::from(slug),
        title: String::from(title),
        content: String::from("content"),
        status,
    }
}

#[test]
fn insert_update_delete_list_roundtrip() {
    let mut store = InMemoryPostStore::new();

    let post = store.insert(post_request("hello", "Hello", PostStatus::Draft), 100);
    assert_eq!(post.id, 1);
    assert_eq!(post.created, post.updated);
    assert!(matches!(post.status, PostStatus::Draft));

    let updated = store
        .update(
            1,
            UpdatePostRequest {
                slug: String::from("hello"),
                title: String::from("Hello"),
                content: String::from("content"),
                status: PostStatus::Published,
            },
            200,
        )
        .expect("post 1 is present");
    assert!(matches!(updated.status, PostStatus::Published));
    assert!(updated.updated > updated.created);
    assert_eq!(updated.created, 100);

    assert!(store.delete(1));
    assert!(store.get_by_id(1).is_none());
    assert!(store.list().is_empty());
}

#[test]
fn insert_assigns_distinct_consecutive_ids() {
    let mut store = InMemoryPostStore::new();
    let mut ids = Vec::new();
    for i in 0..5 {
        let post = store.insert(post_request(&format!("slug-{i}"), "T", PostStatus::Draft), 10);
        ids.push(post.id);
    }
    assert_eq!(ids, vec![1, 2, 3, 4, 5]);
    for i in 0..5 {
        for j in 0..5 {
            if i != j {
                assert_ne!(ids[i], ids[j]);
            }
        }
    }
}

#[test]
fn identifiers_are_not_reused_after_delete() {
    let mut store = InMemoryPostStore::new();
    let first = store.insert(post_request("a", "A", PostStatus::Draft), 10);
    assert!(store.delete(first.id));
    let second = store.insert(post_request("b", "B", PostStatus::Draft), 20);
    assert_eq!(second.id, 2);
}

#[test]
fn read_your_write_returns_equal_post() {
    let mut store = InMemoryPostStore::new();
    let inserted = store.insert(post_request("fresh", "Fresh", PostStatus::Published), 42);
    let read = store.get_by_id(inserted.id).expect("just inserted");
    assert_eq!(read, inserted);
}

#[test]
fn get_by_slug_returns_first_match() {
    let mut store = InMemoryPostStore::new();
    store.insert(post_request("dup", "First", PostStatus::Draft), 1);
    store.insert(post_request("dup", "Second", PostStatus::Draft), 2);
    let found = store.get_by_slug(&String::from("dup")).expect("slug present");
    assert_eq!(found.id, 1);
    assert_eq!(found.title, "First");
    assert!(store.get_by_slug(&String::from("missing")).is_none());
}

#[test]
fn update_leaves_other_posts_alone() {
    let mut store = InMemoryPostStore::new();
    store.insert(post_request("one", "One", PostStatus::Draft), 1);
    store.insert(post_request("two", "Two", PostStatus::Draft), 1);
    store
        .update(
            2,
            UpdatePostRequest {
                slug: String::from("two-b"),
                title: String::from("Two B"),
                content: String::from("content"),
                status: PostStatus::Draft,
            },
            5,
        )
        .expect("post 2 is present");
    let untouched = store.get_by_id(1).expect("post 1 is present");
    assert_eq!(untouched.slug, "one");
    assert_eq!(untouched.updated, 1);
}

#[test]
fn update_missing_post_changes_nothing() {
    let mut store = InMemoryPostStore::new();
    store.insert(post_request("only", "Only", PostStatus::Draft), 1);
    let miss = store.update(
        9,
        UpdatePostRequest {
            slug: String::from("x"),
            title: String::from("X"),
            content: String::from("x"),
            status: PostStatus::Draft,
        },
        5,
    );
    assert!(miss.is_none());
    assert_eq!(store.list().len(), 1);
    assert!(!store.delete(9));
}

#[test]
fn insert_at_largest_counter_value() {
    let mut store = InMemoryPostStore::new();
    store.counter = i64::MAX - 1;
    let post = store.insert(post_request("last", "Last", PostStatus::Draft), 7);
    assert_eq!(post.id, i64::MAX);
}

#[test]
fn post_service_wraps_not_found_with_key() {
    let mut service = InMemoryPostService::new();
    let err = service.get_post_by_id(42).expect_err("store is empty");
    assert_eq!(err.message(), "Post not found: 42");
    assert!(matches!(
        err,
        ServiceError::NotFound(ResourceKind::Post, LookupKey::Id(42))
    ));

    let err = service
        .get_post_by_slug(&String::from("nothing"))
        .expect_err("store is empty");
    assert_eq!(err.message(), "Post not found: nothing");

    let err = service.delete_post(7).expect_err("store is empty");
    assert_eq!(err.message(), "Post not found: 7");

    let created = service
        .create_post(post_request("s", "T", PostStatus::Draft), 3)
        .expect("create never fails");
    assert_eq!(created.id, 1);
    let listed = service.get_all_posts().expect("list never fails");
    assert_eq!(listed.len(), 1);
    assert_eq!(listed[0], created);
}

#[test]
fn user_service_roundtrip_and_not_found_messages() {
    let mut service = InMemoryUserService::new();
    let user = service
        .create_user(
            CreateUserRequest {
                username: String::from("alice"),
                password: String::from("hash"),
                status: UserStatus::Active,
            },
            50,
        )
        .expect("create never fails");
    assert_eq!(user.id, 1);
    assert_eq!(user.created, user.updated);
    assert!(user.last_login.is_none());

    let by_name = service
        .get_user_by_name(&String::from("alice"))
        .expect("alice is present");
    assert_eq!(by_name, user);

    let updated = service
        .update_user(
            1,
            UpdateUserRequest {
                username: String::from("alice"),
                password: String::from("hash2"),
                status: UserStatus::Blocked,
                last_login: Some(60),
            },
            60,
        )
        .expect("user 1 is present");
    assert_eq!(updated.created, 50);
    assert_eq!(updated.updated, 60);
    assert_eq!(updated.last_login, Some(60));
    assert!(matches!(updated.status, UserStatus::Blocked));

    let err = service.get_user_by_id(9).expect_err("no user 9");
    assert_eq!(err.message(), "User not found: 9");
    let err = service
        .get_user_by_name(&String::from("bob"))
        .expect_err("no bob");
    assert_eq!(err.message(), "User not found: bob");

    service.delete_user(1).expect("user 1 is present");
    assert!(service.get_user_by_id(1).is_err());
}

#[test]
fn status_codes_roundtrip() {
    assert_eq!(i32::from(PostStatus::Draft), 1);
    assert_eq!(i32::from(PostStatus::Published), 2);
    assert!(matches!(PostStatus::from(1), PostStatus::Draft));
    assert!(matches!(PostStatus::from(2), PostStatus::Published));
    assert!(matches!(PostStatus::from(99), PostStatus::Draft));
    assert_eq!(i32::from(UserStatus::Active), 1);
    assert_eq!(i32::from(UserStatus::Blocked), 2);
    assert!(matches!(UserStatus::from(1), UserStatus::Active));
    assert!(matches!(UserStatus::from(2), UserStatus::Blocked));
    assert!(matches!(UserStatus::from(0), UserStatus::Active));
}

#[test]
fn default_services_start_empty() {
    let post_service = InMemoryPostService::default();
    assert_eq!(post_service.last_assigned_id(), 0);
    assert!(post_service.get_all_posts().expect("list never fails").is_empty());

    let mut user_service = InMemoryUserService::default();
    assert_eq!(user_service.last_assigned_id(), 0);
    assert!(user_service.get_user_by_id(1).is_err());
    user_service
        .create_user(
            CreateUserRequest {
                username: String::from("first"),
                password: String::from("hash"),
                status: UserStatus::Active,
            },
            1,
        )
        .expect("create never fails");
    assert_eq!(user_service.last_assigned_id(), 1);
}

#[test]
fn internal_error_keeps_its_cause() {
    let err = ServiceError::Internal(String::from("backend unreachable"));
    assert_eq!(err.message(), "backend unreachable");
}
