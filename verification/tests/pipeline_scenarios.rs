//! Scenarios against the request pipeline: login, each named operation behind
//! its gate, and the mapping of failures to status codes.
use blog_core::handlers::{create, delete, get, issue_login, list, login, update};
use blog_core::model::{PostStatus, UserStatus};
use blog_core::password::encrypt_password;
use blog_core::posts::{CreatePostRequest, UpdatePostRequest};
use blog_core::settings::{ConfigInfo, Database, Logging, Settings};
use blog_core::state::ApplicationState;
use blog_core::users::{CreateUserRequest, UserService};

fn settings_with_secret(secret: &str) -> Settings {
    Settings {
        database: Database { url: None },
        logging: Logging { log_level: None },
        config: ConfigInfo { location: None, env_prefix: None },
        token_secret: Some(String::from(secret)),
        token_timeout_seconds: Some(3600),
    }
}

fn create_request(slug: &str) -> CreatePostRequest {
    CreatePostRequest {
        author_id: 1,
        slug: String::from(slug),
        title: String::from("Hello"),
        content: String::from("content"),
        status: PostStatus::Draft,
    }
}

/// A bearer header carrying a freshly signed claim under `secret`.
/// Authorization looks at the signature and expiry, not at the user store.
fn issued_header(secret: &str, username: &str) -> Option<String> {
    let response = issue_login(
        &settings_with_secret(secret),
        String::from(username),
        chrono::Utc::now().timestamp(),
    );
    Some(format!("Bearer {}", response.token))
}

/// Seeds a user whose stored password is the argon2 hash of `password`.
fn seed_user(state: &mut ApplicationState, username: &str, password: &str) {
    let hash = encrypt_password(password).expect("hashing succeeds");
    state
        .user_service
        .create_user(
            CreateUserRequest {
                username: String::from(username),
                password: hash,
                status: UserStatus::Active,
            },
            1,
        )
        .expect("create never fails");
}

#[test]
fn login_rejects_unknown_user_and_wrong_password() {
    let mut state = ApplicationState::new(&settings_with_secret("s1"));

    let err = login(&state, String::from("alice"), &String::from("pw")).expect_err("no users yet");
    assert_eq!(err.status, 401);
    assert_eq!(err.message, "Invalid username or password");

    seed_user(&mut state, "alice", "pw");
    let err = login(&state, String::from("alice"), &String::from("wrong"))
        .expect_err("wrong password");
    assert_eq!(err.status, 401);
    assert_eq!(err.message, "Invalid username or password");
    let err = login(&state, String::from("bob"), &String::from("pw"))
        .expect_err("unknown user, same message");
    assert_eq!(err.message, "Invalid username or password");
}

#[test]
fn login_with_correct_credentials_issues_a_working_token() {
    let mut state = ApplicationState::new(&settings_with_secret("s1"));
    seed_user(&mut state, "alice", "pw");

    let response =
        login(&state, String::from("alice"), &String::from("pw")).expect("correct credentials");
    assert_eq!(response.status, "success");
    assert!(!response.token.is_empty());

    let header = Some(format!("Bearer {}", response.token));
    let claims = blog_core::auth::authorize(
        &settings_with_secret("s1"),
        &header,
        chrono::Utc::now().timestamp(),
    )
    .expect("fresh token under the same secret");
    assert_eq!(claims.sub, "alice");
    assert_eq!(claims.exp, claims.iat + 3600);

    let created = create(&mut state, &header, create_request("hello"))
        .expect("create with the login's token succeeds");
    assert_eq!(created.data.id, 1);
}

#[test]
fn create_without_token_is_unauthorized() {
    let mut state = ApplicationState::new(&settings_with_secret("s1"));
    let err = create(&mut state, &None, create_request("hello")).expect_err("no token");
    assert_eq!(err.status, 401);
    assert_eq!(err.message, "Missing bearer token");
    assert!(list(&state).expect("list never fails").data.is_empty());
}

#[test]
fn create_with_tampered_token_is_unauthorized() {
    let mut state = ApplicationState::new(&settings_with_secret("s1"));
    let header = issued_header("s1", "alice").map(|h| {
        let mut bytes = h.into_bytes();
        let flip = bytes.len() - 3;
        bytes[flip] = if bytes[flip] == b'A' { b'B' } else { b'A' };
        String::from_utf8(bytes).expect("still ASCII")
    });
    let err = create(&mut state, &header, create_request("hello")).expect_err("tampered");
    assert_eq!(err.status, 401);
    assert_eq!(err.message, "Invalid bearer token");
}

#[test]
fn authorized_crud_roundtrip_through_pipeline() {
    let mut state = ApplicationState::new(&settings_with_secret("s1"));
    seed_user(&mut state, "alice", "pw");
    let token = login(&state, String::from("alice"), &String::from("pw"))
        .expect("correct credentials")
        .token;
    let header = Some(format!("Bearer {token}"));

    let created = create(&mut state, &header, create_request("hello")).expect("authorized");
    assert_eq!(created.data.id, 1);
    assert_eq!(created.data.created, created.data.updated);

    let fetched = get(&state, &String::from("hello")).expect("slug present");
    assert_eq!(fetched.data, created.data);

    let updated = update(
        &mut state,
        &header,
        1,
        UpdatePostRequest {
            slug: String::from("hello-2"),
            title: String::from("Hello 2"),
            content: String::from("content 2"),
            status: PostStatus::Published,
        },
    )
    .expect("authorized and present");
    assert_eq!(updated.data.id, 1);
    assert_eq!(updated.data.created, created.data.created);
    assert_eq!(updated.data.slug, "hello-2");
    assert!(matches!(updated.data.status, PostStatus::Published));

    let listed = list(&state).expect("list never fails");
    assert_eq!(listed.data.len(), 1);
    assert_eq!(listed.data[0], updated.data);

    delete(&mut state, &header, 1).expect("authorized and present");
    assert!(list(&state).expect("list never fails").data.is_empty());

    let err = get(&state, &String::from("hello-2")).expect_err("deleted");
    assert_eq!(err.status, 404);
    assert_eq!(err.message, "Post not found: hello-2");
}

#[test]
fn update_and_delete_of_missing_post_are_not_found() {
    let mut state = ApplicationState::new(&settings_with_secret("s1"));
    let header = issued_header("s1", "alice");

    let err = update(
        &mut state,
        &header,
        9,
        UpdatePostRequest {
            slug: String::from("x"),
            title: String::from("X"),
            content: String::from("x"),
            status: PostStatus::Draft,
        },
    )
    .expect_err("nothing stored");
    assert_eq!(err.status, 404);
    assert_eq!(err.message, "Post not found: 9");

    let err = delete(&mut state, &header, 9).expect_err("nothing stored");
    assert_eq!(err.status, 404);
    assert_eq!(err.message, "Post not found: 9");
}

#[test]
fn gate_rejects_before_the_service_is_reached() {
    let mut state = ApplicationState::new(&settings_with_secret("s1"));
    let header = issued_header("s1", "alice");
    create(&mut state, &header, create_request("kept")).expect("authorized");

    let err = update(
        &mut state,
        &None,
        1,
        UpdatePostRequest {
            slug: String::from("clobbered"),
            title: String::from("X"),
            content: String::from("x"),
            status: PostStatus::Draft,
        },
    )
    .expect_err("no token");
    assert_eq!(err.status, 401);
    let err = delete(&mut state, &None, 1).expect_err("no token");
    assert_eq!(err.status, 401);

    let untouched = get(&state, &String::from("kept")).expect("still present");
    assert_eq!(untouched.data.slug, "kept");
}

#[test]
fn reloading_the_secret_invalidates_old_tokens() {
    let mut state = ApplicationState::new(&settings_with_secret("s1"));
    let header = issued_header("s1", "alice");
    create(&mut state, &header, create_request("before")).expect("authorized under s1");

    state.reload_settings(settings_with_secret("s2"));
    let err = create(&mut state, &header, create_request("after")).expect_err("secret changed");
    assert_eq!(err.status, 401);
    assert_eq!(err.message, "Invalid bearer token");

    let fresh = issued_header("s2", "alice");
    create(&mut state, &fresh, create_request("after")).expect("authorized under s2");
    assert_eq!(list(&state).expect("list never fails").data.len(), 2);
}

#[test]
fn reads_are_ungated() {
    let state = ApplicationState::new(&settings_with_secret("s1"));
    assert!(list(&state).expect("list never fails").data.is_empty());
    let err = get(&state, &String::from("anything")).expect_err("empty store");
    assert_eq!(err.status, 404);
}
