//! Scenarios against the login flow, the authentication gate and the
//! configuration holder, with the real token library linked.
use blog_core::auth::{authorize, extract_bearer};
use blog_core::errors::AuthError;
use blog_core::handlers::issue_login;
use blog_core::settings::{ConfigInfo, Database, Logging, Settings};
use blog_core::state::ConfigHolder;

fn settings_with_secret(secret: &str, timeout: i64) -> Settings {
    Settings {
        database: Database { url: None },
        logging: Logging { log_level: None },
        config: ConfigInfo { location: None, env_prefix: None },
        token_secret: Some(String::from(secret)),
        token_timeout_seconds: Some(timeout),
    }
}

fn recent_now() -> i64 {
    chrono::Utc::now().timestamp()
}

#[test]
fn issued_token_carries_the_subject_and_window() {
    let settings = settings_with_secret("top-secret", 3600);
    let now = recent_now();
    let response = issue_login(&settings, String::from("alice"), now);
    assert_eq!(response.status, "success");
    assert!(!response.token.is_empty());

    let header = Some(format!("Bearer {}", response.token));
    let claims = authorize(&settings, &header, now).expect("fresh token under the same secret");
    assert_eq!(claims.sub, "alice");
    assert_eq!(claims.iat as i64, now);
    assert_eq!(claims.exp, claims.iat + 3600);
}

#[test]
fn missing_header_is_rejected() {
    let settings = settings_with_secret("top-secret", 3600);
    let err = authorize(&settings, &None, recent_now()).expect_err("no header");
    assert!(matches!(err, AuthError::MissingToken));
    assert_eq!(err.message(), "Missing bearer token");
}

#[test]
fn header_without_bearer_prefix_is_rejected() {
    let settings = settings_with_secret("top-secret", 3600);
    let err = authorize(&settings, &Some(String::from("Basic abc")), recent_now())
        .expect_err("not a bearer header");
    assert!(matches!(err, AuthError::MissingToken));
    let err =
        authorize(&settings, &Some(String::from("Bear")), recent_now()).expect_err("too short");
    assert!(matches!(err, AuthError::MissingToken));
}

#[test]
fn malformed_token_is_rejected() {
    let settings = settings_with_secret("top-secret", 3600);
    let err = authorize(&settings, &Some(String::from("Bearer garbage")), recent_now())
        .expect_err("not a token");
    assert!(matches!(err, AuthError::InvalidToken));
    assert_eq!(err.message(), "Invalid bearer token");
}

#[test]
fn token_tampered_in_one_byte_is_rejected() {
    let settings = settings_with_secret("top-secret", 3600);
    let response = issue_login(&settings, String::from("alice"), recent_now());
    let token = response.token;
    let dot = token.rfind('.').expect("a signed token has a signature part");
    let flip = dot + 3;
    let mut bytes = token.clone().into_bytes();
    bytes[flip] = if bytes[flip] == b'A' { b'B' } else { b'A' };
    let tampered = String::from_utf8(bytes).expect("still ASCII");
    assert_ne!(tampered, token);

    let err = authorize(&settings, &Some(format!("Bearer {tampered}")), recent_now())
        .expect_err("signature no longer matches");
    assert!(matches!(err, AuthError::InvalidToken));
}

#[test]
fn token_under_wrong_secret_is_rejected() {
    let settings = settings_with_secret("top-secret", 3600);
    let response = issue_login(&settings, String::from("alice"), recent_now());
    let other = settings_with_secret("other-secret", 3600);
    let err = authorize(&other, &Some(format!("Bearer {}", response.token)), recent_now())
        .expect_err("different secret");
    assert!(matches!(err, AuthError::InvalidToken));
}

#[test]
fn expired_token_is_rejected() {
    let settings = settings_with_secret("top-secret", 3600);
    let long_ago = 1_000_000;
    let response = issue_login(&settings, String::from("alice"), long_ago);
    let err = authorize(&settings, &Some(format!("Bearer {}", response.token)), recent_now())
        .expect_err("expiry is decades in the past");
    assert!(matches!(err, AuthError::InvalidToken));
}

#[test]
fn expiry_leeway_is_sixty_seconds() {
    let now = recent_now();
    let within = settings_with_secret("top-secret", -30);
    let response = issue_login(&within, String::from("alice"), now);
    let claims = authorize(&within, &Some(format!("Bearer {}", response.token)), now)
        .expect("thirty seconds past expiry is within the leeway");
    assert_eq!(claims.exp as i64, now - 30);

    let beyond = settings_with_secret("top-secret", -90);
    let response = issue_login(&beyond, String::from("alice"), now);
    let err = authorize(&beyond, &Some(format!("Bearer {}", response.token)), now)
        .expect_err("ninety seconds past expiry is beyond the leeway");
    assert!(matches!(err, AuthError::InvalidToken));
}

#[test]
fn unset_secret_falls_back_to_weak_default() {
    let unset = Settings::empty();
    assert_eq!(unset.effective_secret(), "secret");
    assert_eq!(unset.effective_timeout(), 3600);

    let response = issue_login(&unset, String::from("bob"), recent_now());
    let claims = authorize(&unset, &Some(format!("Bearer {}", response.token)), recent_now())
        .expect("both sides fell back to the same default");
    assert_eq!(claims.sub, "bob");

    let explicit = settings_with_secret("secret", 120);
    let response = issue_login(&explicit, String::from("carol"), recent_now());
    let claims = authorize(&unset, &Some(format!("Bearer {}", response.token)), recent_now())
        .expect("explicit secret equals the fallback");
    assert_eq!(claims.exp, claims.iat + 120);
}

#[test]
fn extract_bearer_strips_exactly_the_prefix() {
    assert_eq!(
        extract_bearer(&Some(String::from("Bearer abc.def"))),
        Some(String::from("abc.def"))
    );
    assert_eq!(extract_bearer(&Some(String::from("Bearer "))), Some(String::new()));
    assert_eq!(extract_bearer(&Some(String::from("bearer abc"))), None);
    assert_eq!(extract_bearer(&None), None);
}

#[test]
fn config_holder_swaps_snapshots_atomically() {
    let mut holder = ConfigHolder::new(settings_with_secret("first", 10));
    let loaded = holder.load();
    assert_eq!(loaded.token_secret.as_deref(), Some("first"));
    assert_eq!(loaded.token_timeout_seconds, Some(10));

    holder.store(settings_with_secret("second", 20));
    let loaded = holder.load();
    assert_eq!(loaded.token_secret.as_deref(), Some("second"));
    assert_eq!(loaded.token_timeout_seconds, Some(20));
}

#[test]
fn settings_clone_and_default() {
    let s = settings_with_secret("abc", 5);
    let c = s.clone();
    assert_eq!(c.token_secret.as_deref(), Some("abc"));
    assert_eq!(c.token_timeout_seconds, Some(5));
    let d = Settings::default();
    assert!(d.token_secret.is_none());
    assert!(d.database.url.is_none());
    assert!(d.logging.log_level.is_none());
    assert!(d.config.location.is_none());
}
