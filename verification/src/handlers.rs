//! The request pipeline: one named operation per route, each composing the
//! authentication gate (for mutating operations) with the resource service.
//! A rejected request is answered with 401 and never reaches the service; a
//! lookup that found nothing is answered with 404, anything unexpected with
//! 500, and success with 200.
use vstd::prelude::*;

use crate::auth::{authorize, bearer_of};
use crate::clock::now_unix_seconds;
use crate::errors::{AppError, LookupKey, ResourceKind, ServiceError};
use crate::password::{argon2_verifies, validate_password};
use crate::posts::{
    find_post_by_id, find_post_by_slug, updated_post, CreatePostRequest, PostService,
    UpdatePostRequest,
};
use crate::response::{ListPostsResponse, LoginResponse, SinglePostResponse};
use crate::search::lemma_first_match_sound;
use crate::settings::{effective_secret_view, effective_timeout_view, Settings};
use crate::state::{holder_snapshot, ApplicationState};
use crate::token::{jwt_encode, token_claims_of, TokenClaims, TokenClaimsView};
use crate::users::{find_user_by_name, UserService};
use vstd::string::StringExecFns;

verus! {

/// `x` clamped into the range of `usize`.
pub open spec fn clamp_to_usize(x: int) -> usize {
    if x < 0 {
        0
    } else if x > usize::MAX {
        usize::MAX
    } else {
        x as usize
    }
}

/// The sum of two clock values, clamped into the range of `usize`.
fn clamp_sum_to_usize(a: i64, b: i64) -> (r: usize)
    ensures
        r == clamp_to_usize(a as int + b as int),
{
    let sum: i128 = a as i128 + b as i128;
    if sum < 0 {
        0
    } else if sum > usize::MAX as i128 {
        usize::MAX
    } else {
        sum as usize
    }
}

/// The claim a login at clock time `now` issues: subject is the username,
/// issued-at is `now`, expiry is `now` plus the configured timeout. Clock
/// values outside the range of `usize` are clamped into it, so issuing never
/// panics whatever the clock read.
pub open spec fn issued_claims(username: Seq<char>, now: i64, timeout: i64) -> TokenClaimsView {
    TokenClaimsView {
        sub: username,
        iat: clamp_to_usize(now as int),
        exp: clamp_to_usize(now as int + timeout as int),
    }
}

/// Builds and signs the identity claim for `username` at clock time `now`,
/// using the snapshot's secret and timeout: the returned token carries
/// exactly that claim, and the status word reports success.
pub fn issue_login(settings: &Settings, username: String, now: i64) -> (r: LoginResponse)
    ensures
        r.status@ == "success"@,
        token_claims_of(r.token@, effective_secret_view(settings@)) == Some(
            issued_claims(username@, now, effective_timeout_view(settings@)),
        ),
{
    let secret = settings.effective_secret();
    let timeout = settings.effective_timeout();
    let iat = clamp_sum_to_usize(now, 0);
    let exp = clamp_sum_to_usize(now, timeout);
    let claims = TokenClaims { sub: username, iat, exp };
    let token = jwt_encode(&claims, &secret);
    LoginResponse { status: String::from_str("success"), token }
}

/// Authenticates the username/password pair against the user store and, on
/// success, issues a signed claim whose subject is the username, issued-at a
/// clock reading, and expiry that reading plus the snapshot's timeout. An
/// unknown username and a wrong password are both answered with 401 and one
/// shared message, so nothing leaks about which check failed, and no token is
/// issued.
pub fn login(state: &ApplicationState, username: String, password: &String) -> (r: Result<
    LoginResponse,
    AppError,
>)
    ensures
        r is Ok <==> (find_user_by_name(state.user_service.users(), username@) matches Some(u)
            && argon2_verifies(password@, u.password@)),
        r is Err ==> (r matches Err(e) && e.status == 401 && e.message@
            == "Invalid username or password"@),
        r matches Ok(resp) ==> resp.status@ == "success"@ && (exists|n: i64|
            token_claims_of(
                resp.token@,
                effective_secret_view(holder_snapshot(state.settings)),
            ) == Some(
                issued_claims(
                    username@,
                    n,
                    effective_timeout_view(holder_snapshot(state.settings)),
                ),
            )),
{
    let user = match state.user_service.get_user_by_name(&username) {
        Ok(u) => u,
        Err(_) => {
            return Err(
                AppError { status: 401, message: String::from_str("Invalid username or password") },
            );
        },
    };
    if validate_password(password.as_str(), user.password.as_str()).is_err() {
        return Err(
            AppError { status: 401, message: String::from_str("Invalid username or password") },
        );
    }
    let settings = state.settings.load();
    let now = now_unix_seconds();
    Ok(issue_login(&settings, username, now))
}

/// Creates a post. Gated: a missing bearer is rejected with 401 and the
/// message naming it; a bearer carrying no current claims under the current
/// secret is rejected with 401 and the collapsed message. On success the
/// stored post carries the request's fields, a fresh identifier one above the
/// highest ever assigned, and equal creation and update stamps.
pub fn create(
    state: &mut ApplicationState,
    auth_header: &Option<String>,
    payload: CreatePostRequest,
) -> (r: Result<SinglePostResponse, AppError>)
    requires
        old(state).post_service.wf(),
        old(state).post_service.counter() < i64::MAX,
    ensures
        final(state).post_service.wf(),
        final(state).settings == old(state).settings,
        final(state).user_service == old(state).user_service,
        bearer_of(auth_header.deep_view()) is None ==> (r matches Err(e) && e.status == 401
            && e.message@ == "Missing bearer token"@),
        bearer_of(auth_header.deep_view()) is Some ==> (r is Ok || (r matches Err(e) && e.status
            == 401 && e.message@ == "Invalid bearer token"@)),
        (bearer_of(auth_header.deep_view()) matches Some(t) && token_claims_of(
            t,
            effective_secret_view(holder_snapshot(old(state).settings)),
        ) is None) ==> (r matches Err(e) && e.status == 401 && e.message@
            == "Invalid bearer token"@),
        r is Ok ==> (bearer_of(auth_header.deep_view()) matches Some(t) && token_claims_of(
            t,
            effective_secret_view(holder_snapshot(old(state).settings)),
        ) is Some),
        r is Err ==> r->Err_0.status == 401 && final(state).post_service == old(
            state,
        ).post_service,
        r matches Ok(resp) ==> ({
            let p = final(state).post_service.posts().last();
            &&& final(state).post_service.posts() == old(state).post_service.posts().push(p)
            &&& final(state).post_service.counter() == old(state).post_service.counter() + 1
            &&& p.id == old(state).post_service.counter() + 1
            &&& p.author_id == payload.author_id
            &&& p.slug == payload.slug
            &&& p.title == payload.title
            &&& p.content == payload.content
            &&& p.status == payload.status
            &&& p.created == p.updated
            &&& resp.data@ == p@
        }),
{
    let settings = state.settings.load();
    let now = now_unix_seconds();
    match authorize(&settings, auth_header, now) {
        Err(e) => Err(AppError::of_auth(&e)),
        Ok(_claims) => {
            match state.post_service.create_post(payload, now) {
                Ok(post) => Ok(SinglePostResponse { data: post }),
                Err(e) => Err(AppError::of_service(&e)),
            }
        },
    }
}

/// Updates a post in place. Gated like `create`; a missing identifier is 404
/// with the message naming it. On success the post keeps its identifier and
/// creation stamp and takes every mutable field from the request.
pub fn update(
    state: &mut ApplicationState,
    auth_header: &Option<String>,
    id: i64,
    payload: UpdatePostRequest,
) -> (r: Result<SinglePostResponse, AppError>)
    requires
        old(state).post_service.wf(),
    ensures
        final(state).post_service.wf(),
        final(state).settings == old(state).settings,
        final(state).user_service == old(state).user_service,
        final(state).post_service.counter() == old(state).post_service.counter(),
        bearer_of(auth_header.deep_view()) is None ==> (r matches Err(e) && e.status == 401
            && e.message@ == "Missing bearer token"@),
        bearer_of(auth_header.deep_view()) is Some ==> (r is Ok || (r matches Err(e) && ((e.status
            == 401 && e.message@ == "Invalid bearer token"@) || e.status == 404))),
        (bearer_of(auth_header.deep_view()) matches Some(t) && token_claims_of(
            t,
            effective_secret_view(holder_snapshot(old(state).settings)),
        ) is None) ==> (r matches Err(e) && e.status == 401 && e.message@
            == "Invalid bearer token"@),
        r is Ok ==> (bearer_of(auth_header.deep_view()) matches Some(t) && token_claims_of(
            t,
            effective_secret_view(holder_snapshot(old(state).settings)),
        ) is Some),
        r is Err ==> final(state).post_service == old(state).post_service,
        r matches Err(e) ==> e.status == 401 || (e.status == 404 && e.message@
            == ServiceError::NotFound(ResourceKind::Post, LookupKey::Id(id)).message_view()),
        (r matches Err(e) && e.status == 404) ==> find_post_by_id(
            old(state).post_service.posts(),
            id,
        ) is None,
        r matches Ok(resp) ==> ({
            let old_posts = old(state).post_service.posts();
            let q = find_post_by_id(old_posts, id)->Some_0;
            &&& find_post_by_id(old_posts, id) is Some
            &&& final(state).post_service.posts().len() == old_posts.len()
            &&& resp.data@.id == id
            &&& resp.data@.created == q.created
            &&& resp.data@.slug == payload.slug@
            &&& resp.data@.title == payload.title@
            &&& resp.data@.content == payload.content@
            &&& resp.data@.status == payload.status
            &&& (forall|k: int|
                0 <= k < old_posts.len() && (#[trigger] old_posts[k]).id != id
                    ==> final(state).post_service.posts()[k] == old_posts[k])
            &&& (forall|k: int|
                0 <= k < old_posts.len() && (#[trigger] old_posts[k]).id == id
                    ==> final(state).post_service.posts()[k]@ == resp.data@)
        }),
{
    let settings = state.settings.load();
    let now = now_unix_seconds();
    match authorize(&settings, auth_header, now) {
        Err(e) => Err(AppError::of_auth(&e)),
        Ok(_claims) => {
            let ghost old_posts = state.post_service.posts();
            match state.post_service.update_post(id, payload, now) {
                Ok(post) => {
                    proof {
                        lemma_first_match_sound(old_posts, |p: crate::model::Post| p.id == id);
                        let q = find_post_by_id(old_posts, id)->Some_0;
                        let j0 = choose|j: int| 0 <= j < old_posts.len() && old_posts[j] == q;
                        assert forall|k: int|
                            0 <= k < old_posts.len() && (#[trigger] old_posts[k]).id
                                == id implies state.post_service.posts()[k]@ == post@ by {
                            if k != j0 {
                                assert(old_posts[k].id != old_posts[j0].id);
                            }
                        }
                    }
                    Ok(SinglePostResponse { data: post })
                },
                Err(e) => Err(AppError::of_service(&e)),
            }
        },
    }
}

/// Deletes a post; the response carries no payload. Gated like `create`; a
/// missing identifier is 404 with the message naming it. The identifier of a
/// deleted post is never handed out again.
pub fn delete(state: &mut ApplicationState, auth_header: &Option<String>, id: i64) -> (r: Result<
    (),
    AppError,
>)
    requires
        old(state).post_service.wf(),
    ensures
        final(state).post_service.wf(),
        final(state).settings == old(state).settings,
        final(state).user_service == old(state).user_service,
        final(state).post_service.counter() == old(state).post_service.counter(),
        bearer_of(auth_header.deep_view()) is None ==> (r matches Err(e) && e.status == 401
            && e.message@ == "Missing bearer token"@),
        bearer_of(auth_header.deep_view()) is Some ==> (r is Ok || (r matches Err(e) && ((e.status
            == 401 && e.message@ == "Invalid bearer token"@) || e.status == 404))),
        (bearer_of(auth_header.deep_view()) matches Some(t) && token_claims_of(
            t,
            effective_secret_view(holder_snapshot(old(state).settings)),
        ) is None) ==> (r matches Err(e) && e.status == 401 && e.message@
            == "Invalid bearer token"@),
        r is Ok ==> (bearer_of(auth_header.deep_view()) matches Some(t) && token_claims_of(
            t,
            effective_secret_view(holder_snapshot(old(state).settings)),
        ) is Some),
        r is Err ==> final(state).post_service == old(state).post_service,
        r matches Err(e) ==> e.status == 401 || (e.status == 404 && e.message@
            == ServiceError::NotFound(ResourceKind::Post, LookupKey::Id(id)).message_view()),
        (r matches Err(e) && e.status == 404) ==> find_post_by_id(
            old(state).post_service.posts(),
            id,
        ) is None,
        r is Ok ==> find_post_by_id(old(state).post_service.posts(), id) is Some,
        r is Ok ==> exists|j: int|
            0 <= j < old(state).post_service.posts().len() && (#[trigger] old(
                state,
            ).post_service.posts()[j]).id == id && final(state).post_service.posts() == old(
                state,
            ).post_service.posts().remove(j),
{
    let settings = state.settings.load();
    let now = now_unix_seconds();
    match authorize(&settings, auth_header, now) {
        Err(e) => Err(AppError::of_auth(&e)),
        Ok(_claims) => {
            match state.post_service.delete_post(id) {
                Ok(()) => Ok(()),
                Err(e) => Err(AppError::of_service(&e)),
            }
        },
    }
}

/// Reads one post by its slug; ungated. A missing slug is 404 with the
/// message naming it.
pub fn get(state: &ApplicationState, slug: &String) -> (r: Result<SinglePostResponse, AppError>)
    ensures
        r is Ok <==> find_post_by_slug(state.post_service.posts(), slug@) is Some,
        r matches Ok(resp) ==> resp.data@ == find_post_by_slug(
            state.post_service.posts(),
            slug@,
        )->Some_0@,
        r matches Err(e) ==> e.status == 404 && e.message@ == "Post not found: "@ + slug@,
{
    match state.post_service.get_post_by_slug(slug) {
        Ok(post) => Ok(SinglePostResponse { data: post }),
        Err(e) => {
            proof {
                reveal_strlit("Post");
                reveal_strlit(" not found: ");
                reveal_strlit("Post not found: ");
                assert(e.message_view() =~= "Post not found: "@ + slug@);
            }
            Err(AppError::of_service(&e))
        },
    }
}

/// Lists all posts; ungated. A snapshot of the store at call time, in
/// insertion order; never fails.
pub fn list(state: &ApplicationState) -> (r: Result<ListPostsResponse, AppError>)
    ensures
        r is Ok,
        r matches Ok(resp) ==> resp.data@.len() == state.post_service.posts().len() && (forall|
            k: int,
        |
            0 <= k < resp.data@.len() ==> (#[trigger] resp.data@[k])@
                == state.post_service.posts()[k]@),
{
    match state.post_service.get_all_posts() {
        Ok(posts) => Ok(ListPostsResponse { data: posts }),
        Err(e) => Err(AppError::of_service(&e)),
    }
}

} // verus!
