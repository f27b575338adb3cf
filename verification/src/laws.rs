//! Laws of the post store, stated over the same spec functions its
//! operations' contracts use: identifier uniqueness across batches of
//! inserts, read-your-write, identity preservation under update, and removal
//! under delete.
use vstd::prelude::*;

use crate::model::Post;
use crate::posts::{
    created_post, find_post_by_id, post_store_wf, updated_post, CreatePostRequest,
    UpdatePostRequest,
};
use crate::search::{lemma_first_match_at, lemma_first_match_none};
use crate::token::{token_claims_of, TokenClaimsView};

verus! {

/// The posts a batch of inserts hands back, in call order, when the store's
/// counter stood at `counter` before the batch: each insert in the batch is
/// one element of `reqs`, a request paired with the clock value at its call.
pub open spec fn batch_insert_returns(counter: int, reqs: Seq<(CreatePostRequest, i64)>) -> Seq<
    Post,
>
    decreases reqs.len(),
{
    if reqs.len() == 0 {
        Seq::empty()
    } else {
        seq![created_post(reqs[0].0, (counter + 1) as i64, reqs[0].1)] + batch_insert_returns(
            counter + 1,
            reqs.drop_first(),
        )
    }
}

/// Uniqueness: a batch of inserts hands back pairwise distinct identifiers,
/// and from a fresh store the identifiers are exactly 1 through the batch
/// length. Inserts run one at a time under the store's lock, so any
/// interleaving of concurrent calls is some such batch.
pub proof fn lemma_insert_ids_unique(counter: int, reqs: Seq<(CreatePostRequest, i64)>)
    requires
        0 <= counter,
        counter + reqs.len() <= i64::MAX,
    ensures
        batch_insert_returns(counter, reqs).len() == reqs.len(),
        forall|k: int|
            0 <= k < reqs.len() ==> (#[trigger] batch_insert_returns(counter, reqs)[k]).id
                == counter + 1 + k,
        forall|i: int, j: int|
            0 <= i < j < reqs.len() ==> batch_insert_returns(counter, reqs)[i].id
                != batch_insert_returns(counter, reqs)[j].id,
    decreases reqs.len(),
{
    if reqs.len() > 0 {
        lemma_insert_ids_unique(counter + 1, reqs.drop_first());
        assert forall|k: int|
            0 <= k < reqs.len() implies (#[trigger] batch_insert_returns(counter, reqs)[k]).id
            == counter + 1 + k by {
            if k > 0 {
                assert(batch_insert_returns(counter, reqs)[k] == batch_insert_returns(
                    counter + 1,
                    reqs.drop_first(),
                )[k - 1]);
            }
        }
    }
}

/// Read-your-write: the post an insert hands back is found, unchanged, by an
/// immediate lookup of its identifier.
pub proof fn lemma_read_your_write(
    items: Seq<Post>,
    counter: int,
    req: CreatePostRequest,
    now: i64,
)
    requires
        post_store_wf(items, counter),
        counter < i64::MAX,
    ensures
        ({
            let p = created_post(req, (counter + 1) as i64, now);
            find_post_by_id(items.push(p), p.id) == Some(p)
        }),
{
    let p = created_post(req, (counter + 1) as i64, now);
    let pushed = items.push(p);
    assert forall|k: int| 0 <= k < items.len() implies !((|q: Post| q.id == p.id)(
        #[trigger] pushed[k],
    )) by {
        assert(pushed[k] == items[k]);
        assert(items[k].id <= counter);
    }
    lemma_first_match_at(pushed, |q: Post| q.id == p.id, items.len() as int);
}

/// Update preserves identity: after updating the post at index `j`, a lookup
/// of its identifier finds a post with the same identifier and creation
/// stamp, an update stamp of `now` (strictly later than before, provided the
/// clock moved forward), and every mutable field taken from the request.
pub proof fn lemma_update_preserves_identity(
    items: Seq<Post>,
    counter: int,
    j: int,
    req: UpdatePostRequest,
    now: i64,
)
    requires
        post_store_wf(items, counter),
        0 <= j < items.len(),
        now > items[j].updated,
    ensures
        ({
            let up = updated_post(items[j], req, now);
            &&& find_post_by_id(items.update(j, up), items[j].id) == Some(up)
            &&& up.id == items[j].id
            &&& up.created == items[j].created
            &&& up.updated == now > items[j].updated
            &&& up.slug == req.slug
            &&& up.title == req.title
            &&& up.content == req.content
            &&& up.status == req.status
        }),
{
    let id = items[j].id;
    let up = updated_post(items[j], req, now);
    let changed = items.update(j, up);
    assert forall|k: int| 0 <= k < j implies !((|q: Post| q.id == id)(#[trigger] changed[k])) by {
        assert(changed[k] == items[k]);
        assert(items[k].id != items[j].id);
    }
    lemma_first_match_at(changed, |q: Post| q.id == id, j);
}

/// Acceptance never rewrites identity: a token carries one set of claims
/// under a secret, so whatever the authentication gate accepts for a token is
/// the very claims the login flow issued it with — in particular the subject
/// is the username that logged in. (Issuing promises
/// `token_claims_of(token, secret) == Some(issued)`; acceptance promises the
/// same of what it hands through.)
pub proof fn lemma_accepted_claims_are_issued_claims(
    token: Seq<char>,
    secret: Seq<char>,
    issued: TokenClaimsView,
    accepted: TokenClaimsView,
)
    requires
        token_claims_of(token, secret) == Some(issued),
        token_claims_of(token, secret) == Some(accepted),
    ensures
        accepted == issued,
        accepted.sub == issued.sub,
{
}

/// Delete removes: after removing the post at index `j`, a lookup of its
/// identifier finds nothing.
pub proof fn lemma_delete_removes(items: Seq<Post>, counter: int, j: int)
    requires
        post_store_wf(items, counter),
        0 <= j < items.len(),
    ensures
        find_post_by_id(items.remove(j), items[j].id) is None,
{
    let id = items[j].id;
    let rest = items.remove(j);
    assert forall|k: int| 0 <= k < rest.len() implies !((|q: Post| q.id == id)(
        #[trigger] rest[k],
    )) by {
        if k < j {
            assert(rest[k] == items[k]);
        } else {
            assert(rest[k] == items[k + 1]);
        }
    }
    lemma_first_match_none(rest, |q: Post| q.id == id);
}

} // verus!
