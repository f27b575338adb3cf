//! Response payloads the pipeline hands to the transport layer.
use vstd::prelude::*;

use crate::model::Post;

verus! {

/// One post, as a successful create/read/update response carries it.
#[derive(Debug)]
pub struct SinglePostResponse {
    pub data: Post,
}

/// A snapshot of all posts, as a successful list response carries it.
#[derive(Debug)]
pub struct ListPostsResponse {
    pub data: Vec<Post>,
}

/// A successful login: a status word and the signed bearer token (empty when
/// signing failed).
#[derive(Debug)]
pub struct LoginResponse {
    pub status: String,
    pub token: String,
}

} // verus!
