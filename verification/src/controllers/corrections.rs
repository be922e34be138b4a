//! The lookup of corrections.

use vstd::prelude::*;

verus! {

/// What the lookup answers.
#[derive(Clone, Copy, Debug, PartialEq, Eq, Structural)]
pub enum DetailResponse {
    Found,
    NotFound,
}

/// Answers a lookup: `Found` where the key in the request's path is the
/// configured one, `NotFound` for any other.
pub fn detail(path: &String, authentication: &String) -> (response: DetailResponse)
    ensures
        response == if path@ == authentication@ {
            DetailResponse::Found
        } else {
            DetailResponse::NotFound
        },
{
    if *path == *authentication {
        DetailResponse::Found
    } else {
        DetailResponse::NotFound
    }
}

} // verus!
