use crate::map::{load, load_response, store, store_response, Contents, Storage};
use crate::structures::{ClientRequest, RequestResponse, RequestView, ResponseView};
use vstd::prelude::*;

verus! {

/// The storage after a request, and what the request is answered.
pub open spec fn apply_request(contents: Contents, request: RequestView) -> (Contents, ResponseView) {
    match request {
        RequestView::Store { key, hash } => (contents.insert(key, hash), store_response()),
        RequestView::Load { key } => (contents, load_response(contents, key)),
    }
}

/// Serves one request of a client: a store puts the hash under the key,
/// a load answers the hash held under the key.
pub fn handle_request(storage: &mut Storage, request: ClientRequest) -> (r: RequestResponse)
    ensures
        (final(storage)@, r@) == apply_request(old(storage)@, request@),
{
    match request {
        ClientRequest::Load { key } => load(storage, &key),
        ClientRequest::Store { key, hash } => store(storage, &key, &hash),
    }
}

/// The storage after a sequence of requests, served in order.
pub open spec fn apply_requests(contents: Contents, requests: Seq<RequestView>) -> Contents
    decreases requests.len(),
{
    if requests.len() == 0 {
        contents
    } else {
        apply_request(apply_requests(contents, requests.drop_last()), requests.last()).0
    }
}

/// The hash that the last store request for `key` in `requests` carries, if there is one.
pub open spec fn last_stored_hash(requests: Seq<RequestView>, key: Seq<char>) -> Option<Seq<char>>
    decreases requests.len(),
{
    if requests.len() == 0 {
        None
    } else {
        match requests.last() {
            RequestView::Store { key: k, hash } => if k == key {
                Some(hash)
            } else {
                last_stored_hash(requests.drop_last(), key)
            },
            RequestView::Load { .. } => last_stored_hash(requests.drop_last(), key),
        }
    }
}

/// After any sequence of requests served from a new storage, a load of a key answers
/// the hash of the last store of that key, or `KeyNotFound` when it was never stored.
pub proof fn law_load_answers_last_store(requests: Seq<RequestView>, key: Seq<char>)
    ensures
        apply_request(apply_requests(Contents::empty(), requests), RequestView::Load { key }).1
            == match last_stored_hash(requests, key) {
            Some(hash) => ResponseView::Success { key, hash },
            None => ResponseView::KeyNotFound,
        },
    decreases requests.len(),
{
    if requests.len() > 0 {
        law_load_answers_last_store(requests.drop_last(), key);
    }
}

/// A load request leaves the storage as it was.
pub proof fn law_load_request_changes_nothing(contents: Contents, key: Seq<char>)
    ensures
        apply_request(contents, RequestView::Load { key }).0 == contents,
{
}

} // verus!
