use vstd::prelude::*;
use vstd::string::StrSliceExecFns;

use crate::lookup::{lookup_ok, LookupService};
use crate::upstream::Upstream;

verus! {

/// What the HTTP layer answers a query with: the cached or freshly fetched
/// body on success, a malformed-request status when the word is missing or
/// empty, or a generic server error that discloses no internal detail.
pub enum RouteOutcome {
    Success(String),
    BadRequest,
    ServerError,
}

impl RouteOutcome {
    /// The HTTP status code the outcome is answered with.
    pub fn status_code(&self) -> (r: u16)
        ensures
            r == (match self {
                RouteOutcome::Success(_) => 200u16,
                RouteOutcome::BadRequest => 400u16,
                RouteOutcome::ServerError => 500u16,
            }),
    {
        match self {
            RouteOutcome::Success(_) => 200,
            RouteOutcome::BadRequest => 400,
            RouteOutcome::ServerError => 500,
        }
    }
}

/// Answer one inbound query. A missing or empty word is malformed and is
/// answered before any cache or network access; otherwise the word is looked
/// up and the body is returned exactly as the lookup produced it, a lookup
/// fault as a generic server error.
pub fn handle_query<U: Upstream>(service: &mut LookupService<U>, word: Option<&str>) -> (r:
    RouteOutcome)
    requires
        old(service).inv(),
    ensures
        final(service).inv(),
        final(service).provider == old(service).provider,
        (word is None || (word matches Some(w) && w@.len() == 0)) <==> r is BadRequest,
        (match r {
            RouteOutcome::BadRequest => *final(service) == *old(service),
            RouteOutcome::Success(body) => word matches Some(w) && w@.len() > 0 && lookup_ok(
                old(service).provider,
                old(service).cache@,
                final(service).cache@,
                old(service).fetches@,
                final(service).fetches@,
                w@,
                body@,
            ),
            RouteOutcome::ServerError => word matches Some(w) && w@.len() > 0
                && final(service).cache@ == old(service).cache@
                && (final(service).fetches@ == old(service).fetches@
                || final(service).fetches@ == old(service).fetches@ + 1),
        }),
{
    match word {
        None => RouteOutcome::BadRequest,
        Some(w) => {
            if w.unicode_len() == 0 {
                RouteOutcome::BadRequest
            } else {
                match service.lookup(w) {
                    Ok(body) => RouteOutcome::Success(body),
                    Err(_) => RouteOutcome::ServerError,
                }
            }
        },
    }
}

} // verus!
