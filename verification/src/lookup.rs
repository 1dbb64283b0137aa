use vstd::prelude::*;

use crate::cache::{lemma_cache_view, Cache};
use crate::fetch::http_get_text;
use crate::upstream::Upstream;

verus! {

/// Why a lookup failed. A fault of either kind leaves the cache as it was:
/// nothing negative is ever cached.
#[derive(Clone, Copy, Debug, PartialEq, Eq, Structural)]
pub enum LookupError {
    /// A storage-layer fault while checking for a hit; fatal to the request,
    /// no fetch is attempted.
    CacheRead,
    /// A network-layer fault, or a body that is not text, on the miss path.
    UpstreamFetch,
}

/// One provider together with its cache, and a count of the outbound fetches
/// made so far on its behalf.
pub struct LookupService<U: Upstream> {
    pub provider: U,
    pub cache: Cache,
    pub fetches: Ghost<nat>,
}

/// What a lookup that produced a body guarantees. On a hit the stored body
/// comes back, the cache is untouched and no fetch is made. On a miss exactly
/// one fetch is made, the body comes back exactly as fetched, and it is added
/// to the cache only when the provider judged it valid (a store fault may
/// leave the cache unchanged, but never changes the body returned).
pub open spec fn lookup_ok<U: Upstream>(
    provider: U,
    pre: Map<Seq<char>, Seq<char>>,
    post: Map<Seq<char>, Seq<char>>,
    fetches_pre: nat,
    fetches_post: nat,
    word: Seq<char>,
    body: Seq<char>,
) -> bool {
    if pre.contains_key(word) {
        body == pre[word] && post == pre && fetches_post == fetches_pre
    } else {
        fetches_post == fetches_pre + 1 && if provider.valid_spec(body) {
            post == pre.insert(word, body) || post == pre
        } else {
            post == pre
        }
    }
}

impl<U: Upstream> LookupService<U> {
    /// The service is well formed when its provider is.
    pub open spec fn inv(&self) -> bool {
        self.provider.inv()
    }

    /// Pair a provider with its cache; no fetch has been made yet.
    pub fn new(provider: U, cache: Cache) -> (r: LookupService<U>)
        ensures
            r.provider == provider,
            r.cache == cache,
            r.fetches@ == 0,
    {
        LookupService { provider, cache, fetches: Ghost(0nat) }
    }

    /// Handle the tail of a miss: judge the fetched body, store it when it is
    /// judged valid (best effort: a store fault never fails the request), and
    /// hand the body back exactly as fetched, valid or not.
    pub fn process_fetched(&mut self, word: &str, body: String) -> (r: String)
        requires
            old(self).inv(),
        ensures
            final(self).inv(),
            final(self).provider == old(self).provider,
            final(self).fetches == old(self).fetches,
            r@ == body@,
            old(self).provider.valid_spec(body@) ==> (final(self).cache@ == old(self).cache@.insert(
                word@,
                body@,
            ) || final(self).cache@ == old(self).cache@),
            !old(self).provider.valid_spec(body@) ==> final(self).cache@ == old(self).cache@,
    {
        proof {
            lemma_cache_view(&self.cache);
        }
        if self.provider.valid_response(body.as_str()) {
            let _ = self.cache.put(word, body.as_str());
            proof {
                lemma_cache_view(&self.cache);
            }
        }
        body
    }

    /// One lookup: consult the cache first; on a hit return the stored body
    /// with no network access; on a miss build the provider's query URL,
    /// fetch once, judge the body, store it when valid, and return it exactly
    /// as fetched. A cache read fault aborts the request before any fetch; a
    /// fetch fault is reported and nothing is cached; a store fault is
    /// absorbed.
    pub fn lookup(&mut self, word: &str) -> (r: Result<String, LookupError>)
        requires
            old(self).inv(),
            word@.len() > 0,
        ensures
            final(self).inv(),
            final(self).provider == old(self).provider,
            (match r {
                Ok(body) => lookup_ok(
                    old(self).provider,
                    old(self).cache@,
                    final(self).cache@,
                    old(self).fetches@,
                    final(self).fetches@,
                    word@,
                    body@,
                ),
                Err(LookupError::CacheRead) => final(self).cache@ == old(self).cache@
                    && final(self).fetches@ == old(self).fetches@,
                Err(LookupError::UpstreamFetch) => !old(self).cache@.contains_key(word@)
                    && final(self).cache@ == old(self).cache@
                    && final(self).fetches@ == old(self).fetches@ + 1,
            }),
            old(self).cache@.contains_key(word@) ==> !(r matches Err(e) && e
                == LookupError::UpstreamFetch) && (r matches Ok(body) ==> body@ == old(
                self,
            ).cache@[word@]),
    {
        proof {
            lemma_cache_view(&self.cache);
        }
        match self.cache.get(word) {
            Err(_) => Err(LookupError::CacheRead),
            Ok(Some(body)) => Ok(body),
            Ok(None) => {
                let url = self.provider.query_url(word);
                self.fetches = Ghost(self.fetches@ + 1);
                match http_get_text(url.as_str()) {
                    Err(_) => Err(LookupError::UpstreamFetch),
                    Ok(body) => Ok(self.process_fetched(word, body)),
                }
            },
        }
    }
}

/// Idempotent caching: when a miss stored a valid body for a word, a later
/// lookup of that word that produces a body is a hit: it returns that very
/// body, changes nothing, and makes no further fetch.
pub proof fn lemma_idempotent_caching<U: Upstream>(
    provider: U,
    pre: Map<Seq<char>, Seq<char>>,
    mid: Map<Seq<char>, Seq<char>>,
    post: Map<Seq<char>, Seq<char>>,
    f0: nat,
    f1: nat,
    f2: nat,
    word: Seq<char>,
    first_body: Seq<char>,
    second_body: Seq<char>,
)
    requires
        !pre.contains_key(word),
        lookup_ok(provider, pre, mid, f0, f1, word, first_body),
        mid == pre.insert(word, first_body),
        lookup_ok(provider, mid, post, f1, f2, word, second_body),
    ensures
        second_body == first_body,
        post == mid,
        f2 == f1,
{
}

/// No negative caching: an invalid fetched body is never stored, so the word
/// stays absent, and a later lookup of it that produces a body is again a
/// miss that performs one more fetch.
pub proof fn lemma_no_negative_caching<U: Upstream>(
    provider: U,
    pre: Map<Seq<char>, Seq<char>>,
    mid: Map<Seq<char>, Seq<char>>,
    post: Map<Seq<char>, Seq<char>>,
    f0: nat,
    f1: nat,
    f2: nat,
    word: Seq<char>,
    first_body: Seq<char>,
    second_body: Seq<char>,
)
    requires
        !pre.contains_key(word),
        !provider.valid_spec(first_body),
        lookup_ok(provider, pre, mid, f0, f1, word, first_body),
        lookup_ok(provider, mid, post, f1, f2, word, second_body),
    ensures
        mid == pre,
        !mid.contains_key(word),
        f2 == f1 + 1,
{
}

} // verus!
