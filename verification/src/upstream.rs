use vstd::prelude::*;

verus! {

/// Why a provider could not be built from its resolved configuration.
/// Any of these is fatal to process bootstrap, never a per-request error.
#[derive(Clone, Copy, Debug, PartialEq, Eq, Structural)]
pub enum ConfigError {
    /// The configured endpoint is not a parseable URL.
    InvalidUrl,
    /// The configured endpoint cannot take path segments.
    NotABaseUrl,
    /// The configured key pool is empty.
    NoKeys,
}

/// One upstream dictionary service's policy: how to build the outbound query
/// URL for a word, and whether a fetched body is valid enough to cache.
pub trait Upstream: Sized {
    /// The provider's configuration is well formed.
    spec fn inv(&self) -> bool;

    /// Which query URLs the provider may build for a word; more than one only
    /// where the provider picks a credential at random per call.
    spec fn url_matches(&self, word: Seq<char>, url: Seq<char>) -> bool;

    /// Which fetched bodies the provider judges safe to cache.
    spec fn valid_spec(&self, body: Seq<char>) -> bool;

    /// Build the outbound query URL for a non-empty word, from the provider's
    /// configuration and the word alone: no I/O, no mutation, and no
    /// non-determinism beyond a per-call random credential choice.
    fn query_url(&self, word: &str) -> (r: String)
        requires
            self.inv(),
            word@.len() > 0,
        ensures
            self.url_matches(word@, r@),
    ;

    /// Judge whether a fetched body should be cached.
    fn valid_response(&self, body: &str) -> (r: bool)
        requires
            self.inv(),
        ensures
            r == self.valid_spec(body@),
    ;
}

} // verus!
