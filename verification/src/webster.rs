use vstd::prelude::*;

use crate::upstream::{ConfigError, Upstream};
use crate::urls::{append_query_pair, check_base_url, clone_url, parse_url, push_path_segment, url_is_base, url_normalize, url_str, url_to_string, url_with_pair, url_with_segment};

verus! {

/// Relies on `rand::random_range`: a uniformly random index below the bound,
/// drawn independently on every call.
#[verifier::external_body]
fn random_below(bound: usize) -> (r: usize)
    requires
        0 < bound,
    ensures
        r < bound,
{
    rand::random_range(0..bound)
}

/// A provider that appends the word to its base endpoint as a path segment
/// and authenticates with one key chosen at random per call from a pool.
pub struct Webster {
    pub api: url::Url,
    pub keys: Vec<String>,
}

impl Webster {
    /// The query URL this provider builds with a given key: the endpoint with
    /// the word pushed as a path segment and the key as a `key` query pair.
    pub open spec fn query_url_with_key(&self, word: Seq<char>, key: Seq<char>) -> Seq<char> {
        url_with_pair(url_with_segment(url_str(self.api), word), "key"@, key)
    }

    /// Build the provider from its resolved configuration: the base endpoint
    /// and the key pool. An endpoint that does not parse, one that cannot
    /// take path segments, or an empty pool is a fatal configuration error.
    pub fn from_config(api: &str, keys: Vec<String>) -> (r: Result<Webster, ConfigError>)
        ensures
            (match r {
                Ok(p) => p.inv()
                    && p.keys@ == keys@
                    && (url_normalize(api@) matches Some(u) && url_str(p.api) == u && url_is_base(u)),
                Err(e) => (e == ConfigError::NoKeys <==> keys@.len() == 0)
                    && (keys@.len() > 0 ==> (e == ConfigError::InvalidUrl <==> url_normalize(api@) is None))
                    && (keys@.len() > 0 ==> (e == ConfigError::NotABaseUrl
                        <==> (url_normalize(api@) matches Some(u) && !url_is_base(u)))),
            }),
            r is Ok <==> (keys@.len() > 0
                && (url_normalize(api@) matches Some(u) && url_is_base(u))),
    {
        if keys.len() == 0 {
            return Err(ConfigError::NoKeys);
        }
        match parse_url(api) {
            Err(_) => Err(ConfigError::InvalidUrl),
            Ok(u) => {
                if check_base_url(&u) {
                    Ok(Webster { api: u, keys })
                } else {
                    Err(ConfigError::NotABaseUrl)
                }
            },
        }
    }
}

impl Upstream for Webster {
    open spec fn inv(&self) -> bool {
        self.keys@.len() > 0 && url_is_base(url_str(self.api))
    }

    open spec fn url_matches(&self, word: Seq<char>, url: Seq<char>) -> bool {
        exists|i: int|
            0 <= i < self.keys@.len() && url == self.query_url_with_key(word, #[trigger] self.keys@[i]@)
    }

    open spec fn valid_spec(&self, body: Seq<char>) -> bool {
        true
    }

    fn query_url(&self, word: &str) -> (r: String) {
        let i = random_below(self.keys.len());
        let mut u = clone_url(&self.api);
        let pushed = push_path_segment(&mut u, word);
        append_query_pair(&mut u, "key", self.keys[i].as_str());
        let r = url_to_string(&u);
        proof {
            assert(r@ == self.query_url_with_key(word@, self.keys@[i as int]@));
        }
        r
    }

    fn valid_response(&self, body: &str) -> (r: bool) {
        true
    }
}

} // verus!
