use vstd::prelude::*;

use crate::upstream::{ConfigError, Upstream};
use crate::urls::{append_query_pair, clone_url, parse_url, url_normalize, url_str, url_to_string, url_with_pair};

verus! {

/// One integer field of a body's JSON envelope, as serde_json reads it:
/// `None` where the body does not parse as JSON or has no such integer field.
pub uninterp spec fn json_int_field(body: Seq<char>, field: Seq<char>) -> Option<i64>;

/// Relies on `serde_json::from_str::<serde_json::Value>`, `Value::get` and
/// `Value::as_i64`: reads one integer field of the body's JSON envelope.
#[verifier::external_body]
fn read_json_int_field(body: &str, field: &str) -> (r: Option<i64>)
    ensures
        r == json_int_field(body@, field@),
{
    match serde_json::from_str::<serde_json::Value>(body) {
        Ok(value) => value.get(field).and_then(|v| v.as_i64()),
        Err(_) => None,
    }
}

/// A provider that sends its fixed credential pair and the word as query
/// parameters, and caches only bodies whose JSON envelope reports no error.
pub struct Youdao {
    pub api: url::Url,
    pub keyfrom: String,
    pub key: String,
}

impl Youdao {
    /// Whether a body's JSON envelope reports success: the body parses and
    /// its error code field is zero. An unparseable body is judged invalid:
    /// the policy fails closed rather than cache it.
    pub open spec fn envelope_ok(body: Seq<char>) -> bool {
        json_int_field(body, "errorCode"@) == Some(0i64)
    }

    /// The query URL this provider builds: the endpoint with `keyfrom`, `key`
    /// and `q` appended as query pairs, in that order.
    pub open spec fn query_url_spec(&self, word: Seq<char>) -> Seq<char> {
        url_with_pair(
            url_with_pair(url_with_pair(url_str(self.api), "keyfrom"@, self.keyfrom@), "key"@, self.key@),
            "q"@,
            word,
        )
    }

    /// Build the provider from its resolved configuration. An endpoint that
    /// does not parse as a URL is a fatal configuration error.
    pub fn from_config(api: &str, keyfrom: String, key: String) -> (r: Result<Youdao, ConfigError>)
        ensures
            (match r {
                Ok(p) => p.inv()
                    && p.keyfrom@ == keyfrom@
                    && p.key@ == key@
                    && (url_normalize(api@) matches Some(u) && url_str(p.api) == u),
                Err(e) => e == ConfigError::InvalidUrl,
            }),
            r is Err <==> url_normalize(api@) is None,
    {
        match parse_url(api) {
            Ok(u) => Ok(Youdao { api: u, keyfrom, key }),
            Err(_) => Err(ConfigError::InvalidUrl),
        }
    }
}

impl Upstream for Youdao {
    open spec fn inv(&self) -> bool {
        true
    }

    open spec fn url_matches(&self, word: Seq<char>, url: Seq<char>) -> bool {
        url == self.query_url_spec(word)
    }

    open spec fn valid_spec(&self, body: Seq<char>) -> bool {
        Self::envelope_ok(body)
    }

    fn query_url(&self, word: &str) -> (r: String) {
        let mut u = clone_url(&self.api);
        append_query_pair(&mut u, "keyfrom", self.keyfrom.as_str());
        append_query_pair(&mut u, "key", self.key.as_str());
        append_query_pair(&mut u, "q", word);
        url_to_string(&u)
    }

    fn valid_response(&self, body: &str) -> (r: bool) {
        match read_json_int_field(body, "errorCode") {
            Some(code) => code == 0,
            None => false,
        }
    }
}

} // verus!
