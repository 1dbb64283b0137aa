use raloword::cache::Cache;
use raloword::lookup::{LookupError, LookupService};
use raloword::route::{handle_query, RouteOutcome};
use raloword::upstream::{ConfigError, Upstream};
use raloword::webster::Webster;
use raloword::youdao::Youdao;

// The base endpoint points at a closed local port: any fetch attempt fails at
// once, so a successful lookup in these tests proves the cache answered it.
const DEAD_BASE: &str = "http://127.0.0.1:9/dict";

const VALID_BODY: &str = "{\"errorCode\":0,\"translation\":[\"run\"]}";
const INVALID_BODY: &str = "{\"errorCode\":20}";

fn fresh_cache() -> Cache {
    let path = format!("/tmp/raloword_test_{}", rand::random::<u64>());
    Cache::open(&path).unwrap()
}

fn youdao_service() -> LookupService<Youdao> {
    let provider =
        Youdao::from_config(DEAD_BASE, String::from("kf"), String::from("k1")).unwrap();
    LookupService::new(provider, fresh_cache())
}

#[test]
fn cached_word_returned_without_fetch() {
    let mut service = youdao_service();
    let body = service.process_fetched("run", String::from(VALID_BODY));
    assert_eq!(body, VALID_BODY);
    // The upstream is unreachable, so only a cache hit can answer this.
    assert_eq!(service.lookup("run"), Ok(String::from(VALID_BODY)));
}

#[test]
fn valid_body_cached_idempotently() {
    let mut service = youdao_service();
    service.process_fetched("walk", String::from(VALID_BODY));
    let first = service.lookup("walk");
    let second = service.lookup("walk");
    assert_eq!(first, Ok(String::from(VALID_BODY)));
    assert_eq!(second, first);
}

#[test]
fn invalid_body_is_returned_but_not_cached() {
    let mut service = youdao_service();
    let body = service.process_fetched("jog", String::from(INVALID_BODY));
    assert_eq!(body, INVALID_BODY);
    // No negative caching: the next lookup misses and tries a fresh fetch,
    // which fails against the unreachable upstream.
    assert_eq!(service.lookup("jog"), Err(LookupError::UpstreamFetch));
}

#[test]
fn unparseable_body_is_returned_but_not_cached() {
    let mut service = youdao_service();
    let body = service.process_fetched("hop", String::from("not json at all"));
    assert_eq!(body, "not json at all");
    assert_eq!(service.lookup("hop"), Err(LookupError::UpstreamFetch));
}

#[test]
fn fetched_body_comes_back_unchanged() {
    let mut service = youdao_service();
    assert_eq!(service.process_fetched("a", String::from(VALID_BODY)), VALID_BODY);
    assert_eq!(service.process_fetched("b", String::from(INVALID_BODY)), INVALID_BODY);
}

#[test]
fn miss_against_unreachable_upstream_is_fetch_error() {
    let mut service = youdao_service();
    assert_eq!(service.lookup("absent"), Err(LookupError::UpstreamFetch));
}

#[test]
fn missing_word_is_bad_request() {
    let mut service = youdao_service();
    let outcome = handle_query(&mut service, None);
    assert!(matches!(outcome, RouteOutcome::BadRequest));
    assert_eq!(outcome.status_code(), 400);
}

#[test]
fn empty_word_is_bad_request() {
    let mut service = youdao_service();
    let outcome = handle_query(&mut service, Some(""));
    assert!(matches!(outcome, RouteOutcome::BadRequest));
}

#[test]
fn present_word_is_answered_with_its_body() {
    let mut service = youdao_service();
    service.process_fetched("run", String::from(VALID_BODY));
    match handle_query(&mut service, Some("run")) {
        RouteOutcome::Success(body) => assert_eq!(body, VALID_BODY),
        _ => panic!("expected a success"),
    }
}

#[test]
fn lookup_fault_is_a_generic_server_error() {
    let mut service = youdao_service();
    let outcome = handle_query(&mut service, Some("absent"));
    assert!(matches!(outcome, RouteOutcome::ServerError));
    assert_eq!(outcome.status_code(), 500);
}

#[test]
fn status_codes_by_outcome() {
    assert_eq!(RouteOutcome::Success(String::from("x")).status_code(), 200);
    assert_eq!(RouteOutcome::BadRequest.status_code(), 400);
    assert_eq!(RouteOutcome::ServerError.status_code(), 500);
}

#[test]
fn youdao_envelope_judgement() {
    let provider =
        Youdao::from_config(DEAD_BASE, String::from("kf"), String::from("k1")).unwrap();
    assert!(provider.valid_response(VALID_BODY));
    assert!(!provider.valid_response(INVALID_BODY));
    assert!(!provider.valid_response("not json at all"));
    assert!(!provider.valid_response("{\"other\":0}"));
}

#[test]
fn webster_accepts_every_body() {
    let provider =
        Webster::from_config("https://api.example/dict", vec![String::from("k1")]).unwrap();
    assert!(provider.valid_response(INVALID_BODY));
    assert!(provider.valid_response("anything"));
}

#[test]
fn webster_query_url_shape() {
    let provider =
        Webster::from_config("https://api.example/dict", vec![String::from("k1")]).unwrap();
    let url = provider.query_url("run");
    assert!(url.starts_with("https://api.example/"));
    assert!(url.contains("/dict/run"));
    assert!(url.contains("key=k1"));
}

#[test]
fn webster_encodes_the_word() {
    let provider =
        Webster::from_config("https://api.example/dict", vec![String::from("k1")]).unwrap();
    let url = provider.query_url("a word");
    // The raw word must not appear unencoded in the path.
    assert!(!url.contains("a word"));
    assert!(url.contains("a%20word"));
}

#[test]
fn youdao_query_url_shape() {
    let provider = Youdao::from_config(
        "https://api.example/dict",
        String::from("kf"),
        String::from("k1"),
    )
    .unwrap();
    let url = provider.query_url("run");
    assert!(url.starts_with("https://api.example/dict"));
    assert!(url.contains("keyfrom=kf"));
    assert!(url.contains("key=k1"));
    assert!(url.contains("q=run"));
}

#[test]
fn multi_key_choice_covers_the_pool() {
    let provider = Webster::from_config(
        "https://api.example/dict",
        vec![String::from("k1"), String::from("k2")],
    )
    .unwrap();
    let mut seen_k1 = false;
    let mut seen_k2 = false;
    for _ in 0..100 {
        let url = provider.query_url("x");
        if url.contains("key=k1") {
            seen_k1 = true;
        }
        if url.contains("key=k2") {
            seen_k2 = true;
        }
    }
    assert!(seen_k1 && seen_k2);
}

#[test]
fn unparseable_endpoint_is_a_config_error() {
    assert!(matches!(
        Youdao::from_config("not a url", String::from("kf"), String::from("k1")),
        Err(ConfigError::InvalidUrl)
    ));
    assert!(matches!(
        Webster::from_config("not a url", vec![String::from("k1")]),
        Err(ConfigError::InvalidUrl)
    ));
}

#[test]
fn empty_key_pool_is_a_config_error() {
    assert!(matches!(
        Webster::from_config("https://api.example/dict", Vec::new()),
        Err(ConfigError::NoKeys)
    ));
}

#[test]
fn endpoint_without_segments_is_a_config_error() {
    assert!(matches!(
        Webster::from_config("mailto:someone@example.org", vec![String::from("k1")]),
        Err(ConfigError::NotABaseUrl)
    ));
}

#[test]
fn webster_service_caches_any_body() {
    let provider = Webster::from_config(DEAD_BASE, vec![String::from("k1")]).unwrap();
    let mut service = LookupService::new(provider, fresh_cache());
    // Webster judges every body valid, so even a plain-text body is cached.
    service.process_fetched("word", String::from("plain text"));
    assert_eq!(service.lookup("word"), Ok(String::from("plain text")));
}

#[test]
fn distinct_casings_are_distinct_entries() {
    let mut service = youdao_service();
    service.process_fetched("Run", String::from(VALID_BODY));
    assert_eq!(service.lookup("Run"), Ok(String::from(VALID_BODY)));
    assert_eq!(service.lookup("run"), Err(LookupError::UpstreamFetch));
}
