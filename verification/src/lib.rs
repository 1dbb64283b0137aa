//! Core of a word-lookup gateway: pluggable upstream dictionary providers,
//! a persistent word-to-response cache, and the lookup flow that ties them
//! together (check the cache, fetch on a miss, validate, store, respond).

pub mod cache;
pub mod fetch;
pub mod lookup;
pub mod route;
pub mod upstream;
pub mod urls;
pub mod webster;
pub mod youdao;
