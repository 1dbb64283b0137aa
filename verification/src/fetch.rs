use vstd::prelude::*;

verus! {

/// Relies on `reqwest::blocking::get` and `reqwest::blocking::Response::text`:
/// one outbound HTTP GET, its full body read as text whatever the status.
/// Nothing is promised of the outcome: it depends on the network. The call is
/// synchronous and must not be made from within an async runtime.
#[verifier::external_body]
pub(crate) fn http_get_text(url: &str) -> (r: Result<String, ()>) {
    match reqwest::blocking::get(url) {
        Ok(response) => match response.text() {
            Ok(body) => Ok(body),
            Err(_) => Err(()),
        },
        Err(_) => Err(()),
    }
}

} // verus!
