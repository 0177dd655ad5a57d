//! The request handlers: the health probe, the greeting, and vowel removal.
//! Each one computes a response value from plain inputs; the HTTP framing
//! around them lives outside the library.

use vstd::prelude::*;
use crate::filter::filter_vowels;
use crate::filter::remove_vowels;

verus! {

/// The body of a vowel-removal request: the text to strip.
pub struct VowelInput {
    pub input: String,
}

/// The body of a vowel-removal response: the stripped text.
pub struct VowelOutput {
    pub output: String,
}

/// The body of a greeting response: a fixed message, a status word, and the
/// time the response was built, in seconds since the Unix epoch.
pub struct ApiResponse {
    pub message: String,
    pub status: String,
    pub timestamp: u64,
}

/// The liveness probe: always answers `OK`.
pub fn health_check() -> (r: &'static str)
    ensures
        r@ == "OK"@,
{
    "OK"
}

/// Builds the greeting response that carries the given timestamp: the
/// message is fixed and non-empty, and the status word is always `success`.
pub fn make_api_response(timestamp: u64) -> (r: ApiResponse)
    ensures
        r.message@ == "Hello World from Rust Server"@,
        r.message@.len() > 0,
        r.status@ == "success"@,
        r.timestamp == timestamp,
{
    proof {
        reveal_strlit("Hello World from Rust Server");
    }
    ApiResponse {
        message: "Hello World from Rust Server".to_owned(),
        status: "success".to_owned(),
        timestamp: timestamp,
    }
}

/// Reads the machine clock.
/// Relies on `std::time::SystemTime::now` and `SystemTime::duration_since`:
/// the result is the clock's reading in whole seconds since the Unix epoch.
/// Nothing is promised of the value, since it depends on the clock alone.
/// Panics only when the clock stands before the epoch.
#[verifier::external_body]
fn unix_timestamp_secs() -> (r: u64) {
    std::time::SystemTime::now().duration_since(std::time::UNIX_EPOCH).unwrap().as_secs()
}

/// The greeting handler: a fixed non-empty message, the status word
/// `success`, and the clock's current reading as the timestamp. The
/// contract holds for every reading the clock may give.
pub fn hello_world() -> (r: ApiResponse)
    ensures
        r.message@ == "Hello World from Rust Server"@,
        r.message@.len() > 0,
        r.status@ == "success"@,
{
    let ts = unix_timestamp_secs();
    make_api_response(ts)
}

/// The vowel-removal handler: the response text is the request text with
/// every vowel removed and all other characters kept in order.
pub fn test_remove_vowels(payload: VowelInput) -> (r: VowelOutput)
    ensures
        r.output@ == filter_vowels(payload.input@),
{
    VowelOutput { output: remove_vowels(payload.input) }
}

} // verus!
