//! A small web service's verified core: a vowel filter and the three
//! request handlers built on it — a health probe, a greeting with a
//! timestamp, and vowel removal from user-supplied text. The HTTP framing
//! around the handlers lives outside this library.

pub mod filter;
pub mod handlers;
