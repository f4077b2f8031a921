//! Issues, reads and checks compact signed tokens: three base64url
//! segments (header, claims, signature) joined by `.`.
//!
//! The crate is the claims-and-options layer around `jsonwebtoken`. It
//! writes the reserved claims that a caller asks for, picks the key
//! material that an algorithm calls for, builds the rules that a token is
//! checked against, and shapes what a caller gets back. Signatures, key
//! files, base64url and JSON are `jsonwebtoken`'s and `serde_json`'s.
//!
//! - [`sign`]: issuing a token.
//! - [`verify`]: checking a token and handing out what it holds.
//! - [`decode`]: reading a token without checking it.
//! - [`algorithm`]: the algorithms, their names and their keys.
//! - [`claims`], [`number`]: the claims of a token, as names and JSON
//!   texts.
//! - [`header`]: the header of a token, as it is shown to a caller.
//! - [`token`]: the three segments of a token.
//! - [`error`]: what can go wrong.
//! - [`laws`]: what holds across these.
//! - [`backend`]: what is taken from the outside crates on trust.

pub mod algorithm;
pub mod backend;
pub mod claims;
pub mod decode;
pub mod error;
pub mod header;
pub mod laws;
pub mod number;
pub mod sign;
pub mod token;
pub mod verify;
