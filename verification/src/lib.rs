//! Verification of third-party-issued signed identity tokens against a
//! rotating set of the issuer's published public keys.
//!
//! The library has two parts. The key provider ([`keys`]) holds an immutable
//! snapshot of the issuer's signing keys, replaced wholesale on each refresh;
//! fetching the snapshot over the network is the caller's job, parsing and
//! caching it is done here. The token verifier ([`verification`]) checks a
//! token's envelope, key identifier, pinned signature algorithm,
//! cryptographic signature and claims ([`claims`]) in a fixed order, and
//! returns either the verified claims or the first step's classified error.

pub mod claims;
pub mod keys;
pub mod verification;

use vstd::prelude::*;

verus! {

/// A bearer token as presented by a client, carried as an opaque string
/// until verification.
pub struct VerifyToken {
    content: String,
}

impl View for VerifyToken {
    type V = Seq<char>;

    closed spec fn view(&self) -> Seq<char> {
        self.content@
    }
}

impl VerifyToken {
    pub fn new(content: String) -> (r: Self)
        ensures
            r@ == content@,
    {
        VerifyToken { content }
    }

    pub fn content(&self) -> (r: &String)
        ensures
            r@ == self@,
    {
        &self.content
    }
}

} // verus!
