//! The credential handed out by the authorization flow. Only the access
//! token string is read here; acquiring and refreshing it happens elsewhere.

use vstd::prelude::*;

verus! {

/// An opaque credential exposing the access-token string used to build
/// bearer authorization headers.
pub struct Token {
    pub access_token: String,
}

impl Token {
    pub fn new(access_token: String) -> (r: Token)
        ensures
            r.access_token == access_token,
    {
        Token { access_token }
    }
}

} // verus!
