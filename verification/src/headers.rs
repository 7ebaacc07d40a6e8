//! Authorization header builders and the wire-format field names used by
//! the OAuth exchange.

use vstd::prelude::*;
use vstd::utf8::encode_utf8;

use crate::oauth2::Token;

verus! {

// Common field names as constants; these are wire-format literals and must
// be kept exactly as the remote API expects them.
pub const CLIENT_ID: &'static str = "client_id";

pub const CODE: &'static str = "code";

pub const GRANT_AUTH_CODE: &'static str = "authorization_code";

pub const GRANT_CLIENT_CREDS: &'static str = "client_credentials";

pub const GRANT_REFRESH_TOKEN: &'static str = "refresh_token";

pub const GRANT_TYPE: &'static str = "grant_type";

pub const REDIRECT_URI: &'static str = "redirect_uri";

pub const REFRESH_TOKEN: &'static str = "refresh_token";

pub const RESPONSE_CODE: &'static str = "code";

pub const RESPONSE_TYPE: &'static str = "response_type";

pub const SCOPE: &'static str = "scope";

pub const SHOW_DIALOG: &'static str = "show_dialog";

pub const STATE: &'static str = "state";

/// The value of a bearer authorization header for a given access token.
pub open spec fn bearer_value(access_token: Seq<char>) -> Seq<char> {
    "Bearer "@ + access_token
}

/// Generates an HTTP token authorization header with proper formatting.
pub fn bearer_auth(tok: &Token) -> (r: (String, String))
    ensures
        r.0@ == "authorization"@,
        r.1@ == bearer_value(tok.access_token@),
{
    let auth = String::from_str("authorization");
    let value = String::from_str("Bearer ").concat(tok.access_token.as_str());

    (auth, value)
}

/// What `base64::encode` returns for a byte sequence: the standard-alphabet,
/// padded base64 rendering. Opaque here; the encoder below is trusted to
/// produce it and the decoder to invert it.
pub uninterp spec fn base64_of(bytes: Seq<u8>) -> Seq<char>;

/// Relies on `base64::encode`: standard alphabet with padding, a pure
/// function of the input bytes, four output characters per three input bytes.
#[verifier::external_body]
fn base64_encode(input: &[u8]) -> (r: String)
    ensures
        r@ == base64_of(input@),
        r@.len() == 4 * ((input@.len() + 2) / 3),
{
    base64::encode(input)
}

/// Holds when `r` is what decoding `input` must yield wherever `input` is
/// the encoding of some byte sequence: that sequence, exactly.
pub open spec fn decodes_encoding_of(input: Seq<char>, r: Option<Vec<u8>>) -> bool {
    forall|b: Seq<u8>| input == #[trigger] base64_of(b) ==> (r matches Some(v) && v@ == b)
}

/// Relies on `base64::decode`: decoding a string produced by
/// `base64::encode` returns exactly the bytes that were encoded.
#[verifier::external_body]
fn base64_decode(input: &str) -> (r: Option<Vec<u8>>)
    ensures
        decodes_encoding_of(input@, r),
{
    base64::decode(input).ok()
}

/// The value of a basic authorization header for a given user and password.
pub open spec fn basic_value(user: Seq<char>, password: Seq<char>) -> Seq<char> {
    "Basic "@ + base64_of(encode_utf8(user + ":"@ + password))
}

/// Generates an HTTP basic authorization header with proper formatting.
pub fn basic_auth(user: &str, password: &str) -> (r: (String, String))
    ensures
        r.0@ == "authorization"@,
        r.1@ == basic_value(user@, password@),
{
    let auth = String::from_str("authorization");
    let joined = String::from_str(user).concat(":").concat(password);
    proof {
        assert(joined@ =~= user@ + ":"@ + password@);
    }
    let encoded = base64_encode(joined.as_str().as_bytes());
    let value = String::from_str("Basic ").concat(encoded.as_str());

    (auth, value)
}

/// Strips the `"Basic "` prefix from an authorization value and decodes the
/// remainder; applied to a value built by `basic_auth`, this recovers the
/// exact `user:password` bytes.
pub fn decode_basic_auth_value(value: &str) -> (r: Option<Vec<u8>>)
    ensures
        forall|b: Seq<u8>| value@ == "Basic "@ + base64_of(b) ==> (r matches Some(v) && v@ == b),
{
    let n = value.unicode_len();
    if n < 6 {
        proof {
            reveal_strlit("Basic ");
            assert forall|b: Seq<u8>| value@ == "Basic "@ + base64_of(b) implies false by {
                assert(value@.len() >= 6);
            }
        }
        None
    } else {
        let rest = value.substring_char(6, n);
        let r = base64_decode(rest);
        proof {
            reveal_strlit("Basic ");
            assert forall|b: Seq<u8>| value@ == "Basic "@ + base64_of(b) implies (r matches Some(
                v,
            ) && v@ == b) by {
                assert(rest@ =~= base64_of(b));
            }
        }
        r
    }
}

/// Round trip: base64-decoding the value part of `basic_auth(user, password)`
/// yields exactly the UTF-8 bytes of `user:password`.
pub fn basic_auth_round_trip(user: &str, password: &str) -> (r: Vec<u8>)
    ensures
        r@ == encode_utf8(user@ + ":"@ + password@),
{
    let ghost joined = encode_utf8(user@ + ":"@ + password@);
    let pair = basic_auth(user, password);
    let decoded = decode_basic_auth_value(pair.1.as_str());
    proof {
        assert(pair.1@ == "Basic "@ + base64_of(joined));
    }
    match decoded {
        Some(v) => v,
        None => unreached(),
    }
}

} // verus!
