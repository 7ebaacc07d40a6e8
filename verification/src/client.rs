//! The client-side request wrappers: URL resolution against the configured
//! prefix, bearer-header construction from the stored token, and the basic
//! and endpoint verbs that delegate to the selected backend.

use vstd::prelude::*;

use crate::headers;
use crate::headers::bearer_value;
use crate::http::BaseHTTPClient;
use crate::http::ClientError;
use crate::http::ClientResult;
use crate::http::Form;
use crate::http::Headers;
use crate::http::Query;
use crate::oauth2::Token;

verus! {

/// True of URLs that are already absolute: those starting with the
/// recognized scheme prefix.
pub open spec fn is_absolute_url(url: Seq<char>) -> bool {
    url.len() >= 4 && url[0] == 'h' && url[1] == 't' && url[2] == 't' && url[3] == 'p'
}

/// What URL resolution returns: the URL itself when absolute, otherwise
/// the configured prefix followed by the URL.
pub open spec fn spec_endpoint_url(prefix: Seq<char>, url: Seq<char>) -> Seq<char> {
    if is_absolute_url(url) {
        url
    } else {
        prefix + url
    }
}

/// An absolute URL is resolved to itself, whatever the prefix.
pub proof fn lemma_endpoint_url_absolute(prefix: Seq<char>, url: Seq<char>)
    requires
        is_absolute_url(url),
    ensures
        spec_endpoint_url(prefix, url) == url,
{
}

/// A relative URL is resolved to the prefix followed by the URL, the
/// prefix appearing exactly once, in front.
pub proof fn lemma_endpoint_url_relative(prefix: Seq<char>, url: Seq<char>)
    requires
        !is_absolute_url(url),
    ensures
        spec_endpoint_url(prefix, url) == prefix + url,
{
}

/// Resolution prefixes at most once: resolving a resolved URL returns it
/// unchanged, for any prefix that is itself absolute.
pub proof fn lemma_endpoint_url_idempotent(prefix: Seq<char>, url: Seq<char>)
    requires
        is_absolute_url(prefix),
    ensures
        spec_endpoint_url(prefix, spec_endpoint_url(prefix, url)) == spec_endpoint_url(
            prefix,
            url,
        ),
{
    if !is_absolute_url(url) {
        assert((prefix + url)[0] == prefix[0]);
        assert((prefix + url)[1] == prefix[1]);
        assert((prefix + url)[2] == prefix[2]);
        assert((prefix + url)[3] == prefix[3]);
        assert(is_absolute_url(prefix + url));
    }
}

fn starts_with_http(url: &str) -> (r: bool)
    ensures
        r == is_absolute_url(url@),
{
    let n = url.unicode_len();
    n >= 4 && url.get_char(0) == 'h' && url.get_char(1) == 't' && url.get_char(2) == 't'
        && url.get_char(3) == 'p'
}

/// The API client: the selected backend, the base-URL prefix, and the
/// current access token, if one has been obtained.
pub struct Spotify<C: BaseHTTPClient> {
    pub http: C,
    pub prefix: String,
    pub token: Option<Token>,
}

impl<C: BaseHTTPClient> Spotify<C> {
    pub fn new(http: C, prefix: String, token: Option<Token>) -> (r: Spotify<C>)
        ensures
            r.http == http,
            r.prefix == prefix,
            r.token == token,
    {
        Spotify { http, prefix, token }
    }

    /// The current access token, or the authentication-unavailable error
    /// when none is set.
    pub fn get_token(&self) -> (r: ClientResult<&Token>)
        ensures
            match r {
                Ok(t) => self.token matches Some(tt) && *t == tt,
                Err(e) => self.token is None && e == ClientError::AuthUnavailable,
            },
    {
        match &self.token {
            Some(t) => Ok(t),
            None => Err(ClientError::AuthUnavailable),
        }
    }

    /// If `url` is a relative route like `"me"`, the configured prefix is
    /// appended to it; an absolute URL is returned unchanged.
    pub fn endpoint_url(&self, url: &str) -> (r: String)
        ensures
            r@ == spec_endpoint_url(self.prefix@, url@),
    {
        if !starts_with_http(url) {
            self.prefix.clone().concat(url)
        } else {
            String::from_str(url)
        }
    }

    /// The headers required for authenticated requests: exactly one entry,
    /// the bearer authorization built from the current token; fails with
    /// the authentication-unavailable error when no token is set.
    pub fn auth_headers(&self) -> (r: ClientResult<Headers>)
        ensures
            match r {
                Ok(h) => self.token matches Some(t) && h@ == Map::<Seq<char>, Seq<char>>::empty()
                    .insert("authorization"@, bearer_value(t.access_token@)),
                Err(e) => self.token is None && e == ClientError::AuthUnavailable,
            },
    {
        let mut auth = Headers::new();
        let tok = match self.get_token() {
            Ok(t) => t,
            Err(e) => {
                return Err(e);
            },
        };
        let (key, val) = headers::bearer_auth(tok);
        auth.insert(key, val);

        Ok(auth)
    }

    /// Resolves the URL against the prefix and delegates to the backend:
    /// the result is one the backend's `get` can produce for exactly the
    /// resolved URL with these headers and this payload, verbatim. Used by
    /// the authentication flow, which has no token yet.
    pub fn get(&self, url: &str, headers: Option<&Headers>, payload: &Query) -> (r: ClientResult<
        String,
    >)
        ensures
            exists|full: &str|
                full@ == spec_endpoint_url(self.prefix@, url@) && #[trigger] call_ensures(
                    C::get,
                    (&self.http, full, headers, payload),
                    r,
                ),
    {
        let full = self.endpoint_url(url);
        let resolved = full.as_str();
        self.http.get(resolved, headers, payload)
    }

    /// Resolves the URL against the prefix and delegates to the backend:
    /// the result is one the backend's `post` can produce for exactly the
    /// resolved URL with these headers and this payload, verbatim — an
    /// empty object standing for "no parameters".
    pub fn post(
        &self,
        url: &str,
        headers: Option<&Headers>,
        payload: &serde_json::Value,
    ) -> (r: ClientResult<String>)
        ensures
            exists|full: &str|
                full@ == spec_endpoint_url(self.prefix@, url@) && #[trigger] call_ensures(
                    C::post,
                    (&self.http, full, headers, payload),
                    r,
                ),
    {
        let full = self.endpoint_url(url);
        let resolved = full.as_str();
        self.http.post(resolved, headers, payload)
    }

    /// Resolves the URL against the prefix and delegates to the backend:
    /// the result is one the backend's `post_form` can produce for exactly
    /// the resolved URL with these headers and these fields, verbatim.
    pub fn post_form(&self, url: &str, headers: Option<&Headers>, payload: &Form) -> (r:
        ClientResult<String>)
        ensures
            exists|full: &str|
                full@ == spec_endpoint_url(self.prefix@, url@) && #[trigger] call_ensures(
                    C::post_form,
                    (&self.http, full, headers, payload),
                    r,
                ),
    {
        let full = self.endpoint_url(url);
        let resolved = full.as_str();
        self.http.post_form(resolved, headers, payload)
    }

    /// Resolves the URL against the prefix and delegates to the backend:
    /// the result is one the backend's `put` can produce for exactly the
    /// resolved URL with these headers and this payload, verbatim.
    pub fn put(
        &self,
        url: &str,
        headers: Option<&Headers>,
        payload: &serde_json::Value,
    ) -> (r: ClientResult<String>)
        ensures
            exists|full: &str|
                full@ == spec_endpoint_url(self.prefix@, url@) && #[trigger] call_ensures(
                    C::put,
                    (&self.http, full, headers, payload),
                    r,
                ),
    {
        let full = self.endpoint_url(url);
        let resolved = full.as_str();
        self.http.put(resolved, headers, payload)
    }

    /// Resolves the URL against the prefix and delegates to the backend:
    /// the result is one the backend's `delete` can produce for exactly the
    /// resolved URL with these headers and this payload, verbatim.
    pub fn delete(
        &self,
        url: &str,
        headers: Option<&Headers>,
        payload: &serde_json::Value,
    ) -> (r: ClientResult<String>)
        ensures
            exists|full: &str|
                full@ == spec_endpoint_url(self.prefix@, url@) && #[trigger] call_ensures(
                    C::delete,
                    (&self.http, full, headers, payload),
                    r,
                ),
    {
        let full = self.endpoint_url(url);
        let resolved = full.as_str();
        self.http.delete(resolved, headers, payload)
    }

    /// The authenticated counterpart of `get`: without a token it fails
    /// with the authentication-unavailable error before anything reaches
    /// the backend; with a token the result is one the backend's `get` can
    /// produce for the resolved URL, exactly the singleton bearer header
    /// map built from that token, and this payload, verbatim.
    pub fn endpoint_get(&self, url: &str, payload: &Query) -> (r: ClientResult<String>)
        ensures
            self.token is None ==> r == Err::<String, ClientError>(ClientError::AuthUnavailable),
            self.token matches Some(t) ==> exists|full: &str, h: &Headers|
                full@ == spec_endpoint_url(self.prefix@, url@) && h@ == Map::<
                    Seq<char>,
                    Seq<char>,
                >::empty().insert("authorization"@, bearer_value(t.access_token@))
                    && #[trigger] call_ensures(C::get, (&self.http, full, Some(h), payload), r),
    {
        match self.auth_headers() {
            Ok(h) => self.get(url, Some(&h), payload),
            Err(e) => Err(e),
        }
    }

    /// The authenticated counterpart of `post`: without a token it fails
    /// with the authentication-unavailable error before anything reaches
    /// the backend; with a token the result is one the backend's `post` can
    /// produce for the resolved URL, exactly the singleton bearer header
    /// map built from that token, and this payload, verbatim.
    pub fn endpoint_post(&self, url: &str, payload: &serde_json::Value) -> (r: ClientResult<
        String,
    >)
        ensures
            self.token is None ==> r == Err::<String, ClientError>(ClientError::AuthUnavailable),
            self.token matches Some(t) ==> exists|full: &str, h: &Headers|
                full@ == spec_endpoint_url(self.prefix@, url@) && h@ == Map::<
                    Seq<char>,
                    Seq<char>,
                >::empty().insert("authorization"@, bearer_value(t.access_token@))
                    && #[trigger] call_ensures(C::post, (&self.http, full, Some(h), payload), r),
    {
        match self.auth_headers() {
            Ok(h) => self.post(url, Some(&h), payload),
            Err(e) => Err(e),
        }
    }

    /// The authenticated counterpart of `put`: without a token it fails
    /// with the authentication-unavailable error before anything reaches
    /// the backend; with a token the result is one the backend's `put` can
    /// produce for the resolved URL, exactly the singleton bearer header
    /// map built from that token, and this payload, verbatim.
    pub fn endpoint_put(&self, url: &str, payload: &serde_json::Value) -> (r: ClientResult<String>)
        ensures
            self.token is None ==> r == Err::<String, ClientError>(ClientError::AuthUnavailable),
            self.token matches Some(t) ==> exists|full: &str, h: &Headers|
                full@ == spec_endpoint_url(self.prefix@, url@) && h@ == Map::<
                    Seq<char>,
                    Seq<char>,
                >::empty().insert("authorization"@, bearer_value(t.access_token@))
                    && #[trigger] call_ensures(C::put, (&self.http, full, Some(h), payload), r),
    {
        match self.auth_headers() {
            Ok(h) => self.put(url, Some(&h), payload),
            Err(e) => Err(e),
        }
    }

    /// The authenticated counterpart of `delete`: without a token it fails
    /// with the authentication-unavailable error before anything reaches
    /// the backend; with a token the result is one the backend's `delete`
    /// can produce for the resolved URL, exactly the singleton bearer
    /// header map built from that token, and this payload, verbatim.
    pub fn endpoint_delete(&self, url: &str, payload: &serde_json::Value) -> (r: ClientResult<
        String,
    >)
        ensures
            self.token is None ==> r == Err::<String, ClientError>(ClientError::AuthUnavailable),
            self.token matches Some(t) ==> exists|full: &str, h: &Headers|
                full@ == spec_endpoint_url(self.prefix@, url@) && h@ == Map::<
                    Seq<char>,
                    Seq<char>,
                >::empty().insert("authorization"@, bearer_value(t.access_token@))
                    && #[trigger] call_ensures(
                        C::delete,
                        (&self.http, full, Some(h), payload),
                        r,
                    ),
    {
        match self.auth_headers() {
            Ok(h) => self.delete(url, Some(&h), payload),
            Err(e) => Err(e),
        }
    }
}

} // verus!
