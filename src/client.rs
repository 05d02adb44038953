use vstd::prelude::*;
use crate::http::{authorization_name, bearer_value, Headers};

verus! {

/// An access token of the service and the second at which it stops being
/// valid.
#[derive(Clone, Debug, PartialEq, Eq)]
pub struct Token {
    pub access_token: String,
    pub expires_at: u64,
}

impl Token {
    /// Whether the token is no longer valid at second `now`.
    pub open spec fn spec_is_expired(&self, now: u64) -> bool {
        now >= self.expires_at
    }

    /// A token issued at second `now` that is valid for `expires_in` seconds;
    /// the expiry saturates at the largest representable second.
    pub fn issued(access_token: String, now: u64, expires_in: u64) -> (r: Token)
        ensures
            r.access_token@ == access_token@,
            r.expires_at as int == if now + expires_in <= u64::MAX {
                now + expires_in
            } else {
                u64::MAX as int
            },
    {
        Token { access_token, expires_at: now.saturating_add(expires_in) }
    }

    /// Whether the token is no longer valid at second `now`.
    pub fn is_expired(&self, now: u64) -> (r: bool)
        ensures
            r == self.spec_is_expired(now),
    {
        now >= self.expires_at
    }
}

/// The single authorization header for a token: `Authorization: Bearer <token>`.
pub fn bearer_auth(token: &Token) -> (r: (String, String))
    ensures
        r.0@ == authorization_name(),
        r.1@ == bearer_value(token.access_token@),
{
    let mut value = "Bearer ".to_owned();
    value.append(token.access_token.as_str());
    ("Authorization".to_owned(), value)
}

/// A copy of the caller's headers, pair for pair.
fn copy_headers(h: &Headers) -> (r: Headers)
    ensures
        r@ == h@,
{
    let mut out: Headers = Vec::new();
    let mut i: usize = 0;
    while i < h.len()
        invariant
            i <= h@.len(),
            out@ == h@.subrange(0, i as int),
        decreases h@.len() - i,
    {
        let pair = (h[i].0.clone(), h[i].1.clone());
        out.push(pair);
        i += 1;
        assert(out@ =~= h@.subrange(0, i as int));
    }
    assert(h@.subrange(0, h@.len() as int) =~= h@);
    out
}

/// What the pipeline does about the headers of a request.
#[derive(Debug)]
pub enum HeaderStep {
    /// Send the request with exactly these headers.
    Ready(Headers),
    /// No explicit headers were given and no valid token is cached: obtain
    /// one, store it with `Spotify::store_token`, and ask again.
    NeedsToken,
}

/// The client: where the endpoints live, the credentials of the
/// client-credentials flow, and the cached access token.
#[derive(Clone, Debug)]
pub struct Spotify {
    prefix: String,
    client_id: String,
    client_secret: String,
    token: Option<Token>,
}

impl Spotify {
    /// Start of every endpoint address.
    pub closed spec fn spec_prefix(&self) -> Seq<char> {
        self.prefix@
    }

    /// Identifier of the client in the client-credentials flow.
    pub closed spec fn spec_client_id(&self) -> Seq<char> {
        self.client_id@
    }

    /// Secret of the client in the client-credentials flow.
    pub closed spec fn spec_client_secret(&self) -> Seq<char> {
        self.client_secret@
    }

    /// The token held in the cache, valid or not.
    pub closed spec fn cached_token(&self) -> Option<Token> {
        self.token
    }

    /// The cached token, when it is still valid at second `now`.
    pub open spec fn valid_token(&self, now: u64) -> Option<Token> {
        match self.cached_token() {
            Some(t) => if t.spec_is_expired(now) {
                None
            } else {
                Some(t)
            },
            None => None,
        }
    }

    /// A client with an empty token cache.
    pub fn new(prefix: String, client_id: String, client_secret: String) -> (r: Spotify)
        ensures
            r.spec_prefix() == prefix@,
            r.spec_client_id() == client_id@,
            r.spec_client_secret() == client_secret@,
            r.cached_token() is None,
    {
        Spotify { prefix, client_id, client_secret, token: None }
    }

    /// The full address of an endpoint: the prefix followed by `url`.
    pub fn endpoint_url(&self, url: &str) -> (r: String)
        ensures
            r@ == self.spec_prefix() + url@,
    {
        let mut base = self.prefix.clone();
        base.append(url);
        base
    }

    /// Identifier of the client.
    pub fn client_id(&self) -> (r: &str)
        ensures
            r@ == self.spec_client_id(),
    {
        self.client_id.as_str()
    }

    /// Secret of the client.
    pub fn client_secret(&self) -> (r: &str)
        ensures
            r@ == self.spec_client_secret(),
    {
        self.client_secret.as_str()
    }

    /// Whether a token is cached that is still valid at second `now`.
    pub fn has_valid_token(&self, now: u64) -> (r: bool)
        ensures
            r == (self.valid_token(now) is Some),
    {
        match &self.token {
            Some(t) => !t.is_expired(now),
            None => false,
        }
    }

    /// Replaces the cached token by a freshly obtained one.
    pub fn store_token(&mut self, token: Token)
        ensures
            final(self).cached_token() == Some(token),
            final(self).spec_prefix() == old(self).spec_prefix(),
            final(self).spec_client_id() == old(self).spec_client_id(),
            final(self).spec_client_secret() == old(self).spec_client_secret(),
    {
        self.token = Some(token);
    }

    /// Form of the client-credentials grant, sent to the token endpoint with
    /// the client's id and secret as basic credentials.
    pub fn token_request_form(&self) -> (r: Headers)
        ensures
            r@.len() == 1,
            r@[0].0@ == "grant_type"@,
            r@[0].1@ == "client_credentials"@,
    {
        let mut form: Headers = Vec::new();
        form.push(("grant_type".to_owned(), "client_credentials".to_owned()));
        form
    }

    /// The headers of a request: the caller's, verbatim, when given;
    /// otherwise the single bearer header of the cached token, when it is
    /// valid at second `now`.
    pub fn request_headers(&self, headers: Option<&Headers>, now: u64) -> (r: HeaderStep)
        ensures
            match headers {
                Some(h) => match r {
                    HeaderStep::Ready(v) => v@ == h@,
                    HeaderStep::NeedsToken => false,
                },
                None => match self.valid_token(now) {
                    Some(t) => match r {
                        HeaderStep::Ready(v) => v@.len() == 1 && v@[0].0@ == authorization_name()
                            && v@[0].1@ == bearer_value(t.access_token@),
                        HeaderStep::NeedsToken => false,
                    },
                    None => r is NeedsToken,
                },
            },
    {
        match headers {
            Some(h) => HeaderStep::Ready(copy_headers(h)),
            None => match &self.token {
                Some(t) => {
                    if t.is_expired(now) {
                        HeaderStep::NeedsToken
                    } else {
                        let mut v: Headers = Vec::new();
                        v.push(bearer_auth(t));
                        HeaderStep::Ready(v)
                    }
                },
                None => HeaderStep::NeedsToken,
            },
        }
    }
}

} // verus!
