//! Google sign-in with PKCE: the client configuration, the verifier and its
//! challenge, the authorization address, the checks on the callback, the
//! token request and the tokens, and reading a callback deep link.

use vstd::prelude::*;
use crate::errors::AppError;
use crate::text::{decimal, u64_to_decimal};
use base64::Engine;
use rand::Rng;
use sha2::Digest;

verus! {

/// The OAuth client configuration.
#[derive(Debug, Clone)]
pub struct AppConfig {
    pub client_id: String,
    pub client_secret: Option<String>,
    pub redirect_uri: String,
}

impl AppConfig {
    /// The configuration from the values of `GOOGLE_CLIENT_ID`,
    /// `GOOGLE_CLIENT_SECRET` and `OAUTH_REDIRECT_URI`: the client id is
    /// required, the redirect address defaults to `http://localhost:8080`.
    pub fn from_values(client_id: Option<String>, client_secret: Option<String>, redirect_uri: Option<String>) -> (r: Result<AppConfig, String>)
        ensures
            match r {
                Ok(c) => client_id == Some(c.client_id) && c.client_secret == client_secret && match redirect_uri {
                    Some(u) => c.redirect_uri == u,
                    None => c.redirect_uri@ == "http://localhost:8080"@,
                },
                Err(m) => client_id is None && m@ == "GOOGLE_CLIENT_ID no definido"@,
            },
    {
        let client_id = match client_id {
            Some(c) => c,
            None => {
                return Err(String::from_str("GOOGLE_CLIENT_ID no definido"));
            },
        };
        let redirect_uri = match redirect_uri {
            Some(u) => u,
            None => String::from_str("http://localhost:8080"),
        };
        Ok(AppConfig { client_id, client_secret, redirect_uri })
    }
}

/// A PKCE verifier and the challenge derived from it.
#[derive(Debug, Clone)]
pub struct PkcePair {
    pub verifier: String,
    pub challenge: String,
}

/// `c` is an ASCII letter or digit.
pub open spec fn is_ascii_alphanumeric(c: char) -> bool {
    ('a' <= c && c <= 'z') || ('A' <= c && c <= 'Z') || ('0' <= c && c <= '9')
}

/// `n` random ASCII letters and digits
/// (`rand::thread_rng().sample_iter(&Alphanumeric).take(n)`); rand's
/// `Alphanumeric` samples from `A-Z`, `a-z` and `0-9`.  Which characters
/// come out is chance.
#[verifier::external_body]
fn random_alphanumeric(n: usize) -> (s: String)
    ensures
        s@.len() == n,
        forall|i: int| 0 <= i < n ==> is_ascii_alphanumeric(#[trigger] s@[i]),
{
    rand::thread_rng().sample_iter(&rand::distributions::Alphanumeric).take(n).map(char::from).collect()
}

/// A random `u64` (`rand::random`).  Nothing is stated of its value.
#[verifier::external_body]
fn random_u64() -> (n: u64) {
    rand::random::<u64>()
}

/// The SHA-256 digest of `data`.
pub uninterp spec fn sha256_digest(data: Seq<u8>) -> Seq<u8>;

/// The SHA-256 digest of `data` (`sha2::Sha256::digest`), named
/// `sha256_digest`; a digest has 32 bytes.
#[verifier::external_body]
fn sha256(data: &[u8]) -> (d: Vec<u8>)
    ensures
        d@ == sha256_digest(data@),
        d@.len() == 32,
{
    sha2::Sha256::digest(data).to_vec()
}

/// The character of a six-bit value in the URL-safe base64 alphabet
/// (RFC 4648, section 5): `A-Z`, `a-z`, `0-9`, `-` and `_`.
pub open spec fn base64_url_char(v: int) -> char {
    if v < 26 {
        (65 + v) as char
    } else if v < 52 {
        (97 + (v - 26)) as char
    } else if v < 62 {
        (48 + (v - 52)) as char
    } else if v == 62 {
        '-'
    } else {
        '_'
    }
}

/// The URL-safe base64 text of `data`, without padding: each three bytes
/// become four characters of six bits each; a last one or two bytes become
/// two or three characters, the missing bits zero.
pub open spec fn base64_url_nopad(data: Seq<u8>) -> Seq<char>
    decreases data.len(),
{
    if data.len() == 0 {
        seq![]
    } else if data.len() == 1 {
        seq![base64_url_char((data[0] as int) / 4), base64_url_char(((data[0] as int) % 4) * 16)]
    } else if data.len() == 2 {
        seq![
            base64_url_char((data[0] as int) / 4),
            base64_url_char(((data[0] as int) % 4) * 16 + (data[1] as int) / 16),
            base64_url_char(((data[1] as int) % 16) * 4),
        ]
    } else {
        seq![
            base64_url_char((data[0] as int) / 4),
            base64_url_char(((data[0] as int) % 4) * 16 + (data[1] as int) / 16),
            base64_url_char(((data[1] as int) % 16) * 4 + (data[2] as int) / 64),
            base64_url_char((data[2] as int) % 64),
        ] + base64_url_nopad(data.subrange(3, data.len() as int))
    }
}

/// `data` in URL-safe base64 without padding
/// (`base64::engine::general_purpose::URL_SAFE_NO_PAD.encode`), as
/// `base64_url_nopad` states it.
#[verifier::external_body]
fn base64_url(data: &[u8]) -> (s: String)
    ensures
        s@ == base64_url_nopad(data@),
{
    base64::engine::general_purpose::URL_SAFE_NO_PAD.encode(data)
}

/// The PKCE challenge of a verifier: its SHA-256 digest in URL-safe base64
/// without padding.
pub fn challenge_for(verifier: &str) -> (c: String)
    ensures
        c@ == base64_url_nopad(sha256_digest(vstd::utf8::encode_utf8(verifier@))),
{
    let digest = sha256(verifier.as_bytes());
    base64_url(digest.as_slice())
}

/// A fresh PKCE pair: 64 random ASCII letters and digits, and their
/// challenge.
pub fn generate() -> (p: PkcePair)
    ensures
        p.verifier@.len() == 64,
        forall|i: int| 0 <= i < 64 ==> is_ascii_alphanumeric(#[trigger] p.verifier@[i]),
        p.challenge@ == base64_url_nopad(sha256_digest(vstd::utf8::encode_utf8(p.verifier@))),
{
    let verifier = random_alphanumeric(64);
    let challenge = challenge_for(verifier.as_str());
    PkcePair { verifier, challenge }
}

/// The upper-case hexadecimal digit of a value below 16.
pub open spec fn hex_digit(v: int) -> char {
    if v < 10 {
        (48 + v) as char
    } else {
        (55 + v) as char
    }
}

/// A byte as `application/x-www-form-urlencoded` writes it: `*`, `-`, `.`,
/// `_`, ASCII digits and letters stay; a space becomes `+`; any other byte
/// becomes `%` and its two upper-case hexadecimal digits.
pub open spec fn form_byte(b: u8) -> Seq<char> {
    if b == 0x2a || b == 0x2d || b == 0x2e || b == 0x5f || (0x30 <= b <= 0x39) || (0x41 <= b <= 0x5a) || (0x61
        <= b <= 0x7a) {
        seq![b as char]
    } else if b == 0x20 {
        seq!['+']
    } else {
        seq!['%', hex_digit((b as int) / 16), hex_digit((b as int) % 16)]
    }
}

/// Bytes form-encoded one after the other.
pub open spec fn form_bytes(bs: Seq<u8>) -> Seq<char>
    decreases bs.len(),
{
    if bs.len() == 0 {
        seq![]
    } else {
        form_bytes(bs.drop_last()) + form_byte(bs.last())
    }
}

/// A text form-encoded: its UTF-8 bytes, each encoded.
pub open spec fn form_text(s: Seq<char>) -> Seq<char> {
    form_bytes(vstd::utf8::encode_utf8(s))
}

/// The pairs as a form-encoded query: `name=value` for each, joined by `&`.
pub open spec fn form_query(pairs: Seq<(Seq<char>, Seq<char>)>) -> Seq<char>
    decreases pairs.len(),
{
    if pairs.len() == 0 {
        seq![]
    } else {
        let p = pairs.last();
        let item = form_text(p.0) + "="@ + form_text(p.1);
        if pairs.len() == 1 {
            item
        } else {
            form_query(pairs.drop_last()) + "&"@ + item
        }
    }
}

/// The address `base`, which has no query or fragment, with the query
/// `pairs` form-encoded in order (what the `url` crate's
/// `query_pairs_mut().append_pair` builds): the base, `?`, and the query.
pub open spec fn form_url(base: Seq<char>, pairs: Seq<(Seq<char>, Seq<char>)>) -> Seq<char> {
    base + "?"@ + form_query(pairs)
}

/// Pairs of strings as pairs of character sequences.
pub open spec fn pair_views(v: Seq<(String, String)>) -> Seq<(Seq<char>, Seq<char>)> {
    v.map_values(|p: (String, String)| (p.0@, p.1@))
}

/// Google's authorization endpoint.
pub open spec fn auth_endpoint() -> Seq<char> {
    "https://accounts.google.com/o/oauth2/v2/auth"@
}

/// The authorization endpoint with the query `pairs` (`url::Url::parse`
/// then `query_pairs_mut().append_pair` for each pair, then the text of the
/// address), as `form_url` states it: the endpoint parses to itself, and the
/// serializer adds `?` and the encoded pairs.
#[verifier::external_body]
fn authorization_url(base: &str, pairs: &Vec<(String, String)>) -> (s: String)
    requires
        base@ == auth_endpoint(),
    ensures
        s@ == form_url(base@, pair_views(pairs@)),
{
    let mut url = url::Url::parse(base).unwrap();
    {
        let mut q = url.query_pairs_mut();
        for (k, v) in pairs.iter() {
            q.append_pair(k, v);
        }
    }
    url.to_string()
}

/// The query of the authorization address, in order.
pub open spec fn login_pairs(client_id: Seq<char>, redirect_uri: Seq<char>, state: Seq<char>, challenge: Seq<char>) -> Seq<(Seq<char>, Seq<char>)> {
    seq![
        ("response_type"@, "code"@),
        ("client_id"@, client_id),
        ("redirect_uri"@, redirect_uri),
        ("scope"@, "openid email profile"@),
        ("state"@, state),
        ("code_challenge"@, challenge),
        ("code_challenge_method"@, "S256"@),
        ("access_type"@, "offline"@),
        ("prompt"@, "consent"@),
    ]
}

fn pair(k: &str, v: &str) -> (p: (String, String))
    ensures
        p.0@ == k@,
        p.1@ == v@,
{
    (k.to_string(), v.to_string())
}

/// A sign-in callback: the authorization code and the state echoed back.
#[derive(Debug, Clone)]
pub struct OAuthCallback {
    pub code: String,
    pub state: String,
}

/// A sign-in provider: it starts a login, giving the address to open, and
/// turns the callback into tokens.  Exchanging the code is network work, so
/// implementations live with the code that does it.
pub trait OAuthProvider {
    fn start_login(&mut self) -> Result<String, AppError>;

    fn handle_callback(&mut self, cb: OAuthCallback) -> Result<Tokens, AppError>;
}

/// The form sent to exchange an authorization code for tokens.
#[derive(Debug, Clone)]
pub struct TokenRequest {
    pub client_id: String,
    pub client_secret: Option<String>,
    pub code: String,
    pub code_verifier: String,
    pub grant_type: String,
    pub redirect_uri: String,
}

/// What the token endpoint answers.
#[derive(Debug, Clone)]
pub struct TokenResponse {
    pub access_token: String,
    pub expires_in: i64,
    pub scope: String,
    pub token_type: String,
    pub refresh_token: Option<String>,
    pub id_token: Option<String>,
}

/// OAuth tokens as stored.
#[derive(Debug, Clone)]
pub struct Tokens {
    pub access_token: String,
    pub expires_in: i64,
    pub scope: String,
    pub token_type: String,
    pub refresh_token: Option<String>,
    pub id_token: Option<String>,
    pub obtained_at: i64,
}

impl Tokens {
    /// Expired from 30 seconds before the end of their lifetime.
    pub open spec fn expired_at(self, now: i64) -> bool {
        now >= self.obtained_at + self.expires_in - 30
    }

    /// Whether the tokens are expired at time `now` (see `expired_at`).
    pub fn is_expired_at(&self, now: i64) -> (b: bool)
        requires
            i64::MIN <= self.obtained_at + self.expires_in <= i64::MAX,
            i64::MIN <= self.obtained_at + self.expires_in - 30,
        ensures
            b == self.expired_at(now),
    {
        now >= self.obtained_at + self.expires_in - 30
    }

    /// Whether the tokens are expired now: as `expired_at` says of the
    /// clock's reading, which lies within 2^50 seconds of the epoch.
    pub fn is_expired(&self) -> (b: bool)
        requires
            i64::MIN <= self.obtained_at + self.expires_in <= i64::MAX,
            i64::MIN <= self.obtained_at + self.expires_in - 30,
        ensures
            exists|now: i64|
                -0x4_0000_0000_0000 <= now <= 0x4_0000_0000_0000 && b == #[trigger] self.expired_at(now),
    {
        let now = crate::clock::unix_now();
        let b = self.is_expired_at(now);
        assert(-0x4_0000_0000_0000 <= now <= 0x4_0000_0000_0000 && b == self.expired_at(now));
        b
    }

    /// The tokens of a token response obtained at time `now`.
    pub fn from_response(r: TokenResponse, now: i64) -> (t: Tokens)
        ensures
            t == (Tokens {
                access_token: r.access_token,
                expires_in: r.expires_in,
                scope: r.scope,
                token_type: r.token_type,
                refresh_token: r.refresh_token,
                id_token: r.id_token,
                obtained_at: now,
            }),
    {
        Tokens {
            access_token: r.access_token,
            expires_in: r.expires_in,
            scope: r.scope,
            token_type: r.token_type,
            refresh_token: r.refresh_token,
            id_token: r.id_token,
            obtained_at: now,
        }
    }
}

/// Where the tokens are stored.
#[derive(Debug, Clone)]
pub struct TokenStorage {
    path: String,
}

impl TokenStorage {
    /// The file path.
    pub closed spec fn path(&self) -> Seq<char> {
        self.path@
    }

    /// Storage in the file at `path`.
    pub fn new(path: String) -> (s: TokenStorage)
        ensures
            s.path() == path@,
    {
        TokenStorage { path }
    }

    /// The file path, as text.
    pub fn path_str(&self) -> (s: String)
        ensures
            s@ == self.path(),
    {
        self.path.clone()
    }
}

/// The Google sign-in flow: the verifier and state of the sign-in under
/// way, if any.
#[derive(Debug)]
pub struct GoogleOAuthService {
    cfg: AppConfig,
    pkce: Option<PkcePair>,
    expected_state: Option<String>,
}

impl GoogleOAuthService {
    /// The client configuration.
    pub closed spec fn config(&self) -> AppConfig {
        self.cfg
    }

    /// The PKCE pair of the sign-in under way.
    pub closed spec fn pending(&self) -> Option<PkcePair> {
        self.pkce
    }

    /// The state the callback of the sign-in under way must echo.
    pub closed spec fn expected(&self) -> Option<String> {
        self.expected_state
    }

    /// A flow with no sign-in under way.
    pub fn new(cfg: AppConfig) -> (s: Self)
        ensures
            s.config() == cfg,
            s.pending() is None,
            s.expected() is None,
    {
        GoogleOAuthService { cfg, pkce: None, expected_state: None }
    }

    /// Starts a sign-in with the given PKCE pair and state: remembers both
    /// and returns the authorization address.
    pub fn start_login_with(&mut self, pkce: PkcePair, state: String) -> (url: String)
        ensures
            final(self).config() == old(self).config(),
            final(self).pending() == Some(pkce),
            final(self).expected() == Some(state),
            url@ == form_url(
                auth_endpoint(),
                login_pairs(old(self).config().client_id@, old(self).config().redirect_uri@, state@, pkce.challenge@),
            ),
    {
        let mut pairs: Vec<(String, String)> = Vec::new();
        pairs.push(pair("response_type", "code"));
        pairs.push(pair("client_id", self.cfg.client_id.as_str()));
        pairs.push(pair("redirect_uri", self.cfg.redirect_uri.as_str()));
        pairs.push(pair("scope", "openid email profile"));
        pairs.push(pair("state", state.as_str()));
        pairs.push(pair("code_challenge", pkce.challenge.as_str()));
        pairs.push(pair("code_challenge_method", "S256"));
        pairs.push(pair("access_type", "offline"));
        pairs.push(pair("prompt", "consent"));
        assert(pair_views(pairs@) =~= login_pairs(
            self.cfg.client_id@,
            self.cfg.redirect_uri@,
            state@,
            pkce.challenge@,
        ));
        let url = authorization_url("https://accounts.google.com/o/oauth2/v2/auth", &pairs);
        self.pkce = Some(pkce);
        self.expected_state = Some(state);
        url
    }

    /// Starts a sign-in with a fresh PKCE pair and a random state (a `u64`
    /// in decimal).
    pub fn start_login(&mut self) -> (r: Result<String, AppError>)
        ensures
            final(self).config() == old(self).config(),
            r matches Ok(url) && final(self).pending() matches Some(p) && final(self).expected() matches Some(s)
                && url@ == form_url(
                auth_endpoint(),
                login_pairs(old(self).config().client_id@, old(self).config().redirect_uri@, s@, p.challenge@),
            ),
            final(self).pending() matches Some(p) && p.verifier@.len() == 64 && p.challenge@ == base64_url_nopad(
                sha256_digest(vstd::utf8::encode_utf8(p.verifier@)),
            ) && forall|i: int| 0 <= i < 64 ==> is_ascii_alphanumeric(#[trigger] p.verifier@[i]),
            final(self).expected() matches Some(s) && exists|n: u64| s@ == #[trigger] decimal(n as nat),
    {
        let pkce = generate();
        let n = random_u64();
        let state = u64_to_decimal(n);
        let url = self.start_login_with(pkce, state);
        Ok(url)
    }

    /// The token request for a callback: its state must be the one the
    /// sign-in sent (else `state mismatch`), and a sign-in must be under way
    /// (else `missing pkce`).
    pub fn token_request(&self, cb: &OAuthCallback) -> (r: Result<TokenRequest, AppError>)
        ensures
            match r {
                Ok(t) => (self.expected() matches Some(s) && s@ == cb.state@) && (self.pending() matches Some(p) && {
                    &&& t.client_id == self.config().client_id
                    &&& t.client_secret == self.config().client_secret
                    &&& t.code == cb.code
                    &&& t.code_verifier == p.verifier
                    &&& t.grant_type@ == "authorization_code"@
                    &&& t.redirect_uri == self.config().redirect_uri
                }),
                Err(e) => if !(self.expected() matches Some(s) && s@ == cb.state@) {
                    e matches AppError::Auth(m) && m@ == "state mismatch"@
                } else {
                    self.pending() is None && (e matches AppError::Auth(m) && m@ == "missing pkce"@)
                },
            },
    {
        let matches = match &self.expected_state {
            Some(s) => crate::text::str_eq(s.as_str(), cb.state.as_str()),
            None => false,
        };
        if !matches {
            return Err(AppError::Auth(String::from_str("state mismatch")));
        }
        let verifier = match &self.pkce {
            Some(p) => p.verifier.clone(),
            None => {
                return Err(AppError::Auth(String::from_str("missing pkce")));
            },
        };
        Ok(
            TokenRequest {
                client_id: self.cfg.client_id.clone(),
                client_secret: crate::text::clone_opt_string(&self.cfg.client_secret),
                code: cb.code.clone(),
                code_verifier: verifier,
                grant_type: String::from_str("authorization_code"),
                redirect_uri: self.cfg.redirect_uri.clone(),
            },
        )
    }
}

/// The error for a token endpoint that refused the request, with the status
/// it answered and the text of its answer.
pub fn token_error(status: &str, body: &str) -> (e: AppError)
    ensures
        e matches AppError::Auth(m) && m@ == "token error ("@ + status@ + "): "@ + body@,
{
    let mut m = String::from_str("token error (");
    m.append(status);
    m.append("): ");
    m.append(body);
    AppError::Auth(m)
}

/// The path and query pairs of an address, or the parser's message.
pub uninterp spec fn url_parts(raw: Seq<char>) -> Result<(Seq<char>, Seq<(Seq<char>, Seq<char>)>), Seq<char>>;

/// Parses an address with the `url` crate (`Url::parse`) and returns its
/// path and its decoded query pairs in order, or the parse error's text;
/// named `url_parts`.
#[verifier::external_body]
pub(crate) fn parse_url(raw: &str) -> (r: Result<(String, Vec<(String, String)>), String>)
    ensures
        match r {
            Ok(p) => url_parts(raw@) == Ok::<(Seq<char>, Seq<(Seq<char>, Seq<char>)>), Seq<char>>((p.0@, pair_views(p.1@))),
            Err(e) => url_parts(raw@) == Err::<(Seq<char>, Seq<(Seq<char>, Seq<char>)>), Seq<char>>(e@),
        },
{
    match url::Url::parse(raw) {
        Ok(u) => Ok((u.path().to_string(), u.query_pairs().map(|(k, v)| (k.to_string(), v.to_string())).collect())),
        Err(e) => Err(e.to_string()),
    }
}

/// The value of the last pair named `key`.
pub open spec fn last_value(pairs: Seq<(Seq<char>, Seq<char>)>, key: Seq<char>) -> Option<Seq<char>>
    decreases pairs.len(),
{
    if pairs.len() == 0 {
        None
    } else if pairs.last().0 == key {
        Some(pairs.last().1)
    } else {
        last_value(pairs.drop_last(), key)
    }
}

/// What a deep link with path `path` and query `pairs` gives: nothing for
/// another path; for `/auth/callback`, the last `code` and `state` given,
/// and an error when either is missing.
pub open spec fn callback_outcome(
    path: Seq<char>,
    pairs: Seq<(Seq<char>, Seq<char>)>,
    r: Result<Option<OAuthCallback>, String>,
) -> bool {
    match r {
        Ok(None) => path != "/auth/callback"@,
        Ok(Some(cb)) => path == "/auth/callback"@ && last_value(pairs, "code"@) == Some(cb.code@) && last_value(
            pairs,
            "state"@,
        ) == Some(cb.state@),
        Err(m) => path == "/auth/callback"@ && (last_value(pairs, "code"@) is None || last_value(
            pairs,
            "state"@,
        ) is None) && m@ == "callback sin code/state"@,
    }
}

/// The callback a deep link's path and query describe: none for another
/// path; for `/auth/callback`, the last `code` and `state` given, both
/// required.
pub fn callback_from_parts(path: &str, pairs: &Vec<(String, String)>) -> (r: Result<Option<OAuthCallback>, String>)
    ensures
        callback_outcome(path@, pair_views(pairs@), r),
{
    if !crate::text::str_eq(path, "/auth/callback") {
        return Ok(None);
    }
    let mut code: Option<String> = None;
    let mut state: Option<String> = None;
    let mut i: usize = 0;
    while i < pairs.len()
        invariant
            i <= pairs.len(),
            match code {
                Some(c) => last_value(pair_views(pairs@.subrange(0, i as int)), "code"@) == Some(c@),
                None => last_value(pair_views(pairs@.subrange(0, i as int)), "code"@) is None,
            },
            match state {
                Some(s) => last_value(pair_views(pairs@.subrange(0, i as int)), "state"@) == Some(s@),
                None => last_value(pair_views(pairs@.subrange(0, i as int)), "state"@) is None,
            },
        decreases pairs.len() - i,
    {
        let ghost prev = pair_views(pairs@.subrange(0, i as int));
        let ghost next = pair_views(pairs@.subrange(0, i + 1));
        assert(next.drop_last() =~= prev);
        assert(next.last() == (pairs@[i as int].0@, pairs@[i as int].1@));
        if crate::text::str_eq(pairs[i].0.as_str(), "code") {
            code = Some(pairs[i].1.clone());
        }
        if crate::text::str_eq(pairs[i].0.as_str(), "state") {
            state = Some(pairs[i].1.clone());
        }
        i = i + 1;
    }
    assert(pairs@.subrange(0, pairs.len() as int) =~= pairs@);
    match (code, state) {
        (Some(c), Some(s)) => Ok(Some(OAuthCallback { code: c, state: s })),
        _ => Err(String::from_str("callback sin code/state")),
    }
}

/// The callback a deep link carries (see `callback_from_parts`); an address
/// that does not parse gives the parser's message.
pub fn callback_from_link(raw: &str) -> (r: Result<Option<OAuthCallback>, String>)
    ensures
        match url_parts(raw@) {
            Err(m) => r matches Err(e) && e@ == m,
            Ok((path, pairs)) => callback_outcome(path, pairs, r),
        },
{
    match parse_url(raw) {
        Ok((path, pairs)) => callback_from_parts(path.as_str(), &pairs),
        Err(e) => Err(e),
    }
}

} // verus!
