//! OAuth authentication module
//!
//! OAuth 2.0 configuration, its validation, and a small in-memory token
//! store. Token expiry is judged against a caller-supplied timestamp, so
//! nothing here reads the clock.

use crate::error::Error;
use crate::utils::string::str_eq;
use vstd::prelude::*;
use vstd::seq_lib::*;
use vstd::string::StrSliceExecFns;
use vstd::string::StringExecFns;

verus! {

/// OAuth configuration
pub struct OAuthConfig {
    /// Whether OAuth is enabled
    pub enabled: bool,
    /// Client ID
    pub client_id: Option<String>,
    /// Client secret
    pub client_secret: Option<String>,
    /// Redirect URI
    pub redirect_uri: Option<String>,
    /// Authorization endpoint
    pub authorization_endpoint: Option<String>,
    /// Token endpoint
    pub token_endpoint: Option<String>,
    /// Scopes
    pub scopes: Vec<String>,
    /// Authentication provider type
    pub provider: OAuthProvider,
}

/// OAuth provider type
pub enum OAuthProvider {
    /// Custom OAuth provider
    Custom,
    /// GitHub OAuth
    GitHub,
    /// Google OAuth
    Google,
    /// Keycloak
    Keycloak,
}

/// Whether `url::Url::parse` accepts a string. Acceptance depends on the
/// string alone.
pub uninterp spec fn url_ok(s: Seq<char>) -> bool;

/// The message `url::Url::parse` rejects a string with, a function of the
/// string alone.
pub uninterp spec fn url_error_of(s: Seq<char>) -> Seq<char>;

/// Check a string against the URL syntax.
///
/// Relies on `url::Url::parse`: it accepts or rejects a given string
/// deterministically, and renders its parse errors as fixed messages.
#[verifier::external_body]
fn check_url(s: &str) -> (r: Result<(), String>)
    ensures
        r is Ok <==> url_ok(s@),
        (match r {
            Ok(_) => true,
            Err(m) => m@ == url_error_of(s@),
        }),
{
    match url::Url::parse(s) {
        Ok(_) => Ok(()),
        Err(e) => Err(e.to_string()),
    }
}

/// What validation demands of an enabled configuration: every field
/// present and every address well-formed. A disabled configuration is
/// always valid.
pub open spec fn spec_oauth_valid(c: OAuthConfig) -> bool {
    !c.enabled || (c.client_id is Some && c.client_secret is Some && c.redirect_uri is Some
        && c.authorization_endpoint is Some && c.token_endpoint is Some && url_ok(
        c.redirect_uri->0@,
    ) && url_ok(c.authorization_endpoint->0@) && url_ok(c.token_endpoint->0@))
}

/// The message validation fails with, for the first check that does not
/// hold.
pub open spec fn spec_oauth_error(c: OAuthConfig) -> Seq<char> {
    if c.client_id is None {
        "client_id is required"@
    } else if c.client_secret is None {
        "client_secret is required"@
    } else if c.redirect_uri is None {
        "redirect_uri is required"@
    } else if c.authorization_endpoint is None {
        "authorization_endpoint is required"@
    } else if c.token_endpoint is None {
        "token_endpoint is required"@
    } else if !url_ok(c.redirect_uri->0@) {
        "Invalid redirect_uri: "@ + url_error_of(c.redirect_uri->0@)
    } else if !url_ok(c.authorization_endpoint->0@) {
        "Invalid authorization_endpoint: "@ + url_error_of(c.authorization_endpoint->0@)
    } else {
        "Invalid token_endpoint: "@ + url_error_of(c.token_endpoint->0@)
    }
}

impl OAuthConfig {
    /// Create GitHub OAuth configuration
    pub fn github(client_id: String, client_secret: String, redirect_uri: String) -> (r: Self)
        ensures
            r.enabled,
            r.client_id == Some(client_id),
            r.client_secret == Some(client_secret),
            r.redirect_uri == Some(redirect_uri),
            r.authorization_endpoint matches Some(a) && a@
                == "https://github.com/login/oauth/authorize"@,
            r.token_endpoint matches Some(t) && t@
                == "https://github.com/login/oauth/access_token"@,
            r.scopes@.len() == 2 && r.scopes@[0]@ == "read:user"@ && r.scopes@[1]@
                == "user:email"@,
            r.provider is GitHub,
    {
        OAuthConfig {
            enabled: true,
            client_id: Some(client_id),
            client_secret: Some(client_secret),
            redirect_uri: Some(redirect_uri),
            authorization_endpoint: Some(
                String::from_str("https://github.com/login/oauth/authorize"),
            ),
            token_endpoint: Some(String::from_str("https://github.com/login/oauth/access_token")),
            scopes: vec![String::from_str("read:user"), String::from_str("user:email")],
            provider: OAuthProvider::GitHub,
        }
    }

    /// Create Google OAuth configuration
    pub fn google(client_id: String, client_secret: String, redirect_uri: String) -> (r: Self)
        ensures
            r.enabled,
            r.client_id == Some(client_id),
            r.client_secret == Some(client_secret),
            r.redirect_uri == Some(redirect_uri),
            r.authorization_endpoint matches Some(a) && a@
                == "https://accounts.google.com/o/oauth2/v2/auth"@,
            r.token_endpoint matches Some(t) && t@ == "https://oauth2.googleapis.com/token"@,
            r.scopes@.len() == 3 && r.scopes@[0]@ == "openid"@ && r.scopes@[1]@
                == "https://www.googleapis.com/auth/userinfo.profile"@ && r.scopes@[2]@
                == "https://www.googleapis.com/auth/userinfo.email"@,
            r.provider is Google,
    {
        OAuthConfig {
            enabled: true,
            client_id: Some(client_id),
            client_secret: Some(client_secret),
            redirect_uri: Some(redirect_uri),
            authorization_endpoint: Some(
                String::from_str("https://accounts.google.com/o/oauth2/v2/auth"),
            ),
            token_endpoint: Some(String::from_str("https://oauth2.googleapis.com/token")),
            scopes: vec![
                String::from_str("openid"),
                String::from_str("https://www.googleapis.com/auth/userinfo.profile"),
                String::from_str("https://www.googleapis.com/auth/userinfo.email"),
            ],
            provider: OAuthProvider::Google,
        }
    }

    /// Create Keycloak OAuth configuration; the endpoints stand under the
    /// given base address (trailing slashes ignored) and realm.
    pub fn keycloak(
        client_id: String,
        client_secret: String,
        redirect_uri: String,
        base_url: &str,
        realm: &str,
    ) -> (r: Self)
        ensures
            r.enabled,
            r.client_id == Some(client_id),
            r.client_secret == Some(client_secret),
            r.redirect_uri == Some(redirect_uri),
            r.authorization_endpoint matches Some(a) && a@ == spec_trim_trailing_slashes(base_url@)
                + "/realms/"@ + realm@ + "/protocol/openid-connect/auth"@,
            r.token_endpoint matches Some(t) && t@ == spec_trim_trailing_slashes(base_url@)
                + "/realms/"@ + realm@ + "/protocol/openid-connect/token"@,
            r.scopes@.len() == 3 && r.scopes@[0]@ == "openid"@ && r.scopes@[1]@ == "profile"@
                && r.scopes@[2]@ == "email"@,
            r.provider is Keycloak,
    {
        let base = trim_trailing_slashes(base_url);
        let mut auth_ep = base.clone();
        auth_ep.append("/realms/");
        auth_ep.append(realm);
        auth_ep.append("/protocol/openid-connect/auth");
        let mut token_ep = base.clone();
        token_ep.append("/realms/");
        token_ep.append(realm);
        token_ep.append("/protocol/openid-connect/token");
        OAuthConfig {
            enabled: true,
            client_id: Some(client_id),
            client_secret: Some(client_secret),
            redirect_uri: Some(redirect_uri),
            authorization_endpoint: Some(auth_ep),
            token_endpoint: Some(token_ep),
            scopes: vec![
                String::from_str("openid"),
                String::from_str("profile"),
                String::from_str("email"),
            ],
            provider: OAuthProvider::Keycloak,
        }
    }

    /// Validate the configuration: a disabled configuration passes; an
    /// enabled one must have every field, and its addresses must parse.
    pub fn validate(&self) -> (r: Result<(), Error>)
        ensures
            r is Ok <==> spec_oauth_valid(*self),
            (match r {
                Ok(_) => true,
                Err(e) => match e {
                    Error::Config(m) => m@ == spec_oauth_error(*self),
                    _ => false,
                },
            }),
    {
        if !self.enabled {
            return Ok(());
        }
        if self.client_id.is_none() {
            return Err(Error::Config(String::from_str("client_id is required")));
        }
        if self.client_secret.is_none() {
            return Err(Error::Config(String::from_str("client_secret is required")));
        }
        if self.redirect_uri.is_none() {
            return Err(Error::Config(String::from_str("redirect_uri is required")));
        }
        if self.authorization_endpoint.is_none() {
            return Err(Error::Config(String::from_str("authorization_endpoint is required")));
        }
        if self.token_endpoint.is_none() {
            return Err(Error::Config(String::from_str("token_endpoint is required")));
        }
        match &self.redirect_uri {
            Some(uri) => {
                match check_url(uri.as_str()) {
                    Ok(_) => {
                    },
                    Err(m) => {
                        let mut msg = String::from_str("Invalid redirect_uri: ");
                        msg.append(m.as_str());
                        return Err(Error::Config(msg));
                    },
                }
            },
            None => {
            },
        }
        match &self.authorization_endpoint {
            Some(ep) => {
                match check_url(ep.as_str()) {
                    Ok(_) => {
                    },
                    Err(m) => {
                        let mut msg = String::from_str("Invalid authorization_endpoint: ");
                        msg.append(m.as_str());
                        return Err(Error::Config(msg));
                    },
                }
            },
            None => {
            },
        }
        match &self.token_endpoint {
            Some(ep) => {
                match check_url(ep.as_str()) {
                    Ok(_) => {
                    },
                    Err(m) => {
                        let mut msg = String::from_str("Invalid token_endpoint: ");
                        msg.append(m.as_str());
                        return Err(Error::Config(msg));
                    },
                }
            },
            None => {
            },
        }
        Ok(())
    }

    /// Hand the configuration to the protocol layer; refused while OAuth
    /// is not enabled.
    pub fn to_mcp_config(&self) -> (r: Result<(), Error>)
        ensures
            r is Ok <==> self.enabled,
            (match r {
                Ok(_) => true,
                Err(e) => match e {
                    Error::Config(m) => m@ == "OAuth is not enabled"@,
                    _ => false,
                },
            }),
    {
        if !self.enabled {
            return Err(Error::Config(String::from_str("OAuth is not enabled")));
        }
        Ok(())
    }
}

impl Default for OAuthConfig {
    fn default() -> (r: Self)
        ensures
            !r.enabled,
            r.client_id is None,
            r.client_secret is None,
            r.redirect_uri is None,
            r.authorization_endpoint is None,
            r.token_endpoint is None,
            r.scopes@.len() == 3 && r.scopes@[0]@ == "openid"@ && r.scopes@[1]@ == "profile"@
                && r.scopes@[2]@ == "email"@,
            r.provider is Custom,
    {
        OAuthConfig {
            enabled: false,
            client_id: None,
            client_secret: None,
            redirect_uri: None,
            authorization_endpoint: None,
            token_endpoint: None,
            scopes: vec![
                String::from_str("openid"),
                String::from_str("profile"),
                String::from_str("email"),
            ],
            provider: OAuthProvider::Custom,
        }
    }
}

/// A string with its trailing slashes removed.
pub open spec fn spec_trim_trailing_slashes(s: Seq<char>) -> Seq<char>
    decreases s.len(),
{
    if s.len() > 0 && s.last() == '/' {
        spec_trim_trailing_slashes(s.drop_last())
    } else {
        s
    }
}

fn trim_trailing_slashes(s: &str) -> (r: String)
    ensures
        r@ == spec_trim_trailing_slashes(s@),
{
    let n = s.unicode_len();
    proof {
        assert(s@.take(n as int) =~= s@);
    }
    let mut end = n;
    while end > 0 && s.get_char(end - 1) == '/'
        invariant
            end <= n,
            n == s@.len(),
            spec_trim_trailing_slashes(s@) == spec_trim_trailing_slashes(s@.take(end as int)),
        decreases end,
    {
        proof {
            assert(s@.take(end as int).last() == s@[end - 1]);
            assert(s@.take(end as int).drop_last() =~= s@.take(end - 1));
        }
        end -= 1;
    }
    proof {
        assert(spec_trim_trailing_slashes(s@.take(end as int)) == s@.take(end as int));
    }
    s.substring_char(0, end).to_owned()
}

/// Authentication manager
pub struct AuthManager {
    config: OAuthConfig,
}

impl AuthManager {
    /// Create a new authentication manager; the configuration must pass
    /// validation.
    pub fn new(config: OAuthConfig) -> (r: Result<Self, Error>)
        ensures
            r is Ok <==> spec_oauth_valid(config),
            (match r {
                Ok(m) => m.spec_config() == config,
                Err(e) => match e {
                    Error::Config(msg) => msg@ == spec_oauth_error(config),
                    _ => false,
                },
            }),
    {
        match config.validate() {
            Ok(_) => Ok(AuthManager { config }),
            Err(e) => Err(e),
        }
    }

    /// The held configuration, as specifications see it.
    pub closed spec fn spec_config(&self) -> OAuthConfig {
        self.config
    }

    /// Check if authentication is enabled
    pub fn is_enabled(&self) -> (r: bool)
        ensures
            r == self.spec_config().enabled,
    {
        self.config.enabled
    }

    /// Get the configuration
    pub fn config(&self) -> (r: &OAuthConfig)
        ensures
            *r == self.spec_config(),
    {
        &self.config
    }
}

/// OAuth token information. The expiry stands as a wall-clock timestamp
/// in milliseconds.
pub struct TokenInfo {
    /// Access token
    pub access_token: String,
    /// Refresh token (optional)
    pub refresh_token: Option<String>,
    /// Token expiration timestamp, milliseconds
    pub expires_at_ms: i64,
    /// Authorization scopes
    pub scopes: Vec<String>,
    /// User ID (optional)
    pub user_id: Option<String>,
    /// User email (optional)
    pub user_email: Option<String>,
}

/// Simple in-memory token store, keyed by an opaque string.
pub struct TokenStore {
    tokens: Vec<(String, TokenInfo)>,
}

impl TokenStore {
    /// The stored tokens as specifications see them.
    pub closed spec fn model(&self) -> Seq<(Seq<char>, TokenInfo)> {
        Seq::new(self.tokens@.len(), |i: int| (self.tokens@[i].0@, self.tokens@[i].1))
    }

    /// No key occurs twice.
    pub open spec fn wf(&self) -> bool {
        forall|i: int, j: int|
            0 <= i < j < self.model().len() ==> self.model()[i].0 != self.model()[j].0
    }

    /// Whether some token is stored under the key.
    pub open spec fn spec_contains(&self, k: Seq<char>) -> bool {
        exists|i: int| 0 <= i < self.model().len() && self.model()[i].0 == k
    }

    /// Create a new, empty token store.
    pub fn new() -> (r: Self)
        ensures
            r.wf(),
            r.model() =~= Seq::<(Seq<char>, TokenInfo)>::empty(),
    {
        TokenStore { tokens: Vec::new() }
    }

    fn find_index(&self, key: &str) -> (r: Option<usize>)
        ensures
            match r {
                Some(i) => 0 <= i < self.model().len() && self.model()[i as int].0 == key@,
                None => !self.spec_contains(key@),
            },
    {
        let n = self.tokens.len();
        let mut i: usize = 0;
        while i < n
            invariant
                i <= n,
                n == self.tokens@.len(),
                forall|j: int| 0 <= j < i ==> self.model()[j].0 != key@,
            decreases n - i,
        {
            if str_eq(self.tokens[i].0.as_str(), key) {
                return Some(i);
            }
            i += 1;
        }
        None
    }

    /// Store a token under a key, replacing whatever was there.
    pub fn store_token(&mut self, key: String, token: TokenInfo)
        requires
            old(self).wf(),
        ensures
            final(self).wf(),
            final(self).spec_contains(key@),
            forall|i: int|
                0 <= i < final(self).model().len() && (#[trigger] final(self).model()[i]).0 == key@
                    ==> final(self).model()[i].1 == token,
            forall|k: Seq<char>|
                k != key@ ==> (final(self).spec_contains(k) <==> old(self).spec_contains(k)),
    {
        let ghost pre = self.model();
        let idx = self.find_index(key.as_str());
        match idx {
            Some(i) => {
                self.tokens.remove(i);
                proof {
                    pre.remove_ensures(i as int);
                    assert(self.model() =~= pre.remove(i as int));
                }
            },
            None => {
            },
        }
        let ghost mid = self.model();
        proof {
            assert forall|j: int| 0 <= j < mid.len() implies (#[trigger] mid[j]).0 != key@ by {
                match idx {
                    Some(rm) => {
                        let pj = if j < rm as int {
                            j
                        } else {
                            j + 1
                        };
                        assert(mid[j] == pre[pj]);
                        if pj != rm as int {
                            assert(pre[pj].0 != pre[rm as int].0);
                        }
                    },
                    None => {
                        assert(mid[j] == pre[j]);
                    },
                }
            }
            assert forall|a: int, b: int| 0 <= a < b < mid.len() implies mid[a].0 != mid[b].0 by {
                match idx {
                    Some(rm) => {
                        let pa = if a < rm as int {
                            a
                        } else {
                            a + 1
                        };
                        let pb = if b < rm as int {
                            b
                        } else {
                            b + 1
                        };
                        assert(mid[a] == pre[pa] && mid[b] == pre[pb]);
                        assert(pre[pa].0 != pre[pb].0);
                    },
                    None => {
                        assert(mid[a] == pre[a] && mid[b] == pre[b]);
                    },
                }
            }
        }
        self.tokens.push((key, token));
        proof {
            assert(self.model() =~= mid.push((key@, token)));
            assert(self.model()[mid.len() as int] == (key@, token));
            assert(self.spec_contains(key@));
            assert forall|a: int, b: int|
                0 <= a < b < self.model().len() implies self.model()[a].0 != self.model()[b].0 by {
                if b == mid.len() as int {
                    assert(self.model()[a] == mid[a]);
                } else {
                    assert(self.model()[a] == mid[a] && self.model()[b] == mid[b]);
                }
            }
            assert forall|k: Seq<char>| k != key@ implies (#[trigger] self.spec_contains(k)
                <==> old(self).spec_contains(k)) by {
                if self.spec_contains(k) {
                    let j = choose|j: int|
                        0 <= j < self.model().len() && self.model()[j].0 == k;
                    assert(j < mid.len());
                    assert(mid[j].0 == k);
                    match idx {
                        Some(rm) => {
                            let pj = if j < rm as int {
                                j
                            } else {
                                j + 1
                            };
                            assert(pre[pj].0 == k);
                        },
                        None => {
                            assert(pre[j].0 == k);
                        },
                    }
                    assert(old(self).spec_contains(k));
                }
                if old(self).spec_contains(k) {
                    let j = choose|j: int| 0 <= j < pre.len() && pre[j].0 == k;
                    match idx {
                        Some(rm) => {
                            assert(j != rm as int);
                            let mj = if j < rm as int {
                                j
                            } else {
                                j - 1
                            };
                            assert(self.model()[mj].0 == k);
                        },
                        None => {
                            assert(self.model()[j].0 == k);
                        },
                    }
                    assert(self.spec_contains(k));
                }
            }
        }
    }

    /// Get the token stored under a key.
    pub fn get_token(&self, key: &str) -> (r: Option<&TokenInfo>)
        ensures
            match r {
                Some(t) => self.spec_contains(key@) && (exists|i: int|
                    0 <= i < self.model().len() && #[trigger] self.model()[i] == (key@, *t)),
                None => !self.spec_contains(key@),
            },
    {
        let idx = self.find_index(key);
        match idx {
            Some(i) => {
                let t = &self.tokens[i].1;
                proof {
                    assert(self.model()[i as int] == (key@, *t));
                }
                Some(t)
            },
            None => None,
        }
    }

    /// Remove the token stored under a key; an absent key is a no-op.
    pub fn remove_token(&mut self, key: &str)
        requires
            old(self).wf(),
        ensures
            final(self).wf(),
            !final(self).spec_contains(key@),
            final(self).model() =~= if old(self).spec_contains(key@) {
                old(self).model().remove(
                    choose|i: int|
                        0 <= i < old(self).model().len() && old(self).model()[i].0 == key@,
                )
            } else {
                old(self).model()
            },
    {
        let idx = self.find_index(key);
        match idx {
            Some(i) => {
                self.tokens.remove(i);
                proof {
                    let pre = old(self).model();
                    pre.remove_ensures(i as int);
                    let c = choose|j: int| 0 <= j < pre.len() && pre[j].0 == key@;
                    if c != i as int {
                        assert(pre[c].0 == pre[i as int].0);
                        assert(false);
                    }
                    assert(self.model() =~= pre.remove(i as int));
                    assert forall|j: int|
                        0 <= j < self.model().len() implies self.model()[j].0 != key@ by {
                        let pj = if j < i as int {
                            j
                        } else {
                            j + 1
                        };
                        assert(self.model()[j] == pre[pj]);
                        if pj != i as int {
                            assert(pre[pj].0 != pre[i as int].0);
                        }
                    }
                    assert forall|a: int, b: int|
                        0 <= a < b < self.model().len() implies self.model()[a].0
                        != self.model()[b].0 by {
                        let pa = if a < i as int {
                            a
                        } else {
                            a + 1
                        };
                        let pb = if b < i as int {
                            b
                        } else {
                            b + 1
                        };
                        assert(self.model()[a] == pre[pa] && self.model()[b] == pre[pb]);
                        assert(pre[pa].0 != pre[pb].0);
                    }
                }
            },
            None => {
            },
        }
    }

    /// Drop every token whose expiry is not after the given instant.
    pub fn cleanup_expired(&mut self, now_ms: i64)
        requires
            old(self).wf(),
        ensures
            final(self).wf(),
            forall|i: int|
                0 <= i < final(self).model().len() ==> (#[trigger] final(self).model()[i]).1.expires_at_ms > now_ms,
            forall|i: int|
                0 <= i < final(self).model().len() ==> old(self).model().contains(
                    #[trigger] final(self).model()[i],
                ),
            forall|i: int|
                0 <= i < old(self).model().len() && (#[trigger] old(self).model()[i]).1.expires_at_ms > now_ms
                    ==> final(self).model().contains(old(self).model()[i]),
    {
        let ghost orig = self.tokens@;
        let ghost mut j: int = 0;
        let mut i: usize = 0;
        while i < self.tokens.len()
            invariant
                0 <= j <= orig.len(),
                i as int == orig.take(j).filter(token_live_pred(now_ms)).len(),
                self.tokens@ =~= orig.take(j).filter(token_live_pred(now_ms)) + orig.skip(j),
            decreases self.tokens@.len() - i,
        {
            proof {
                assert(j < orig.len());
                assert(self.tokens@[i as int] == orig[j]);
                assert(orig.take(j + 1) =~= orig.take(j).push(orig[j]));
                orig.take(j).lemma_filter_push(orig[j], token_live_pred(now_ms));
                assert(orig.skip(j) =~= seq![orig[j]] + orig.skip(j + 1));
            }
            if self.tokens[i].1.expires_at_ms <= now_ms {
                self.tokens.remove(i);
                proof {
                    assert(self.tokens@ =~= orig.take(j + 1).filter(token_live_pred(now_ms))
                        + orig.skip(j + 1));
                    j = j + 1;
                }
            } else {
                i += 1;
                proof {
                    assert(self.tokens@ =~= orig.take(j + 1).filter(token_live_pred(now_ms))
                        + orig.skip(j + 1));
                    j = j + 1;
                }
            }
        }
        proof {
            assert(orig.take(j) =~= orig);
            let f = orig.filter(token_live_pred(now_ms));
            assert(self.tokens@ =~= f);
            assert forall|i2: int|
                0 <= i2 < self.model().len() implies old(self).model().contains(
                self.model()[i2],
            ) by {
                assert(f.contains(f[i2]));
                orig.lemma_filter_contains_rev(token_live_pred(now_ms), f[i2]);
                let oi = choose|oi: int| 0 <= oi < orig.len() && orig[oi] == f[i2];
                assert(old(self).model()[oi] == self.model()[i2]);
                assert(old(self).model().contains(old(self).model()[oi])) by {
                    assert(exists|w: int|
                        0 <= w < old(self).model().len() && old(self).model()[w] == old(
                            self,
                        ).model()[oi]) by {
                        assert(old(self).model()[oi] == old(self).model()[oi]);
                    }
                }
            }
            assert forall|i2: int|
                0 <= i2 < orig.len() && (#[trigger] orig[i2]).1.expires_at_ms > now_ms implies
                self.model().contains(old(self).model()[i2]) by {
                orig.lemma_filter_contains(token_live_pred(now_ms), i2);
                let fi = choose|fi: int| 0 <= fi < f.len() && f[fi] == orig[i2];
                assert(self.model()[fi] == old(self).model()[i2]);
                assert(self.model().contains(self.model()[fi])) by {
                    assert(exists|w: int|
                        0 <= w < self.model().len() && self.model()[w] == self.model()[fi]) by {
                        assert(self.model()[fi] == self.model()[fi]);
                    }
                }
            }
            assert forall|i3: int, j3: int|
                0 <= i3 < j3 < orig.len() implies orig[i3].0@ != orig[j3].0@ by {
                assert(old(self).model()[i3].0 != old(self).model()[j3].0);
            }
            assert forall|a: int, b: int|
                0 <= a < b < self.model().len() implies self.model()[a].0 != self.model()[b].0 by {
                lemma_token_filter_nodup(orig, token_live_pred(now_ms));
                assert(f[a].0@ != f[b].0@);
            }
        }
    }
}

/// Predicate selecting the tokens that are still live at the given
/// instant.
pub open spec fn token_live_pred(now_ms: i64) -> spec_fn((String, TokenInfo)) -> bool {
    |p: (String, TokenInfo)| p.1.expires_at_ms > now_ms
}

proof fn lemma_token_filter_nodup(s: Seq<(String, TokenInfo)>, p: spec_fn((String, TokenInfo)) -> bool)
    requires
        forall|i: int, j: int| 0 <= i < j < s.len() ==> s[i].0@ != s[j].0@,
    ensures
        forall|i: int, j: int|
            0 <= i < j < s.filter(p).len() ==> s.filter(p)[i].0@ != s.filter(p)[j].0@,
    decreases s.len(),
{
    reveal(Seq::filter);
    if s.len() == 0 {
    } else {
        let t = s.drop_last();
        assert(forall|i: int, j: int| 0 <= i < j < t.len() ==> t[i].0@ != t[j].0@) by {
            assert forall|i: int, j: int| 0 <= i < j < t.len() implies t[i].0@ != t[j].0@ by {
                assert(s[i].0@ != s[j].0@);
            }
        }
        lemma_token_filter_nodup(t, p);
        let ft = t.filter(p);
        if p(s.last()) {
            assert forall|i: int| 0 <= i < ft.len() implies ft[i].0@ != s.last().0@ by {
                assert(ft.contains(ft[i]));
                t.lemma_filter_contains_rev(p, ft[i]);
                let j = choose|j: int| 0 <= j < t.len() && t[j] == ft[i];
                assert(s[j].0@ != s[s.len() - 1].0@);
            }
            assert(s.filter(p) == ft.push(s.last()));
        } else {
            assert(s.filter(p) == ft);
        }
    }
}

} // verus!
