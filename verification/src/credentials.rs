//! The credential record: the persisted identity used to authenticate
//! requests, together with the per-invocation resolution of overrides.

use vstd::prelude::*;
use vstd::string::*;

use crate::strutil::char_repeat;
use crate::strutil::repeat_char;

verus! {

/// The persisted identity: base endpoint, at most one active credential
/// (an API key takes priority over a bearer token), and contextual
/// identifiers attached to requests.
#[derive(Clone, Debug)]
pub struct Credentials {
    pub api_url: String,
    pub api_key: Option<String>,
    pub auth_token: Option<String>,
    pub tenant_id: Option<String>,
    pub user_id: Option<String>,
    pub environment_id: Option<String>,
}

/// The mathematical model of a credential record: each field as a
/// sequence of characters.
#[verifier::ext_equal]
pub struct CredentialsView {
    pub api_url: Seq<char>,
    pub api_key: Option<Seq<char>>,
    pub auth_token: Option<Seq<char>>,
    pub tenant_id: Option<Seq<char>>,
    pub user_id: Option<Seq<char>>,
    pub environment_id: Option<Seq<char>>,
}

pub open spec fn view_opt(o: Option<String>) -> Option<Seq<char>> {
    match o {
        Some(s) => Some(s@),
        None => None,
    }
}

pub open spec fn view_opt_str(o: Option<&str>) -> Option<Seq<char>> {
    match o {
        Some(s) => Some(s@),
        None => None,
    }
}

impl View for Credentials {
    type V = CredentialsView;

    open spec fn view(&self) -> CredentialsView {
        CredentialsView {
            api_url: self.api_url@,
            api_key: view_opt(self.api_key),
            auth_token: view_opt(self.auth_token),
            tenant_id: view_opt(self.tenant_id),
            user_id: view_opt(self.user_id),
            environment_id: view_opt(self.environment_id),
        }
    }
}

/// The model of a fresh, empty record: no endpoint, no credential,
/// no context.
pub open spec fn empty_view() -> CredentialsView {
    CredentialsView {
        api_url: Seq::<char>::empty(),
        api_key: None,
        auth_token: None,
        tenant_id: None,
        user_id: None,
        environment_id: None,
    }
}

/// Whether a record carries a usable credential.
pub open spec fn is_authenticated_view(c: CredentialsView) -> bool {
    c.api_key is Some || c.auth_token is Some
}

/// The single authentication header attached to requests: the API key
/// wins over the bearer token; with neither, no header is sent.
pub open spec fn auth_header_view(c: CredentialsView) -> Option<(Seq<char>, Seq<char>)> {
    if c.api_key is Some {
        Some(("x-api-key"@, c.api_key->0))
    } else if c.auth_token is Some {
        Some(("Authorization"@, "Bearer "@ + c.auth_token->0))
    } else {
        None
    }
}

/// The display form of the API key: long keys keep their first and last
/// four characters, short keys become asterisks, a missing key a fixed
/// placeholder.
pub open spec fn masked_key_view(key: Option<Seq<char>>) -> Seq<char> {
    match key {
        Some(k) => if k.len() > 8 {
            k.subrange(0, 4) + "..."@ + k.subrange(k.len() - 4, k.len() as int)
        } else {
            char_repeat('*', k.len())
        },
        None => "(not set)"@,
    }
}

/// An environment override for the base URL: applies only when set to a
/// non-empty value.
pub open spec fn override_url(base: Seq<char>, env: Option<Seq<char>>) -> Seq<char> {
    match env {
        Some(v) => if v.len() > 0 {
            v
        } else {
            base
        },
        None => base,
    }
}

/// An environment override for an optional field: applies only when set
/// to a non-empty value.
pub open spec fn override_opt(base: Option<Seq<char>>, env: Option<Seq<char>>) -> Option<
    Seq<char>,
> {
    match env {
        Some(v) => if v.len() > 0 {
            Some(v)
        } else {
            base
        },
        None => base,
    }
}

/// The merged record after layering: stored record, then environment
/// overrides (when non-empty), then command-line flags (always, when
/// present). Only the base URL, the API key and the environment id can
/// be overridden; the other fields come from the stored record.
pub open spec fn resolve_view(
    stored: CredentialsView,
    env_api_url: Option<Seq<char>>,
    env_api_key: Option<Seq<char>>,
    env_environment_id: Option<Seq<char>>,
    cli_api_url: Option<Seq<char>>,
    cli_api_key: Option<Seq<char>>,
) -> CredentialsView {
    CredentialsView {
        api_url: if cli_api_url is Some {
            cli_api_url->0
        } else {
            override_url(stored.api_url, env_api_url)
        },
        api_key: if cli_api_key is Some {
            Some(cli_api_key->0)
        } else {
            override_opt(stored.api_key, env_api_key)
        },
        auth_token: stored.auth_token,
        tenant_id: stored.tenant_id,
        user_id: stored.user_id,
        environment_id: override_opt(stored.environment_id, env_environment_id),
    }
}

/// The record written after a successful login: the bearer token and its
/// tenant and user are set, any API key is cleared.
pub open spec fn login_view(
    c: CredentialsView,
    api_url: Seq<char>,
    token: Seq<char>,
    tenant_id: Seq<char>,
    user_id: Seq<char>,
) -> CredentialsView {
    CredentialsView {
        api_url: api_url,
        api_key: None,
        auth_token: Some(token),
        tenant_id: Some(tenant_id),
        user_id: Some(user_id),
        environment_id: c.environment_id,
    }
}

/// The record written after storing an API key directly: the key and the
/// endpoint are set, the other fields keep their values.
pub open spec fn api_key_view(c: CredentialsView, api_url: Seq<char>, key: Seq<char>) -> CredentialsView {
    CredentialsView {
        api_url: api_url,
        api_key: Some(key),
        auth_token: c.auth_token,
        tenant_id: c.tenant_id,
        user_id: c.user_id,
        environment_id: c.environment_id,
    }
}

impl Credentials {
    /// A fresh, empty record: no endpoint, no credential, no context.
    pub fn empty() -> (r: Credentials)
        ensures
            r@ == empty_view(),
    {
        let r = Credentials {
            api_url: String::new(),
            api_key: None,
            auth_token: None,
            tenant_id: None,
            user_id: None,
            environment_id: None,
        };
        proof {
            assert(r@ =~= empty_view());
        }
        r
    }

    /// Whether the record carries a usable credential: an API key or a
    /// bearer token.
    pub fn is_authenticated(&self) -> (r: bool)
        ensures
            r == is_authenticated_view(self@),
    {
        self.api_key.is_some() || self.auth_token.is_some()
    }

    /// The authentication header to attach to a request, when one of the
    /// two credentials is present.
    pub fn get_auth_header(&self) -> (r: Option<(&'static str, String)>)
        ensures
            (r is Some) == (auth_header_view(self@) is Some),
            r matches Some(h) ==> auth_header_view(self@) == Some((h.0@, h.1@)),
    {
        match &self.api_key {
            Some(key) => Some(("x-api-key", key.clone())),
            None => match &self.auth_token {
                Some(token) => Some(
                    ("Authorization", String::from_str("Bearer ").concat(token.as_str())),
                ),
                None => None,
            },
        }
    }

    /// The API key in its display form.
    pub fn masked_api_key(&self) -> (r: String)
        ensures
            r@ == masked_key_view(self@.api_key),
    {
        match &self.api_key {
            Some(key) => {
                let n = key.as_str().unicode_len();
                if n > 8 {
                    let first = key.as_str().substring_char(0, 4);
                    let last = key.as_str().substring_char(n - 4, n);
                    let mut s = String::from_str(first);
                    s.append("...");
                    s.append(last);
                    s
                } else {
                    repeat_char('*', n)
                }
            },
            None => String::from_str("(not set)"),
        }
    }

    /// Layers the overrides over this stored record: environment values
    /// apply when non-empty, command-line flags win last. Nothing is
    /// persisted here.
    pub fn resolve(
        self,
        env_api_url: Option<String>,
        env_api_key: Option<String>,
        env_environment_id: Option<String>,
        cli_api_url: Option<&str>,
        cli_api_key: Option<&str>,
    ) -> (r: Credentials)
        ensures
            r@ == resolve_view(
                self@,
                view_opt(env_api_url),
                view_opt(env_api_key),
                view_opt(env_environment_id),
                view_opt_str(cli_api_url),
                view_opt_str(cli_api_key),
            ),
    {
        let ghost orig = self@;
        let mut c = self;
        match env_api_url {
            Some(v) => {
                if !v.as_str().is_empty() {
                    c.api_url = v;
                }
            },
            None => {},
        }
        match env_api_key {
            Some(v) => {
                if !v.as_str().is_empty() {
                    c.api_key = Some(v);
                }
            },
            None => {},
        }
        match env_environment_id {
            Some(v) => {
                if !v.as_str().is_empty() {
                    c.environment_id = Some(v);
                }
            },
            None => {},
        }
        match cli_api_url {
            Some(u) => {
                c.api_url = String::from_str(u);
            },
            None => {},
        }
        match cli_api_key {
            Some(k) => {
                c.api_key = Some(String::from_str(k));
            },
            None => {},
        }
        proof {
            assert(c@ =~= resolve_view(
                orig,
                view_opt(env_api_url),
                view_opt(env_api_key),
                view_opt(env_environment_id),
                view_opt_str(cli_api_url),
                view_opt_str(cli_api_key),
            ));
        }
        c
    }

    /// The record to persist after a successful login.
    pub fn with_login(
        self,
        api_url: String,
        token: String,
        tenant_id: String,
        user_id: String,
    ) -> (r: Credentials)
        ensures
            r@ == login_view(self@, api_url@, token@, tenant_id@, user_id@),
    {
        let ghost s0 = self@;
        let ghost u0 = api_url@;
        let ghost t0 = token@;
        let ghost ten0 = tenant_id@;
        let ghost us0 = user_id@;
        let r = Credentials {
            api_url: api_url,
            api_key: None,
            auth_token: Some(token),
            tenant_id: Some(tenant_id),
            user_id: Some(user_id),
            environment_id: self.environment_id,
        };
        proof {
            assert(r@ =~= login_view(s0, u0, t0, ten0, us0));
        }
        r
    }

    /// The record to persist after storing an API key directly.
    pub fn with_api_key(self, api_url: String, key: String) -> (r: Credentials)
        ensures
            r@ == api_key_view(self@, api_url@, key@),
    {
        let ghost s0 = self@;
        let ghost u0 = api_url@;
        let ghost k0 = key@;
        let r = Credentials {
            api_url: api_url,
            api_key: Some(key),
            auth_token: self.auth_token,
            tenant_id: self.tenant_id,
            user_id: self.user_id,
            environment_id: self.environment_id,
        };
        proof {
            assert(r@ =~= api_key_view(s0, u0, k0));
        }
        r
    }
}

/// Resolution precedence, field by field: a command-line flag wins; with
/// none, a non-empty environment value wins; otherwise the stored value
/// stands. Fields with no override keep their stored values.
pub proof fn lemma_resolution_precedence(
    stored: CredentialsView,
    env_api_url: Option<Seq<char>>,
    env_api_key: Option<Seq<char>>,
    env_environment_id: Option<Seq<char>>,
    cli_api_url: Option<Seq<char>>,
    cli_api_key: Option<Seq<char>>,
)
    ensures
        ({
            let r = resolve_view(
                stored,
                env_api_url,
                env_api_key,
                env_environment_id,
                cli_api_url,
                cli_api_key,
            );
            &&& (cli_api_url is Some ==> r.api_url == cli_api_url->0)
            &&& (cli_api_url is None && (env_api_url matches Some(v) && v.len() > 0)
                ==> r.api_url == env_api_url->0)
            &&& (cli_api_url is None && !(env_api_url matches Some(v) && v.len() > 0)
                ==> r.api_url == stored.api_url)
            &&& (cli_api_key is Some ==> r.api_key == Some(cli_api_key->0))
            &&& (cli_api_key is None && (env_api_key matches Some(v) && v.len() > 0)
                ==> r.api_key == Some(env_api_key->0))
            &&& (cli_api_key is None && !(env_api_key matches Some(v) && v.len() > 0)
                ==> r.api_key == stored.api_key)
            &&& ((env_environment_id matches Some(v) && v.len() > 0)
                ==> r.environment_id == Some(env_environment_id->0))
            &&& (!(env_environment_id matches Some(v) && v.len() > 0)
                ==> r.environment_id == stored.environment_id)
            &&& r.auth_token == stored.auth_token
            &&& r.tenant_id == stored.tenant_id
            &&& r.user_id == stored.user_id
        }),
{
}

/// A record is authenticated exactly when it carries a non-empty API key
/// or a non-empty bearer token, provided no stored credential is an
/// empty string; a fresh record is never authenticated.
pub proof fn lemma_authenticated_iff_nonempty(c: CredentialsView)
    requires
        c.api_key matches Some(k) ==> k.len() > 0,
        c.auth_token matches Some(t) ==> t.len() > 0,
    ensures
        is_authenticated_view(c) <==> ((c.api_key matches Some(k) && k.len() > 0) || (
        c.auth_token matches Some(t) && t.len() > 0)),
        !is_authenticated_view(empty_view()),
{
}

/// Exactly one header is emitted when a credential is present, and the
/// API key is preferred over the bearer token when both are stored.
pub proof fn lemma_auth_header_single_and_prefers_key(c: CredentialsView)
    ensures
        (auth_header_view(c) is Some) == is_authenticated_view(c),
        c.api_key is Some ==> auth_header_view(c) == Some(("x-api-key"@, c.api_key->0)),
        c.api_key is None && c.auth_token is Some ==> auth_header_view(c) == Some(
            ("Authorization"@, "Bearer "@ + c.auth_token->0),
        ),
{
}

} // verus!
