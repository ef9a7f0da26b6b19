//! The OAuth authentication flows against the platform: the request a flow
//! starts with, the URL it renders, and the validation of obtained
//! credentials. Carrying the flow out — serving the redirect endpoint and
//! talking HTTP — stays with the embedding layer; the decisions stand here.

use vstd::prelude::*;

use crate::auth::Credentials;
use crate::auth::CredentialsView;
use crate::auth::UserInfo;
use crate::auth::UserInfoView;
use crate::auth::ValidationError;
use crate::text::str_eq;
use crate::text::spec_join;
use crate::text::join_with;

verus! {

/// Where the local redirect endpoint of the OAuth flows listens.
pub const REDIRECT_URI: &'static str = "http://localhost:4334/";

/// Whether a string parses as an absolute URL. Validity depends on the
/// string alone.
pub uninterp spec fn url_valid(s: Seq<char>) -> bool;

/// The serialization of the URL a string parses to. It depends on the string
/// alone.
pub uninterp spec fn url_normalized(s: Seq<char>) -> Seq<char>;

/// Relies on `url::Url::parse` and the serialization `url::Url::to_string`
/// returns: whether a string parses as an absolute URL, and the text the
/// parsed URL serializes back to, depend on the string alone.
#[verifier::external_body]
fn normalize_url(s: &str) -> (r: Option<String>)
    ensures
        r is Some <==> url_valid(s@),
        r matches Some(u) ==> u@ == url_normalized(s@),
{
    match url::Url::parse(s) {
        Ok(u) => Some(u.to_string()),
        Err(_) => None,
    }
}

/// The scopes requested when none are configured.
pub fn default_scopes() -> (r: Vec<String>)
    ensures
        r.deep_view() =~= seq![
            "channel:moderate"@,
            "chat:edit"@,
            "chat:read"@,
            "user:edit:follows"@,
            "user_follows_edit"@,
            "user:edit"@,
            "user_read"@,
            "whispers:edit"@,
        ],
{
    let mut r: Vec<String> = Vec::new();
    r.push(String::from_str("channel:moderate"));
    r.push(String::from_str("chat:edit"));
    r.push(String::from_str("chat:read"));
    r.push(String::from_str("user:edit:follows"));
    r.push(String::from_str("user_follows_edit"));
    r.push(String::from_str("user:edit"));
    r.push(String::from_str("user_read"));
    r.push(String::from_str("whispers:edit"));
    r
}

/// An OAuth request: which flow to start and everything its URL carries.
#[derive(Debug, PartialEq, Eq)]
pub enum AuthRequest {
    /// The implicit-code flow.
    ImplicitCode {
        client_id: String,
        redirect_uri: String,
        scope: Vec<String>,
        state: String,
        force_verify: bool,
    },
    /// The authorization-code flow.
    AuthorizationCode {
        client_id: String,
        redirect_uri: String,
        scope: Vec<String>,
        state: String,
        force_verify: bool,
    },
    /// The client-credentials flow.
    ClientCredentials { client_id: String, client_secret: String, scope: Vec<String> },
}

/// Mathematical image of an [`AuthRequest`].
pub ghost enum AuthRequestView {
    ImplicitCode {
        client_id: Seq<char>,
        redirect_uri: Seq<char>,
        scope: Seq<Seq<char>>,
        state: Seq<char>,
        force_verify: bool,
    },
    AuthorizationCode {
        client_id: Seq<char>,
        redirect_uri: Seq<char>,
        scope: Seq<Seq<char>>,
        state: Seq<char>,
        force_verify: bool,
    },
    ClientCredentials { client_id: Seq<char>, client_secret: Seq<char>, scope: Seq<Seq<char>> },
}

impl DeepView for AuthRequest {
    type V = AuthRequestView;

    open spec fn deep_view(&self) -> AuthRequestView {
        match self {
            AuthRequest::ImplicitCode { client_id, redirect_uri, scope, state, force_verify } => {
                AuthRequestView::ImplicitCode {
                    client_id: client_id@,
                    redirect_uri: redirect_uri@,
                    scope: scope.deep_view(),
                    state: state@,
                    force_verify: *force_verify,
                }
            },
            AuthRequest::AuthorizationCode {
                client_id,
                redirect_uri,
                scope,
                state,
                force_verify,
            } => {
                AuthRequestView::AuthorizationCode {
                    client_id: client_id@,
                    redirect_uri: redirect_uri@,
                    scope: scope.deep_view(),
                    state: state@,
                    force_verify: *force_verify,
                }
            },
            AuthRequest::ClientCredentials { client_id, client_secret, scope } => {
                AuthRequestView::ClientCredentials {
                    client_id: client_id@,
                    client_secret: client_secret@,
                    scope: scope.deep_view(),
                }
            },
        }
    }
}

/// The text of a boolean inside a URL.
pub open spec fn spec_bool_text(b: bool) -> Seq<char> {
    if b {
        "true"@
    } else {
        "false"@
    }
}

/// The raw URL text of an OAuth request, exactly as the host writes it: the
/// authorize endpoint with client id, redirect URI, response type, the scopes
/// joined by `%20`, the verify flag and the state — or, for the
/// client-credentials flow, the token endpoint with client id, secret, grant
/// type and scopes.
pub open spec fn spec_auth_url(v: AuthRequestView) -> Seq<char> {
    match v {
        AuthRequestView::ImplicitCode { client_id, redirect_uri, scope, state, force_verify } => {
            "https://id.twitch.tv/oauth2/authorize?client_id="@ + client_id + "&redirect_uri="@
                + redirect_uri + "&response_type=token&scope="@ + spec_join(scope, "%20"@)
                + "&force_verify="@ + spec_bool_text(force_verify) + "&state="@ + state
        },
        AuthRequestView::AuthorizationCode {
            client_id,
            redirect_uri,
            scope,
            state,
            force_verify,
        } => {
            "https://id.twitch.tv/oauth2/authorize?client_id="@ + client_id + "&redirect_uri="@
                + redirect_uri + "&response_type=code&scope="@ + spec_join(scope, "%20"@)
                + "&force_verify="@ + spec_bool_text(force_verify) + "&state="@ + state
        },
        AuthRequestView::ClientCredentials { client_id, client_secret, scope } => {
            "https://id.twitch.tv/oauth2/token?client_id="@ + client_id + "&client_secret="@
                + client_secret + "&grant_type=client_credentials&scope="@ + spec_join(
                scope,
                "%20"@,
            )
        },
    }
}

impl AuthRequest {
    /// Builds the request for a named flow: `token` starts the implicit-code
    /// flow, `code` the authorization-code flow, and `client_credentials` —
    /// which needs the client secret — the client-credentials flow. Any
    /// other name, or a missing secret, builds nothing.
    pub fn from_parts(
        auth_type: &str,
        client_id: String,
        client_secret: Option<String>,
        scope: Vec<String>,
        state: String,
    ) -> (r: Option<AuthRequest>)
        ensures
            auth_type@ == "token"@ ==> (r matches Some(a) && a.deep_view()
                == (AuthRequestView::ImplicitCode {
                client_id: client_id@,
                redirect_uri: "http://localhost:4334/"@,
                scope: scope.deep_view(),
                state: state@,
                force_verify: true,
            })),
            auth_type@ == "code"@ ==> (r matches Some(a) && a.deep_view()
                == (AuthRequestView::AuthorizationCode {
                client_id: client_id@,
                redirect_uri: "http://localhost:4334/"@,
                scope: scope.deep_view(),
                state: state@,
                force_verify: true,
            })),
            auth_type@ == "client_credentials"@ ==> (client_secret matches Some(secret) ==> (
            r matches Some(a) && a.deep_view() == (AuthRequestView::ClientCredentials {
                client_id: client_id@,
                client_secret: secret@,
                scope: scope.deep_view(),
            }))),
            auth_type@ == "client_credentials"@ && client_secret is None ==> r is None,
            auth_type@ != "token"@ && auth_type@ != "code"@ && auth_type@
                != "client_credentials"@ ==> r is None,
    {
        proof {
            reveal_strlit("token");
            reveal_strlit("code");
            reveal_strlit("client_credentials");
        }
        if str_eq(auth_type, "token") {
            proof {
                assert("token"@.len() == 5);
                assert("code"@.len() == 4);
                assert(auth_type@ != "code"@);
                assert(auth_type@ != "client_credentials"@);
            }
            Some(
                AuthRequest::ImplicitCode {
                    client_id,
                    redirect_uri: String::from_str("http://localhost:4334/"),
                    scope,
                    state,
                    force_verify: true,
                },
            )
        } else if str_eq(auth_type, "code") {
            proof {
                assert("code"@.len() == 4);
                assert("client_credentials"@.len() == 18);
                assert(auth_type@ != "client_credentials"@);
            }
            Some(
                AuthRequest::AuthorizationCode {
                    client_id,
                    redirect_uri: String::from_str("http://localhost:4334/"),
                    scope,
                    state,
                    force_verify: true,
                },
            )
        } else if str_eq(auth_type, "client_credentials") {
            match client_secret {
                Some(client_secret) => Some(
                    AuthRequest::ClientCredentials { client_id, client_secret, scope },
                ),
                None => None,
            }
        } else {
            None
        }
    }

    /// Renders the URL that starts this flow, checked through the URL parser:
    /// the request's raw URL text when it is a valid URL — serialized back
    /// from the parser — and nothing otherwise.
    pub fn to_url(&self) -> (r: Option<String>)
        ensures
            r is Some <==> url_valid(spec_auth_url(self.deep_view())),
            r matches Some(u) ==> u@ == url_normalized(spec_auth_url(self.deep_view())),
    {
        let raw = match self {
            AuthRequest::ImplicitCode { client_id, redirect_uri, scope, state, force_verify } => {
                let mut raw = String::from_str("https://id.twitch.tv/oauth2/authorize?client_id=");
                raw.append(client_id.as_str());
                raw.append("&redirect_uri=");
                raw.append(redirect_uri.as_str());
                raw.append("&response_type=token&scope=");
                let joined = join_with(scope, "%20");
                raw.append(joined.as_str());
                raw.append("&force_verify=");
                if *force_verify {
                    raw.append("true");
                } else {
                    raw.append("false");
                }
                raw.append("&state=");
                raw.append(state.as_str());
                proof {
                    assert(raw@ =~= spec_auth_url(self.deep_view()));
                }
                raw
            },
            AuthRequest::AuthorizationCode {
                client_id,
                redirect_uri,
                scope,
                state,
                force_verify,
            } => {
                let mut raw = String::from_str("https://id.twitch.tv/oauth2/authorize?client_id=");
                raw.append(client_id.as_str());
                raw.append("&redirect_uri=");
                raw.append(redirect_uri.as_str());
                raw.append("&response_type=code&scope=");
                let joined = join_with(scope, "%20");
                raw.append(joined.as_str());
                raw.append("&force_verify=");
                if *force_verify {
                    raw.append("true");
                } else {
                    raw.append("false");
                }
                raw.append("&state=");
                raw.append(state.as_str());
                proof {
                    assert(raw@ =~= spec_auth_url(self.deep_view()));
                }
                raw
            },
            AuthRequest::ClientCredentials { client_id, client_secret, scope } => {
                let mut raw = String::from_str("https://id.twitch.tv/oauth2/token?client_id=");
                raw.append(client_id.as_str());
                raw.append("&client_secret=");
                raw.append(client_secret.as_str());
                raw.append("&grant_type=client_credentials&scope=");
                let joined = join_with(scope, "%20");
                raw.append(joined.as_str());
                proof {
                    assert(raw@ =~= spec_auth_url(self.deep_view()));
                }
                raw
            },
        };
        normalize_url(raw.as_str())
    }
}

/// What the token-validation endpoint answered, as plain values.
#[derive(Debug, PartialEq, Eq)]
pub struct TwitchValidation {
    pub client_id: String,
    pub login: String,
    pub user_id: String,
    pub scopes: Vec<String>,
    pub expires_in: i64,
}

/// The authentication flow against the platform, bound to one client id and
/// its optional secret. Obtaining a token runs through the embedding layer;
/// checking what the platform answered is decided here.
#[derive(Debug, PartialEq, Eq)]
pub struct TwitchAuthenticator {
    pub client_id: String,
    pub client_secret: Option<String>,
}

impl TwitchAuthenticator {
    /// A flow for this client.
    pub fn new(client_id: String, client_secret: Option<String>) -> (r: TwitchAuthenticator)
        ensures
            r.client_id@ == client_id@,
            r.client_secret.deep_view() == client_secret.deep_view(),
    {
        TwitchAuthenticator { client_id, client_secret }
    }

    /// Checks a validation answer: an answer for another client id is
    /// rejected; a matching one names the user the credentials belong to.
    pub fn check_validation(&self, body: &TwitchValidation) -> (r: Result<
        UserInfo,
        ValidationError,
    >)
        ensures
            body.client_id@ != self.client_id@ ==> r == Result::<
                UserInfo,
                ValidationError,
            >::Err(ValidationError::BadClientId),
            body.client_id@ == self.client_id@ ==> (r matches Ok(u) && u.deep_view()
                == (UserInfoView::Twitch { name: body.login@, id: body.user_id@ })),
    {
        if !(body.client_id == self.client_id) {
            return Result::Err(ValidationError::BadClientId);
        }
        Result::Ok(UserInfo::Twitch { name: body.login.clone(), id: body.user_id.clone() })
    }
}

/// Checks one OAuth redirect: the `state` echoed back must equal the nonce
/// the request was made with — an empty nonce accepts any state — and a
/// matching redirect yields the token as credentials.
pub fn accept_oauth_redirect(nonce: &str, state: &str, access_token: String) -> (r: Option<
    Credentials,
>)
    ensures
        (nonce@.len() > 0 && state@ != nonce@) ==> r is None,
        !(nonce@.len() > 0 && state@ != nonce@) ==> (r matches Some(c) && c.deep_view()
            == (CredentialsView::OAuthToken { token: access_token@ })),
{
    if nonce.unicode_len() > 0 && !str_eq(state, nonce) {
        return Option::None;
    }
    Option::Some(Credentials::OAuthToken { token: access_token })
}

} // verus!
