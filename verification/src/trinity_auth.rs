//! The browser sign-in flow: OAuth 2 with an authorisation code and PKCE.
//!
//! `/auth/trinity/login` sends the browser to the issuer's authorisation
//! endpoint; `/auth/trinity/callback` exchanges the code that comes back for an
//! ID token, verifies it, and opens a session. The endpoints come from the
//! issuer's discovery document: the issuer itself is a DID, which no browser can
//! follow.
//!
//! Each handler takes what is known so far and answers with what it needs next,
//! or with the response. The caller does what it is asked to and calls again.

use crate::base64url;
use crate::crypto;
use crate::crypto::sha256_digest;
use crate::form_url;
use crate::form_url::{append_pairs, can_append, is_web_url, normal_url};
use crate::json;
use crate::json::{JsonModel, JsonValue};
use crate::session_token::{SessionToken, TokenModel};
use crate::text::{copy_text, joined, same_text};
use crate::trinity_verifier::{ClaimsModel, TrinityClaims};
use crate::verify_error::TrinityVerifyError;
use vstd::prelude::*;

verus! {

/// The name that session tokens are stored under.
pub const SESSION_TOKEN_NAME: &'static str = "oauth-trinity-login";

/// Query parameters of the login request.
pub struct LoginParams {
    /// Where to go after the login.
    pub redirect_after: Option<String>,
}

/// Query parameters of the callback request.
pub struct CallbackParams {
    pub code: Option<String>,
    pub state: Option<String>,
    pub error: Option<String>,
    pub error_description: Option<String>,
}

/// [`CallbackParams`] as contracts speak of them.
pub struct ParamsModel {
    pub code: Option<Seq<char>>,
    pub state: Option<Seq<char>>,
    pub error: Option<Seq<char>>,
    pub error_description: Option<Seq<char>>,
}

impl View for CallbackParams {
    type V = ParamsModel;

    open spec fn view(&self) -> ParamsModel {
        ParamsModel {
            code: self.code.deep_view(),
            state: self.state.deep_view(),
            error: self.error.deep_view(),
            error_description: self.error_description.deep_view(),
        }
    }
}

/// The PKCE challenge of a code verifier: the base64url form of its SHA-256.
pub open spec fn challenge_of(code_verifier: Seq<char>) -> Seq<char> {
    base64url::encoded(crypto::sha256(vstd::utf8::encode_utf8(code_verifier)))
}

/// The PKCE challenge of a code verifier, by the method `S256`.
pub fn code_challenge(code_verifier: &str) -> (r: String)
    ensures
        r@ == challenge_of(code_verifier@),
        r@.len() == 43,
        base64url::decoded(r@) matches Ok(digest) && digest.len() == 32,
{
    let digest: Vec<u8> = sha256_digest(code_verifier.as_bytes());
    proof {
        base64url::encoding_length(digest@);
        base64url::encoding_decodes_back(digest@);
    }
    base64url::encode(digest.as_slice())
}

/// Where the issuer sends the browser back to.
pub open spec fn callback_url(base_url: Seq<char>) -> Seq<char> {
    base_url + "/auth/trinity/callback"@
}

/// The parameters of the authorisation request.
pub open spec fn authorize_params(
    client_id: Seq<char>,
    redirect_uri: Seq<char>,
    state: Seq<char>,
    challenge: Seq<char>,
) -> Seq<(Seq<char>, Seq<char>)> {
    seq![
        ("response_type"@, "code"@),
        ("client_id"@, client_id),
        ("redirect_uri"@, redirect_uri),
        ("state"@, state),
        ("code_challenge"@, challenge),
        ("code_challenge_method"@, "S256"@),
    ]
}

/// Where the browser is sent for authorisation, if the endpoint is a URL that a
/// browser can follow and the result fits in one.
pub open spec fn authorize_url(
    endpoint: Seq<char>,
    client_id: Seq<char>,
    redirect_uri: Seq<char>,
    state: Seq<char>,
    challenge: Seq<char>,
) -> Option<Seq<char>> {
    let params = authorize_params(client_id, redirect_uri, state, challenge);
    if form_url::extensible(endpoint, params) && form_url::web_url(form_url::url_text(endpoint)->0) {
        Some(form_url::with_pairs(form_url::url_text(endpoint)->0, params))
    } else {
        None
    }
}

fn pair(name: &str, value: &str) -> (r: (String, String))
    ensures
        r.0@ == name@,
        r.1@ == value@,
{
    (name.to_owned(), value.to_owned())
}

fn authorize_pairs(client_id: &str, redirect_uri: &str, state: &str, challenge: &str) -> (r: Vec<
    (String, String),
>)
    ensures
        form_url::pair_models(r@) == authorize_params(client_id@, redirect_uri@, state@, challenge@),
        r@.len() == 6,
{
    let r: Vec<(String, String)> = vec![
        pair("response_type", "code"),
        pair("client_id", client_id),
        pair("redirect_uri", redirect_uri),
        pair("state", state),
        pair("code_challenge", challenge),
        pair("code_challenge_method", "S256"),
    ];
    assert(form_url::pair_models(r@) =~= authorize_params(
        client_id@,
        redirect_uri@,
        state@,
        challenge@,
    ));
    r
}

/// Compose the URL that the browser is sent to for authorisation, on the
/// endpoint that the discovery document names. A DID, which is what the issuer
/// is, cannot be its base.
pub fn build_authorize_url(
    authorize_endpoint: &str,
    client_id: &str,
    redirect_uri: &str,
    state: &str,
    code_challenge: &str,
) -> (r: String)
    requires
        authorize_url(
            authorize_endpoint@,
            client_id@,
            redirect_uri@,
            state@,
            code_challenge@,
        ) is Some,
    ensures
        authorize_url(authorize_endpoint@, client_id@, redirect_uri@, state@, code_challenge@)
            == Some(r@),
        form_url::web_url(r@),
{
    proof {
        form_url::extended_web_urls_are_web_urls(
            form_url::url_text(authorize_endpoint@)->0,
            authorize_params(client_id@, redirect_uri@, state@, code_challenge@),
        );
    }
    let pairs: Vec<(String, String)> = authorize_pairs(
        client_id,
        redirect_uri,
        state,
        code_challenge,
    );
    append_pairs(authorize_endpoint, &pairs)
}

/// Compose the URL that the browser is sent to for authorisation, if the
/// endpoint is a URL that a browser can follow and the result fits in one. It
/// never is where the endpoint is a DID.
pub fn try_build_authorize_url(
    authorize_endpoint: &str,
    client_id: &str,
    redirect_uri: &str,
    state: &str,
    code_challenge: &str,
) -> (r: Option<String>)
    ensures
        r.deep_view() == authorize_url(
            authorize_endpoint@,
            client_id@,
            redirect_uri@,
            state@,
            code_challenge@,
        ),
        r matches Some(url) ==> form_url::web_url(url@),
        "did:"@.is_prefix_of(authorize_endpoint@) ==> r is None,
{
    let url: String = match normal_url(authorize_endpoint) {
        Some(url) => url,
        None => return None,
    };
    proof {
        if "did:"@.is_prefix_of(authorize_endpoint@) {
            form_url::dids_are_no_web_urls(authorize_endpoint@, url@);
        }
    }
    if !is_web_url(url.as_str()) {
        return None;
    }
    let pairs: Vec<(String, String)> = authorize_pairs(
        client_id,
        redirect_uri,
        state,
        code_challenge,
    );
    if can_append(authorize_endpoint, &pairs) {
        Some(
            build_authorize_url(authorize_endpoint, client_id, redirect_uri, state, code_challenge),
        )
    } else {
        None
    }
}

/// A flow that has been stored: the state that stands for it, and its verifier.
pub struct StartedFlow {
    pub csrf_state: String,
    pub code_verifier: String,
}

/// What is known for a login request.
pub struct LoginInputs {
    /// The rate limiter lets the request pass.
    pub allowed: bool,
    /// The identity provider that users who sign in here are linked to. Flows
    /// are stored under it, and a flow of another provider is not completed here.
    pub provider: String,
    /// The client id at the issuer, where sign-in is enabled.
    pub audience: Option<String>,
    /// There is a store for flows.
    pub has_state_store: bool,
    /// The address of this instance.
    pub base_url: Option<String>,
    /// The authorisation endpoint, once it has been looked up.
    pub endpoint: Option<Result<String, TrinityVerifyError>>,
    /// The flow, once it has been started.
    pub flow: Option<StartedFlow>,
}

/// [`LoginInputs`] as contracts speak of them.
pub struct LoginModel {
    pub allowed: bool,
    pub provider: Seq<char>,
    pub audience: Option<Seq<char>>,
    pub has_state_store: bool,
    pub base_url: Option<Seq<char>>,
    pub endpoint: Option<Option<Seq<char>>>,
    pub flow: Option<(Seq<char>, Seq<char>)>,
}

impl View for LoginInputs {
    type V = LoginModel;

    open spec fn view(&self) -> LoginModel {
        LoginModel {
            allowed: self.allowed,
            provider: self.provider@,
            audience: self.audience.deep_view(),
            has_state_store: self.has_state_store,
            base_url: self.base_url.deep_view(),
            endpoint: match self.endpoint {
                None => None,
                Some(Ok(url)) => Some(Some(url@)),
                Some(Err(_)) => Some(None),
            },
            flow: match self.flow {
                None => None,
                Some(flow) => Some((flow.csrf_state@, flow.code_verifier@)),
            },
        }
    }
}

/// What a login request needs next, or its response.
pub enum LoginStep {
    /// Respond with this status and text.
    Reject { status: u16, message: String },
    /// Look up the authorisation endpoint.
    ResolveEndpoint,
    /// Make a flow with a new code verifier and store it.
    StartFlow { provider: String, redirect_after: Option<String> },
    /// Redirect here, temporarily (307).
    Redirect(String),
    /// The endpoint is no URL that a browser can follow.
    BadEndpoint,
}

/// [`LoginStep`] as contracts speak of it.
pub enum LoginStepModel {
    Reject { status: u16, message: Seq<char> },
    ResolveEndpoint,
    StartFlow { provider: Seq<char>, redirect_after: Option<Seq<char>> },
    Redirect(Seq<char>),
    BadEndpoint,
}

impl View for LoginStep {
    type V = LoginStepModel;

    open spec fn view(&self) -> LoginStepModel {
        match self {
            LoginStep::Reject { status, message } => LoginStepModel::Reject {
                status: *status,
                message: message@,
            },
            LoginStep::ResolveEndpoint => LoginStepModel::ResolveEndpoint,
            LoginStep::StartFlow { provider, redirect_after } => LoginStepModel::StartFlow {
                provider: provider@,
                redirect_after: redirect_after.deep_view(),
            },
            LoginStep::Redirect(url) => LoginStepModel::Redirect(url@),
            LoginStep::BadEndpoint => LoginStepModel::BadEndpoint,
        }
    }
}

/// What a login request needs next, given `m`, or its response.
pub open spec fn login_step(redirect_after: Option<Seq<char>>, m: LoginModel) -> LoginStepModel {
    if !m.allowed {
        LoginStepModel::Reject { status: 429, message: "Rate limited"@ }
    } else {
        match (m.audience, m.has_state_store, m.base_url) {
            (None, _, _) => LoginStepModel::Reject {
                status: 404,
                message: "Trinity SSO is not enabled on this instance"@,
            },
            (Some(_), false, _) => LoginStepModel::Reject {
                status: 503,
                message: "OAuth state store not available"@,
            },
            (Some(_), true, None) => LoginStepModel::Reject {
                status: 503,
                message: "OAuth base URL not configured"@,
            },
            (Some(audience), true, Some(base_url)) => match (m.endpoint, m.flow) {
                (None, _) => LoginStepModel::ResolveEndpoint,
                (Some(None), _) => LoginStepModel::Reject {
                    status: 503,
                    message: "Trinity discovery doc not reachable"@,
                },
                (Some(Some(_)), None) => LoginStepModel::StartFlow {
                    provider: m.provider,
                    redirect_after,
                },
                (Some(Some(endpoint)), Some((csrf_state, code_verifier))) => match authorize_url(
                    endpoint,
                    audience,
                    callback_url(base_url),
                    csrf_state,
                    challenge_of(code_verifier),
                ) {
                    Some(url) => LoginStepModel::Redirect(url),
                    None => LoginStepModel::BadEndpoint,
                },
            },
        }
    }
}

fn reject(status: u16, message: &str) -> (r: LoginStep)
    ensures
        r@ == (LoginStepModel::Reject { status, message: message@ }),
{
    LoginStep::Reject { status, message: message.to_owned() }
}

/// Handle a login request as far as `known` allows.
pub fn trinity_login_handler(params: &LoginParams, known: &LoginInputs) -> (step: LoginStep)
    ensures
        step@ == login_step(params.redirect_after.deep_view(), known@),
        step matches LoginStep::Redirect(url) ==> form_url::web_url(url@) && !(
        "did:"@.is_prefix_of(known@.endpoint->0->0)),
        step matches LoginStep::StartFlow { provider, redirect_after } ==> provider@
            == known.provider@ && redirect_after.deep_view() == params.redirect_after.deep_view(),
        step matches LoginStep::Redirect(url) ==> {
            &&& known.endpoint matches Some(Ok(endpoint))
            &&& known.audience matches Some(audience)
            &&& known.base_url matches Some(base_url)
            &&& known.flow matches Some(flow)
            &&& authorize_url(
                endpoint@,
                audience@,
                callback_url(base_url@),
                flow.csrf_state@,
                challenge_of(flow.code_verifier@),
            ) == Some(url@)
        },
{
    if !known.allowed {
        return reject(429, "Rate limited");
    }
    let audience: &String = match &known.audience {
        Some(audience) => audience,
        None => return reject(404, "Trinity SSO is not enabled on this instance"),
    };
    if !known.has_state_store {
        return reject(503, "OAuth state store not available");
    }
    let base_url: &String = match &known.base_url {
        Some(base_url) => base_url,
        None => return reject(503, "OAuth base URL not configured"),
    };
    let endpoint: &String = match &known.endpoint {
        None => return LoginStep::ResolveEndpoint,
        Some(Err(_)) => return reject(503, "Trinity discovery doc not reachable"),
        Some(Ok(endpoint)) => endpoint,
    };
    let flow: &StartedFlow = match &known.flow {
        None => return LoginStep::StartFlow {
            provider: known.provider.clone(),
            redirect_after: copy_text(&params.redirect_after),
        },
        Some(flow) => flow,
    };
    let challenge: String = code_challenge(flow.code_verifier.as_str());
    let callback: String = joined(base_url.as_str(), "/auth/trinity/callback");
    match try_build_authorize_url(
        endpoint.as_str(),
        audience.as_str(),
        callback.as_str(),
        flow.csrf_state.as_str(),
        challenge.as_str(),
    ) {
        Some(url) => LoginStep::Redirect(url),
        None => LoginStep::BadEndpoint,
    }
}

/// A flow that has been taken out of the store.
pub struct OAuthFlow {
    pub provider: String,
    pub code_verifier: String,
    pub redirect_after: Option<String>,
}

/// [`OAuthFlow`] as contracts speak of it.
pub struct FlowModel {
    pub provider: Seq<char>,
    pub code_verifier: Seq<char>,
    pub redirect_after: Option<Seq<char>>,
}

impl View for OAuthFlow {
    type V = FlowModel;

    open spec fn view(&self) -> FlowModel {
        FlowModel {
            provider: self.provider@,
            code_verifier: self.code_verifier@,
            redirect_after: self.redirect_after.deep_view(),
        }
    }
}

/// What came back from the token endpoint.
pub enum TokenReply {
    /// The request failed, and why.
    Unreachable(String),
    /// The endpoint answered.
    Answered {
        /// The status code.
        status: u16,
        /// The status as it is displayed.
        status_text: String,
        /// The body as text, empty where it cannot be read.
        text: String,
        /// The body as JSON, or why it is not.
        body: Result<JsonValue, String>,
    },
}

/// The ID token that a reply brings, or what is wrong with the reply.
pub open spec fn exchange_outcome(reply: TokenReply) -> Result<Seq<char>, Seq<char>> {
    match reply {
        TokenReply::Unreachable(why) => Err("token endpoint request failed: "@ + why@),
        TokenReply::Answered { status, status_text, text, body } => if !(200 <= status < 300) {
            Err("token endpoint returned "@ + status_text@ + ": "@ + text@)
        } else {
            match body {
                Err(why) => Err("token endpoint returned non-JSON body: "@ + why@),
                Ok(value) => match json::entry(value@, "id_token"@) {
                    Some(JsonModel::Text(token)) => Ok(token),
                    _ => Err("token endpoint response missing id_token"@),
                },
            }
        },
    }
}

/// The form that is posted to the token endpoint.
pub open spec fn exchange_params(
    code: Seq<char>,
    client_id: Seq<char>,
    redirect_uri: Seq<char>,
    code_verifier: Seq<char>,
) -> Seq<(Seq<char>, Seq<char>)> {
    seq![
        ("grant_type"@, "authorization_code"@),
        ("code"@, code),
        ("client_id"@, client_id),
        ("redirect_uri"@, redirect_uri),
        ("code_verifier"@, code_verifier),
    ]
}

/// The form to post to the token endpoint.
pub fn exchange_form(code: &str, client_id: &str, redirect_uri: &str, code_verifier: &str) -> (r:
    Vec<(String, String)>)
    ensures
        form_url::pair_models(r@) == exchange_params(
            code@,
            client_id@,
            redirect_uri@,
            code_verifier@,
        ),
{
    let r: Vec<(String, String)> = vec![
        pair("grant_type", "authorization_code"),
        pair("code", code),
        pair("client_id", client_id),
        pair("redirect_uri", redirect_uri),
        pair("code_verifier", code_verifier),
    ];
    assert(form_url::pair_models(r@) =~= exchange_params(
        code@,
        client_id@,
        redirect_uri@,
        code_verifier@,
    ));
    r
}

/// Take the ID token out of what the token endpoint replied.
pub fn exchange_code(reply: &TokenReply) -> (r: Result<String, String>)
    ensures
        match r {
            Ok(token) => exchange_outcome(*reply) == Ok::<Seq<char>, Seq<char>>(token@),
            Err(why) => exchange_outcome(*reply) == Err::<Seq<char>, Seq<char>>(why@),
        },
{
    match reply {
        TokenReply::Unreachable(why) => Err(
            joined("token endpoint request failed: ", why.as_str()),
        ),
        TokenReply::Answered { status, status_text, text, body } => {
            if *status < 200 || *status >= 300 {
                let mut why: String = joined("token endpoint returned ", status_text.as_str());
                why.append(": ");
                why.append(text.as_str());
                return Err(why);
            }
            let value: &JsonValue = match body {
                Err(why) => return Err(
                    joined("token endpoint returned non-JSON body: ", why.as_str()),
                ),
                Ok(value) => value,
            };
            match value.get("id_token") {
                Some(entry) => match entry.as_str() {
                    Some(token) => Ok(token.to_owned()),
                    None => Err("token endpoint response missing id_token".to_owned()),
                },
                None => Err("token endpoint response missing id_token".to_owned()),
            }
        },
    }
}

/// What is known for a callback request.
pub struct CallbackInputs {
    /// The rate limiter lets the request pass.
    pub allowed: bool,
    /// The identity provider that users who sign in here are linked to. Flows
    /// are stored under it, and a flow of another provider is not completed here.
    pub provider: String,
    /// The client id at the issuer, where sign-in is enabled.
    pub audience: Option<String>,
    /// There is a store for flows.
    pub has_state_store: bool,
    /// What the store had under the state, once it was asked.
    pub flow: Option<Option<OAuthFlow>>,
    /// There is a database.
    pub has_database: bool,
    /// The address of this instance.
    pub base_url: Option<String>,
    /// The token endpoint, once it has been looked up.
    pub token_endpoint: Option<Result<String, TrinityVerifyError>>,
    /// The ID token, once the code has been exchanged.
    pub id_token: Option<Result<String, String>>,
    /// The claims of the ID token, once it has been verified.
    pub claims: Option<Result<TrinityClaims, TrinityVerifyError>>,
    /// The local user, once the subject has been linked to one.
    pub user_id: Option<Result<String, String>>,
    /// The login has been recorded, or it could not be.
    pub login_recorded: bool,
    /// The session token, once it has been made.
    pub token: Option<SessionToken>,
    /// For how many seconds a session lasts.
    pub lifetime_secs: i64,
    /// Whether the token was stored, once that has been tried.
    pub token_stored: Option<bool>,
    /// There is a cache of authenticated users.
    pub has_auth_cache: bool,
    /// The user's entry has been dropped from that cache.
    pub cache_invalidated: bool,
    /// Whether the redirect target of the flow is safe, once it was judged.
    pub redirect_is_safe: Option<bool>,
}

/// [`CallbackInputs`] as contracts speak of them.
pub struct CallbackModel {
    pub allowed: bool,
    pub provider: Seq<char>,
    pub audience: Option<Seq<char>>,
    pub has_state_store: bool,
    pub flow: Option<Option<FlowModel>>,
    pub has_database: bool,
    pub base_url: Option<Seq<char>>,
    pub token_endpoint: Option<Option<Seq<char>>>,
    pub id_token: Option<Option<Seq<char>>>,
    pub claims: Option<Option<ClaimsModel>>,
    pub user_id: Option<Option<Seq<char>>>,
    pub login_recorded: bool,
    pub token: Option<TokenModel>,
    pub lifetime_secs: i64,
    pub token_stored: Option<bool>,
    pub has_auth_cache: bool,
    pub cache_invalidated: bool,
    pub redirect_is_safe: Option<bool>,
}

impl View for CallbackInputs {
    type V = CallbackModel;

    open spec fn view(&self) -> CallbackModel {
        CallbackModel {
            allowed: self.allowed,
            provider: self.provider@,
            audience: self.audience.deep_view(),
            has_state_store: self.has_state_store,
            flow: match self.flow {
                None => None,
                Some(None) => Some(None),
                Some(Some(flow)) => Some(Some(flow@)),
            },
            has_database: self.has_database,
            base_url: self.base_url.deep_view(),
            token_endpoint: match self.token_endpoint {
                None => None,
                Some(Ok(url)) => Some(Some(url@)),
                Some(Err(_)) => Some(None),
            },
            id_token: match self.id_token {
                None => None,
                Some(Ok(token)) => Some(Some(token@)),
                Some(Err(_)) => Some(None),
            },
            claims: match self.claims {
                None => None,
                Some(Ok(claims)) => Some(Some(claims@)),
                Some(Err(_)) => Some(None),
            },
            user_id: match self.user_id {
                None => None,
                Some(Ok(user)) => Some(Some(user@)),
                Some(Err(_)) => Some(None),
            },
            login_recorded: self.login_recorded,
            token: match self.token {
                None => None,
                Some(token) => Some(token@),
            },
            lifetime_secs: self.lifetime_secs,
            token_stored: self.token_stored,
            has_auth_cache: self.has_auth_cache,
            cache_invalidated: self.cache_invalidated,
            redirect_is_safe: self.redirect_is_safe,
        }
    }
}

/// What a callback request needs next, or its response.
pub enum CallbackStep {
    /// Respond with an error page that says this. No session is opened.
    ErrorPage(String),
    /// Take the flow of this state out of the store.
    TakeFlow(String),
    /// Look up the token endpoint.
    ResolveTokenEndpoint,
    /// Post this form to the token endpoint.
    ExchangeCode { endpoint: String, form: Vec<(String, String)> },
    /// Verify this ID token.
    VerifyToken(String),
    /// Link this subject to a local user, who is made where there is none.
    ResolveIdentity(String),
    /// Record that this user has logged in. A failure is no reason to stop.
    RecordLogin(String),
    /// Make a session token.
    MintToken,
    /// Store the hash of the session token, to expire after this many seconds.
    StoreToken {
        user_id: String,
        name: String,
        plaintext: String,
        prefix: String,
        lifetime_secs: i64,
    },
    /// Drop this user's entry from the cache of authenticated users.
    InvalidateUser(String),
    /// Judge whether this redirect target is safe.
    JudgeRedirect(String),
    /// Set the session cookie and redirect (303).
    OpenSession { plaintext: String, base_url: String, redirect_to: String },
}

/// [`CallbackStep`] as contracts speak of it.
pub enum CallbackStepModel {
    ErrorPage(Seq<char>),
    TakeFlow(Seq<char>),
    ResolveTokenEndpoint,
    ExchangeCode { endpoint: Seq<char>, form: Seq<(Seq<char>, Seq<char>)> },
    VerifyToken(Seq<char>),
    ResolveIdentity(Seq<char>),
    RecordLogin(Seq<char>),
    MintToken,
    StoreToken {
        user_id: Seq<char>,
        name: Seq<char>,
        plaintext: Seq<char>,
        prefix: Seq<char>,
        lifetime_secs: i64,
    },
    InvalidateUser(Seq<char>),
    JudgeRedirect(Seq<char>),
    OpenSession { plaintext: Seq<char>, base_url: Seq<char>, redirect_to: Seq<char> },
}

impl View for CallbackStep {
    type V = CallbackStepModel;

    open spec fn view(&self) -> CallbackStepModel {
        match self {
            CallbackStep::ErrorPage(message) => CallbackStepModel::ErrorPage(message@),
            CallbackStep::TakeFlow(state) => CallbackStepModel::TakeFlow(state@),
            CallbackStep::ResolveTokenEndpoint => CallbackStepModel::ResolveTokenEndpoint,
            CallbackStep::ExchangeCode { endpoint, form } => CallbackStepModel::ExchangeCode {
                endpoint: endpoint@,
                form: form_url::pair_models(form@),
            },
            CallbackStep::VerifyToken(token) => CallbackStepModel::VerifyToken(token@),
            CallbackStep::ResolveIdentity(sub) => CallbackStepModel::ResolveIdentity(sub@),
            CallbackStep::RecordLogin(user_id) => CallbackStepModel::RecordLogin(user_id@),
            CallbackStep::MintToken => CallbackStepModel::MintToken,
            CallbackStep::StoreToken { user_id, name, plaintext, prefix, lifetime_secs } => {
                CallbackStepModel::StoreToken {
                    user_id: user_id@,
                    name: name@,
                    plaintext: plaintext@,
                    prefix: prefix@,
                    lifetime_secs: *lifetime_secs,
                }
            },
            CallbackStep::InvalidateUser(user_id) => CallbackStepModel::InvalidateUser(user_id@),
            CallbackStep::JudgeRedirect(target) => CallbackStepModel::JudgeRedirect(target@),
            CallbackStep::OpenSession { plaintext, base_url, redirect_to } => {
                CallbackStepModel::OpenSession {
                    plaintext: plaintext@,
                    base_url: base_url@,
                    redirect_to: redirect_to@,
                }
            },
        }
    }
}

/// A parameter that is there and not empty.
pub open spec fn given(param: Option<Seq<char>>) -> bool {
    param matches Some(value) && value.len() > 0
}

/// What a callback request needs next, given `m`, or its response.
pub open spec fn callback_step(params: ParamsModel, m: CallbackModel) -> CallbackStepModel {
    if !m.allowed {
        CallbackStepModel::ErrorPage("Too many requests. Please try again later."@)
    } else if params.error is Some {
        CallbackStepModel::ErrorPage(
            match params.error_description {
                Some(description) => description,
                None => params.error->0,
            },
        )
    } else if !given(params.code) {
        CallbackStepModel::ErrorPage("Missing authorization code"@)
    } else if !given(params.state) {
        CallbackStepModel::ErrorPage("Missing state parameter"@)
    } else if m.audience is None {
        CallbackStepModel::ErrorPage("Trinity SSO is not enabled on this instance"@)
    } else if !m.has_state_store {
        CallbackStepModel::ErrorPage("OAuth not configured"@)
    } else {
        match m.flow {
            None => CallbackStepModel::TakeFlow(params.state->0),
            Some(None) => CallbackStepModel::ErrorPage(
                "Invalid or expired OAuth state. Please try logging in again."@,
            ),
            Some(Some(flow)) => if flow.provider != m.provider {
                CallbackStepModel::ErrorPage("OAuth provider mismatch"@)
            } else {
                identity_step(params.code->0, m.audience->0, flow, m)
            },
        }
    }
}

/// The part of [`callback_step`] that follows a flow of this provider: find out
/// who has signed in.
pub open spec fn identity_step(
    code: Seq<char>,
    audience: Seq<char>,
    flow: FlowModel,
    m: CallbackModel,
) -> CallbackStepModel {
    if !m.has_database {
        CallbackStepModel::ErrorPage("Database not available"@)
    } else {
        match (m.base_url, m.token_endpoint) {
            (None, _) => CallbackStepModel::ErrorPage("OAuth base URL not configured"@),
            (Some(_), None) => CallbackStepModel::ResolveTokenEndpoint,
            (Some(_), Some(None)) => CallbackStepModel::ErrorPage(
                "Trinity discovery doc not reachable. Please try again."@,
            ),
            (Some(base_url), Some(Some(endpoint))) => match (m.id_token, m.claims, m.user_id) {
                (None, _, _) => CallbackStepModel::ExchangeCode {
                    endpoint,
                    form: exchange_params(
                        code,
                        audience,
                        callback_url(base_url),
                        flow.code_verifier,
                    ),
                },
                (Some(None), _, _) => CallbackStepModel::ErrorPage(
                    "Failed to complete login. Please try again."@,
                ),
                (Some(Some(token)), None, _) => CallbackStepModel::VerifyToken(token),
                (Some(Some(_)), Some(None), _) => CallbackStepModel::ErrorPage(
                    "Failed to verify Trinity sign-in."@,
                ),
                (Some(Some(_)), Some(Some(claims)), None) => CallbackStepModel::ResolveIdentity(
                    claims.sub,
                ),
                (Some(Some(_)), Some(Some(_)), Some(None)) => CallbackStepModel::ErrorPage(
                    "Failed to link Trinity account."@,
                ),
                (Some(Some(_)), Some(Some(_)), Some(Some(user_id))) => session_step(
                    user_id,
                    base_url,
                    flow.redirect_after,
                    m,
                ),
            },
        }
    }
}

/// The part of [`callback_step`] that opens a session for `user_id`.
pub open spec fn session_step(
    user_id: Seq<char>,
    base_url: Seq<char>,
    redirect_after: Option<Seq<char>>,
    m: CallbackModel,
) -> CallbackStepModel {
    if !m.login_recorded {
        CallbackStepModel::RecordLogin(user_id)
    } else {
        match (m.token, m.token_stored) {
            (None, _) => CallbackStepModel::MintToken,
            (Some(token), None) => CallbackStepModel::StoreToken {
                user_id,
                name: SESSION_TOKEN_NAME@,
                plaintext: token.plaintext,
                prefix: token.prefix,
                lifetime_secs: m.lifetime_secs,
            },
            (Some(_), Some(false)) => CallbackStepModel::ErrorPage(
                "Failed to create session. Please try again."@,
            ),
            (Some(token), Some(true)) => if m.has_auth_cache && !m.cache_invalidated {
                CallbackStepModel::InvalidateUser(user_id)
            } else {
                match (redirect_after, m.redirect_is_safe) {
                    (Some(target), None) => CallbackStepModel::JudgeRedirect(target),
                    (Some(target), Some(true)) => CallbackStepModel::OpenSession {
                        plaintext: token.plaintext,
                        base_url,
                        redirect_to: target,
                    },
                    _ => CallbackStepModel::OpenSession {
                        plaintext: token.plaintext,
                        base_url,
                        redirect_to: "/"@,
                    },
                }
            },
        }
    }
}

fn error_page(message: &str) -> (r: CallbackStep)
    ensures
        r@ == CallbackStepModel::ErrorPage(message@),
{
    CallbackStep::ErrorPage(message.to_owned())
}

/// A parameter, if it is there and not empty.
fn given_param(param: &Option<String>) -> (r: Option<&String>)
    ensures
        match r {
            Some(value) => param.deep_view() == Some(value@) && given(param.deep_view()),
            None => !given(param.deep_view()),
        },
{
    match param {
        Some(value) => if value.as_str().unicode_len() > 0 {
            Some(value)
        } else {
            None
        },
        None => None,
    }
}

/// Handle a callback request as far as `known` allows.
pub fn trinity_callback_handler(params: &CallbackParams, known: &CallbackInputs) -> (step:
    CallbackStep)
    ensures
        step@ == callback_step(params@, known@),
        step matches CallbackStep::TakeFlow(state) ==> params.state matches Some(s) && state@ == s@,
        step matches CallbackStep::VerifyToken(token) ==> known.id_token matches Some(Ok(t))
            && token@ == t@,
        step matches CallbackStep::ResolveIdentity(sub) ==> known.claims matches Some(Ok(c)) && sub@
            == c.sub@,
        step matches CallbackStep::StoreToken { user_id, name, plaintext, prefix, lifetime_secs }
            ==> {
            &&& known.user_id matches Some(Ok(user))
            &&& known.token matches Some(token)
            &&& user_id@ == user@
            &&& name@ == "oauth-trinity-login"@
            &&& plaintext@ == token.plaintext@
            &&& prefix@ == token.prefix@
            &&& lifetime_secs == known.lifetime_secs
        },
        step matches CallbackStep::OpenSession { plaintext, base_url, redirect_to } ==> {
            &&& known.token matches Some(token)
            &&& known.base_url matches Some(base)
            &&& known.claims matches Some(Ok(_))
            &&& known.flow matches Some(Some(flow))
            &&& flow.provider@ == known.provider@
            &&& plaintext@ == token.plaintext@
            &&& base_url@ == base@
            &&& redirect_to@ == "/"@ || (known.redirect_is_safe == Some(true)
                && flow.redirect_after.deep_view() == Some(redirect_to@))
        },
{
    if !known.allowed {
        return error_page("Too many requests. Please try again later.");
    }
    if let Some(error) = &params.error {
        let description: &String = match &params.error_description {
            Some(description) => description,
            None => error,
        };
        return error_page(description.as_str());
    }
    let code: &String = match given_param(&params.code) {
        Some(code) => code,
        None => return error_page("Missing authorization code"),
    };
    let csrf_state: &String = match given_param(&params.state) {
        Some(state) => state,
        None => return error_page("Missing state parameter"),
    };
    let audience: &String = match &known.audience {
        Some(audience) => audience,
        None => return error_page("Trinity SSO is not enabled on this instance"),
    };
    if !known.has_state_store {
        return error_page("OAuth not configured");
    }
    // The state is judged before any backing service is touched.
    let flow: &OAuthFlow = match &known.flow {
        None => return CallbackStep::TakeFlow(csrf_state.clone()),
        Some(None) => return error_page(
            "Invalid or expired OAuth state. Please try logging in again.",
        ),
        Some(Some(flow)) => flow,
    };
    if !same_text(flow.provider.as_str(), known.provider.as_str()) {
        return error_page("OAuth provider mismatch");
    }
    find_identity(code, audience, flow, known)
}

/// Find out who has signed in.
fn find_identity(
    code: &String,
    audience: &String,
    flow: &OAuthFlow,
    known: &CallbackInputs,
) -> (step: CallbackStep)
    ensures
        step@ == identity_step(code@, audience@, flow@, known@),
{
    if !known.has_database {
        return error_page("Database not available");
    }
    let base_url: &String = match &known.base_url {
        Some(base_url) => base_url,
        None => return error_page("OAuth base URL not configured"),
    };
    let endpoint: &String = match &known.token_endpoint {
        None => return CallbackStep::ResolveTokenEndpoint,
        Some(Err(_)) => return error_page("Trinity discovery doc not reachable. Please try again."),
        Some(Ok(endpoint)) => endpoint,
    };
    let id_token: &String = match &known.id_token {
        None => {
            let callback: String = joined(base_url.as_str(), "/auth/trinity/callback");
            return CallbackStep::ExchangeCode {
                endpoint: endpoint.clone(),
                form: exchange_form(
                    code.as_str(),
                    audience.as_str(),
                    callback.as_str(),
                    flow.code_verifier.as_str(),
                ),
            };
        },
        Some(Err(_)) => return error_page("Failed to complete login. Please try again."),
        Some(Ok(id_token)) => id_token,
    };
    let claims: &TrinityClaims = match &known.claims {
        None => return CallbackStep::VerifyToken(id_token.clone()),
        Some(Err(_)) => return error_page("Failed to verify Trinity sign-in."),
        Some(Ok(claims)) => claims,
    };
    let user_id: &String = match &known.user_id {
        None => return CallbackStep::ResolveIdentity(claims.sub.clone()),
        Some(Err(_)) => return error_page("Failed to link Trinity account."),
        Some(Ok(user_id)) => user_id,
    };
    open_session(user_id, base_url, &flow.redirect_after, known)
}

/// Open a session for `user_id`.
fn open_session(
    user_id: &String,
    base_url: &String,
    redirect_after: &Option<String>,
    known: &CallbackInputs,
) -> (step: CallbackStep)
    ensures
        step@ == session_step(user_id@, base_url@, redirect_after.deep_view(), known@),
{
    if !known.login_recorded {
        return CallbackStep::RecordLogin(user_id.clone());
    }
    let token: &SessionToken = match &known.token {
        None => return CallbackStep::MintToken,
        Some(token) => token,
    };
    match known.token_stored {
        None => return CallbackStep::StoreToken {
            user_id: user_id.clone(),
            name: SESSION_TOKEN_NAME.to_owned(),
            plaintext: token.plaintext.clone(),
            prefix: token.prefix.clone(),
            lifetime_secs: known.lifetime_secs,
        },
        Some(stored) => if !stored {
            return error_page("Failed to create session. Please try again.");
        },
    }
    if known.has_auth_cache && !known.cache_invalidated {
        return CallbackStep::InvalidateUser(user_id.clone());
    }
    let redirect_to: String = match redirect_after {
        Some(target) => match known.redirect_is_safe {
            None => return CallbackStep::JudgeRedirect(target.clone()),
            Some(safe) => if safe {
                target.clone()
            } else {
                "/".to_owned()
            },
        },
        None => "/".to_owned(),
    };
    CallbackStep::OpenSession {
        plaintext: token.plaintext.clone(),
        base_url: base_url.clone(),
        redirect_to,
    }
}

} // verus!
