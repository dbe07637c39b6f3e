//! What holds of the sign-in flow as a whole.

use crate::base64url;
use crate::crypto;
use crate::form_url;
use crate::json;
use crate::json::JsonModel;
use crate::session_token;
use crate::text;
use crate::trinity_auth;
use crate::trinity_auth::{
    CallbackModel, CallbackStepModel, FlowModel, LoginModel, LoginStepModel, ParamsModel,
    TokenReply,
};
use vstd::prelude::*;

verus! {

/// A callback request that comes with a code and a state, to an instance that
/// can take it.
pub open spec fn acceptable(params: ParamsModel, m: CallbackModel) -> bool {
    &&& m.allowed
    &&& params.error is None
    &&& trinity_auth::given(params.code)
    &&& trinity_auth::given(params.state)
    &&& m.audience is Some
    &&& m.has_state_store
}

/// The state belongs to a flow of this provider.
pub open spec fn own_flow(m: CallbackModel) -> bool {
    m.flow matches Some(Some(flow)) && flow.provider == m.provider
}

/// The code was exchanged for a token, the token was verified, and its subject
/// is linked to a local user.
pub open spec fn identified(m: CallbackModel) -> bool {
    &&& m.has_database
    &&& m.base_url is Some
    &&& m.token_endpoint matches Some(Some(_))
    &&& m.id_token matches Some(Some(_))
    &&& m.claims matches Some(Some(_))
    &&& m.user_id matches Some(Some(_))
}

/// All that follows an identified user has been done.
pub open spec fn settled(m: CallbackModel) -> bool {
    &&& m.login_recorded
    &&& m.token is Some
    &&& m.token_stored == Some(true)
    &&& m.has_auth_cache ==> m.cache_invalidated
    &&& m.flow matches Some(Some(flow)) && (flow.redirect_after is Some ==> m.redirect_is_safe
        is Some)
}

/// A session is opened exactly where the request is acceptable, its state is of
/// a flow of this provider, the token behind its code was verified and linked to
/// a user, and a session token was stored for that user.
pub proof fn sessions_need_the_whole_flow(params: ParamsModel, m: CallbackModel)
    ensures
        (trinity_auth::callback_step(params, m) is OpenSession) == (acceptable(params, m)
            && own_flow(m) && identified(m) && settled(m)),
{
}

/// A session is the one whose token was stored. It leads to the target that the
/// flow asked for if that is safe, and to the root of the site else.
pub proof fn sessions_are_for_the_stored_token(params: ParamsModel, m: CallbackModel)
    requires
        trinity_auth::callback_step(params, m) is OpenSession,
    ensures
        trinity_auth::callback_step(params, m) matches CallbackStepModel::OpenSession {
            plaintext,
            base_url,
            redirect_to,
        } && plaintext == m.token->0.plaintext && m.base_url == Some(base_url) && redirect_to == (
        if m.flow->0->0.redirect_after is Some && m.redirect_is_safe == Some(true) {
            m.flow->0->0.redirect_after->0
        } else {
            "/"@
        }),
{
}

/// The ID token stays out of the session: once it is verified, nothing that the
/// handler does depends on it.
pub proof fn the_id_token_stays_out_of_the_session(
    params: ParamsModel,
    m: CallbackModel,
    other_token: Seq<char>,
)
    requires
        m.id_token matches Some(Some(_)),
        m.claims is Some,
    ensures
        trinity_auth::callback_step(params, m) == trinity_auth::callback_step(
            params,
            CallbackModel { id_token: Some(Some(other_token)), ..m },
        ),
{
}

/// The state is judged first: until the store has brought a flow, the answer
/// depends on no other service.
pub proof fn states_are_judged_before_any_service(
    params: ParamsModel,
    m: CallbackModel,
    n: CallbackModel,
)
    requires
        m.allowed == n.allowed,
        m.provider == n.provider,
        m.audience == n.audience,
        m.has_state_store == n.has_state_store,
        m.flow == n.flow,
        !own_flow(m),
    ensures
        trinity_auth::callback_step(params, m) == trinity_auth::callback_step(params, n),
{
}

/// An unknown state is refused.
pub proof fn unknown_states_are_refused(params: ParamsModel, m: CallbackModel)
    requires
        acceptable(params, m),
        m.flow == Some(None::<FlowModel>),
    ensures
        trinity_auth::callback_step(params, m) == CallbackStepModel::ErrorPage(
            "Invalid or expired OAuth state. Please try logging in again."@,
        ),
{
}

/// A moment in the handling of a callback request: what is known of it, and the
/// flows in the store by their states.
pub struct Moment {
    pub known: CallbackModel,
    pub store: Map<Seq<char>, FlowModel>,
}

/// The flow that the store holds under `state`.
pub open spec fn stored_flow(store: Map<Seq<char>, FlowModel>, state: Seq<char>) -> Option<
    FlowModel,
> {
    if store.contains_key(state) {
        Some(store[state])
    } else {
        None
    }
}

/// The store after `step`: what is taken out of it is gone.
pub open spec fn store_after(
    store: Map<Seq<char>, FlowModel>,
    step: CallbackStepModel,
) -> Map<Seq<char>, FlowModel> {
    match step {
        CallbackStepModel::TakeFlow(state) => store.remove(state),
        _ => store,
    }
}

/// Whatever else became of the store, nothing was put into it under `state`.
pub open spec fn not_inserted(
    state: Seq<char>,
    before: Map<Seq<char>, FlowModel>,
    after: Map<Seq<char>, FlowModel>,
) -> bool {
    after.contains_key(state) ==> before.contains_key(state) && after[state] == before[state]
}

/// The response to a request.
pub open spec fn is_response(step: CallbackStepModel) -> bool {
    step is ErrorPage || step is OpenSession
}

/// `b` follows `a`: the step that `a` asks for has been done. Other requests may
/// have used the store meanwhile, but none has put in the state of this one.
pub open spec fn follows(params: ParamsModel, a: Moment, b: Moment) -> bool {
    let step = trinity_auth::callback_step(params, a.known);
    &&& !is_response(step)
    &&& b.known.allowed == a.known.allowed
    &&& b.known.provider == a.known.provider
    &&& b.known.audience == a.known.audience
    &&& b.known.has_state_store == a.known.has_state_store
    &&& b.known.flow == match step {
        CallbackStepModel::TakeFlow(state) => Some(stored_flow(a.store, state)),
        _ => a.known.flow,
    }
    &&& not_inserted(params.state->0, store_after(a.store, step), b.store)
}

/// Moment `i` of a request is followed by the next.
pub open spec fn goes_on(params: ParamsModel, moments: Seq<Moment>, i: int) -> bool {
    follows(params, moments[i], moments[i + 1])
}

/// A request from its beginning to its response.
pub open spec fn handled(params: ParamsModel, moments: Seq<Moment>) -> bool {
    &&& moments.len() > 0
    &&& moments[0].known.flow is None
    &&& forall|i: int| 0 <= i < moments.len() - 1 ==> #[trigger] goes_on(params, moments, i)
    &&& is_response(trinity_auth::callback_step(params, moments.last().known))
}

proof fn lemma_the_state_is_used_up(params: ParamsModel, moments: Seq<Moment>, i: int)
    requires
        handled(params, moments),
        acceptable(params, moments[0].known),
        0 <= i < moments.len(),
    ensures
        acceptable(params, moments[i].known),
        moments[i].known.flow is Some ==> !moments[i].store.contains_key(params.state->0),
    decreases i,
{
    if i > 0 {
        lemma_the_state_is_used_up(params, moments, i - 1);
        assert(goes_on(params, moments, i - 1));
    }
}

proof fn lemma_no_flow_is_found(params: ParamsModel, moments: Seq<Moment>, i: int)
    requires
        handled(params, moments),
        acceptable(params, moments[0].known),
        !moments[0].store.contains_key(params.state->0),
        0 <= i < moments.len(),
    ensures
        acceptable(params, moments[i].known),
        !moments[i].store.contains_key(params.state->0),
        moments[i].known.flow is None || moments[i].known.flow == Some(None::<FlowModel>),
    decreases i,
{
    if i > 0 {
        lemma_no_flow_is_found(params, moments, i - 1);
        assert(goes_on(params, moments, i - 1));
    }
}

/// A request uses its state up: whatever came of it, the store holds no flow
/// under that state when the response goes out.
pub proof fn requests_use_their_states_up(params: ParamsModel, moments: Seq<Moment>)
    requires
        handled(params, moments),
        acceptable(params, moments[0].known),
    ensures
        !moments.last().store.contains_key(params.state->0),
{
    lemma_the_state_is_used_up(params, moments, moments.len() - 1);
}

/// A state works at most once, even where its first use failed later on: after a
/// request has been answered, with whatever response, another one with the same
/// state is refused, with whatever code, unless the state was put into the store
/// again.
pub proof fn states_work_at_most_once(
    first: ParamsModel,
    first_moments: Seq<Moment>,
    second: ParamsModel,
    second_moments: Seq<Moment>,
)
    requires
        handled(first, first_moments),
        acceptable(first, first_moments[0].known),
        handled(second, second_moments),
        acceptable(second, second_moments[0].known),
        first.state == second.state,
        not_inserted(first.state->0, first_moments.last().store, second_moments[0].store),
    ensures
        trinity_auth::callback_step(second, second_moments.last().known)
            == CallbackStepModel::ErrorPage(
            "Invalid or expired OAuth state. Please try logging in again."@,
        ),
{
    requests_use_their_states_up(first, first_moments);
    lemma_no_flow_is_found(second, second_moments, second_moments.len() - 1);
}

/// A state of another provider's flow is refused.
pub proof fn flows_of_other_providers_are_refused(params: ParamsModel, m: CallbackModel)
    requires
        acceptable(params, m),
        m.flow matches Some(Some(flow)) && flow.provider != m.provider,
    ensures
        trinity_auth::callback_step(params, m) == CallbackStepModel::ErrorPage(
            "OAuth provider mismatch"@,
        ),
{
}

/// What the issuer complains of is shown, whatever else the request holds, and
/// its description is preferred.
pub proof fn issuer_errors_are_shown(params: ParamsModel, m: CallbackModel)
    requires
        m.allowed,
        params.error is Some,
    ensures
        trinity_auth::callback_step(params, m) == CallbackStepModel::ErrorPage(
            if params.error_description is Some {
                params.error_description->0
            } else {
                params.error->0
            },
        ),
{
}

/// The callback handler asks only for what it does not know yet, so that every
/// request comes to its response.
pub proof fn only_missing_inputs_are_asked_for(params: ParamsModel, m: CallbackModel)
    ensures
        match trinity_auth::callback_step(params, m) {
            CallbackStepModel::ErrorPage(_) => true,
            CallbackStepModel::TakeFlow(state) => m.flow is None && params.state == Some(state),
            CallbackStepModel::ResolveTokenEndpoint => m.token_endpoint is None,
            CallbackStepModel::ExchangeCode { endpoint, .. } => m.id_token is None
                && m.token_endpoint == Some(Some(endpoint)),
            CallbackStepModel::VerifyToken(token) => m.claims is None && m.id_token == Some(
                Some(token),
            ),
            CallbackStepModel::ResolveIdentity(sub) => m.user_id is None && m.claims->0->0.sub
                == sub,
            CallbackStepModel::RecordLogin(user) => !m.login_recorded && m.user_id == Some(
                Some(user),
            ),
            CallbackStepModel::MintToken => m.token is None,
            CallbackStepModel::StoreToken { user_id, lifetime_secs, .. } => m.token_stored is None
                && m.user_id == Some(Some(user_id)) && lifetime_secs == m.lifetime_secs,
            CallbackStepModel::InvalidateUser(user) => !m.cache_invalidated && m.user_id == Some(
                Some(user),
            ),
            CallbackStepModel::JudgeRedirect(_) => m.redirect_is_safe is None,
            CallbackStepModel::OpenSession { .. } => true,
        },
{
}

/// No user is looked up, and no token is made or stored, before the ID token has
/// been verified.
pub proof fn nothing_is_written_before_verification(params: ParamsModel, m: CallbackModel)
    requires
        ({
            let step = trinity_auth::callback_step(params, m);
            step is ResolveIdentity || step is RecordLogin || step is MintToken || step
                is StoreToken || step is InvalidateUser || step is OpenSession
        }),
    ensures
        acceptable(params, m),
        own_flow(m),
        m.claims matches Some(Some(_)),
{
}

/// The login handler asks only for what it does not know yet, and starts a flow
/// only after the endpoint is known.
pub proof fn login_asks_only_for_missing_inputs(redirect_after: Option<Seq<char>>, m: LoginModel)
    ensures
        match trinity_auth::login_step(redirect_after, m) {
            LoginStepModel::ResolveEndpoint => m.endpoint is None,
            LoginStepModel::StartFlow { provider, redirect_after: after } => {
                &&& m.flow is None
                &&& m.endpoint matches Some(Some(_))
                &&& provider == m.provider
                &&& after == redirect_after
            },
            _ => true,
        },
{
}

/// The parameters of the authorisation request, in the redirect of a login.
pub open spec fn login_params(m: LoginModel) -> Seq<(Seq<char>, Seq<char>)> {
    trinity_auth::authorize_params(
        m.audience->0,
        trinity_auth::callback_url(m.base_url->0),
        (m.flow->0).0,
        trinity_auth::challenge_of((m.flow->0).1),
    )
}

/// A login leads to the endpoint that the discovery document names: the redirect
/// begins with that endpoint's URL, up to its fragment.
pub proof fn logins_lead_to_the_discovered_endpoint(
    redirect_after: Option<Seq<char>>,
    m: LoginModel,
)
    requires
        trinity_auth::login_step(redirect_after, m) is Redirect,
    ensures
        m.endpoint matches Some(Some(endpoint)) && form_url::url_text(endpoint) matches Some(url)
            && form_url::before_fragment(url).is_prefix_of(
            trinity_auth::login_step(redirect_after, m)->Redirect_0,
        ),
{
    let url = form_url::url_text(m.endpoint->0->0)->0;
    form_url::extended_urls_keep_what_they_had(url, login_params(m));
}

/// A browser can follow every authorisation URL: it uses HTTP or HTTPS.
pub proof fn authorize_urls_are_web_urls(
    endpoint: Seq<char>,
    client_id: Seq<char>,
    redirect_uri: Seq<char>,
    state: Seq<char>,
    challenge: Seq<char>,
)
    ensures
        trinity_auth::authorize_url(endpoint, client_id, redirect_uri, state, challenge) matches Some(
            url,
        ) ==> form_url::web_url(url),
{
    if trinity_auth::authorize_url(endpoint, client_id, redirect_uri, state, challenge) is Some {
        form_url::extended_web_urls_are_web_urls(
            form_url::url_text(endpoint)->0,
            trinity_auth::authorize_params(client_id, redirect_uri, state, challenge),
        );
    }
}

/// A login never leads to a URL of another scheme, whatever the discovery
/// document names.
pub proof fn logins_lead_to_web_urls(redirect_after: Option<Seq<char>>, m: LoginModel)
    ensures
        trinity_auth::login_step(redirect_after, m) matches LoginStepModel::Redirect(url)
            ==> form_url::web_url(url),
        trinity_auth::login_step(redirect_after, m) is Redirect ==> form_url::web_url(
            form_url::url_text(m.endpoint->0->0)->0,
        ),
{
    if trinity_auth::login_step(redirect_after, m) is Redirect {
        form_url::extended_web_urls_are_web_urls(
            form_url::url_text(m.endpoint->0->0)->0,
            login_params(m),
        );
    }
}

/// A login carries the parameters of the authorisation request: the query of the
/// redirect comes apart into what the endpoint's own query held, if anything,
/// and then exactly those parameters, in their order.
pub proof fn logins_carry_the_required_params(
    redirect_after: Option<Seq<char>>,
    m: LoginModel,
    i: int,
)
    requires
        trinity_auth::login_step(redirect_after, m) is Redirect,
        0 <= i < 6,
    ensures
        ({
            let url = form_url::url_text(m.endpoint->0->0)->0;
            let before = form_url::query_pieces(url);
            &&& form_url::query_of(trinity_auth::login_step(redirect_after, m)->Redirect_0)
                matches Some(query)
            &&& text::segments(query, '&').len() == before + 6
            &&& text::first_split(text::segments(query, '&')[before + i], '=') == Some(
                (
                    form_url::encoded_text(login_params(m)[i].0),
                    form_url::encoded_text(login_params(m)[i].1),
                ),
            )
        }),
{
    let url = form_url::url_text(m.endpoint->0->0)->0;
    form_url::extended_queries_come_apart(url, login_params(m), i);
}

/// The challenge that goes over the browser is in the URL-safe alphabet and has
/// no padding.
pub proof fn challenges_are_url_safe(code_verifier: Seq<char>)
    ensures
        ({
            let challenge = trinity_auth::challenge_of(code_verifier);
            &&& !challenge.contains('=')
            &&& !challenge.contains('+')
            &&& !challenge.contains('/')
            &&& base64url::decoded(challenge) == Ok::<Seq<u8>, Seq<char>>(
                crypto::sha256(vstd::utf8::encode_utf8(code_verifier)),
            )
        }),
{
    let digest = crypto::sha256(vstd::utf8::encode_utf8(code_verifier));
    let challenge = trinity_auth::challenge_of(code_verifier);
    base64url::encoding_stays_in_alphabet(digest);
    base64url::encoding_decodes_back(digest);
    assert forall|i: int| 0 <= i < challenge.len() implies (#[trigger] challenge[i]) != '='
        && challenge[i] != '+' && challenge[i] != '/' by {
        assert(base64url::in_alphabet(challenge[i]));
    }
}

/// Both halves of the flow agree: the exchange names the same client and the
/// same callback as the login did, and proves itself with the verifier whose
/// challenge the login carried.
pub proof fn both_halves_agree(
    redirect_after: Option<Seq<char>>,
    login: LoginModel,
    params: ParamsModel,
    m: CallbackModel,
)
    requires
        trinity_auth::login_step(redirect_after, login) is Redirect,
        trinity_auth::callback_step(params, m) is ExchangeCode,
        login.audience == m.audience,
        login.base_url == m.base_url,
        (login.flow->0).1 == m.flow->0->0.code_verifier,
    ensures
        ({
            let form = trinity_auth::callback_step(params, m)->form;
            let sent = login_params(login);
            &&& form[1] == ("code"@, params.code->0)
            &&& form[2] == sent[1]
            &&& form[3] == sent[2]
            &&& form[4].0 == "code_verifier"@
            &&& sent[4] == ("code_challenge"@, trinity_auth::challenge_of(form[4].1))
        }),
{
}

/// The exchange succeeds exactly on a success status with a JSON body whose
/// `id_token` is a text.
pub proof fn exchanges_succeed_exactly_with_a_token(reply: TokenReply)
    ensures
        trinity_auth::exchange_outcome(reply) is Ok <==> {
            &&& reply matches TokenReply::Answered { status, body, .. }
            &&& 200 <= status < 300
            &&& body matches Ok(value)
            &&& json::entry(value@, "id_token"@) matches Some(JsonModel::Text(_))
        },
{
}

/// What is stored of a session is what was minted: the token, its own prefix, the
/// fixed name and the lifetime of a session, for the user who was linked.
pub proof fn stored_tokens_are_the_minted_ones(
    params: ParamsModel,
    m: CallbackModel,
    bytes: Seq<u8>,
)
    requires
        trinity_auth::callback_step(params, m) is StoreToken,
    ensures
        ({
            let step = trinity_auth::callback_step(params, m);
            &&& m.token matches Some(token)
            &&& step->StoreToken_plaintext == token.plaintext
            &&& step->prefix == token.prefix
            &&& step->name == "oauth-trinity-login"@
            &&& step->lifetime_secs == m.lifetime_secs
            &&& m.user_id == Some(Some(step->user_id))
            &&& bytes.len() == session_token::TOKEN_BYTES && token == session_token::token_of(bytes)
                ==> step->prefix.len() == 8 && step->prefix == step->StoreToken_plaintext.take(8)
        }),
{
}

/// The session that is opened is the one that was stored: the handler hands out
/// the very token whose storing it asked for before.
pub proof fn opened_sessions_are_the_stored_ones(
    params: ParamsModel,
    m: CallbackModel,
    stored: CallbackModel,
)
    requires
        trinity_auth::callback_step(params, m) is StoreToken,
        trinity_auth::callback_step(params, stored) is OpenSession,
        stored.token == m.token,
    ensures
        trinity_auth::callback_step(params, stored)->OpenSession_plaintext
            == trinity_auth::callback_step(params, m)->StoreToken_plaintext,
{
}

/// Where a callback request ends before its flow is known, with which words, and
/// in which order these are looked at.
pub proof fn early_callback_errors_come_in_order(params: ParamsModel, m: CallbackModel)
    ensures
        ({
            let step = trinity_auth::callback_step(params, m);
            let asked = m.allowed && params.error is None;
            let has_code = params.code is Some && params.code->0.len() > 0;
            let has_state = params.state is Some && params.state->0.len() > 0;
            let complete = asked && has_code && has_state;
            &&& !m.allowed ==> step == CallbackStepModel::ErrorPage(
                "Too many requests. Please try again later."@,
            )
            &&& m.allowed && params.error is Some ==> step == CallbackStepModel::ErrorPage(
                if params.error_description is Some {
                    params.error_description->0
                } else {
                    params.error->0
                },
            )
            &&& asked && !has_code ==> step == CallbackStepModel::ErrorPage(
                "Missing authorization code"@,
            )
            &&& asked && has_code && !has_state ==> step == CallbackStepModel::ErrorPage(
                "Missing state parameter"@,
            )
            &&& complete && m.audience is None ==> step == CallbackStepModel::ErrorPage(
                "Trinity SSO is not enabled on this instance"@,
            )
            &&& complete && m.audience is Some && !m.has_state_store ==> step
                == CallbackStepModel::ErrorPage("OAuth not configured"@)
            &&& complete && m.audience is Some && m.has_state_store && m.flow is None ==> step
                == CallbackStepModel::TakeFlow(params.state->0)
        }),
{
}

/// What a callback request with a flow of this provider needs next, or which
/// words it ends with, until its user is known.
pub proof fn callbacks_find_their_user_in_order(params: ParamsModel, m: CallbackModel)
    requires
        acceptable(params, m),
        own_flow(m),
    ensures
        ({
            let step = trinity_auth::callback_step(params, m);
            let based = m.has_database && m.base_url is Some;
            let reached = based && m.token_endpoint is Some && m.token_endpoint->0 is Some;
            let exchanged = reached && m.id_token is Some && m.id_token->0 is Some;
            let verified = exchanged && m.claims is Some && m.claims->0 is Some;
            &&& !m.has_database ==> step == CallbackStepModel::ErrorPage("Database not available"@)
            &&& m.has_database && m.base_url is None ==> step == CallbackStepModel::ErrorPage(
                "OAuth base URL not configured"@,
            )
            &&& based && m.token_endpoint is None ==> step
                == CallbackStepModel::ResolveTokenEndpoint
            &&& based && m.token_endpoint is Some && m.token_endpoint->0 is None ==> step
                == CallbackStepModel::ErrorPage(
                "Trinity discovery doc not reachable. Please try again."@,
            )
            &&& reached && m.id_token is None ==> step == (CallbackStepModel::ExchangeCode {
                endpoint: m.token_endpoint->0->0,
                form: seq![
                    ("grant_type"@, "authorization_code"@),
                    ("code"@, params.code->0),
                    ("client_id"@, m.audience->0),
                    ("redirect_uri"@, m.base_url->0 + "/auth/trinity/callback"@),
                    ("code_verifier"@, m.flow->0->0.code_verifier),
                ],
            })
            &&& reached && m.id_token is Some && m.id_token->0 is None ==> step
                == CallbackStepModel::ErrorPage("Failed to complete login. Please try again."@)
            &&& exchanged && m.claims is None ==> step == CallbackStepModel::VerifyToken(
                m.id_token->0->0,
            )
            &&& exchanged && m.claims is Some && m.claims->0 is None ==> step
                == CallbackStepModel::ErrorPage("Failed to verify Trinity sign-in."@)
            &&& verified && m.user_id is None ==> step == CallbackStepModel::ResolveIdentity(
                m.claims->0->0.sub,
            )
            &&& verified && m.user_id is Some && m.user_id->0 is None ==> step
                == CallbackStepModel::ErrorPage("Failed to link Trinity account."@)
        }),
{
}

/// What a callback request whose user is known needs next, until its session is
/// open.
pub proof fn sessions_are_opened_in_order(params: ParamsModel, m: CallbackModel)
    requires
        acceptable(params, m),
        own_flow(m),
        identified(m),
    ensures
        ({
            let step = trinity_auth::callback_step(params, m);
            let user = m.user_id->0->0;
            let minted = m.login_recorded && m.token is Some;
            let stored = minted && m.token_stored == Some(true);
            let dropped = stored && (m.has_auth_cache ==> m.cache_invalidated);
            let target = m.flow->0->0.redirect_after;
            &&& !m.login_recorded ==> step == CallbackStepModel::RecordLogin(user)
            &&& m.login_recorded && m.token is None ==> step == CallbackStepModel::MintToken
            &&& minted && m.token_stored is None ==> step is StoreToken
            &&& minted && m.token_stored == Some(false) ==> step == CallbackStepModel::ErrorPage(
                "Failed to create session. Please try again."@,
            )
            &&& stored && m.has_auth_cache && !m.cache_invalidated ==> step
                == CallbackStepModel::InvalidateUser(user)
            &&& dropped && target is Some && m.redirect_is_safe is None ==> step
                == CallbackStepModel::JudgeRedirect(target->0)
            &&& dropped && (target is None || m.redirect_is_safe is Some) ==> step == (
            CallbackStepModel::OpenSession {
                plaintext: m.token->0.plaintext,
                base_url: m.base_url->0,
                redirect_to: if target is Some && m.redirect_is_safe == Some(true) {
                    target->0
                } else {
                    "/"@
                },
            })
        }),
{
}

/// Where a login request is rejected, with which status and words, what it needs
/// next, and in which order these are looked at.
pub proof fn logins_are_judged_in_order(redirect_after: Option<Seq<char>>, m: LoginModel)
    ensures
        ({
            let step = trinity_auth::login_step(redirect_after, m);
            let enabled = m.allowed && m.audience is Some;
            let ready = enabled && m.has_state_store && m.base_url is Some;
            let reached = ready && m.endpoint is Some && m.endpoint->0 is Some;
            &&& !m.allowed ==> step == (LoginStepModel::Reject {
                status: 429,
                message: "Rate limited"@,
            })
            &&& m.allowed && m.audience is None ==> step == (LoginStepModel::Reject {
                status: 404,
                message: "Trinity SSO is not enabled on this instance"@,
            })
            &&& enabled && !m.has_state_store ==> step == (LoginStepModel::Reject {
                status: 503,
                message: "OAuth state store not available"@,
            })
            &&& enabled && m.has_state_store && m.base_url is None ==> step == (
            LoginStepModel::Reject { status: 503, message: "OAuth base URL not configured"@ })
            &&& ready && m.endpoint is None ==> step == LoginStepModel::ResolveEndpoint
            &&& ready && m.endpoint is Some && m.endpoint->0 is None ==> step == (
            LoginStepModel::Reject { status: 503, message: "Trinity discovery doc not reachable"@ })
            &&& reached && m.flow is None ==> step == (LoginStepModel::StartFlow {
                provider: m.provider,
                redirect_after,
            })
            &&& reached && m.flow is Some ==> step is Redirect || step is BadEndpoint
        }),
{
}

/// The parameters that a login carries, by name and value.
pub proof fn login_params_are_those_of_the_flow(m: LoginModel)
    requires
        m.flow is Some,
    ensures
        login_params(m) == seq![
            ("response_type"@, "code"@),
            ("client_id"@, m.audience->0),
            ("redirect_uri"@, m.base_url->0 + "/auth/trinity/callback"@),
            ("state"@, (m.flow->0).0),
            (
                "code_challenge"@,
                base64url::encoded(crypto::sha256(vstd::utf8::encode_utf8((m.flow->0).1))),
            ),
            ("code_challenge_method"@, "S256"@),
        ],
{
}

/// A login that has its flow leads to the endpoint with these parameters, unless
/// the endpoint is no URL that a browser can follow or the result is too long.
pub proof fn logins_with_a_flow_lead_to_the_endpoint(
    redirect_after: Option<Seq<char>>,
    m: LoginModel,
)
    requires
        m.allowed,
        m.audience is Some,
        m.has_state_store,
        m.base_url is Some,
        m.endpoint matches Some(Some(_)),
        m.flow is Some,
    ensures
        ({
            let step = trinity_auth::login_step(redirect_after, m);
            let url = form_url::url_text(m.endpoint->0->0);
            let fits = vstd::utf8::encode_utf8(url->0).len() + 1 + form_url::encoded_pairs(
                login_params(m),
            ).len() <= 0xffff_ffff;
            let web = "http://"@.is_prefix_of(url->0) || "https://"@.is_prefix_of(url->0);
            &&& url is Some && web && fits ==> step == LoginStepModel::Redirect(
                form_url::with_pairs(url->0, login_params(m)),
            )
            &&& url is None || !web || !fits ==> step == LoginStepModel::BadEndpoint
        }),
{
}

/// What an exchange comes to: the ID token of a good reply, or what is wrong with
/// the reply.
pub proof fn exchanges_come_to_the_replys_token(reply: TokenReply)
    ensures
        ({
            let r = trinity_auth::exchange_outcome(reply);
            match reply {
                TokenReply::Unreachable(why) => r == Err::<Seq<char>, Seq<char>>(
                    "token endpoint request failed: "@ + why@,
                ),
                TokenReply::Answered { status, status_text, text, body } => {
                    &&& status < 200 || status >= 300 ==> r == Err::<Seq<char>, Seq<char>>(
                        "token endpoint returned "@ + status_text@ + ": "@ + text@,
                    )
                    &&& 200 <= status < 300 && body is Err ==> r == Err::<Seq<char>, Seq<char>>(
                        "token endpoint returned non-JSON body: "@ + body->Err_0@,
                    )
                    &&& 200 <= status < 300 && body is Ok ==> match json::entry(
                        body->Ok_0@,
                        "id_token"@,
                    ) {
                        Some(JsonModel::Text(token)) => r == Ok::<Seq<char>, Seq<char>>(token),
                        _ => r == Err::<Seq<char>, Seq<char>>(
                            "token endpoint response missing id_token"@,
                        ),
                    }
                },
            }
        }),
{
}

} // verus!
