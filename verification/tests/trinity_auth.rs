use base64::engine::general_purpose::URL_SAFE_NO_PAD;
use base64::Engine;
use bastionclaw::crypto::PublicKey;
use bastionclaw::form_url::{is_web_url, normal_url, try_append_pairs};
use bastionclaw::json::JsonValue;
use bastionclaw::session_token::{mint_session_token, new_session_token, session_token_from};
use bastionclaw::trinity_auth::{
    build_authorize_url, code_challenge, exchange_code, trinity_callback_handler,
    trinity_login_handler, try_build_authorize_url, CallbackInputs, CallbackParams, CallbackStep,
    LoginInputs, LoginParams, LoginStep, OAuthFlow, StartedFlow, TokenReply,
};
use bastionclaw::trinity_verifier::{
    EndpointStep, JwsHeader, JwsPayload, KeyStep, TrinityClaims, TrinityVerifier,
    TrinityVerifierConfig, VerifyInputs, VerifyStep,
};
use bastionclaw::verify_error::TrinityVerifyError;
use k256::ecdsa::signature::hazmat::PrehashSigner;
use k256::ecdsa::{Signature, SigningKey};
use rand::rngs::OsRng;
use sha2::{Digest, Sha256};
use std::collections::HashMap;

const CLOCK: u64 = 1;

const PROVIDER: &str = "trinity";

fn query_of(url: &url::Url) -> HashMap<String, String> {
    url.query_pairs().into_owned().collect()
}

#[test]
fn authorize_url_carries_spec_required_params() {
    let url = build_authorize_url(
        "https://trinity.example/auth/authorize",
        "claw-acme",
        "https://claw.example/auth/trinity/callback",
        "csrf-abc",
        "S256-challenge",
    );
    let parsed = url::Url::parse(&url).expect("valid url");
    assert_eq!(parsed.scheme(), "https");
    assert_eq!(parsed.host_str(), Some("trinity.example"));
    assert_eq!(parsed.path(), "/auth/authorize");
    let query = query_of(&parsed);
    assert_eq!(query.get("response_type").map(|s| s.as_str()), Some("code"));
    assert_eq!(query.get("client_id").map(|s| s.as_str()), Some("claw-acme"));
    assert_eq!(
        query.get("redirect_uri").map(|s| s.as_str()),
        Some("https://claw.example/auth/trinity/callback")
    );
    assert_eq!(query.get("state").map(|s| s.as_str()), Some("csrf-abc"));
    assert_eq!(
        query.get("code_challenge").map(|s| s.as_str()),
        Some("S256-challenge")
    );
    assert_eq!(
        query.get("code_challenge_method").map(|s| s.as_str()),
        Some("S256")
    );
}

#[test]
fn build_authorize_url_yields_http_scheme_from_discovery_endpoint() {
    let url = build_authorize_url(
        "http://localhost:3000/auth/authorize",
        "claw-local",
        "http://127.0.0.1:8090/auth/trinity/callback",
        "s",
        "c",
    );
    let parsed = url::Url::parse(&url).expect("valid url");
    assert!(
        matches!(parsed.scheme(), "http" | "https"),
        "authorise URL must use an HTTP scheme; got {} from {url}",
        parsed.scheme()
    );
    assert_ne!(parsed.scheme(), "did");
    assert_eq!(parsed.host_str(), Some("localhost"));
    assert_eq!(parsed.port(), Some(3000));
    assert_eq!(parsed.path(), "/auth/authorize");
}

#[test]
fn authorize_urls_are_composed_exactly() {
    let rest = "response_type=code&client_id=a+b&redirect_uri=https%3A%2F%2Fx%2F%C3%A9&state=%26%3D%23%3F&code_challenge=A-_*.z&code_challenge_method=S256";
    let cases = [
        ("https://t.example/a", format!("https://t.example/a?{rest}")),
        ("https://t.example/a?", format!("https://t.example/a?{rest}")),
        ("https://t.example/a?x=1", format!("https://t.example/a?x=1&{rest}")),
        ("https://t.example/a?x?", format!("https://t.example/a?x?&{rest}")),
        ("https://t.example/a#f#g", format!("https://t.example/a?{rest}#f#g")),
        ("https://t.example/a?x#f?", format!("https://t.example/a?x&{rest}#f?")),
        ("HTTPS://T.example", format!("https://t.example/?{rest}")),
        ("http://T.example:80/a", format!("http://t.example/a?{rest}")),
    ];
    for (endpoint, expected) in cases {
        let url = try_build_authorize_url(endpoint, "a b", "https://x/é", "&=#?", "A-_*.z");
        assert_eq!(url, Some(expected));
    }
}

#[test]
fn endpoints_that_are_no_urls_are_refused() {
    for endpoint in ["", "/auth/authorize", "trinity.example", "https://", "https://a b/"] {
        assert_eq!(try_build_authorize_url(endpoint, "c", "r", "s", "x"), None);
    }
}

#[test]
fn build_authorize_url_rejects_did_issuer_as_base() {
    for endpoint in [
        "did:t3n:trinity-cluster-dev/auth/authorize",
        "did:t3n:trinity-cluster-dev",
        "DID:t3n:trinity-cluster-dev/auth/authorize",
        "  did:t3n:trinity-cluster-dev/auth/authorize",
        "ftp://trinity.example/auth/authorize",
        "javascript:alert(1)",
        "httpx://trinity.example/",
    ] {
        let built = try_build_authorize_url(
            endpoint,
            "claw-local",
            "http://127.0.0.1:8090/auth/trinity/callback",
            "s",
            "c",
        );
        assert_eq!(built, None, "{endpoint}");
    }
}

#[test]
fn web_urls_are_told_by_their_normal_form() {
    assert_eq!(normal_url("HTTP://T.example").as_deref(), Some("http://t.example/"));
    assert_eq!(normal_url("did:t3n:x").as_deref(), Some("did:t3n:x"));
    assert_eq!(normal_url("no url"), None);
    assert!(is_web_url("http://t.example/"));
    assert!(is_web_url("https://t.example/"));
    assert!(!is_web_url("did:t3n:x"));
    assert!(!is_web_url("http:/"));
    assert!(!is_web_url(""));
}

#[test]
fn many_pairs_are_appended() {
    let pairs: Vec<(String, String)> = (0..20).map(|i| (format!("k{i}"), String::new())).collect();
    let query: Vec<String> = (0..20).map(|i| format!("k{i}=")).collect();
    assert_eq!(
        try_append_pairs("https://t.example/", &pairs),
        Some(format!("https://t.example/?{}", query.join("&")))
    );
}

#[test]
fn long_states_are_carried() {
    let state = "a".repeat(0x0400_0001);
    let url = try_build_authorize_url("https://t.example/a", "c", "r", &state, "x").expect("url");
    assert!(url.len() > state.len());
    assert!(url.ends_with("a&code_challenge=x&code_challenge_method=S256"));
}

#[test]
fn code_challenge_is_base64url_no_pad_matching_trinity_decoder() {
    let verifier = new_session_token().expect("random bytes").plaintext;
    let challenge = code_challenge(&verifier);
    assert!(!challenge.contains('='), "challenge must not carry base64 padding");
    assert!(
        !challenge.contains('+') && !challenge.contains('/'),
        "challenge must use URL-safe alphabet"
    );
    let bytes = URL_SAFE_NO_PAD
        .decode(challenge.as_bytes())
        .expect("trinity decoder accepts the challenge");
    assert_eq!(bytes.len(), 32);
}

#[test]
fn a_known_code_challenge() {
    assert_eq!(
        code_challenge("dBjftJeZ4CVP-mB92K27uhbUJU1p1r_wW1gFWFOEjXk"),
        "E9Melhoa2OwvFrEMTJguCHaoeK1t8URWbuGJSstw-cM"
    );
}

#[test]
fn session_tokens_are_hexadecimal() {
    let bytes: Vec<u8> = (0..32).map(|i| i * 8).collect();
    let token = mint_session_token(&bytes);
    assert_eq!(
        token.plaintext,
        "0008101820283038404850586068707880889098a0a8b0b8c0c8d0d8e0e8f0f8"
    );
    assert_eq!(token.prefix, "00081018");
}

#[test]
fn drawn_bytes_always_make_a_token() {
    let token = session_token_from(Some(vec![0xab; 32])).expect("bytes were drawn");
    assert_eq!(token.plaintext, "ab".repeat(32));
    assert_eq!(token.prefix, "abababab");
    assert!(session_token_from(None).is_none());
}

#[test]
fn new_session_tokens_differ() {
    let a = new_session_token().expect("random bytes");
    let b = new_session_token().expect("random bytes");
    assert_ne!(a.plaintext, b.plaintext);
    assert_eq!(a.plaintext.len(), 64);
    assert!(a.plaintext.starts_with(&a.prefix));
    assert_eq!(a.prefix.len(), 8);
}

fn sso(audience: &str, discovery_base: &str) -> TrinityVerifier {
    let mut verifier = TrinityVerifier::new(TrinityVerifierConfig {
        issuer: "did:t3n:trinity-cluster-dev".to_string(),
        audience: audience.to_string(),
        discovery_url: format!("{discovery_base}/.well-known/openid-configuration"),
    });
    verifier.seed_discovery(
        format!("{discovery_base}/.well-known/jwks.json"),
        Some(format!("{discovery_base}/auth/authorize")),
        Some(format!("{discovery_base}/auth/token")),
        CLOCK,
    );
    verifier
}

fn login_inputs(verifier: &TrinityVerifier, base_url: &str) -> LoginInputs {
    LoginInputs {
        allowed: true,
        provider: PROVIDER.to_string(),
        audience: Some(verifier.audience().to_string()),
        has_state_store: true,
        base_url: Some(base_url.to_string()),
        endpoint: None,
        flow: None,
    }
}

/// Run a login to its redirect.
fn login(verifier: &mut TrinityVerifier, base_url: &str) -> String {
    let params = LoginParams { redirect_after: None };
    let mut known = login_inputs(verifier, base_url);
    loop {
        match trinity_login_handler(&params, &known) {
            LoginStep::ResolveEndpoint => {
                known.endpoint = match verifier.authorization_endpoint(None, CLOCK) {
                    EndpointStep::Ready(url) => Some(Ok(url)),
                    EndpointStep::Failed(e) => Some(Err(e)),
                    EndpointStep::Fetch(_) => panic!("the document is seeded"),
                }
            }
            LoginStep::StartFlow { provider, redirect_after } => {
                assert_eq!(provider, PROVIDER);
                assert_eq!(redirect_after, None);
                known.flow = Some(StartedFlow {
                    csrf_state: "csrf-abc".to_string(),
                    code_verifier: "dBjftJeZ4CVP-mB92K27uhbUJU1p1r_wW1gFWFOEjXk".to_string(),
                });
            }
            LoginStep::Redirect(location) => return location,
            LoginStep::Reject { status, message } => panic!("{status}: {message}"),
            LoginStep::BadEndpoint => panic!("the endpoint is a URL"),
        }
    }
}

#[test]
fn login_handler_redirects_with_pkce_query_params() {
    let mut verifier = sso("claw-acme", "https://trinity.example");
    let location = login(&mut verifier, "https://claw.example");
    let url = url::Url::parse(&location).expect("absolute redirect");
    assert!(
        matches!(url.scheme(), "http" | "https"),
        "Location must use HTTP(S); got {} ({})",
        url.scheme(),
        location
    );
    assert_ne!(url.scheme(), "did");
    assert_eq!(url.host_str(), Some("trinity.example"));
    assert_eq!(url.path(), "/auth/authorize");
    let q = query_of(&url);
    assert_eq!(q.get("response_type").map(|s| s.as_str()), Some("code"));
    assert_eq!(q.get("client_id").map(|s| s.as_str()), Some("claw-acme"));
    assert_eq!(
        q.get("redirect_uri").map(|s| s.as_str()),
        Some("https://claw.example/auth/trinity/callback")
    );
    assert_eq!(q.get("code_challenge_method").map(|s| s.as_str()), Some("S256"));
    assert_eq!(q.get("state").map(|s| s.as_str()), Some("csrf-abc"));
    assert_eq!(
        q.get("code_challenge").map(|s| s.as_str()),
        Some("E9Melhoa2OwvFrEMTJguCHaoeK1t8URWbuGJSstw-cM")
    );
}

#[test]
fn login_handler_does_not_redirect_to_did_scheme_url() {
    let mut verifier = sso("claw-local", "http://localhost:3000");
    let location = login(&mut verifier, "http://127.0.0.1:8090");
    assert!(
        !location.starts_with("did:"),
        "redirect leaked the issuer DID as the URL base: {location}"
    );
    assert!(
        location.starts_with("http://localhost:3000/auth/authorize?"),
        "redirect must point at the discovery-provided authorization_endpoint; got {location}"
    );
}

#[test]
fn logins_are_rejected_in_order() {
    let verifier = sso("claw-acme", "https://trinity.example");
    let params = LoginParams { redirect_after: Some("/chat".to_string()) };
    let rejection = |known: &LoginInputs| match trinity_login_handler(&params, known) {
        LoginStep::Reject { status, message } => (status, message),
        _ => panic!("should be rejected"),
    };
    let mut known = login_inputs(&verifier, "https://claw.example");
    known.endpoint = Some(Err(TrinityVerifyError::DiscoveryFetch("x".to_string())));
    assert_eq!(rejection(&known), (503, "Trinity discovery doc not reachable".to_string()));
    known.base_url = None;
    assert_eq!(rejection(&known), (503, "OAuth base URL not configured".to_string()));
    known.has_state_store = false;
    assert_eq!(rejection(&known), (503, "OAuth state store not available".to_string()));
    known.audience = None;
    assert_eq!(
        rejection(&known),
        (404, "Trinity SSO is not enabled on this instance".to_string())
    );
    known.allowed = false;
    assert_eq!(rejection(&known), (429, "Rate limited".to_string()));

    let mut known = login_inputs(&verifier, "https://claw.example");
    known.endpoint = Some(Ok("did:t3n:trinity-cluster-dev/auth/authorize".to_string()));
    assert!(matches!(
        trinity_login_handler(&params, &known),
        LoginStep::StartFlow { redirect_after: Some(target), .. } if target == "/chat"
    ));
    known.flow = Some(StartedFlow {
        csrf_state: "s".to_string(),
        code_verifier: "v".to_string(),
    });
    assert!(matches!(trinity_login_handler(&params, &known), LoginStep::BadEndpoint));
    known.endpoint = Some(Ok("not a url".to_string()));
    assert!(matches!(trinity_login_handler(&params, &known), LoginStep::BadEndpoint));
}

fn callback_params(code: &str, state: &str) -> CallbackParams {
    CallbackParams {
        code: Some(code.to_string()),
        state: Some(state.to_string()),
        error: None,
        error_description: None,
    }
}

fn callback_inputs(base_url: &str) -> CallbackInputs {
    CallbackInputs {
        allowed: true,
        provider: PROVIDER.to_string(),
        audience: Some("claw-acme".to_string()),
        has_state_store: true,
        flow: None,
        has_database: true,
        base_url: Some(base_url.to_string()),
        token_endpoint: None,
        id_token: None,
        claims: None,
        user_id: None,
        login_recorded: false,
        token: None,
        lifetime_secs: 86_400,
        token_stored: None,
        has_auth_cache: false,
        cache_invalidated: false,
        redirect_is_safe: None,
    }
}

fn flow(provider: &str, redirect_after: Option<&str>) -> OAuthFlow {
    OAuthFlow {
        provider: provider.to_string(),
        code_verifier: "verifier".to_string(),
        redirect_after: redirect_after.map(str::to_string),
    }
}

fn error_text(params: &CallbackParams, known: &CallbackInputs) -> String {
    match trinity_callback_handler(params, known) {
        CallbackStep::ErrorPage(message) => message,
        _ => panic!("should be an error page"),
    }
}

#[test]
fn callback_handler_rejects_unknown_state() {
    let params = callback_params("abc", "does-not-exist");
    let mut known = callback_inputs("https://claw.example");
    known.has_database = false;
    match trinity_callback_handler(&params, &known) {
        CallbackStep::TakeFlow(state) => assert_eq!(state, "does-not-exist"),
        _ => panic!("the state is judged first"),
    }
    known.flow = Some(None);
    assert!(error_text(&params, &known).contains("Invalid or expired OAuth state"));
    known.base_url = None;
    assert_eq!(
        error_text(&params, &known),
        "Invalid or expired OAuth state. Please try logging in again."
    );
}

/// Run a callback whose token exchange fails, against this store of flows.
fn callback_with_failing_exchange(code: &str, store: &mut HashMap<String, OAuthFlow>) -> String {
    let params = callback_params(code, "csrf");
    let mut known = callback_inputs("https://claw.example");
    loop {
        match trinity_callback_handler(&params, &known) {
            CallbackStep::ErrorPage(message) => return message,
            CallbackStep::TakeFlow(state) => known.flow = Some(store.remove(&state)),
            CallbackStep::ResolveTokenEndpoint => {
                known.token_endpoint = Some(Ok("https://t.example/token".to_string()))
            }
            CallbackStep::ExchangeCode { .. } => {
                let reply = TokenReply::Unreachable("timed out".to_string());
                known.id_token = Some(exchange_code(&reply));
            }
            _ => panic!("the exchange fails"),
        }
    }
}

#[test]
fn a_state_works_at_most_once_even_where_its_first_use_failed() {
    let mut store = HashMap::new();
    store.insert("csrf".to_string(), flow(PROVIDER, None));
    store.insert("other".to_string(), flow(PROVIDER, None));
    assert_eq!(
        callback_with_failing_exchange("abc", &mut store),
        "Failed to complete login. Please try again."
    );
    assert!(store.contains_key("other"));
    for code in ["abc", "another"] {
        assert_eq!(
            callback_with_failing_exchange(code, &mut store),
            "Invalid or expired OAuth state. Please try logging in again."
        );
    }
}

#[test]
fn callback_handler_propagates_login_required_error_query() {
    let mut params = CallbackParams {
        code: None,
        state: None,
        error: Some("login_required".to_string()),
        error_description: Some("Trinity session not present".to_string()),
    };
    let known = callback_inputs("https://claw.example");
    assert!(
        error_text(&params, &known).contains("Trinity session not present"),
        "error_description should be surfaced"
    );
    params.error_description = None;
    assert_eq!(error_text(&params, &known), "login_required");
}

#[test]
fn callback_errors_come_in_order() {
    let good = callback_params("abc", "state");
    let mut known = callback_inputs("https://claw.example");
    known.flow = Some(Some(flow("google", None)));
    assert_eq!(error_text(&good, &known), "OAuth provider mismatch");
    known.flow = Some(Some(flow(PROVIDER, None)));
    known.has_database = false;
    assert_eq!(error_text(&good, &known), "Database not available");
    known.has_database = true;
    known.base_url = None;
    assert_eq!(error_text(&good, &known), "OAuth base URL not configured");
    known.base_url = Some("https://claw.example".to_string());
    known.token_endpoint = Some(Err(TrinityVerifyError::DiscoveryFetch("x".to_string())));
    assert_eq!(
        error_text(&good, &known),
        "Trinity discovery doc not reachable. Please try again."
    );
    known.token_endpoint = Some(Ok("https://t.example/token".to_string()));
    known.id_token = Some(Err("x".to_string()));
    assert_eq!(error_text(&good, &known), "Failed to complete login. Please try again.");
    known.id_token = Some(Ok("a.b.c".to_string()));
    known.claims = Some(Err(TrinityVerifyError::InvalidSignature));
    assert_eq!(error_text(&good, &known), "Failed to verify Trinity sign-in.");
    known.claims = Some(Ok(claims_for("did:t3n:1")));
    known.user_id = Some(Err("x".to_string()));
    assert_eq!(error_text(&good, &known), "Failed to link Trinity account.");
    known.user_id = Some(Ok("user-1".to_string()));
    known.login_recorded = true;
    known.token = Some(mint_session_token(&[7u8; 32]));
    known.token_stored = Some(false);
    assert_eq!(error_text(&good, &known), "Failed to create session. Please try again.");

    known.has_state_store = false;
    assert_eq!(error_text(&good, &known), "OAuth not configured");
    known.audience = None;
    assert_eq!(error_text(&good, &known), "Trinity SSO is not enabled on this instance");
    let mut params = callback_params("abc", "");
    assert_eq!(error_text(&params, &known), "Missing state parameter");
    params.state = None;
    assert_eq!(error_text(&params, &known), "Missing state parameter");
    params.code = Some(String::new());
    assert_eq!(error_text(&params, &known), "Missing authorization code");
    params.code = None;
    assert_eq!(error_text(&params, &known), "Missing authorization code");
    known.allowed = false;
    assert_eq!(error_text(&good, &known), "Too many requests. Please try again later.");
}

fn claims_for(sub: &str) -> TrinityClaims {
    TrinityClaims {
        iss: "iss".to_string(),
        sub: sub.to_string(),
        aud: "aud".to_string(),
        exp: 2,
        nbf: 1,
        iat: None,
        jti: None,
        auth_method: None,
        org_dids: Vec::new(),
        roles: Vec::new(),
        session_ref: None,
    }
}

#[test]
fn sessions_lead_to_safe_targets_only() {
    let params = callback_params("abc", "state");
    let target = |redirect_after: Option<&str>, safe: Option<bool>| {
        let mut known = callback_inputs("https://claw.example");
        known.flow = Some(Some(flow(PROVIDER, redirect_after)));
        known.token_endpoint = Some(Ok("https://t.example/token".to_string()));
        known.id_token = Some(Ok("a.b.c".to_string()));
        known.claims = Some(Ok(claims_for("did:t3n:1")));
        known.user_id = Some(Ok("user-1".to_string()));
        known.login_recorded = true;
        known.token = Some(mint_session_token(&[7u8; 32]));
        known.token_stored = Some(true);
        known.redirect_is_safe = safe;
        match trinity_callback_handler(&params, &known) {
            CallbackStep::OpenSession { redirect_to, .. } => redirect_to,
            CallbackStep::JudgeRedirect(target) => format!("judge {target}"),
            _ => panic!("should open a session"),
        }
    };
    assert_eq!(target(None, None), "/");
    assert_eq!(target(Some("/chat"), None), "judge /chat");
    assert_eq!(target(Some("/chat"), Some(true)), "/chat");
    assert_eq!(target(Some("//evil.example"), Some(false)), "/");
}

fn token_body(entries: Vec<(&str, JsonValue)>) -> TokenReply {
    TokenReply::Answered {
        status: 200,
        status_text: "200 OK".to_string(),
        text: String::new(),
        body: Ok(JsonValue::Object(
            entries.into_iter().map(|(k, v)| (k.to_string(), v)).collect(),
        )),
    }
}

#[test]
fn exchange_outcomes() {
    let token = token_body(vec![
        ("token_type", JsonValue::Text("Bearer".to_string())),
        ("id_token", JsonValue::Text("a.b.c".to_string())),
    ]);
    assert_eq!(exchange_code(&token), Ok("a.b.c".to_string()));
    let missing = Err("token endpoint response missing id_token".to_string());
    assert_eq!(exchange_code(&token_body(vec![])), missing);
    assert_eq!(exchange_code(&token_body(vec![("id_token", JsonValue::Null)])), missing);
    let unreachable = TokenReply::Unreachable("timed out".to_string());
    assert_eq!(
        exchange_code(&unreachable),
        Err("token endpoint request failed: timed out".to_string())
    );
    let refused = TokenReply::Answered {
        status: 400,
        status_text: "400 Bad Request".to_string(),
        text: "invalid_grant".to_string(),
        body: Err(String::new()),
    };
    assert_eq!(
        exchange_code(&refused),
        Err("token endpoint returned 400 Bad Request: invalid_grant".to_string())
    );
    let garbled = TokenReply::Answered {
        status: 200,
        status_text: "200 OK".to_string(),
        text: String::new(),
        body: Err("expected value".to_string()),
    };
    assert_eq!(
        exchange_code(&garbled),
        Err("token endpoint returned non-JSON body: expected value".to_string())
    );
}

#[test]
fn callback_handler_happy_path_provisions_and_sets_cookie() {
    let sk = SigningKey::random(&mut OsRng);
    let did = "did:t3n:4444444444444444444444444444444444444444";
    let exp = i64::MAX / 2;
    let input = format!(
        "{}.{}",
        URL_SAFE_NO_PAD.encode(r#"{"alg":"ES256K","typ":"JWT","kid":"tee-eoa-v1"}"#),
        URL_SAFE_NO_PAD.encode(format!(
            r#"{{"iss":"did:t3n:trinity-cluster-test","aud":"claw-test","sub":"{did}","nbf":1000,"iat":1000,"exp":{exp}}}"#
        ))
    );
    let digest: [u8; 32] = Sha256::digest(input.as_bytes()).into();
    let signature: Signature = sk.sign_prehash(&digest).unwrap();
    let jws = format!("{}.{}", input, URL_SAFE_NO_PAD.encode(signature.to_bytes()));

    let issuer_base = "http://127.0.0.1:9";
    let mut verifier = TrinityVerifier::new(TrinityVerifierConfig {
        issuer: "did:t3n:trinity-cluster-test".to_string(),
        audience: "claw-test".to_string(),
        discovery_url: format!("{issuer_base}/.well-known/openid-configuration"),
    });
    let point = sk.verifying_key().to_encoded_point(false).as_bytes().to_vec();
    let key = PublicKey::from_sec1(point).unwrap_or_else(|e| panic!("{e}"));
    verifier.seed_key("tee-eoa-v1", key, CLOCK);
    verifier.seed_discovery(
        format!("{issuer_base}/.well-known/jwks.json"),
        Some(format!("{issuer_base}/auth/authorize")),
        Some(format!("{issuer_base}/auth/token")),
        CLOCK,
    );

    let params = callback_params("opaque-code", "csrf");
    let mut known = callback_inputs("http://claw.example");
    known.audience = Some("claw-test".to_string());
    known.has_auth_cache = true;
    let mut seen: Vec<String> = Vec::new();
    let (cookie_token, redirect_to) = loop {
        match trinity_callback_handler(&params, &known) {
            CallbackStep::ErrorPage(message) => panic!("{message}"),
            CallbackStep::TakeFlow(state) => {
                seen.push(format!("take {state}"));
                known.flow = Some(Some(flow(PROVIDER, None)));
            }
            CallbackStep::ResolveTokenEndpoint => {
                known.token_endpoint = match verifier.token_endpoint(None, CLOCK) {
                    EndpointStep::Ready(url) => Some(Ok(url)),
                    _ => panic!("the document is seeded"),
                }
            }
            CallbackStep::ExchangeCode { endpoint, form } => {
                assert_eq!(endpoint, format!("{issuer_base}/auth/token"));
                let pairs: Vec<(&str, &str)> =
                    form.iter().map(|(k, v)| (k.as_str(), v.as_str())).collect();
                assert_eq!(
                    pairs,
                    vec![
                        ("grant_type", "authorization_code"),
                        ("code", "opaque-code"),
                        ("client_id", "claw-test"),
                        ("redirect_uri", "http://claw.example/auth/trinity/callback"),
                        ("code_verifier", "verifier"),
                    ]
                );
                let reply = token_body(vec![("id_token", JsonValue::Text(jws.clone()))]);
                known.id_token = Some(exchange_code(&reply));
            }
            CallbackStep::VerifyToken(token) => {
                assert_eq!(token, jws);
                let mut inputs = VerifyInputs::none();
                known.claims = loop {
                    match verifier.verify(&token, &inputs) {
                        VerifyStep::ParseHeader(_) => {
                            inputs.header = Some(Ok(JwsHeader {
                                alg: "ES256K".to_string(),
                                kid: Some("tee-eoa-v1".to_string()),
                            }))
                        }
                        VerifyStep::ParsePayload(_) => {
                            inputs.payload = Some(Ok(JwsPayload {
                                iss: "did:t3n:trinity-cluster-test".to_string(),
                                sub: did.to_string(),
                                aud: "claw-test".to_string(),
                                exp,
                                nbf: Some(1000),
                                iat: Some(1000),
                                jti: None,
                                auth_method: None,
                                org_dids: Vec::new(),
                                roles: Vec::new(),
                                session_ref: None,
                            }))
                        }
                        VerifyStep::FindKey(kid) => {
                            inputs.key = match verifier.get_verifying_key(&kid, CLOCK, false) {
                                KeyStep::Found(key) => Some(key),
                                _ => panic!("the key is seeded"),
                            }
                        }
                        VerifyStep::Done(outcome) => break Some(outcome),
                    }
                };
            }
            CallbackStep::ResolveIdentity(sub) => {
                assert_eq!(sub, did);
                seen.push("identity".to_string());
                known.user_id = Some(Ok("user-1".to_string()));
            }
            CallbackStep::RecordLogin(user) => {
                seen.push(format!("login {user}"));
                known.login_recorded = true;
            }
            CallbackStep::MintToken => known.token = new_session_token(),
            CallbackStep::StoreToken { user_id, name, plaintext, prefix, lifetime_secs } => {
                assert_eq!(lifetime_secs, 86_400);
                assert_eq!(plaintext.len(), 64);
                assert!(plaintext.starts_with(&prefix));
                seen.push(format!("store {user_id} {name}"));
                known.token_stored = Some(true);
            }
            CallbackStep::InvalidateUser(user) => {
                seen.push(format!("invalidate {user}"));
                known.cache_invalidated = true;
            }
            CallbackStep::JudgeRedirect(_) => panic!("the flow has no target"),
            CallbackStep::OpenSession { plaintext, base_url, redirect_to } => {
                assert_eq!(base_url, "http://claw.example");
                break (plaintext, redirect_to);
            }
        }
    };
    assert_eq!(redirect_to, "/");
    assert!(!cookie_token.contains(&jws));
    assert_eq!(
        seen,
        vec![
            "take csrf",
            "identity",
            "login user-1",
            "store user-1 oauth-trinity-login",
            "invalidate user-1",
        ]
    );
}
