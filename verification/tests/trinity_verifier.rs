use base64::engine::general_purpose::URL_SAFE_NO_PAD;
use base64::Engine;
use bastionclaw::crypto::PublicKey;
use bastionclaw::jwk::{is_usable, jwk_to_verifying_key, Jwk, JwkSet};
use bastionclaw::trinity_verifier::{
    check_claims, current_unix_seconds, split_jws, unix_seconds, DiscoveryDoc, EndpointStep, HttpReply,
    JwsHeader, JwsPayload, KeyStep, TrinityClaims, TrinityVerifier, TrinityVerifierConfig,
    VerifyInputs, VerifyStep, CACHE_TTL_NANOS,
};
use bastionclaw::verify_error::TrinityVerifyError;
use k256::ecdsa::signature::hazmat::PrehashSigner;
use k256::ecdsa::{Signature, SigningKey};
use rand::rngs::OsRng;
use serde_json::Value;
use sha2::{Digest, Sha256};

const CLOCK: u64 = 7_000_000_000_000;

const HAPPY: &str = r#"{"iss":"did:t3n:trinity-cluster-test","aud":"claw-acme","sub":"did:t3n:0000000000000000000000000000000000000000deadbeef","iat":1000,"nbf":1000,"exp":2000,"jti":"abc123","auth_method":"unknown","session_ref":"deadbeef","roles":["user"],"org_dids":["did:t3n:acme"]}"#;

fn sign(sk: &SigningKey, header: &str, payload: &str) -> String {
    let input = format!(
        "{}.{}",
        URL_SAFE_NO_PAD.encode(header),
        URL_SAFE_NO_PAD.encode(payload)
    );
    let digest: [u8; 32] = Sha256::digest(input.as_bytes()).into();
    let signature: Signature = sk.sign_prehash(&digest).unwrap();
    format!("{}.{}", input, URL_SAFE_NO_PAD.encode(signature.to_bytes()))
}

fn make_jws(sk: &SigningKey, kid: &str, payload: &str) -> String {
    let header = format!(r#"{{"alg":"ES256K","typ":"JWT","kid":"{kid}"}}"#);
    sign(sk, &header, payload)
}

fn sec1(sk: &SigningKey) -> Vec<u8> {
    sk.verifying_key().to_encoded_point(false).as_bytes().to_vec()
}

fn public(sk: &SigningKey) -> PublicKey {
    PublicKey::from_sec1(sec1(sk)).unwrap_or_else(|e| panic!("{e}"))
}

fn jwk_for(sk: &SigningKey, kid: &str) -> Jwk {
    let bytes = sec1(sk);
    assert_eq!(bytes.len(), 65);
    Jwk {
        kty: "EC".to_string(),
        crv: Some("secp256k1".to_string()),
        kid: Some(kid.to_string()),
        alg: Some("ES256K".to_string()),
        x: Some(URL_SAFE_NO_PAD.encode(&bytes[1..33])),
        y: Some(URL_SAFE_NO_PAD.encode(&bytes[33..65])),
    }
}

fn happy_cfg() -> TrinityVerifierConfig {
    TrinityVerifierConfig {
        issuer: "did:t3n:trinity-cluster-test".to_string(),
        audience: "claw-acme".to_string(),
        discovery_url: "https://example.invalid/.well-known/openid-configuration".to_string(),
    }
}

fn seed_verifier(sk: &SigningKey, kid: &str) -> TrinityVerifier {
    let mut verifier = TrinityVerifier::new(happy_cfg());
    verifier.seed_key(kid, public(sk), CLOCK);
    verifier
}

fn opt_text(v: &Value, key: &str) -> Option<String> {
    v.get(key).and_then(Value::as_str).map(str::to_string)
}

fn texts(v: &Value, key: &str) -> Vec<String> {
    match v.get(key).and_then(Value::as_array) {
        Some(items) => items.iter().filter_map(Value::as_str).map(str::to_string).collect(),
        None => Vec::new(),
    }
}

fn parse_header(bytes: &[u8]) -> Result<JwsHeader, String> {
    let v: Value = serde_json::from_slice(bytes).map_err(|e| e.to_string())?;
    Ok(JwsHeader {
        alg: opt_text(&v, "alg").ok_or("missing field `alg`")?,
        kid: opt_text(&v, "kid"),
    })
}

fn parse_payload(bytes: &[u8]) -> Result<JwsPayload, String> {
    let v: Value = serde_json::from_slice(bytes).map_err(|e| e.to_string())?;
    Ok(JwsPayload {
        iss: opt_text(&v, "iss").ok_or("missing field `iss`")?,
        sub: opt_text(&v, "sub").ok_or("missing field `sub`")?,
        aud: opt_text(&v, "aud").ok_or("missing field `aud`")?,
        exp: v.get("exp").and_then(Value::as_i64).ok_or("missing field `exp`")?,
        nbf: v.get("nbf").and_then(Value::as_i64),
        iat: v.get("iat").and_then(Value::as_i64),
        jti: opt_text(&v, "jti"),
        auth_method: opt_text(&v, "auth_method"),
        org_dids: texts(&v, "org_dids"),
        roles: texts(&v, "roles"),
        session_ref: opt_text(&v, "session_ref"),
    })
}

/// Run a verification whose issuer cannot be reached.
fn verify_at(
    verifier: &mut TrinityVerifier,
    raw: &str,
    now_secs: i64,
    clock: u64,
) -> Result<TrinityClaims, TrinityVerifyError> {
    let mut inputs = VerifyInputs::none();
    loop {
        match verifier.verify_at(raw, now_secs, &inputs) {
            VerifyStep::ParseHeader(bytes) => inputs.header = Some(parse_header(&bytes)),
            VerifyStep::ParsePayload(bytes) => inputs.payload = Some(parse_payload(&bytes)),
            VerifyStep::FindKey(kid) => match verifier.get_verifying_key(&kid, clock, false) {
                KeyStep::Found(key) => inputs.key = Some(key),
                KeyStep::Unknown(e) => return Err(e),
                KeyStep::Refresh => {
                    let reply = Some(HttpReply::Unreachable("no route".to_string()));
                    match verifier.resolve_jwks_uri(reply, clock) {
                        EndpointStep::Failed(e) => return Err(e),
                        _ => panic!("the issuer cannot be reached"),
                    }
                }
            },
            VerifyStep::Done(outcome) => return outcome,
        }
    }
}

fn answered<T>(document: T) -> HttpReply<T> {
    HttpReply::Answered {
        status: 200,
        status_text: "200 OK".to_string(),
        body: Ok(document),
    }
}

#[test]
fn verify_happy_path() {
    let sk = SigningKey::random(&mut OsRng);
    let kid = "tee-eoa-v1";
    let jws = make_jws(&sk, kid, HAPPY);
    let mut verifier = seed_verifier(&sk, kid);

    let claims = verify_at(&mut verifier, &jws, 1500, CLOCK).expect("ok");
    assert_eq!(claims.iss, "did:t3n:trinity-cluster-test");
    assert_eq!(claims.aud, "claw-acme");
    assert_eq!(
        claims.sub,
        "did:t3n:0000000000000000000000000000000000000000deadbeef"
    );
    assert_eq!(claims.auth_method.as_deref(), Some("unknown"));
    assert_eq!(claims.org_dids, vec!["did:t3n:acme".to_string()]);
    assert_eq!(claims.roles, vec!["user".to_string()]);
    assert_eq!(claims.jti.as_deref(), Some("abc123"));
    assert_eq!(claims.session_ref.as_deref(), Some("deadbeef"));
    assert_eq!((claims.nbf, claims.iat, claims.exp), (1000, Some(1000), 2000));
    assert_eq!(verifier.issuer(), "did:t3n:trinity-cluster-test");
    assert_eq!(verifier.audience(), "claw-acme");
}

#[test]
fn verify_rejects_tampered_signature() {
    let sk = SigningKey::random(&mut OsRng);
    let kid = "tee-eoa-v1";
    let jws = make_jws(&sk, kid, HAPPY);

    let parts: Vec<&str> = jws.split('.').collect();
    let mut sig_bytes = URL_SAFE_NO_PAD.decode(parts[2]).unwrap();
    sig_bytes[0] ^= 0x01;
    let bad_sig = URL_SAFE_NO_PAD.encode(&sig_bytes);
    let tampered = format!("{}.{}.{}", parts[0], parts[1], bad_sig);

    let mut verifier = seed_verifier(&sk, kid);
    let err = verify_at(&mut verifier, &tampered, 1500, CLOCK).expect_err("should fail");
    assert!(matches!(err, TrinityVerifyError::InvalidSignature));
    assert_eq!(err.message(), "signature verification failed");
}

#[test]
fn verify_rejects_a_key_that_did_not_sign() {
    let sk = SigningKey::random(&mut OsRng);
    let other = SigningKey::random(&mut OsRng);
    let jws = make_jws(&sk, "tee-eoa-v1", HAPPY);
    let mut verifier = seed_verifier(&other, "tee-eoa-v1");
    let err = verify_at(&mut verifier, &jws, 1500, CLOCK).expect_err("should fail");
    assert!(matches!(err, TrinityVerifyError::InvalidSignature));
}

#[test]
fn verify_rejects_a_zero_signature_before_it_looks_for_the_key() {
    let sk = SigningKey::random(&mut OsRng);
    let jws = make_jws(&sk, "tee-eoa-v1", HAPPY);
    let parts: Vec<&str> = jws.split('.').collect();
    let zero = format!("{}.{}.{}", parts[0], parts[1], URL_SAFE_NO_PAD.encode([0u8; 64]));
    let mut verifier = TrinityVerifier::new(happy_cfg());
    let err = verify_at(&mut verifier, &zero, 1500, CLOCK).expect_err("should fail");
    assert!(matches!(err, TrinityVerifyError::InvalidSignature));
}

#[test]
fn verify_rejects_high_s_signatures() {
    let sk = SigningKey::random(&mut OsRng);
    let jws = make_jws(&sk, "tee-eoa-v1", HAPPY);
    let parts: Vec<&str> = jws.split('.').collect();
    let low = Signature::from_slice(&URL_SAFE_NO_PAD.decode(parts[2]).unwrap()).unwrap();
    let (r, s) = low.split_scalars();
    let high = Signature::from_scalars(r.to_bytes(), (-*s).to_bytes()).unwrap();
    let flipped = format!("{}.{}.{}", parts[0], parts[1], URL_SAFE_NO_PAD.encode(high.to_bytes()));
    let mut verifier = seed_verifier(&sk, "tee-eoa-v1");
    assert!(verify_at(&mut verifier, &jws, 1500, CLOCK).is_ok());
    let err = verify_at(&mut verifier, &flipped, 1500, CLOCK).expect_err("should fail");
    assert!(matches!(err, TrinityVerifyError::InvalidSignature));
}

#[test]
fn verify_rejects_wrong_issuer() {
    let sk = SigningKey::random(&mut OsRng);
    let kid = "tee-eoa-v1";
    let claims = HAPPY.replace("did:t3n:trinity-cluster-test", "did:t3n:trinity-cluster-other");
    let jws = make_jws(&sk, kid, &claims);
    let mut verifier = seed_verifier(&sk, kid);

    let err = verify_at(&mut verifier, &jws, 1500, CLOCK).expect_err("should fail");
    assert!(matches!(err, TrinityVerifyError::InvalidIssuer { .. }));
    assert_eq!(
        err.message(),
        "invalid issuer: expected did:t3n:trinity-cluster-test, got did:t3n:trinity-cluster-other"
    );
}

#[test]
fn verify_rejects_wrong_audience() {
    let sk = SigningKey::random(&mut OsRng);
    let kid = "tee-eoa-v1";
    let claims = HAPPY.replace("claw-acme", "claw-globex");
    let jws = make_jws(&sk, kid, &claims);
    let mut verifier = seed_verifier(&sk, kid);

    let err = verify_at(&mut verifier, &jws, 1500, CLOCK).expect_err("should fail");
    assert!(matches!(err, TrinityVerifyError::InvalidAudience { .. }));
    assert_eq!(err.message(), "invalid audience: expected claw-acme, got claw-globex");
}

#[test]
fn verify_rejects_expired() {
    let sk = SigningKey::random(&mut OsRng);
    let kid = "tee-eoa-v1";
    let jws = make_jws(&sk, kid, HAPPY);
    let mut verifier = seed_verifier(&sk, kid);

    let err = verify_at(&mut verifier, &jws, 2500, CLOCK).expect_err("should fail");
    assert!(matches!(err, TrinityVerifyError::Expired { .. }));
    assert_eq!(err.message(), "token expired at 2000, now 2500");
}

#[test]
fn verify_rejects_not_yet_valid() {
    let sk = SigningKey::random(&mut OsRng);
    let kid = "tee-eoa-v1";
    let jws = make_jws(&sk, kid, HAPPY);
    let mut verifier = seed_verifier(&sk, kid);

    let err = verify_at(&mut verifier, &jws, 500, CLOCK).expect_err("should fail");
    assert!(matches!(err, TrinityVerifyError::NotYetValid { .. }));
    assert_eq!(err.message(), "token not yet valid: nbf 1000 > now 500");
    let err = verify_at(&mut verifier, &jws, -3, CLOCK).expect_err("should fail");
    assert_eq!(err.message(), "token not yet valid: nbf 1000 > now -3");
}

#[test]
fn the_validity_window_is_half_open() {
    let sk = SigningKey::random(&mut OsRng);
    let jws = make_jws(&sk, "tee-eoa-v1", HAPPY);
    let mut verifier = seed_verifier(&sk, "tee-eoa-v1");
    assert!(verify_at(&mut verifier, &jws, 999, CLOCK).is_err());
    assert!(verify_at(&mut verifier, &jws, 1000, CLOCK).is_ok());
    assert!(verify_at(&mut verifier, &jws, 1999, CLOCK).is_ok());
    assert!(verify_at(&mut verifier, &jws, 2000, CLOCK).is_err());
}

#[test]
fn a_missing_nbf_falls_back_to_iat_and_then_to_exp() {
    let sk = SigningKey::random(&mut OsRng);
    let mut verifier = seed_verifier(&sk, "tee-eoa-v1");
    let without_nbf = HAPPY.replace(r#""nbf":1000,"#, "").replace(r#""iat":1000"#, r#""iat":1200"#);
    let jws = make_jws(&sk, "tee-eoa-v1", &without_nbf);
    let claims = verify_at(&mut verifier, &jws, 1200, CLOCK).expect("ok");
    assert_eq!(claims.nbf, 1200);
    assert!(verify_at(&mut verifier, &jws, 1199, CLOCK).is_err());
    // With neither the window is empty.
    let bare = HAPPY.replace(r#""iat":1000,"nbf":1000,"#, "");
    let jws = make_jws(&sk, "tee-eoa-v1", &bare);
    let err = verify_at(&mut verifier, &jws, 1999, CLOCK).expect_err("not yet");
    assert!(matches!(err, TrinityVerifyError::NotYetValid { nbf: 2000, now: 1999 }));
    let err = verify_at(&mut verifier, &jws, 2000, CLOCK).expect_err("over");
    assert!(matches!(err, TrinityVerifyError::Expired { exp: 2000, now: 2000 }));
}

#[test]
fn verify_rejects_unknown_kid() {
    let sk = SigningKey::random(&mut OsRng);
    let jws = make_jws(&sk, "tee-eoa-v2", HAPPY);
    let mut verifier = seed_verifier(&sk, "tee-eoa-v1");
    let err = verify_at(&mut verifier, &jws, 1500, CLOCK).expect_err("should fail");
    assert!(matches!(
        err,
        TrinityVerifyError::DiscoveryFetch(_) | TrinityVerifyError::UnknownKid(_)
    ));
    assert_eq!(err.message(), "discovery fetch failed: no route");
    match verifier.get_verifying_key("tee-eoa-v2", CLOCK, true) {
        KeyStep::Unknown(e) => assert_eq!(e.message(), "unknown key id: tee-eoa-v2"),
        _ => panic!("the key is unknown"),
    }
}

#[test]
fn verify_rejects_wrong_algorithm() {
    let header = r#"{"alg":"RS256","typ":"JWT","kid":"tee-eoa-v1"}"#;
    let jws = format!(
        "{}.{}.{}",
        URL_SAFE_NO_PAD.encode(header),
        URL_SAFE_NO_PAD.encode(HAPPY),
        URL_SAFE_NO_PAD.encode([0u8; 64])
    );
    let sk = SigningKey::random(&mut OsRng);
    let mut verifier = seed_verifier(&sk, "tee-eoa-v1");
    let err = verify_at(&mut verifier, &jws, 1500, CLOCK).expect_err("should fail");
    assert!(matches!(err, TrinityVerifyError::UnsupportedAlgorithm(_)));
    assert_eq!(err.message(), "unsupported algorithm: RS256");
}

#[test]
fn verify_rejects_malformed_tokens() {
    let sk = SigningKey::random(&mut OsRng);
    let mut verifier = seed_verifier(&sk, "tee-eoa-v1");
    let good = make_jws(&sk, "tee-eoa-v1", HAPPY);
    let parts: Vec<&str> = good.split('.').collect();
    let b64 = |s: &str| URL_SAFE_NO_PAD.encode(s);
    let cases: Vec<(String, &str)> = vec![
        ("".to_string(), "malformed JWS: missing payload"),
        ("a".to_string(), "malformed JWS: missing payload"),
        ("a.b".to_string(), "malformed JWS: missing signature"),
        ("a.b.c.d".to_string(), "malformed JWS: unexpected extra segment"),
        (
            format!("{}.{}.{}", parts[0], parts[1], URL_SAFE_NO_PAD.encode([1u8; 63])),
            "malformed JWS: signature is not 64 bytes",
        ),
        (
            format!("{}.{}.{}", b64("{}"), parts[1], parts[2]),
            "malformed header: missing field `alg`",
        ),
        (
            format!("{}.{}.{}", b64(r#"{"alg":"ES256K"}"#), parts[1], parts[2]),
            "missing `kid` in header",
        ),
        (
            format!("{}.{}.{}", parts[0], b64("{}"), parts[2]),
            "malformed payload: missing field `iss`",
        ),
        (
            format!("!.{}.{}", parts[1], parts[2]),
            "base64 decode failed: Invalid symbol 33, offset 0.",
        ),
        (
            format!("{}.{}.=", parts[0], parts[1]),
            "base64 decode failed: Invalid symbol 61, offset 0.",
        ),
    ];
    for (raw, expected) in cases {
        let err = verify_at(&mut verifier, &raw, 1500, CLOCK).expect_err("should fail");
        let text = err.message();
        if expected.starts_with("base64") {
            assert!(text.starts_with("base64 decode failed: "), "{text}");
        } else {
            assert_eq!(text, expected);
        }
    }
}

#[test]
fn split_jws_gives_three_segments() {
    assert_eq!(split_jws("a.b.c").expect("three"), ("a", "b", "c"));
    assert_eq!(split_jws("..").expect("three"), ("", "", ""));
}

#[test]
fn jwks_cache_refresh_on_ttl_expiry() {
    let sk = SigningKey::random(&mut OsRng);
    let kid = "tee-eoa-v1";
    let mut verifier = seed_verifier(&sk, kid);
    let jws = make_jws(&sk, kid, HAPPY);
    verify_at(&mut verifier, &jws, 1500, CLOCK).expect("within TTL");
    verify_at(&mut verifier, &jws, 1500, CLOCK + CACHE_TTL_NANOS - 1).expect("within TTL");

    let late = CLOCK + CACHE_TTL_NANOS + 1_000_000_000;
    let err = verify_at(&mut verifier, &jws, 1500, late)
        .expect_err("refresh should fail with unreachable issuer");
    assert!(matches!(
        err,
        TrinityVerifyError::DiscoveryFetch(_) | TrinityVerifyError::JwksFetch(_)
    ));
    assert!(verifier.cached_key_if_fresh(kid, CLOCK + CACHE_TTL_NANOS).is_none());
}

#[test]
fn a_refresh_replaces_the_keys() {
    let old = SigningKey::random(&mut OsRng);
    let new = SigningKey::random(&mut OsRng);
    let mut verifier = seed_verifier(&old, "old");
    let set = JwkSet { keys: vec![jwk_for(&new, "new")] };
    verifier.refresh_jwks("https://x.example/jwks", answered(set), CLOCK + 5).expect("refresh");
    assert!(verifier.cached_key_if_fresh("old", CLOCK + 5).is_none());
    let jws = make_jws(&new, "new", HAPPY);
    assert!(verify_at(&mut verifier, &jws, 1500, CLOCK + 5).is_ok());
}

#[test]
fn a_failed_refresh_changes_nothing() {
    let sk = SigningKey::random(&mut OsRng);
    let mut verifier = seed_verifier(&sk, "kid");
    let uri = "https://x.example/jwks";
    let err = verifier
        .refresh_jwks(uri, HttpReply::Unreachable("timed out".to_string()), CLOCK + 9)
        .expect_err("unreachable");
    assert_eq!(err.message(), "jwks fetch failed: timed out");
    let refused = HttpReply::Answered {
        status: 503,
        status_text: "503 Service Unavailable".to_string(),
        body: Ok(JwkSet { keys: vec![] }),
    };
    let err = verifier.refresh_jwks(uri, refused, CLOCK + 9).expect_err("refused");
    assert_eq!(
        err.message(),
        "jwks fetch failed: https://x.example/jwks returned 503 Service Unavailable"
    );
    let garbled = HttpReply::Answered {
        status: 200,
        status_text: "200 OK".to_string(),
        body: Err("expected value".to_string()),
    };
    let err = verifier.refresh_jwks(uri, garbled, CLOCK + 9).expect_err("garbled");
    assert_eq!(err.message(), "jwks fetch failed: expected value");
    let mut broken = jwk_for(&sk, "broken");
    broken.x = None;
    let err = verifier
        .refresh_jwks(uri, answered(JwkSet { keys: vec![broken] }), CLOCK + 9)
        .expect_err("broken key");
    assert_eq!(err.message(), "invalid JWK: missing x");
    assert!(verifier.cached_key_if_fresh("kid", CLOCK).is_some());
}

#[test]
fn unusable_published_keys_are_passed_over() {
    let sk = SigningKey::random(&mut OsRng);
    let mut rsa = jwk_for(&sk, "rsa");
    rsa.kty = "RSA".to_string();
    rsa.x = None;
    let mut p256 = jwk_for(&sk, "p256");
    p256.crv = Some("P-256".to_string());
    let mut no_curve = jwk_for(&sk, "no-curve");
    no_curve.crv = None;
    let mut other_alg = jwk_for(&sk, "other-alg");
    other_alg.alg = Some("ES256".to_string());
    let mut nameless = jwk_for(&sk, "nameless");
    nameless.kid = None;
    let mut no_alg = jwk_for(&sk, "no-alg");
    no_alg.alg = None;
    assert!(is_usable(&no_alg));
    assert!(!is_usable(&nameless));

    let mut verifier = TrinityVerifier::new(happy_cfg());
    let set = JwkSet { keys: vec![rsa, p256, no_curve, other_alg, nameless, no_alg] };
    verifier.refresh_jwks("uri", answered(set), CLOCK).expect("refresh");
    for kid in ["rsa", "p256", "no-curve", "other-alg", "nameless"] {
        assert!(verifier.cached_key_if_fresh(kid, CLOCK).is_none(), "{kid}");
    }
    assert!(verifier.cached_key_if_fresh("no-alg", CLOCK).is_some());
}

#[test]
fn jwk_to_verifying_key_round_trips() {
    let sk = SigningKey::random(&mut OsRng);
    let jwk = jwk_for(&sk, "tee-eoa-v1");
    let recovered = match jwk_to_verifying_key(&jwk) {
        Ok(key) => key,
        Err(e) => panic!("rebuild: {e:?}"),
    };
    assert_eq!(recovered.sec1_bytes(), sec1(&sk).as_slice());
}

#[test]
fn broken_jwks_are_refused() {
    let sk = SigningKey::random(&mut OsRng);
    let refusal = |jwk: &Jwk| match jwk_to_verifying_key(jwk) {
        Ok(_) => panic!("should fail"),
        Err(e) => e.message(),
    };
    let mut jwk = jwk_for(&sk, "k");
    jwk.y = None;
    assert_eq!(refusal(&jwk), "invalid JWK: missing y");
    let mut jwk = jwk_for(&sk, "k");
    jwk.x = Some(URL_SAFE_NO_PAD.encode([1u8; 31]));
    assert_eq!(refusal(&jwk), "invalid JWK: x and y must be 32 bytes each");
    let mut jwk = jwk_for(&sk, "k");
    jwk.x = Some("*".to_string());
    assert!(refusal(&jwk).starts_with("base64 decode failed: "));
    let mut jwk = jwk_for(&sk, "k");
    jwk.x = Some(URL_SAFE_NO_PAD.encode([0u8; 32]));
    jwk.y = Some(URL_SAFE_NO_PAD.encode([0u8; 32]));
    assert_eq!(refusal(&jwk), "invalid JWK: signature error");
}

#[test]
fn discovery_is_kept_and_falls_back_to_the_issuer_for_keys_alone() {
    let mut cfg = happy_cfg();
    cfg.issuer = "https://issuer.example//".to_string();
    let mut verifier = TrinityVerifier::new(cfg);
    match verifier.resolve_jwks_uri(None, CLOCK) {
        EndpointStep::Fetch(url) => {
            assert_eq!(url, "https://example.invalid/.well-known/openid-configuration")
        }
        _ => panic!("nothing is known yet"),
    }
    let doc = DiscoveryDoc {
        jwks_uri: None,
        authorization_endpoint: None,
        token_endpoint: Some("https://t.example/token".to_string()),
    };
    match verifier.resolve_jwks_uri(Some(answered(doc)), CLOCK) {
        EndpointStep::Ready(uri) => assert_eq!(uri, "https://issuer.example/.well-known/jwks.json"),
        _ => panic!("the document is here"),
    }
    match verifier.token_endpoint(None, CLOCK + 1) {
        EndpointStep::Ready(uri) => assert_eq!(uri, "https://t.example/token"),
        _ => panic!("the document is cached"),
    }
    match verifier.authorization_endpoint(None, CLOCK + 1) {
        EndpointStep::Failed(e) => assert!(matches!(e, TrinityVerifyError::DiscoveryFetch(_))),
        _ => panic!("the document has no such entry"),
    }
    assert!(matches!(
        verifier.token_endpoint(None, CLOCK + CACHE_TTL_NANOS),
        EndpointStep::Fetch(_)
    ));
    let refused = HttpReply::Answered {
        status: 404,
        status_text: "404 Not Found".to_string(),
        body: Err("".to_string()),
    };
    match verifier.token_endpoint(Some(refused), CLOCK + CACHE_TTL_NANOS) {
        EndpointStep::Failed(e) => assert_eq!(
            e.message(),
            "discovery fetch failed: https://example.invalid/.well-known/openid-configuration returned 404 Not Found"
        ),
        _ => panic!("the issuer refused"),
    }
}

#[test]
fn seeded_discovery_serves_until_it_expires() {
    let mut verifier = TrinityVerifier::new(happy_cfg());
    verifier.seed_discovery(
        "https://t.example/jwks".to_string(),
        Some("https://t.example/authorize".to_string()),
        None,
        CLOCK,
    );
    match verifier.authorization_endpoint(None, CLOCK + CACHE_TTL_NANOS - 1) {
        EndpointStep::Ready(uri) => assert_eq!(uri, "https://t.example/authorize"),
        _ => panic!("still usable"),
    }
    assert!(matches!(
        verifier.authorization_endpoint(None, CLOCK + CACHE_TTL_NANOS),
        EndpointStep::Fetch(_)
    ));
    // A clock that went back counts as no time passed.
    assert!(matches!(verifier.resolve_jwks_uri(None, 0), EndpointStep::Ready(_)));
}

#[test]
fn the_clock_is_read_in_seconds() {
    assert_eq!(unix_seconds(None), 0);
    assert_eq!(unix_seconds(Some(1_700_000_000)), 1_700_000_000);
    assert!(current_unix_seconds() > 1_500_000_000);
}

#[test]
fn verify_uses_the_current_time() {
    let sk = SigningKey::random(&mut OsRng);
    let jws = make_jws(&sk, "k", HAPPY);
    let verifier = seed_verifier(&sk, "k");
    let inputs = VerifyInputs {
        header: Some(parse_header(br#"{"alg":"ES256K","kid":"k"}"#)),
        payload: Some(parse_payload(HAPPY.as_bytes())),
        key: Some(public(&sk)),
    };
    match verifier.verify(&jws, &inputs) {
        VerifyStep::Done(Err(TrinityVerifyError::Expired { exp, now })) => {
            assert_eq!(exp, 2000);
            assert!(now > 1_500_000_000);
        }
        _ => panic!("the token expired long ago"),
    }
}

#[test]
fn other_messages_read_as_documented() {
    let did = "did:t3n:1".to_string();
    assert_eq!(
        TrinityVerifyError::UserNotProvisioned { did }.message(),
        "user has no provisioned local identity for did did:t3n:1"
    );
    assert_eq!(
        TrinityVerifyError::Expired { exp: i64::MIN, now: i64::MAX }.message(),
        "token expired at -9223372036854775808, now 9223372036854775807"
    );
}

#[test]
fn claims_are_judged_on_given_values() {
    let issuer = "did:t3n:trinity-cluster-test".to_string();
    let audience = "claw-acme".to_string();
    let payload = parse_payload(HAPPY.as_bytes()).expect("payload");
    let claims = check_claims(&issuer, &audience, &payload, 1500).expect("valid");
    assert_eq!(claims.sub, payload.sub);
    assert_eq!(claims.nbf, 1000);
    let err = check_claims(&"other".to_string(), &audience, &payload, 1500).expect_err("issuer");
    assert!(matches!(err, TrinityVerifyError::InvalidIssuer { .. }));
    let err = check_claims(&issuer, &"other".to_string(), &payload, 1500).expect_err("audience");
    assert!(matches!(err, TrinityVerifyError::InvalidAudience { .. }));
    let err = check_claims(&issuer, &audience, &payload, 999).expect_err("early");
    assert!(matches!(err, TrinityVerifyError::NotYetValid { nbf: 1000, now: 999 }));
    let err = check_claims(&issuer, &audience, &payload, 2000).expect_err("late");
    assert!(matches!(err, TrinityVerifyError::Expired { exp: 2000, now: 2000 }));
}
