//! Verifier for Trinity-issued ID tokens.
//!
//! A token is a compact JWS signed with `ES256K`: ECDSA over secp256k1 and
//! SHA-256.
//!
//! - The signing input is `base64url(header) || "." || base64url(payload)`.
//! - The signed digest is the SHA-256 of the signing input's bytes.
//! - The signature is `r || s`, 64 bytes, with `s` in the lower half.
//!
//! Turning JSON into a header or a payload, and fetching keys, is the caller's
//! work: [`TrinityVerifier::verify_at`] takes what is known so far and answers
//! with what it needs next, or with the outcome.

use crate::base64url;
use crate::crypto;
use crate::crypto::{check_signature, sha256_digest, PublicKey};
use crate::jwk;
use crate::jwk::JwkSet;
use crate::text;
use crate::text::{copy_text, joined, same_text, split_once, trim_end_matches};
use crate::verify_error::{TrinityVerifyError, VerifyFailure};
use vstd::hash_map::StringHashMap;
use vstd::prelude::*;

verus! {

/// How long a discovery document or a key set stays usable, in nanoseconds:
/// five minutes, which is what the issuer's `Cache-Control` header allows.
pub const CACHE_TTL_NANOS: u64 = 300_000_000_000;

/// Whom to trust: the issuer and audience that a token must name, and where the
/// issuer publishes its discovery document.
#[derive(Debug, Clone)]
pub struct TrinityVerifierConfig {
    pub issuer: String,
    pub audience: String,
    pub discovery_url: String,
}

/// Claims surfaced from a Trinity-issued ID token.
#[derive(Debug, Clone, PartialEq, Eq)]
pub struct TrinityClaims {
    pub iss: String,
    /// The user's Trinity DID.
    pub sub: String,
    pub aud: String,
    pub exp: i64,
    pub nbf: i64,
    pub iat: Option<i64>,
    pub jti: Option<String>,
    /// Authenticator type recorded at session creation; `"unknown"` is a valid
    /// placeholder, and nothing may depend on a specific value.
    pub auth_method: Option<String>,
    pub org_dids: Vec<String>,
    pub roles: Vec<String>,
    pub session_ref: Option<String>,
}

/// What the verifier reads of a token's header.
pub struct JwsHeader {
    pub alg: String,
    pub kid: Option<String>,
}

/// A token's payload.
pub struct JwsPayload {
    pub iss: String,
    pub sub: String,
    pub aud: String,
    pub exp: i64,
    pub nbf: Option<i64>,
    pub iat: Option<i64>,
    pub jti: Option<String>,
    pub auth_method: Option<String>,
    pub org_dids: Vec<String>,
    pub roles: Vec<String>,
    pub session_ref: Option<String>,
}

/// [`JwsHeader`] as contracts speak of it.
pub struct HeaderModel {
    pub alg: Seq<char>,
    pub kid: Option<Seq<char>>,
}

/// [`JwsPayload`] as contracts speak of it.
pub struct PayloadModel {
    pub iss: Seq<char>,
    pub sub: Seq<char>,
    pub aud: Seq<char>,
    pub exp: i64,
    pub nbf: Option<i64>,
    pub iat: Option<i64>,
    pub jti: Option<Seq<char>>,
    pub auth_method: Option<Seq<char>>,
    pub org_dids: Seq<Seq<char>>,
    pub roles: Seq<Seq<char>>,
    pub session_ref: Option<Seq<char>>,
}

/// [`TrinityClaims`] as contracts speak of them.
pub struct ClaimsModel {
    pub iss: Seq<char>,
    pub sub: Seq<char>,
    pub aud: Seq<char>,
    pub exp: i64,
    pub nbf: i64,
    pub iat: Option<i64>,
    pub jti: Option<Seq<char>>,
    pub auth_method: Option<Seq<char>>,
    pub org_dids: Seq<Seq<char>>,
    pub roles: Seq<Seq<char>>,
    pub session_ref: Option<Seq<char>>,
}

impl View for JwsHeader {
    type V = HeaderModel;

    open spec fn view(&self) -> HeaderModel {
        HeaderModel { alg: self.alg@, kid: self.kid.deep_view() }
    }
}

impl View for JwsPayload {
    type V = PayloadModel;

    open spec fn view(&self) -> PayloadModel {
        PayloadModel {
            iss: self.iss@,
            sub: self.sub@,
            aud: self.aud@,
            exp: self.exp,
            nbf: self.nbf,
            iat: self.iat,
            jti: self.jti.deep_view(),
            auth_method: self.auth_method.deep_view(),
            org_dids: self.org_dids.deep_view(),
            roles: self.roles.deep_view(),
            session_ref: self.session_ref.deep_view(),
        }
    }
}

impl View for TrinityClaims {
    type V = ClaimsModel;

    open spec fn view(&self) -> ClaimsModel {
        ClaimsModel {
            iss: self.iss@,
            sub: self.sub@,
            aud: self.aud@,
            exp: self.exp,
            nbf: self.nbf,
            iat: self.iat,
            jti: self.jti.deep_view(),
            auth_method: self.auth_method.deep_view(),
            org_dids: self.org_dids.deep_view(),
            roles: self.roles.deep_view(),
            session_ref: self.session_ref.deep_view(),
        }
    }
}

/// What the caller has found out for the verifier so far.
pub struct VerifyInputs {
    /// The header, or why its bytes are not one.
    pub header: Option<Result<JwsHeader, String>>,
    /// The payload, or why its bytes are not one.
    pub payload: Option<Result<JwsPayload, String>>,
    /// The key that the header names.
    pub key: Option<PublicKey>,
}

/// [`VerifyInputs`] as contracts speak of them.
pub struct InputsModel {
    pub header: Option<Result<HeaderModel, Seq<char>>>,
    pub payload: Option<Result<PayloadModel, Seq<char>>>,
    pub key: Option<Seq<u8>>,
}

impl View for VerifyInputs {
    type V = InputsModel;

    open spec fn view(&self) -> InputsModel {
        InputsModel {
            header: match self.header {
                Some(Ok(header)) => Some(Ok(header@)),
                Some(Err(why)) => Some(Err(why@)),
                None => None,
            },
            payload: match self.payload {
                Some(Ok(payload)) => Some(Ok(payload@)),
                Some(Err(why)) => Some(Err(why@)),
                None => None,
            },
            key: match self.key {
                Some(key) => Some(key@),
                None => None,
            },
        }
    }
}

impl VerifyInputs {
    /// Nothing is known yet.
    pub fn none() -> (r: VerifyInputs)
        ensures
            r@ == (InputsModel { header: None, payload: None, key: None }),
    {
        VerifyInputs { header: None, payload: None, key: None }
    }
}

/// What the verifier needs next, or its outcome.
pub enum VerifyStep {
    /// Read these bytes as a JSON header.
    ParseHeader(Vec<u8>),
    /// Read these bytes as a JSON payload.
    ParsePayload(Vec<u8>),
    /// Find the key with this id.
    FindKey(String),
    /// Verification is over.
    Done(Result<TrinityClaims, TrinityVerifyError>),
}

/// [`VerifyStep`] as contracts speak of it.
pub enum StepModel {
    ParseHeader(Seq<u8>),
    ParsePayload(Seq<u8>),
    FindKey(Seq<char>),
    Done(Result<ClaimsModel, VerifyFailure>),
}

impl View for VerifyStep {
    type V = StepModel;

    open spec fn view(&self) -> StepModel {
        match self {
            VerifyStep::ParseHeader(bytes) => StepModel::ParseHeader(bytes@),
            VerifyStep::ParsePayload(bytes) => StepModel::ParsePayload(bytes@),
            VerifyStep::FindKey(kid) => StepModel::FindKey(kid@),
            VerifyStep::Done(Ok(claims)) => StepModel::Done(Ok(claims@)),
            VerifyStep::Done(Err(e)) => StepModel::Done(Err(e@)),
        }
    }
}

/// The three segments of a compact JWS, or what is wrong with it.
pub open spec fn jws_parts(raw: Seq<char>) -> Result<(Seq<char>, Seq<char>, Seq<char>), Seq<char>> {
    let parts = text::segments(raw, '.');
    if parts.len() == 1 {
        Err("missing payload"@)
    } else if parts.len() == 2 {
        Err("missing signature"@)
    } else if parts.len() == 3 {
        Ok((parts[0], parts[1], parts[2]))
    } else {
        Err("unexpected extra segment"@)
    }
}

/// The bytes that a token's signature covers.
pub open spec fn signing_input(header_b64: Seq<char>, payload_b64: Seq<char>) -> Seq<u8> {
    vstd::utf8::encode_utf8(header_b64) + seq![46u8] + vstd::utf8::encode_utf8(payload_b64)
}

/// The moment from which a token is valid: `nbf`, else `iat`, else `exp`.
pub open spec fn not_before(payload: PayloadModel) -> i64 {
    match payload.nbf {
        Some(nbf) => nbf,
        None => match payload.iat {
            Some(iat) => iat,
            None => payload.exp,
        },
    }
}

/// The claims that a payload makes.
pub open spec fn claims_of(payload: PayloadModel) -> ClaimsModel {
    ClaimsModel {
        iss: payload.iss,
        sub: payload.sub,
        aud: payload.aud,
        exp: payload.exp,
        nbf: not_before(payload),
        iat: payload.iat,
        jti: payload.jti,
        auth_method: payload.auth_method,
        org_dids: payload.org_dids,
        roles: payload.roles,
        session_ref: payload.session_ref,
    }
}

/// What becomes of a payload whose signature holds.
pub open spec fn claims_outcome(
    issuer: Seq<char>,
    audience: Seq<char>,
    payload: PayloadModel,
    now: i64,
) -> Result<ClaimsModel, VerifyFailure> {
    if payload.iss != issuer {
        Err(VerifyFailure::InvalidIssuer { expected: issuer, actual: payload.iss })
    } else if payload.aud != audience {
        Err(VerifyFailure::InvalidAudience { expected: audience, actual: payload.aud })
    } else if now < not_before(payload) {
        Err(VerifyFailure::NotYetValid { nbf: not_before(payload), now })
    } else if now >= payload.exp {
        Err(VerifyFailure::Expired { exp: payload.exp, now })
    } else {
        Ok(claims_of(payload))
    }
}

/// The verifier's next step on the token `raw` at `now`, given `inputs`.
pub open spec fn verify_step(
    issuer: Seq<char>,
    audience: Seq<char>,
    raw: Seq<char>,
    now: i64,
    inputs: InputsModel,
) -> StepModel {
    match jws_parts(raw) {
        Err(why) => StepModel::Done(Err(VerifyFailure::MalformedJws(why))),
        Ok((header_b64, payload_b64, signature_b64)) => match base64url::decoded(header_b64) {
            Err(why) => StepModel::Done(Err(VerifyFailure::Base64(why))),
            Ok(header_bytes) => match inputs.header {
                None => StepModel::ParseHeader(header_bytes),
                Some(Err(why)) => StepModel::Done(Err(VerifyFailure::MalformedHeader(why))),
                Some(Ok(header)) => if header.alg != "ES256K"@ {
                    StepModel::Done(Err(VerifyFailure::UnsupportedAlgorithm(header.alg)))
                } else {
                    match header.kid {
                        None => StepModel::Done(Err(VerifyFailure::MissingKid)),
                        Some(kid) => payload_step(
                            issuer,
                            audience,
                            header_b64,
                            payload_b64,
                            signature_b64,
                            kid,
                            now,
                            inputs,
                        ),
                    }
                },
            },
        },
    }
}

/// The part of [`verify_step`] that follows an acceptable header.
pub open spec fn payload_step(
    issuer: Seq<char>,
    audience: Seq<char>,
    header_b64: Seq<char>,
    payload_b64: Seq<char>,
    signature_b64: Seq<char>,
    kid: Seq<char>,
    now: i64,
    inputs: InputsModel,
) -> StepModel {
    match base64url::decoded(payload_b64) {
        Err(why) => StepModel::Done(Err(VerifyFailure::Base64(why))),
        Ok(payload_bytes) => match inputs.payload {
            None => StepModel::ParsePayload(payload_bytes),
            Some(Err(why)) => StepModel::Done(Err(VerifyFailure::MalformedPayload(why))),
            Some(Ok(payload)) => match base64url::decoded(signature_b64) {
                Err(why) => StepModel::Done(Err(VerifyFailure::Base64(why))),
                Ok(signature) => if signature.len() != 64 {
                    StepModel::Done(
                        Err(VerifyFailure::MalformedJws("signature is not 64 bytes"@)),
                    )
                } else if !crypto::signature_in_range(signature) {
                    StepModel::Done(Err(VerifyFailure::InvalidSignature))
                } else {
                    match inputs.key {
                        None => StepModel::FindKey(kid),
                        Some(key) => if !crypto::ecdsa_accepts(
                            key,
                            crypto::sha256(signing_input(header_b64, payload_b64)),
                            signature,
                        ) {
                            StepModel::Done(Err(VerifyFailure::InvalidSignature))
                        } else {
                            StepModel::Done(claims_outcome(issuer, audience, payload, now))
                        },
                    }
                },
            },
        },
    }
}

/// A token whose signature has its second half in the lower half of the group.
pub open spec fn low_s(raw: Seq<char>) -> bool {
    &&& jws_parts(raw) matches Ok((_, _, signature_b64))
    &&& base64url::decoded(signature_b64) matches Ok(signature)
    &&& crypto::s_part(signature) <= crypto::group_order() / 2
}

/// `claims` are those of `payload`, each in its place.
pub open spec fn taken_over(payload: JwsPayload, claims: TrinityClaims) -> bool {
    &&& claims.iss@ == payload.iss@
    &&& claims.sub@ == payload.sub@
    &&& claims.aud@ == payload.aud@
    &&& claims.exp == payload.exp
    &&& claims.iat == payload.iat
    &&& claims.jti.deep_view() == payload.jti.deep_view()
    &&& claims.auth_method.deep_view() == payload.auth_method.deep_view()
    &&& claims.org_dids.deep_view() == payload.org_dids.deep_view()
    &&& claims.roles.deep_view() == payload.roles.deep_view()
    &&& claims.session_ref.deep_view() == payload.session_ref.deep_view()
}

/// Split a compact JWS into header, payload and signature.
pub fn split_jws<'a>(raw: &'a str) -> (r: Result<(&'a str, &'a str, &'a str), TrinityVerifyError>)
    ensures
        match r {
            Ok((h, p, s)) => jws_parts(raw@) == Ok::<
                (Seq<char>, Seq<char>, Seq<char>),
                Seq<char>,
            >((h@, p@, s@)),
            Err(e) => jws_parts(raw@) matches Err(why) && e@ == VerifyFailure::MalformedJws(why),
        },
{
    proof {
        text::segments_by_first_split(raw@, '.');
    }
    match split_once(raw, '.') {
        None => Err(TrinityVerifyError::MalformedJws("missing payload")),
        Some((header, rest)) => {
            proof {
                text::segments_by_first_split(rest@, '.');
            }
            match split_once(rest, '.') {
                None => Err(TrinityVerifyError::MalformedJws("missing signature")),
                Some((payload, signature)) => {
                    proof {
                        text::segments_by_first_split(signature@, '.');
                    }
                    match split_once(signature, '.') {
                        None => Ok((header, payload, signature)),
                        Some(_) => Err(TrinityVerifyError::MalformedJws("unexpected extra segment")),
                    }
                },
            }
        },
    }
}

/// Decode one segment of a token.
pub fn b64url_decode(s: &str) -> (r: Result<Vec<u8>, TrinityVerifyError>)
    ensures
        match r {
            Ok(bytes) => base64url::decoded(s@) == Ok::<Seq<u8>, Seq<char>>(bytes@),
            Err(e) => base64url::decoded(s@) matches Err(why) && e@ == VerifyFailure::Base64(why),
        },
{
    match base64url::decode(s) {
        Ok(bytes) => Ok(bytes),
        Err(why) => Err(TrinityVerifyError::Base64(why)),
    }
}

/// The digest that a token's signature is checked against.
pub fn signing_digest(header_b64: &str, payload_b64: &str) -> (digest: Vec<u8>)
    ensures
        digest@ == crypto::sha256(signing_input(header_b64@, payload_b64@)),
        digest@.len() == 32,
{
    let mut input: Vec<u8> = Vec::new();
    input.extend_from_slice(header_b64.as_bytes());
    input.push(46);
    input.extend_from_slice(payload_b64.as_bytes());
    assert(input@ =~= signing_input(header_b64@, payload_b64@));
    sha256_digest(input.as_slice())
}

/// A copy of a list of texts.
fn copy_texts(texts: &Vec<String>) -> (r: Vec<String>)
    ensures
        r.deep_view() == texts.deep_view(),
{
    let r: Vec<String> = texts.clone();
    assert(r@ =~= texts@);
    r
}

/// Decide on a payload whose signature holds.
pub fn check_claims(
    issuer: &String,
    audience: &String,
    payload: &JwsPayload,
    now_secs: i64,
) -> (r: Result<TrinityClaims, TrinityVerifyError>)
    ensures
        match r {
            Ok(claims) => claims_outcome(issuer@, audience@, payload@, now_secs) == Ok::<
                ClaimsModel,
                VerifyFailure,
            >(claims@),
            Err(e) => claims_outcome(issuer@, audience@, payload@, now_secs) == Err::<
                ClaimsModel,
                VerifyFailure,
            >(e@),
        },
        r matches Ok(claims) ==> taken_over(*payload, claims),
{
    if payload.iss != *issuer {
        return Err(
            TrinityVerifyError::InvalidIssuer {
                expected: issuer.clone(),
                actual: payload.iss.clone(),
            },
        );
    }
    if payload.aud != *audience {
        return Err(
            TrinityVerifyError::InvalidAudience {
                expected: audience.clone(),
                actual: payload.aud.clone(),
            },
        );
    }
    let nbf: i64 = payload.nbf.unwrap_or(payload.iat.unwrap_or(payload.exp));
    if now_secs < nbf {
        return Err(TrinityVerifyError::NotYetValid { nbf, now: now_secs });
    }
    if now_secs >= payload.exp {
        return Err(TrinityVerifyError::Expired { exp: payload.exp, now: now_secs });
    }
    Ok(
        TrinityClaims {
            iss: payload.iss.clone(),
            sub: payload.sub.clone(),
            aud: payload.aud.clone(),
            exp: payload.exp,
            nbf,
            iat: payload.iat,
            jti: copy_text(&payload.jti),
            auth_method: copy_text(&payload.auth_method),
            org_dids: copy_texts(&payload.org_dids),
            roles: copy_texts(&payload.roles),
            session_ref: copy_text(&payload.session_ref),
        },
    )
}

/// `SystemTime::elapsed` of the standard library, on the Unix epoch: how many
/// whole seconds have passed since then, if the clock does not stand before it.
/// The clock decides, so nothing is claimed of the answer.
#[verifier::external_body]
fn seconds_since_epoch() -> Option<u64> {
    std::time::SystemTime::UNIX_EPOCH.elapsed().ok().map(|d| d.as_secs())
}

/// A clock reading as the signed seconds that tokens use; zero for a clock that
/// stands before the epoch.
pub open spec fn clock_seconds(since_epoch: Option<u64>) -> i64 {
    match since_epoch {
        Some(secs) => secs as i64,
        None => 0,
    }
}

/// Turn a clock reading into the signed seconds that tokens use.
pub fn unix_seconds(since_epoch: Option<u64>) -> (now: i64)
    ensures
        now == clock_seconds(since_epoch),
{
    match since_epoch {
        Some(secs) => secs as i64,
        None => 0,
    }
}

/// `reading` is what the clock gave when it was read: the whole seconds since the
/// Unix epoch, or none where it stands before that.
pub closed spec fn clock_reads(reading: Option<u64>) -> bool {
    call_ensures(seconds_since_epoch, (), reading)
}

/// A reading is what a call for the seconds since the epoch returned, and nothing
/// else.
proof fn lemma_readings_are_the_clocks(reading: Option<u64>)
    ensures
        clock_reads(reading) == call_ensures(seconds_since_epoch, (), reading),
{
}

/// The current time in seconds since the Unix epoch: those of one reading of the
/// clock.
pub fn current_unix_seconds() -> (now: i64)
    ensures
        exists|reading: Option<u64>| #[trigger] clock_reads(reading) && now == clock_seconds(reading),
{
    let clock = seconds_since_epoch;
    let reading: Option<u64> = clock();
    proof {
        lemma_readings_are_the_clocks(reading);
    }
    unix_seconds(reading)
}

/// What the verifier has from the issuer's discovery document.
pub struct DiscoveryDoc {
    pub jwks_uri: Option<String>,
    pub authorization_endpoint: Option<String>,
    pub token_endpoint: Option<String>,
}

/// A discovery document that was fetched at `fetched_at`.
pub struct CachedDiscovery {
    pub jwks_uri: String,
    pub authorization_endpoint: Option<String>,
    pub token_endpoint: Option<String>,
    pub fetched_at: u64,
}

/// [`CachedDiscovery`] as contracts speak of it.
pub struct DiscoveryModel {
    pub jwks_uri: Seq<char>,
    pub authorization_endpoint: Option<Seq<char>>,
    pub token_endpoint: Option<Seq<char>>,
    pub fetched_at: u64,
}

impl View for CachedDiscovery {
    type V = DiscoveryModel;

    open spec fn view(&self) -> DiscoveryModel {
        DiscoveryModel {
            jwks_uri: self.jwks_uri@,
            authorization_endpoint: self.authorization_endpoint.deep_view(),
            token_endpoint: self.token_endpoint.deep_view(),
            fetched_at: self.fetched_at,
        }
    }
}

/// What came back of a request for a JSON document.
pub enum HttpReply<T> {
    /// The request failed, and why.
    Unreachable(String),
    /// The server answered.
    Answered {
        /// The status code.
        status: u16,
        /// The status as it is displayed.
        status_text: String,
        /// The document, or why the body is not one.
        body: Result<T, String>,
    },
}

/// Why a reply holds no document, if it holds none.
pub open spec fn reply_failure<T>(url: Seq<char>, reply: HttpReply<T>) -> Option<Seq<char>> {
    match reply {
        HttpReply::Unreachable(why) => Some(why@),
        HttpReply::Answered { status, status_text, body } => if !(200 <= status < 300) {
            Some(url + " returned "@ + status_text@)
        } else {
            match body {
                Ok(_) => None,
                Err(why) => Some(why@),
            }
        },
    }
}

/// The document that a reply holds.
pub open spec fn reply_document<T>(reply: HttpReply<T>) -> T {
    reply->body->Ok_0
}

/// Take the document out of a reply.
pub fn open_reply<T>(url: &str, reply: HttpReply<T>) -> (r: Result<T, String>)
    ensures
        match r {
            Ok(document) => reply_failure(url@, reply) is None && document == reply_document(reply),
            Err(why) => reply_failure(url@, reply) == Some(why@),
        },
{
    match reply {
        HttpReply::Unreachable(why) => Err(why),
        HttpReply::Answered { status, status_text, body } => {
            if status < 200 || status >= 300 {
                let mut why: String = joined(url, " returned ");
                why.append(status_text.as_str());
                Err(why)
            } else {
                body
            }
        },
    }
}

/// Something fetched at `fetched_at` is still usable at `now`. A clock that went
/// back counts as no time passed.
pub open spec fn fresh(fetched_at: Option<u64>, now: u64) -> bool {
    fetched_at matches Some(at) && now - at < CACHE_TTL_NANOS
}

fn is_fresh(fetched_at: u64, now: u64) -> (r: bool)
    ensures
        r == fresh(Some(fetched_at), now),
{
    now.saturating_sub(fetched_at) < CACHE_TTL_NANOS
}

/// Where the key set is looked for when the discovery document does not say.
pub open spec fn fallback_jwks_uri(issuer: Seq<char>) -> Seq<char> {
    text::trimmed_end(issuer, '/') + "/.well-known/jwks.json"@
}

/// What is kept of a discovery document.
pub open spec fn kept_discovery(issuer: Seq<char>, doc: DiscoveryDoc, now: u64) -> DiscoveryModel {
    DiscoveryModel {
        jwks_uri: match doc.jwks_uri {
            Some(uri) => uri@,
            None => fallback_jwks_uri(issuer),
        },
        authorization_endpoint: doc.authorization_endpoint.deep_view(),
        token_endpoint: doc.token_endpoint.deep_view(),
        fetched_at: now,
    }
}

/// Trinity ID-token verifier: the trust configuration, and a five-minute cache
/// of the issuer's discovery document and keys.
///
/// The clock of the cache is a count of nanoseconds that the caller passes in.
pub struct TrinityVerifier {
    cfg: TrinityVerifierConfig,
    discovery_cache: Option<CachedDiscovery>,
    jwks_cache: StringHashMap<PublicKey>,
    jwks_fetched_at: Option<u64>,
}

/// [`TrinityVerifier`] as contracts speak of it.
pub struct VerifierModel {
    pub issuer: Seq<char>,
    pub audience: Seq<char>,
    pub discovery_url: Seq<char>,
    pub discovery: Option<DiscoveryModel>,
    pub keys: Map<Seq<char>, Seq<u8>>,
    pub keys_fetched_at: Option<u64>,
}

impl View for TrinityVerifier {
    type V = VerifierModel;

    closed spec fn view(&self) -> VerifierModel {
        VerifierModel {
            issuer: self.cfg.issuer@,
            audience: self.cfg.audience@,
            discovery_url: self.cfg.discovery_url@,
            discovery: match self.discovery_cache {
                Some(cached) => Some(cached@),
                None => None,
            },
            keys: jwk::key_table(self.jwks_cache@),
            keys_fetched_at: self.jwks_fetched_at,
        }
    }
}

/// The key with id `kid`, if the cached keys are still usable and hold it.
pub open spec fn fresh_key(m: VerifierModel, kid: Seq<char>, now: u64) -> Option<Seq<u8>> {
    if fresh(m.keys_fetched_at, now) && m.keys.contains_key(kid) {
        Some(m.keys[kid])
    } else {
        None
    }
}

/// The cached discovery document, if it is still usable.
pub open spec fn fresh_discovery(m: VerifierModel, now: u64) -> Option<DiscoveryModel> {
    match m.discovery {
        Some(cached) => if fresh(Some(cached.fetched_at), now) {
            Some(cached)
        } else {
            None
        },
        None => None,
    }
}

/// What a key set's reply comes to.
pub open spec fn refresh_outcome(jwks_uri: Seq<char>, reply: HttpReply<JwkSet>) -> Result<
    Map<Seq<char>, Seq<u8>>,
    VerifyFailure,
> {
    match reply_failure(jwks_uri, reply) {
        Some(why) => Err(VerifyFailure::JwksFetch(why)),
        None => jwk::jwk_table(reply_document(reply)@),
    }
}

/// How the search for something in the discovery document goes on.
pub enum EndpointStep {
    /// Here it is.
    Ready(String),
    /// The discovery document has to be fetched from this address first.
    Fetch(String),
    /// It cannot be had.
    Failed(TrinityVerifyError),
}

/// [`EndpointStep`] as contracts speak of it.
pub enum EndpointModel {
    Ready(Seq<char>),
    Fetch(Seq<char>),
    Failed(VerifyFailure),
}

impl View for EndpointStep {
    type V = EndpointModel;

    open spec fn view(&self) -> EndpointModel {
        match self {
            EndpointStep::Ready(uri) => EndpointModel::Ready(uri@),
            EndpointStep::Fetch(url) => EndpointModel::Fetch(url@),
            EndpointStep::Failed(e) => EndpointModel::Failed(e@),
        }
    }
}

/// The discovery document in force at `now`: the cached one while it is usable,
/// else the one that `reply` brings. `Ok(None)` where there is neither.
pub open spec fn current_discovery(
    m: VerifierModel,
    reply: Option<HttpReply<DiscoveryDoc>>,
    now: u64,
) -> Result<Option<DiscoveryModel>, VerifyFailure> {
    match (fresh_discovery(m, now), reply) {
        (Some(cached), _) => Ok(Some(cached)),
        (None, None) => Ok(None),
        (None, Some(reply)) => match reply_failure(m.discovery_url, reply) {
            Some(why) => Err(VerifyFailure::DiscoveryFetch(why)),
            None => Ok(Some(kept_discovery(m.issuer, reply_document(reply), now))),
        },
    }
}

/// The verifier after it was asked for the discovery document.
pub open spec fn after_discovery(
    m: VerifierModel,
    reply: Option<HttpReply<DiscoveryDoc>>,
    now: u64,
) -> VerifierModel {
    match current_discovery(m, reply, now) {
        Ok(Some(discovery)) => VerifierModel { discovery: Some(discovery), ..m },
        _ => m,
    }
}

/// What to answer when asked for one entry of the discovery document, where
/// `entry` picks it out.
pub open spec fn endpoint_step(
    m: VerifierModel,
    reply: Option<HttpReply<DiscoveryDoc>>,
    now: u64,
    entry: spec_fn(DiscoveryModel) -> Option<Seq<char>>,
    missing: Seq<char>,
) -> EndpointModel {
    match current_discovery(m, reply, now) {
        Err(e) => EndpointModel::Failed(e),
        Ok(None) => EndpointModel::Fetch(m.discovery_url),
        Ok(Some(discovery)) => match entry(discovery) {
            Some(uri) => EndpointModel::Ready(uri),
            None => EndpointModel::Failed(VerifyFailure::DiscoveryFetch(missing)),
        },
    }
}

/// How the search for a key goes on.
pub enum KeyStep {
    /// Here it is.
    Found(PublicKey),
    /// The key set has to be refreshed first.
    Refresh,
    /// The issuer has no such key.
    Unknown(TrinityVerifyError),
}

impl TrinityVerifier {
    /// A verifier that trusts `cfg` and has fetched nothing yet.
    pub fn new(cfg: TrinityVerifierConfig) -> (r: TrinityVerifier)
        ensures
            r@ == (VerifierModel {
                issuer: cfg.issuer@,
                audience: cfg.audience@,
                discovery_url: cfg.discovery_url@,
                discovery: None,
                keys: Map::empty(),
                keys_fetched_at: None,
            }),
    {
        let r = TrinityVerifier {
            cfg,
            discovery_cache: None,
            jwks_cache: StringHashMap::new(),
            jwks_fetched_at: None,
        };
        assert(r@.keys =~= Map::empty());
        r
    }

    /// The issuer that tokens must name.
    pub fn issuer(&self) -> (r: &str)
        ensures
            r@ == self@.issuer,
    {
        self.cfg.issuer.as_str()
    }

    /// The audience that tokens must name.
    pub fn audience(&self) -> (r: &str)
        ensures
            r@ == self@.audience,
    {
        self.cfg.audience.as_str()
    }

    /// Put a key into the cache and mark the cache as just filled.
    pub fn seed_key(&mut self, kid: &str, key: PublicKey, now: u64)
        ensures
            final(self)@ == (VerifierModel {
                keys: old(self)@.keys.insert(kid@, key@),
                keys_fetched_at: Some(now),
                ..old(self)@
            }),
    {
        self.jwks_cache.insert(kid.to_owned(), key);
        self.jwks_fetched_at = Some(now);
        assert(self@.keys =~= old(self)@.keys.insert(kid@, key@));
    }

    /// Put a discovery document into the cache.
    pub fn seed_discovery(
        &mut self,
        jwks_uri: String,
        authorization_endpoint: Option<String>,
        token_endpoint: Option<String>,
        now: u64,
    )
        ensures
            final(self)@ == (VerifierModel {
                discovery: Some(
                    DiscoveryModel {
                        jwks_uri: jwks_uri@,
                        authorization_endpoint: authorization_endpoint.deep_view(),
                        token_endpoint: token_endpoint.deep_view(),
                        fetched_at: now,
                    },
                ),
                ..old(self)@
            }),
    {
        self.discovery_cache = Some(
            CachedDiscovery { jwks_uri, authorization_endpoint, token_endpoint, fetched_at: now },
        );
    }

    /// Verify a compact JWS against the current time: the step is the one at the
    /// very second that one reading of the clock gave.
    pub fn verify(&self, raw_jws: &str, inputs: &VerifyInputs) -> (step: VerifyStep)
        ensures
            exists|reading: Option<u64>| #[trigger]
                clock_reads(reading) && step@ == verify_step(
                    self@.issuer,
                    self@.audience,
                    raw_jws@,
                    clock_seconds(reading),
                    inputs@,
                ),
            step matches VerifyStep::Done(Ok(_)) ==> low_s(raw_jws@),
    {
        let now: i64 = current_unix_seconds();
        self.verify_at(raw_jws, now, inputs)
    }

    /// Verify a compact JWS at a given time, as far as `inputs` allow. An
    /// accepted signature has its second half in the lower half of the group.
    pub fn verify_at(&self, raw_jws: &str, now_secs: i64, inputs: &VerifyInputs) -> (step:
        VerifyStep)
        ensures
            step@ == verify_step(self@.issuer, self@.audience, raw_jws@, now_secs, inputs@),
            step matches VerifyStep::Done(Ok(claims)) ==> inputs.payload matches Some(Ok(payload))
                && taken_over(payload, claims),
            step matches VerifyStep::Done(Ok(_)) ==> low_s(raw_jws@),
    {
        let (header_b64, payload_b64, signature_b64) = match split_jws(raw_jws) {
            Ok(parts) => parts,
            Err(e) => return VerifyStep::Done(Err(e)),
        };
        let header_bytes: Vec<u8> = match b64url_decode(header_b64) {
            Ok(bytes) => bytes,
            Err(e) => return VerifyStep::Done(Err(e)),
        };
        let header: &JwsHeader = match &inputs.header {
            None => return VerifyStep::ParseHeader(header_bytes),
            Some(Err(why)) => return VerifyStep::Done(
                Err(TrinityVerifyError::MalformedHeader(why.clone())),
            ),
            Some(Ok(header)) => header,
        };
        if !same_text(header.alg.as_str(), "ES256K") {
            return VerifyStep::Done(
                Err(TrinityVerifyError::UnsupportedAlgorithm(header.alg.clone())),
            );
        }
        let kid: &String = match &header.kid {
            None => return VerifyStep::Done(Err(TrinityVerifyError::MissingKid)),
            Some(kid) => kid,
        };
        let payload_bytes: Vec<u8> = match b64url_decode(payload_b64) {
            Ok(bytes) => bytes,
            Err(e) => return VerifyStep::Done(Err(e)),
        };
        let payload: &JwsPayload = match &inputs.payload {
            None => return VerifyStep::ParsePayload(payload_bytes),
            Some(Err(why)) => return VerifyStep::Done(
                Err(TrinityVerifyError::MalformedPayload(why.clone())),
            ),
            Some(Ok(payload)) => payload,
        };
        let signature: Vec<u8> = match b64url_decode(signature_b64) {
            Ok(bytes) => bytes,
            Err(e) => return VerifyStep::Done(Err(e)),
        };
        if signature.len() != 64 {
            return VerifyStep::Done(
                Err(TrinityVerifyError::MalformedJws("signature is not 64 bytes")),
            );
        }
        if !check_signature(signature.as_slice()) {
            return VerifyStep::Done(Err(TrinityVerifyError::InvalidSignature));
        }
        let key: &PublicKey = match &inputs.key {
            None => return VerifyStep::FindKey(kid.clone()),
            Some(key) => key,
        };
        let digest: Vec<u8> = signing_digest(header_b64, payload_b64);
        if !key.accepts(digest.as_slice(), signature.as_slice()) {
            return VerifyStep::Done(Err(TrinityVerifyError::InvalidSignature));
        }
        VerifyStep::Done(check_claims(&self.cfg.issuer, &self.cfg.audience, payload, now_secs))
    }

    /// The key for `kid`. Where it is not cached, or no longer usable, the key
    /// set is to be refreshed once; a key that is not there then is unknown.
    pub fn get_verifying_key(&self, kid: &str, now: u64, refreshed: bool) -> (step: KeyStep)
        ensures
            match step {
                KeyStep::Found(key) => fresh_key(self@, kid@, now) == Some(key@),
                KeyStep::Refresh => fresh_key(self@, kid@, now) is None && !refreshed,
                KeyStep::Unknown(e) => fresh_key(self@, kid@, now) is None && refreshed && e@
                    == VerifyFailure::UnknownKid(kid@),
            },
    {
        match self.cached_key_if_fresh(kid, now) {
            Some(key) => KeyStep::Found(key),
            None => if refreshed {
                KeyStep::Unknown(TrinityVerifyError::UnknownKid(kid.to_owned()))
            } else {
                KeyStep::Refresh
            },
        }
    }

    /// The cached key for `kid`, unless the cache is too old.
    pub fn cached_key_if_fresh(&self, kid: &str, now: u64) -> (r: Option<PublicKey>)
        ensures
            match r {
                Some(key) => fresh_key(self@, kid@, now) == Some(key@),
                None => fresh_key(self@, kid@, now) is None,
            },
    {
        match self.jwks_fetched_at {
            Some(at) => if !is_fresh(at, now) {
                None
            } else {
                match self.jwks_cache.get(kid) {
                    Some(key) => Some(key.duplicate()),
                    None => None,
                }
            },
            None => None,
        }
    }

    /// Take over the key set that `jwks_uri` answered with. A reply without a
    /// usable key set changes nothing.
    pub fn refresh_jwks(&mut self, jwks_uri: &str, reply: HttpReply<JwkSet>, now: u64) -> (r: Result<
        (),
        TrinityVerifyError,
    >)
        ensures
            match r {
                Ok(_) => refresh_outcome(jwks_uri@, reply) matches Ok(keys) && final(self)@ == (
                VerifierModel { keys, keys_fetched_at: Some(now), ..old(self)@ }),
                Err(e) => refresh_outcome(jwks_uri@, reply) == Err::<
                    Map<Seq<char>, Seq<u8>>,
                    VerifyFailure,
                >(e@) && final(self)@ == old(self)@,
            },
    {
        let set: JwkSet = match open_reply(jwks_uri, reply) {
            Ok(set) => set,
            Err(why) => return Err(TrinityVerifyError::JwksFetch(why)),
        };
        match jwk::jwks_to_keys(&set) {
            Ok(table) => {
                self.jwks_cache = table;
                self.jwks_fetched_at = Some(now);
                Ok(())
            },
            Err(e) => Err(e),
        }
    }

    /// Bring the discovery document up to date: nothing to do while the cached
    /// one is usable, else keep what `reply` brings. Says whether there is one.
    fn update_discovery(&mut self, reply: Option<HttpReply<DiscoveryDoc>>, now: u64) -> (r: Result<
        bool,
        TrinityVerifyError,
    >)
        ensures
            final(self)@ == after_discovery(old(self)@, reply, now),
            match r {
                Ok(known) => {
                    &&& current_discovery(old(self)@, reply, now) matches Ok(discovery)
                    &&& known == (discovery is Some)
                    &&& known ==> final(self)@.discovery == discovery
                },
                Err(e) => current_discovery(old(self)@, reply, now) == Err::<
                    Option<DiscoveryModel>,
                    VerifyFailure,
                >(e@),
            },
    {
        if let Some(cached) = &self.discovery_cache {
            if is_fresh(cached.fetched_at, now) {
                return Ok(true);
            }
        }
        match reply {
            None => Ok(false),
            Some(reply) => {
                let doc: DiscoveryDoc = match open_reply(self.cfg.discovery_url.as_str(), reply) {
                    Ok(doc) => doc,
                    Err(why) => return Err(TrinityVerifyError::DiscoveryFetch(why)),
                };
                let jwks_uri: String = match doc.jwks_uri {
                    Some(uri) => uri,
                    None => joined(
                        trim_end_matches(self.cfg.issuer.as_str(), '/'),
                        "/.well-known/jwks.json",
                    ),
                };
                self.discovery_cache = Some(
                    CachedDiscovery {
                        jwks_uri,
                        authorization_endpoint: doc.authorization_endpoint,
                        token_endpoint: doc.token_endpoint,
                        fetched_at: now,
                    },
                );
                Ok(true)
            },
        }
    }

    /// Where the issuer's key set is.
    pub fn resolve_jwks_uri(&mut self, reply: Option<HttpReply<DiscoveryDoc>>, now: u64) -> (step:
        EndpointStep)
        ensures
            final(self)@ == after_discovery(old(self)@, reply, now),
            step@ == endpoint_step(
                old(self)@,
                reply,
                now,
                |d: DiscoveryModel| Some(d.jwks_uri),
                Seq::empty(),
            ),
    {
        match self.update_discovery(reply, now) {
            Err(e) => EndpointStep::Failed(e),
            Ok(_) => match &self.discovery_cache {
                Some(cached) if is_fresh(cached.fetched_at, now) => EndpointStep::Ready(
                    cached.jwks_uri.clone(),
                ),
                _ => EndpointStep::Fetch(self.cfg.discovery_url.clone()),
            },
        }
    }

    /// The address of the issuer's authorisation endpoint.
    pub fn authorization_endpoint(
        &mut self,
        reply: Option<HttpReply<DiscoveryDoc>>,
        now: u64,
    ) -> (step: EndpointStep)
        ensures
            final(self)@ == after_discovery(old(self)@, reply, now),
            step@ == endpoint_step(
                old(self)@,
                reply,
                now,
                |d: DiscoveryModel| d.authorization_endpoint,
                "discovery document has no authorization_endpoint"@,
            ),
    {
        match self.update_discovery(reply, now) {
            Err(e) => EndpointStep::Failed(e),
            Ok(_) => match &self.discovery_cache {
                Some(cached) if is_fresh(cached.fetched_at, now) => named_endpoint(
                    &cached.authorization_endpoint,
                    "discovery document has no authorization_endpoint",
                ),
                _ => EndpointStep::Fetch(self.cfg.discovery_url.clone()),
            },
        }
    }

    /// The address of the issuer's token endpoint.
    pub fn token_endpoint(&mut self, reply: Option<HttpReply<DiscoveryDoc>>, now: u64) -> (step:
        EndpointStep)
        ensures
            final(self)@ == after_discovery(old(self)@, reply, now),
            step@ == endpoint_step(
                old(self)@,
                reply,
                now,
                |d: DiscoveryModel| d.token_endpoint,
                "discovery document has no token_endpoint"@,
            ),
    {
        match self.update_discovery(reply, now) {
            Err(e) => EndpointStep::Failed(e),
            Ok(_) => match &self.discovery_cache {
                Some(cached) if is_fresh(cached.fetched_at, now) => named_endpoint(
                    &cached.token_endpoint,
                    "discovery document has no token_endpoint",
                ),
                _ => EndpointStep::Fetch(self.cfg.discovery_url.clone()),
            },
        }
    }
}

/// The step for an entry that a discovery document may lack.
fn named_endpoint(entry: &Option<String>, missing: &str) -> (step: EndpointStep)
    ensures
        step@ == (match entry.deep_view() {
            Some(uri) => EndpointModel::Ready(uri),
            None => EndpointModel::Failed(VerifyFailure::DiscoveryFetch(missing@)),
        }),
{
    match entry {
        Some(uri) => EndpointStep::Ready(uri.clone()),
        None => EndpointStep::Failed(TrinityVerifyError::DiscoveryFetch(missing.to_owned())),
    }
}

} // verus!
