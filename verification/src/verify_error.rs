//! Why a token, a key set or a discovery document is refused.

use crate::text;
use crate::text::{decimal_i64, joined};
use vstd::prelude::*;

verus! {

/// Errors the verifier returns. One variant per distinct failure reason, so
/// that callers can tell "this is a forged token" from "the issuer cannot be
/// reached right now".
#[derive(Debug)]
pub enum TrinityVerifyError {
    MalformedJws(&'static str),
    MalformedHeader(String),
    MalformedPayload(String),
    Base64(String),
    UnsupportedAlgorithm(String),
    MissingKid,
    UnknownKid(String),
    InvalidJwk(String),
    InvalidSignature,
    InvalidIssuer { expected: String, actual: String },
    InvalidAudience { expected: String, actual: String },
    Expired { exp: i64, now: i64 },
    NotYetValid { nbf: i64, now: i64 },
    DiscoveryFetch(String),
    JwksFetch(String),
    UserNotProvisioned { did: String },
}

/// A [`TrinityVerifyError`] as contracts speak of it.
pub enum VerifyFailure {
    MalformedJws(Seq<char>),
    MalformedHeader(Seq<char>),
    MalformedPayload(Seq<char>),
    Base64(Seq<char>),
    UnsupportedAlgorithm(Seq<char>),
    MissingKid,
    UnknownKid(Seq<char>),
    InvalidJwk(Seq<char>),
    InvalidSignature,
    InvalidIssuer { expected: Seq<char>, actual: Seq<char> },
    InvalidAudience { expected: Seq<char>, actual: Seq<char> },
    Expired { exp: i64, now: i64 },
    NotYetValid { nbf: i64, now: i64 },
    DiscoveryFetch(Seq<char>),
    JwksFetch(Seq<char>),
    UserNotProvisioned { did: Seq<char> },
}

impl View for TrinityVerifyError {
    type V = VerifyFailure;

    open spec fn view(&self) -> VerifyFailure {
        match self {
            TrinityVerifyError::MalformedJws(why) => VerifyFailure::MalformedJws(why@),
            TrinityVerifyError::MalformedHeader(why) => VerifyFailure::MalformedHeader(why@),
            TrinityVerifyError::MalformedPayload(why) => VerifyFailure::MalformedPayload(why@),
            TrinityVerifyError::Base64(why) => VerifyFailure::Base64(why@),
            TrinityVerifyError::UnsupportedAlgorithm(alg) => VerifyFailure::UnsupportedAlgorithm(
                alg@,
            ),
            TrinityVerifyError::MissingKid => VerifyFailure::MissingKid,
            TrinityVerifyError::UnknownKid(kid) => VerifyFailure::UnknownKid(kid@),
            TrinityVerifyError::InvalidJwk(why) => VerifyFailure::InvalidJwk(why@),
            TrinityVerifyError::InvalidSignature => VerifyFailure::InvalidSignature,
            TrinityVerifyError::InvalidIssuer { expected, actual } => VerifyFailure::InvalidIssuer {
                expected: expected@,
                actual: actual@,
            },
            TrinityVerifyError::InvalidAudience { expected, actual } =>
                VerifyFailure::InvalidAudience { expected: expected@, actual: actual@ },
            TrinityVerifyError::Expired { exp, now } => VerifyFailure::Expired {
                exp: *exp,
                now: *now,
            },
            TrinityVerifyError::NotYetValid { nbf, now } => VerifyFailure::NotYetValid {
                nbf: *nbf,
                now: *now,
            },
            TrinityVerifyError::DiscoveryFetch(why) => VerifyFailure::DiscoveryFetch(why@),
            TrinityVerifyError::JwksFetch(why) => VerifyFailure::JwksFetch(why@),
            TrinityVerifyError::UserNotProvisioned { did } => VerifyFailure::UserNotProvisioned {
                did: did@,
            },
        }
    }
}

/// The sentence that describes a failure.
pub open spec fn failure_text(failure: VerifyFailure) -> Seq<char> {
    match failure {
        VerifyFailure::MalformedJws(why) => "malformed JWS: "@ + why,
        VerifyFailure::MalformedHeader(why) => "malformed header: "@ + why,
        VerifyFailure::MalformedPayload(why) => "malformed payload: "@ + why,
        VerifyFailure::Base64(why) => "base64 decode failed: "@ + why,
        VerifyFailure::UnsupportedAlgorithm(alg) => "unsupported algorithm: "@ + alg,
        VerifyFailure::MissingKid => "missing `kid` in header"@,
        VerifyFailure::UnknownKid(kid) => "unknown key id: "@ + kid,
        VerifyFailure::InvalidJwk(why) => "invalid JWK: "@ + why,
        VerifyFailure::InvalidSignature => "signature verification failed"@,
        VerifyFailure::InvalidIssuer { expected, actual } => "invalid issuer: expected "@ + expected
            + ", got "@ + actual,
        VerifyFailure::InvalidAudience { expected, actual } => "invalid audience: expected "@
            + expected + ", got "@ + actual,
        VerifyFailure::Expired { exp, now } => "token expired at "@ + text::signed_decimal(exp as int)
            + ", now "@ + text::signed_decimal(now as int),
        VerifyFailure::NotYetValid { nbf, now } => "token not yet valid: nbf "@ + text::signed_decimal(
            nbf as int,
        ) + " > now "@ + text::signed_decimal(now as int),
        VerifyFailure::DiscoveryFetch(why) => "discovery fetch failed: "@ + why,
        VerifyFailure::JwksFetch(why) => "jwks fetch failed: "@ + why,
        VerifyFailure::UserNotProvisioned { did } =>
            "user has no provisioned local identity for did "@ + did,
    }
}

/// Four texts one after the other.
fn sentence(a: &str, b: &str, c: &str, d: &str) -> (r: String)
    ensures
        r@ == a@ + b@ + c@ + d@,
{
    let mut out: String = a.to_owned();
    out.append(b);
    out.append(c);
    out.append(d);
    out
}

impl TrinityVerifyError {
    /// The sentence that describes the error.
    pub fn message(&self) -> (r: String)
        ensures
            r@ == failure_text(self@),
    {
        match self {
            TrinityVerifyError::MalformedJws(why) => joined("malformed JWS: ", why),
            TrinityVerifyError::MalformedHeader(why) => joined("malformed header: ", why.as_str()),
            TrinityVerifyError::MalformedPayload(why) => joined(
                "malformed payload: ",
                why.as_str(),
            ),
            TrinityVerifyError::Base64(why) => joined("base64 decode failed: ", why.as_str()),
            TrinityVerifyError::UnsupportedAlgorithm(alg) => joined(
                "unsupported algorithm: ",
                alg.as_str(),
            ),
            TrinityVerifyError::MissingKid => "missing `kid` in header".to_owned(),
            TrinityVerifyError::UnknownKid(kid) => joined("unknown key id: ", kid.as_str()),
            TrinityVerifyError::InvalidJwk(why) => joined("invalid JWK: ", why.as_str()),
            TrinityVerifyError::InvalidSignature => "signature verification failed".to_owned(),
            TrinityVerifyError::InvalidIssuer { expected, actual } => sentence(
                "invalid issuer: expected ",
                expected.as_str(),
                ", got ",
                actual.as_str(),
            ),
            TrinityVerifyError::InvalidAudience { expected, actual } => sentence(
                "invalid audience: expected ",
                expected.as_str(),
                ", got ",
                actual.as_str(),
            ),
            TrinityVerifyError::Expired { exp, now } => sentence(
                "token expired at ",
                decimal_i64(*exp).as_str(),
                ", now ",
                decimal_i64(*now).as_str(),
            ),
            TrinityVerifyError::NotYetValid { nbf, now } => sentence(
                "token not yet valid: nbf ",
                decimal_i64(*nbf).as_str(),
                " > now ",
                decimal_i64(*now).as_str(),
            ),
            TrinityVerifyError::DiscoveryFetch(why) => joined(
                "discovery fetch failed: ",
                why.as_str(),
            ),
            TrinityVerifyError::JwksFetch(why) => joined("jwks fetch failed: ", why.as_str()),
            TrinityVerifyError::UserNotProvisioned { did } => joined(
                "user has no provisioned local identity for did ",
                did.as_str(),
            ),
        }
    }
}

/// Every failure is described by its own sentence, which holds what it is about.
pub proof fn failures_are_described_by_their_sentences(
    why: Seq<char>,
    other: Seq<char>,
    a: i64,
    b: i64,
)
    ensures
        failure_text(VerifyFailure::MalformedJws(why)) == "malformed JWS: "@ + why,
        failure_text(VerifyFailure::MalformedHeader(why)) == "malformed header: "@ + why,
        failure_text(VerifyFailure::MalformedPayload(why)) == "malformed payload: "@ + why,
        failure_text(VerifyFailure::Base64(why)) == "base64 decode failed: "@ + why,
        failure_text(VerifyFailure::UnsupportedAlgorithm(why)) == "unsupported algorithm: "@ + why,
        failure_text(VerifyFailure::MissingKid) == "missing `kid` in header"@,
        failure_text(VerifyFailure::UnknownKid(why)) == "unknown key id: "@ + why,
        failure_text(VerifyFailure::InvalidJwk(why)) == "invalid JWK: "@ + why,
        failure_text(VerifyFailure::InvalidSignature) == "signature verification failed"@,
        failure_text(VerifyFailure::InvalidIssuer { expected: why, actual: other })
            == "invalid issuer: expected "@ + why + ", got "@ + other,
        failure_text(VerifyFailure::InvalidAudience { expected: why, actual: other })
            == "invalid audience: expected "@ + why + ", got "@ + other,
        failure_text(VerifyFailure::Expired { exp: a, now: b }) == "token expired at "@
            + text::signed_decimal(a as int) + ", now "@ + text::signed_decimal(b as int),
        failure_text(VerifyFailure::NotYetValid { nbf: a, now: b }) == "token not yet valid: nbf "@
            + text::signed_decimal(a as int) + " > now "@ + text::signed_decimal(b as int),
        failure_text(VerifyFailure::DiscoveryFetch(why)) == "discovery fetch failed: "@ + why,
        failure_text(VerifyFailure::JwksFetch(why)) == "jwks fetch failed: "@ + why,
        failure_text(VerifyFailure::UserNotProvisioned { did: why })
            == "user has no provisioned local identity for did "@ + why,
{
}

} // verus!
