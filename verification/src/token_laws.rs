//! What holds of token verification and of the issuer's cached documents as a
//! whole.

use crate::base64url;
use crate::crypto;
use crate::jwk;
use crate::jwk::{JwkModel, JwkSet};
use crate::text;
use crate::trinity_verifier;
use crate::trinity_verifier::{
    ClaimsModel, DiscoveryDoc, DiscoveryModel, EndpointModel, HttpReply, InputsModel, PayloadModel,
    StepModel, VerifierModel, CACHE_TTL_NANOS,
};
use crate::verify_error::VerifyFailure;
use vstd::prelude::*;

verus! {

/// All that makes a token acceptable: three segments, an `ES256K` header that
/// names a key, a signature by that key over the first two segments, the
/// expected issuer and audience, and a validity window that holds `now`.
pub open spec fn genuine(
    issuer: Seq<char>,
    audience: Seq<char>,
    raw: Seq<char>,
    now: i64,
    inputs: InputsModel,
) -> bool {
    &&& trinity_verifier::jws_parts(raw) matches Ok((header_b64, payload_b64, signature_b64))
    &&& base64url::decoded(header_b64) is Ok
    &&& base64url::decoded(payload_b64) is Ok
    &&& base64url::decoded(signature_b64) matches Ok(signature)
    &&& crypto::signature_in_range(signature)
    &&& inputs.header matches Some(Ok(header))
    &&& header.alg == "ES256K"@
    &&& header.kid is Some
    &&& inputs.payload matches Some(Ok(payload))
    &&& inputs.key matches Some(key)
    &&& crypto::ecdsa_accepts(
        key,
        crypto::sha256(trinity_verifier::signing_input(header_b64, payload_b64)),
        signature,
    )
    &&& payload.iss == issuer
    &&& payload.aud == audience
    &&& trinity_verifier::not_before(payload) <= now < payload.exp
}

/// A token is accepted exactly where it is genuine, and then its claims are
/// those of its payload.
pub proof fn accepted_exactly_where_genuine(
    issuer: Seq<char>,
    audience: Seq<char>,
    raw: Seq<char>,
    now: i64,
    inputs: InputsModel,
)
    ensures
        (trinity_verifier::verify_step(issuer, audience, raw, now, inputs) matches StepModel::Done(
            Ok(_),
        )) == genuine(issuer, audience, raw, now, inputs),
        genuine(issuer, audience, raw, now, inputs) ==> trinity_verifier::verify_step(
            issuer,
            audience,
            raw,
            now,
            inputs,
        ) == StepModel::Done(Ok(trinity_verifier::claims_of(inputs.payload->0->Ok_0))),
{
}

/// A header with another algorithm is refused whatever the payload, the
/// signature and the key are: nothing but the header is looked at.
pub proof fn other_algorithms_are_refused_first(
    issuer: Seq<char>,
    audience: Seq<char>,
    raw: Seq<char>,
    now: i64,
    inputs: InputsModel,
)
    requires
        trinity_verifier::jws_parts(raw) matches Ok((header_b64, _, _)) && base64url::decoded(
            header_b64,
        ) is Ok,
        inputs.header matches Some(Ok(header)) && header.alg != "ES256K"@,
    ensures
        trinity_verifier::verify_step(issuer, audience, raw, now, inputs) == StepModel::Done(
            Err(VerifyFailure::UnsupportedAlgorithm(inputs.header->0->Ok_0.alg)),
        ),
{
}

/// The verifier asks only for what it was not given, so that it is done after
/// three answers at most.
pub proof fn only_missing_inputs_are_asked_for(
    issuer: Seq<char>,
    audience: Seq<char>,
    raw: Seq<char>,
    now: i64,
    inputs: InputsModel,
)
    ensures
        match trinity_verifier::verify_step(issuer, audience, raw, now, inputs) {
            StepModel::ParseHeader(_) => inputs.header is None,
            StepModel::ParsePayload(_) => inputs.header is Some && inputs.payload is None,
            StepModel::FindKey(_) => inputs.header is Some && inputs.payload is Some
                && inputs.key is None,
            StepModel::Done(_) => true,
        },
{
}

/// A key is asked for under the id that the header names, and no key is asked
/// for before header, payload and signature are known to be well formed.
pub proof fn keys_are_asked_for_last(
    issuer: Seq<char>,
    audience: Seq<char>,
    raw: Seq<char>,
    now: i64,
    inputs: InputsModel,
    kid: Seq<char>,
)
    requires
        trinity_verifier::verify_step(issuer, audience, raw, now, inputs) == StepModel::FindKey(
            kid,
        ),
    ensures
        inputs.header matches Some(Ok(header)) && header.kid == Some(kid) && header.alg
            == "ES256K"@,
        inputs.payload matches Some(Ok(_)),
        trinity_verifier::jws_parts(raw) matches Ok((_, _, signature_b64)) && base64url::decoded(
            signature_b64,
        ) matches Ok(signature) && crypto::signature_in_range(signature),
{
}

/// The encoding of two texts in a row is their encodings in a row.
proof fn lemma_encode_concat(a: Seq<char>, b: Seq<char>)
    ensures
        vstd::utf8::encode_utf8(a + b) == vstd::utf8::encode_utf8(a) + vstd::utf8::encode_utf8(b),
    decreases a.len(),
{
    if a.len() == 0 {
        assert(a + b =~= b);
        assert(vstd::utf8::encode_utf8(a) =~= Seq::<u8>::empty());
        assert(vstd::utf8::encode_utf8(a) + vstd::utf8::encode_utf8(b) =~= vstd::utf8::encode_utf8(
            b,
        ));
    } else {
        lemma_encode_concat(a.drop_first(), b);
        assert((a + b).drop_first() =~= a.drop_first() + b);
        assert((a + b)[0] == a[0]);
        let head = vstd::utf8::encode_scalar(a[0] as u32);
        assert(head + (vstd::utf8::encode_utf8(a.drop_first()) + vstd::utf8::encode_utf8(b))
            =~= (head + vstd::utf8::encode_utf8(a.drop_first())) + vstd::utf8::encode_utf8(b));
    }
}

/// A token is its three segments with dots between them, and the signature
/// covers the token's own bytes up to the second dot.
pub proof fn signing_input_is_the_tokens_head(raw: Seq<char>)
    requires
        trinity_verifier::jws_parts(raw) is Ok,
    ensures
        ({
            let (header_b64, payload_b64, signature_b64) = trinity_verifier::jws_parts(raw)->Ok_0;
            &&& raw == header_b64 + seq!['.'] + payload_b64 + seq!['.'] + signature_b64
            &&& !header_b64.contains('.') && !payload_b64.contains('.') && !signature_b64.contains(
                '.',
            )
            &&& vstd::utf8::encode_utf8(raw) == trinity_verifier::signing_input(
                header_b64,
                payload_b64,
            ) + seq![46u8] + vstd::utf8::encode_utf8(signature_b64)
        }),
{
    let (h, p, g) = trinity_verifier::jws_parts(raw)->Ok_0;
    reveal_with_fuel(text::segments, 4);
    text::first_split_loses_nothing(raw, '.');
    let (head, rest) = text::first_split(raw, '.')->0;
    text::first_split_loses_nothing(rest, '.');
    let (middle, last) = text::first_split(rest, '.')->0;
    text::first_split_loses_nothing(last, '.');
    assert(h == head && p == middle && g == last);
    let dot = seq!['.'];
    assert(raw =~= h + dot + p + dot + g);
    lemma_encode_concat(h, dot);
    lemma_encode_concat(h + dot, p);
    lemma_encode_concat(h + dot + p, dot);
    lemma_encode_concat(h + dot + p + dot, g);
    assert(vstd::utf8::encode_utf8(dot) =~= seq![46u8]) by {
        vstd::utf8::is_ascii_chars_encode_utf8(dot);
    }
}

/// A token put together from three encoded byte strings comes apart into the
/// same three.
pub proof fn assembled_tokens_come_apart(header: Seq<u8>, payload: Seq<u8>, signature: Seq<u8>)
    ensures
        ({
            let raw = base64url::encoded(header) + seq!['.'] + base64url::encoded(payload) + seq!['.']
                + base64url::encoded(signature);
            &&& trinity_verifier::jws_parts(raw) == Ok::<
                (Seq<char>, Seq<char>, Seq<char>),
                Seq<char>,
            >(
                (
                    base64url::encoded(header),
                    base64url::encoded(payload),
                    base64url::encoded(signature),
                ),
            )
            &&& base64url::decoded(base64url::encoded(header)) == Ok::<Seq<u8>, Seq<char>>(header)
            &&& base64url::decoded(base64url::encoded(payload)) == Ok::<Seq<u8>, Seq<char>>(payload)
            &&& base64url::decoded(base64url::encoded(signature)) == Ok::<Seq<u8>, Seq<char>>(
                signature,
            )
        }),
{
    base64url::encoding_stays_in_alphabet(header);
    base64url::encoding_stays_in_alphabet(payload);
    base64url::encoding_stays_in_alphabet(signature);
    base64url::encoding_decodes_back(header);
    base64url::encoding_decodes_back(payload);
    base64url::encoding_decodes_back(signature);
    let (h, p, g) = (
        base64url::encoded(header),
        base64url::encoded(payload),
        base64url::encoded(signature),
    );
    let dot = seq!['.'];
    let raw = h + dot + p + dot + g;
    assert(raw =~= h + dot + (p + dot + g));
    text::segments_of_joined_texts(h, '.', p + dot + g);
    text::segments_of_joined_texts(p, '.', g);
    text::first_split_loses_nothing(h, '.');
    text::first_split_loses_nothing(p, '.');
    text::first_split_loses_nothing(g, '.');
    assert(text::segments(raw, '.') =~= seq![h, p, g]);
}

/// After a refresh the issuer's keys serve for the time that the cache lasts,
/// and not a moment longer.
pub proof fn refreshed_keys_serve_until_they_expire(
    m: VerifierModel,
    jwks_uri: Seq<char>,
    reply: HttpReply<JwkSet>,
    at: u64,
    kid: Seq<char>,
    now: u64,
)
    requires
        trinity_verifier::refresh_outcome(jwks_uri, reply) is Ok,
    ensures
        ({
            let keys = trinity_verifier::refresh_outcome(jwks_uri, reply)->Ok_0;
            let after = VerifierModel { keys, keys_fetched_at: Some(at), ..m };
            &&& now - at < CACHE_TTL_NANOS ==> trinity_verifier::fresh_key(after, kid, now) == (
            if keys.contains_key(kid) {
                Some(keys[kid])
            } else {
                None
            })
            &&& now - at >= CACHE_TTL_NANOS ==> trinity_verifier::fresh_key(after, kid, now) is None
        }),
{
}

/// A discovery document serves, without another fetch, for the time that the
/// cache lasts.
pub proof fn discovery_serves_until_it_expires(
    m: VerifierModel,
    reply: Option<HttpReply<DiscoveryDoc>>,
    later_reply: Option<HttpReply<DiscoveryDoc>>,
    at: u64,
    now: u64,
)
    requires
        trinity_verifier::fresh_discovery(m, at) is None,
        trinity_verifier::current_discovery(m, reply, at) matches Ok(Some(_)),
    ensures
        ({
            let after = trinity_verifier::after_discovery(m, reply, at);
            &&& now - at < CACHE_TTL_NANOS ==> trinity_verifier::current_discovery(
                after,
                later_reply,
                now,
            ) == trinity_verifier::current_discovery(m, reply, at)
            &&& now - at >= CACHE_TTL_NANOS ==> trinity_verifier::current_discovery(
                after,
                None,
                now,
            ) == Ok::<Option<DiscoveryModel>, VerifyFailure>(None)
        }),
{
}

/// The authorisation and token endpoints come out of the discovery document
/// alone: the issuer's name has no part in them.
pub proof fn endpoints_do_not_come_from_the_issuer(
    m: VerifierModel,
    other_issuer: Seq<char>,
    reply: Option<HttpReply<DiscoveryDoc>>,
    now: u64,
    missing: Seq<char>,
)
    ensures
        ({
            let other = VerifierModel { issuer: other_issuer, ..m };
            let authorization = |d: DiscoveryModel| d.authorization_endpoint;
            let token = |d: DiscoveryModel| d.token_endpoint;
            &&& trinity_verifier::endpoint_step(m, reply, now, authorization, missing)
                == trinity_verifier::endpoint_step(other, reply, now, authorization, missing)
            &&& trinity_verifier::endpoint_step(m, reply, now, token, missing)
                == trinity_verifier::endpoint_step(other, reply, now, token, missing)
        }),
{
}

/// Keys that the verifier has no use for change nothing, wherever they stand in
/// the set.
pub proof fn unusable_keys_are_passed_over(
    before: Seq<JwkModel>,
    unusable: JwkModel,
    after: Seq<JwkModel>,
)
    requires
        !jwk::usable(unusable),
    ensures
        jwk::jwk_table(before.push(unusable) + after) == jwk::jwk_table(before + after),
    decreases after.len(),
{
    let with = before.push(unusable) + after;
    let without = before + after;
    if after.len() == 0 {
        assert(with.drop_last() =~= before);
        assert(without =~= before);
    } else {
        unusable_keys_are_passed_over(before, unusable, after.drop_last());
        assert(with.drop_last() =~= before.push(unusable) + after.drop_last());
        assert(without.drop_last() =~= before + after.drop_last());
    }
}

/// Every key that a table holds was rebuilt from a usable key of the set with
/// that id, and is a point on the curve.
pub proof fn tables_hold_published_keys(keys: Seq<JwkModel>, kid: Seq<char>)
    requires
        jwk::jwk_table(keys) is Ok,
        jwk::jwk_table(keys)->Ok_0.contains_key(kid),
    ensures
        exists|i: int|
            #![trigger keys[i]]
            0 <= i < keys.len() && jwk::usable(keys[i]) && keys[i].kid == Some(kid) && jwk::jwk_key(
                keys[i],
            ) == Ok::<Seq<u8>, VerifyFailure>(jwk::jwk_table(keys)->Ok_0[kid]),
        crypto::uncompressed(jwk::jwk_table(keys)->Ok_0[kid]),
        crypto::on_curve(jwk::jwk_table(keys)->Ok_0[kid]),
    decreases keys.len(),
{
    if keys.len() > 0 {
        let last = keys.last();
        if jwk::usable(last) && last.kid == Some(kid) {
            assert(keys[keys.len() - 1] == last);
        } else {
            tables_hold_published_keys(keys.drop_last(), kid);
            let i = choose|i: int|
                #![trigger keys.drop_last()[i]]
                0 <= i < keys.drop_last().len() && jwk::usable(keys.drop_last()[i])
                    && keys.drop_last()[i].kid == Some(kid) && jwk::jwk_key(keys.drop_last()[i])
                    == Ok::<Seq<u8>, VerifyFailure>(jwk::jwk_table(keys.drop_last())->Ok_0[kid]);
            assert(keys[i] == keys.drop_last()[i]);
        }
    }
}

/// A key set gives a table exactly where every usable key of it can be rebuilt.
/// Else the first usable key that cannot be rebuilt says why there is none.
pub proof fn key_sets_are_refused_for_their_first_broken_key(keys: Seq<JwkModel>, i: int)
    requires
        0 <= i < keys.len(),
        jwk::usable(keys[i]),
        jwk::jwk_key(keys[i]) is Err,
        forall|j: int|
            0 <= j < i && jwk::usable(#[trigger] keys[j]) ==> jwk::jwk_key(keys[j]) is Ok,
    ensures
        jwk::jwk_table(keys) == Err::<Map<Seq<char>, Seq<u8>>, VerifyFailure>(
            jwk::jwk_key(keys[i])->Err_0,
        ),
    decreases keys.len(),
{
    let init = keys.drop_last();
    assert forall|j: int| 0 <= j < i && jwk::usable(#[trigger] init[j]) implies jwk::jwk_key(init[j])
        is Ok by {
        assert(init[j] == keys[j]);
    }
    if i < init.len() {
        assert(init[i] == keys[i]);
        key_sets_are_refused_for_their_first_broken_key(init, i);
    } else {
        sound_key_sets_give_a_table(init);
    }
}

/// A key set gives a table where every usable key of it can be rebuilt.
pub proof fn sound_key_sets_give_a_table(keys: Seq<JwkModel>)
    requires
        forall|j: int|
            0 <= j < keys.len() && jwk::usable(#[trigger] keys[j]) ==> jwk::jwk_key(keys[j]) is Ok,
    ensures
        jwk::jwk_table(keys) is Ok,
    decreases keys.len(),
{
    if keys.len() > 0 {
        let init = keys.drop_last();
        assert forall|j: int| 0 <= j < init.len() && jwk::usable(#[trigger] init[j]) implies
            jwk::jwk_key(init[j]) is Ok by {
            assert(init[j] == keys[j]);
        }
        sound_key_sets_give_a_table(init);
        assert(keys[keys.len() - 1] == keys.last());
    }
}

/// Every usable key of a set is kept under its id. Of several with one id the
/// last counts.
pub proof fn tables_hold_every_usable_key(keys: Seq<JwkModel>, i: int)
    requires
        jwk::jwk_table(keys) is Ok,
        0 <= i < keys.len(),
        jwk::usable(keys[i]),
    ensures
        jwk::jwk_table(keys)->Ok_0.contains_key(keys[i].kid->0),
        (forall|j: int|
            i < j < keys.len() && jwk::usable(#[trigger] keys[j]) ==> keys[j].kid != keys[i].kid)
            ==> jwk::jwk_key(keys[i]) == Ok::<Seq<u8>, VerifyFailure>(
            jwk::jwk_table(keys)->Ok_0[keys[i].kid->0],
        ),
    decreases keys.len(),
{
    let init = keys.drop_last();
    let n = keys.len() - 1;
    assert(keys.last() == keys[n]);
    if i < n {
        assert(init[i] == keys[i]);
        tables_hold_every_usable_key(init, i);
        if forall|j: int|
            i < j < keys.len() && jwk::usable(#[trigger] keys[j]) ==> keys[j].kid != keys[i].kid {
            assert forall|j: int| i < j < init.len() && jwk::usable(#[trigger] init[j]) implies
                init[j].kid != init[i].kid by {
                assert(init[j] == keys[j]);
            }
            if jwk::usable(keys[n]) {
                assert(keys[n].kid != keys[i].kid);
            }
        }
    }
}

/// A published key is found after a refresh: each usable key of the reply serves
/// under its id, unless a later one has the same id.
pub proof fn published_keys_are_found_after_a_refresh(
    m: VerifierModel,
    jwks_uri: Seq<char>,
    set: JwkSet,
    status: u16,
    status_text: String,
    at: u64,
    i: int,
)
    requires
        200 <= status < 300,
        jwk::jwk_table(set@) is Ok,
        0 <= i < set@.len(),
        jwk::usable(set@[i]),
        forall|j: int|
            i < j < set@.len() && jwk::usable(#[trigger] set@[j]) ==> set@[j].kid != set@[i].kid,
    ensures
        ({
            let reply = HttpReply::Answered { status, status_text, body: Ok(set) };
            &&& trinity_verifier::refresh_outcome(jwks_uri, reply) matches Ok(keys)
            &&& trinity_verifier::fresh_key(
                VerifierModel { keys, keys_fetched_at: Some(at), ..m },
                set@[i].kid->0,
                at,
            ) == Some(jwk::jwk_key(set@[i])->Ok_0)
        }),
{
    tables_hold_every_usable_key(set@, i);
}

/// A key is kept where it is an `EC` key on `secp256k1` with an id, and where it
/// names an algorithm, that is `ES256K`. No other key is.
pub proof fn usable_keys_are_secp256k1_keys_with_an_id(key: JwkModel)
    ensures
        jwk::usable(key) <==> key.kty == "EC"@ && key.crv == Some("secp256k1"@) && key.kid is Some
            && (key.alg is Some ==> key.alg->0 == "ES256K"@),
{
}

/// A key is rebuilt from its coordinates: those of any point on the curve, each
/// in base64url, give back that point, uncompressed.
pub proof fn published_points_are_rebuilt(key: JwkModel, x: Seq<u8>, y: Seq<u8>)
    requires
        x.len() == 32,
        y.len() == 32,
        crypto::on_curve(seq![4u8] + x + y),
        key.x == Some(base64url::encoded(x)),
        key.y == Some(base64url::encoded(y)),
    ensures
        jwk::jwk_key(key) == Ok::<Seq<u8>, VerifyFailure>(seq![4u8] + x + y),
{
    base64url::encoding_decodes_back(x);
    base64url::encoding_decodes_back(y);
}

/// A rebuilt key is the point whose coordinates were published, and none that is
/// off the curve.
pub proof fn rebuilt_keys_are_the_published_points(key: JwkModel)
    requires
        jwk::jwk_key(key) is Ok,
    ensures
        ({
            let sec1 = jwk::jwk_key(key)->Ok_0;
            &&& sec1.len() == 65
            &&& sec1[0] == 4
            &&& key.x == Some(base64url::encoded(sec1.subrange(1, 33)))
            &&& key.y == Some(base64url::encoded(sec1.subrange(33, 65)))
            &&& crypto::on_curve(sec1)
        }),
{
    let sec1 = jwk::jwk_key(key)->Ok_0;
    let x = base64url::decoded(key.x->0)->Ok_0;
    let y = base64url::decoded(key.y->0)->Ok_0;
    assert(sec1 =~= seq![4u8] + x + y);
    assert(sec1.subrange(1, 33) =~= x);
    assert(sec1.subrange(33, 65) =~= y);
}

/// Why a key cannot be rebuilt: a coordinate is missing, is no base64url text,
/// or has another size than 32 bytes, or both name no point of the curve.
pub proof fn broken_keys_are_refused_with_their_reason(key: JwkModel)
    ensures
        ({
            let r = jwk::jwk_key(key);
            let x = base64url::decoded(key.x->0);
            let y = base64url::decoded(key.y->0);
            let both = key.x is Some && key.y is Some;
            &&& key.x is None ==> r == Err::<Seq<u8>, VerifyFailure>(
                VerifyFailure::InvalidJwk("missing x"@),
            )
            &&& key.x is Some && key.y is None ==> r == Err::<Seq<u8>, VerifyFailure>(
                VerifyFailure::InvalidJwk("missing y"@),
            )
            &&& both && x is Err ==> r == Err::<Seq<u8>, VerifyFailure>(
                VerifyFailure::Base64(x->Err_0),
            )
            &&& both && x is Ok && y is Err ==> r == Err::<Seq<u8>, VerifyFailure>(
                VerifyFailure::Base64(y->Err_0),
            )
            &&& both && x is Ok && y is Ok && (x->Ok_0.len() != 32 || y->Ok_0.len() != 32) ==> r
                == Err::<Seq<u8>, VerifyFailure>(
                VerifyFailure::InvalidJwk("x and y must be 32 bytes each"@),
            )
            &&& both && x is Ok && y is Ok && x->Ok_0.len() == 32 && y->Ok_0.len() == 32
                && !crypto::on_curve(seq![4u8] + x->Ok_0 + y->Ok_0) ==> r == Err::<
                Seq<u8>,
                VerifyFailure,
            >(VerifyFailure::InvalidJwk("signature error"@))
        }),
{
}

/// A reply without a key set is refused with its reason: what the request failed
/// with, the status that came instead, or what is wrong with the body.
pub proof fn replies_without_keys_are_refused_with_their_reason(
    jwks_uri: Seq<char>,
    reply: HttpReply<JwkSet>,
)
    ensures
        match reply {
            HttpReply::Unreachable(why) => trinity_verifier::refresh_outcome(jwks_uri, reply)
                == Err::<Map<Seq<char>, Seq<u8>>, VerifyFailure>(VerifyFailure::JwksFetch(why@)),
            HttpReply::Answered { status, status_text, body } => {
                &&& status < 200 || status >= 300 ==> trinity_verifier::refresh_outcome(
                    jwks_uri,
                    reply,
                ) == Err::<Map<Seq<char>, Seq<u8>>, VerifyFailure>(
                    VerifyFailure::JwksFetch(jwks_uri + " returned "@ + status_text@),
                )
                &&& 200 <= status < 300 && body is Err ==> trinity_verifier::refresh_outcome(
                    jwks_uri,
                    reply,
                ) == Err::<Map<Seq<char>, Seq<u8>>, VerifyFailure>(
                    VerifyFailure::JwksFetch(body->Err_0@),
                )
                &&& 200 <= status < 300 && body is Ok ==> trinity_verifier::refresh_outcome(
                    jwks_uri,
                    reply,
                ) == jwk::jwk_table(body->Ok_0@)
            },
        },
{
}

/// The caches last for five minutes, in nanoseconds of the caller's clock: what
/// was fetched serves before that, and not from then on.
pub proof fn caches_last_five_minutes(
    m: VerifierModel,
    cached: DiscoveryModel,
    kid: Seq<char>,
    at: u64,
    now: u64,
)
    requires
        m.keys_fetched_at == Some(at),
        m.discovery == Some(cached),
        cached.fetched_at == at,
    ensures
        now < at + 5 * 60 * 1_000_000_000 ==> {
            &&& trinity_verifier::fresh_key(m, kid, now) == (if m.keys.contains_key(kid) {
                Some(m.keys[kid])
            } else {
                None
            })
            &&& trinity_verifier::fresh_discovery(m, now) == Some(cached)
        },
        now >= at + 5 * 60 * 1_000_000_000 ==> {
            &&& trinity_verifier::fresh_key(m, kid, now) is None
            &&& trinity_verifier::fresh_discovery(m, now) is None
        },
{
}

/// Nothing that was never fetched serves.
pub proof fn empty_caches_serve_nothing(m: VerifierModel, kid: Seq<char>, now: u64)
    ensures
        m.keys_fetched_at is None ==> trinity_verifier::fresh_key(m, kid, now) is None,
        m.discovery is None ==> trinity_verifier::fresh_discovery(m, now) is None,
{
}

/// A discovery document that was just fetched names the endpoints itself: each
/// that it names is the answer, whatever the issuer is called. The issuer's name
/// has a part in the address of the keys alone, and only where the document
/// names none.
pub proof fn documents_name_the_endpoints(
    m: VerifierModel,
    doc: DiscoveryDoc,
    status: u16,
    status_text: String,
    now: u64,
    missing: Seq<char>,
)
    requires
        trinity_verifier::fresh_discovery(m, now) is None,
        200 <= status < 300,
    ensures
        ({
            let reply = Some(HttpReply::Answered { status, status_text, body: Ok(doc) });
            let jwks = |d: DiscoveryModel| Some(d.jwks_uri);
            let authorization = |d: DiscoveryModel| d.authorization_endpoint;
            let token = |d: DiscoveryModel| d.token_endpoint;
            let keys_step = trinity_verifier::endpoint_step(m, reply, now, jwks, missing);
            let authorization_step = trinity_verifier::endpoint_step(
                m,
                reply,
                now,
                authorization,
                missing,
            );
            let token_step = trinity_verifier::endpoint_step(m, reply, now, token, missing);
            let failed = EndpointModel::Failed(VerifyFailure::DiscoveryFetch(missing));
            &&& doc.jwks_uri matches Some(uri) ==> keys_step == EndpointModel::Ready(uri@)
            &&& doc.jwks_uri is None ==> keys_step == EndpointModel::Ready(
                text::trimmed_end(m.issuer, '/') + "/.well-known/jwks.json"@,
            )
            &&& doc.authorization_endpoint matches Some(uri) ==> authorization_step
                == EndpointModel::Ready(uri@)
            &&& doc.authorization_endpoint is None ==> authorization_step == failed
            &&& doc.token_endpoint matches Some(uri) ==> token_step == EndpointModel::Ready(uri@)
            &&& doc.token_endpoint is None ==> token_step == failed
        }),
{
}

/// What was fetched is kept, with the moment of the fetch, and nothing else of
/// the verifier changes. A reply that brings no document changes nothing, and
/// neither does one that comes while a document is in force.
pub proof fn fetched_documents_are_kept(
    m: VerifierModel,
    reply: Option<HttpReply<DiscoveryDoc>>,
    now: u64,
)
    ensures
        ({
            let after = trinity_verifier::after_discovery(m, reply, now);
            let fetched = trinity_verifier::fresh_discovery(m, now) is None && reply is Some
                && reply->0 is Answered && 200 <= reply->0->status < 300 && reply->0->body is Ok;
            &&& after.issuer == m.issuer
            &&& after.audience == m.audience
            &&& after.discovery_url == m.discovery_url
            &&& after.keys == m.keys
            &&& after.keys_fetched_at == m.keys_fetched_at
            &&& !fetched ==> after.discovery == m.discovery
            &&& fetched ==> {
                &&& after.discovery matches Some(kept)
                &&& kept.fetched_at == now
                &&& kept.authorization_endpoint
                    == reply->0->body->Ok_0.authorization_endpoint.deep_view()
                &&& kept.token_endpoint == reply->0->body->Ok_0.token_endpoint.deep_view()
                &&& reply->0->body->Ok_0.jwks_uri matches Some(uri) ==> kept.jwks_uri == uri@
            }
        }),
{
}

/// A document in force answers by itself, without the reply. Without one, and
/// without a reply, the document is to be fetched from where the configuration
/// says, and a reply that brings none is refused with its reason.
pub proof fn endpoints_are_looked_up_in_the_document_in_force(
    m: VerifierModel,
    reply: Option<HttpReply<DiscoveryDoc>>,
    now: u64,
    missing: Seq<char>,
)
    ensures
        ({
            let jwks = |d: DiscoveryModel| Some(d.jwks_uri);
            let authorization = |d: DiscoveryModel| d.authorization_endpoint;
            let token = |d: DiscoveryModel| d.token_endpoint;
            let keys_step = trinity_verifier::endpoint_step(m, reply, now, jwks, missing);
            let authorization_step = trinity_verifier::endpoint_step(
                m,
                reply,
                now,
                authorization,
                missing,
            );
            let token_step = trinity_verifier::endpoint_step(m, reply, now, token, missing);
            match (trinity_verifier::fresh_discovery(m, now), reply) {
                (Some(cached), _) => {
                    &&& keys_step == EndpointModel::Ready(cached.jwks_uri)
                    &&& cached.authorization_endpoint matches Some(uri) ==> authorization_step
                        == EndpointModel::Ready(uri)
                    &&& cached.token_endpoint matches Some(uri) ==> token_step
                        == EndpointModel::Ready(uri)
                },
                (None, None) => {
                    &&& keys_step == EndpointModel::Fetch(m.discovery_url)
                    &&& authorization_step == keys_step
                    &&& token_step == keys_step
                },
                (None, Some(HttpReply::Unreachable(why))) => {
                    &&& keys_step == EndpointModel::Failed(VerifyFailure::DiscoveryFetch(why@))
                    &&& authorization_step == keys_step
                    &&& token_step == keys_step
                },
                (None, Some(HttpReply::Answered { status, status_text, body })) => {
                    &&& status < 200 || status >= 300 ==> keys_step == EndpointModel::Failed(
                        VerifyFailure::DiscoveryFetch(
                            m.discovery_url + " returned "@ + status_text@,
                        ),
                    ) && authorization_step == keys_step && token_step == keys_step
                    &&& 200 <= status < 300 && body is Err ==> keys_step == EndpointModel::Failed(
                        VerifyFailure::DiscoveryFetch(body->Err_0@),
                    ) && authorization_step == keys_step && token_step == keys_step
                },
            }
        }),
{
}

/// Where a payload is valid from: its `nbf`, in want of one its `iat`, and in
/// want of both its `exp`, so that it never is.
pub open spec fn valid_from(payload: PayloadModel) -> i64 {
    if payload.nbf is Some {
        payload.nbf->0
    } else if payload.iat is Some {
        payload.iat->0
    } else {
        payload.exp
    }
}

/// A token that is accepted at any one time is accepted at every second of its
/// window and at no other: at a second before it, it is not valid yet, and from
/// its end on it has expired. The second is the one that the clock was read at.
pub proof fn tokens_are_accepted_exactly_within_their_window(
    issuer: Seq<char>,
    audience: Seq<char>,
    raw: Seq<char>,
    some_time: i64,
    secs: u64,
    inputs: InputsModel,
)
    requires
        trinity_verifier::verify_step(issuer, audience, raw, some_time, inputs) matches
            StepModel::Done(Ok(_)),
        secs <= i64::MAX,
    ensures
        ({
            let payload = inputs.payload->0->Ok_0;
            let now = trinity_verifier::clock_seconds(Some(secs));
            let step = trinity_verifier::verify_step(issuer, audience, raw, now, inputs);
            &&& valid_from(payload) <= secs < payload.exp ==> step == trinity_verifier::verify_step(
                issuer,
                audience,
                raw,
                some_time,
                inputs,
            )
            &&& secs < valid_from(payload) ==> step == StepModel::Done(
                Err(
                    VerifyFailure::NotYetValid { nbf: valid_from(payload), now: secs as i64 },
                ),
            )
            &&& secs >= payload.exp ==> step == StepModel::Done(
                Err(VerifyFailure::Expired { exp: payload.exp, now: secs as i64 }),
            )
        }),
{
}

/// A reading of the clock counts in whole seconds, and a clock that stands before
/// the epoch counts as standing at it.
pub proof fn clock_readings_count_in_seconds(secs: u64)
    ensures
        secs <= i64::MAX ==> trinity_verifier::clock_seconds(Some(secs)) == secs,
        trinity_verifier::clock_seconds(None) == 0,
{
}

/// The claims of an accepted token are those of its payload, each in its place,
/// and it is valid from where the payload says.
pub proof fn accepted_claims_are_the_payloads(
    issuer: Seq<char>,
    audience: Seq<char>,
    raw: Seq<char>,
    now: i64,
    inputs: InputsModel,
)
    requires
        trinity_verifier::verify_step(issuer, audience, raw, now, inputs) matches StepModel::Done(
            Ok(_),
        ),
    ensures
        inputs.payload matches Some(Ok(payload)) && trinity_verifier::verify_step(
            issuer,
            audience,
            raw,
            now,
            inputs,
        ) matches StepModel::Done(Ok(claims)) && {
            &&& claims.iss == payload.iss
            &&& claims.iss == issuer
            &&& claims.sub == payload.sub
            &&& claims.aud == payload.aud
            &&& claims.aud == audience
            &&& claims.exp == payload.exp
            &&& claims.nbf == valid_from(payload)
            &&& claims.iat == payload.iat
            &&& claims.jti == payload.jti
            &&& claims.auth_method == payload.auth_method
            &&& claims.org_dids == payload.org_dids
            &&& claims.roles == payload.roles
            &&& claims.session_ref == payload.session_ref
            &&& valid_from(payload) <= now < payload.exp
        },
{
}

/// A signed token is refused for the first thing that is wrong with its claims:
/// the issuer, the audience, the beginning of its window, its end.
pub proof fn signed_tokens_are_refused_for_their_claims(
    issuer: Seq<char>,
    audience: Seq<char>,
    payload: PayloadModel,
    now: i64,
)
    ensures
        ({
            let r = trinity_verifier::claims_outcome(issuer, audience, payload, now);
            let named = payload.iss == issuer && payload.aud == audience;
            &&& payload.iss != issuer ==> r == Err::<ClaimsModel, VerifyFailure>(
                VerifyFailure::InvalidIssuer { expected: issuer, actual: payload.iss },
            )
            &&& payload.iss == issuer && payload.aud != audience ==> r == Err::<
                ClaimsModel,
                VerifyFailure,
            >(VerifyFailure::InvalidAudience { expected: audience, actual: payload.aud })
            &&& named && now < valid_from(payload) ==> r == Err::<ClaimsModel, VerifyFailure>(
                VerifyFailure::NotYetValid { nbf: valid_from(payload), now },
            )
            &&& named && now >= valid_from(payload) && now >= payload.exp ==> r == Err::<
                ClaimsModel,
                VerifyFailure,
            >(VerifyFailure::Expired { exp: payload.exp, now })
            &&& named && valid_from(payload) <= now < payload.exp ==> r is Ok
        }),
{
}

/// Where verification stands on a token of three segments, given what is known:
/// what is looked at first decides, and what it asks for is what the segments
/// and the header hold.
pub proof fn segments_are_judged_in_their_order(
    issuer: Seq<char>,
    audience: Seq<char>,
    raw: Seq<char>,
    now: i64,
    inputs: InputsModel,
)
    ensures
        ({
            let step = trinity_verifier::verify_step(issuer, audience, raw, now, inputs);
            match trinity_verifier::jws_parts(raw) {
                Err(why) => step == StepModel::Done(Err(VerifyFailure::MalformedJws(why))),
                Ok((h, p, g)) => {
                    let header = inputs.header->0->Ok_0;
                    let payload = inputs.payload->0->Ok_0;
                    let signature = base64url::decoded(g)->Ok_0;
                    let header_read = base64url::decoded(h) is Ok && inputs.header is Some
                        && inputs.header->0 is Ok;
                    let header_fits = header_read && header.alg == "ES256K"@ && header.kid is Some;
                    let payload_read = header_fits && base64url::decoded(p) is Ok
                        && inputs.payload is Some && inputs.payload->0 is Ok;
                    let signature_read = payload_read && base64url::decoded(g) is Ok;
                    let signature_fits = signature_read && crypto::signature_in_range(signature);
                    let digest = crypto::sha256(
                        vstd::utf8::encode_utf8(h + seq!['.'] + p),
                    );
                    &&& base64url::decoded(h) matches Err(why) ==> step == StepModel::Done(
                        Err(VerifyFailure::Base64(why)),
                    )
                    &&& base64url::decoded(h) is Ok && inputs.header is None ==> step
                        == StepModel::ParseHeader(base64url::decoded(h)->Ok_0)
                    &&& base64url::decoded(h) is Ok && inputs.header is Some && inputs.header->0 is Err ==> step
                        == StepModel::Done(
                        Err(VerifyFailure::MalformedHeader(inputs.header->0->Err_0)),
                    )
                    &&& header_read && header.alg != "ES256K"@ ==> step == StepModel::Done(
                        Err(VerifyFailure::UnsupportedAlgorithm(header.alg)),
                    )
                    &&& header_read && header.alg == "ES256K"@ && header.kid is None ==> step
                        == StepModel::Done(Err(VerifyFailure::MissingKid))
                    &&& header_fits && base64url::decoded(p) is Err ==> step == StepModel::Done(
                        Err(VerifyFailure::Base64(base64url::decoded(p)->Err_0)),
                    )
                    &&& header_fits && base64url::decoded(p) is Ok && inputs.payload is None ==> step
                        == StepModel::ParsePayload(base64url::decoded(p)->Ok_0)
                    &&& header_fits && base64url::decoded(p) is Ok && inputs.payload is Some
                        && inputs.payload->0 is Err ==> step == StepModel::Done(
                        Err(VerifyFailure::MalformedPayload(inputs.payload->0->Err_0)),
                    )
                    &&& payload_read && base64url::decoded(g) is Err ==> step == StepModel::Done(
                        Err(VerifyFailure::Base64(base64url::decoded(g)->Err_0)),
                    )
                    &&& signature_read && signature.len() != 64 ==> step == StepModel::Done(
                        Err(VerifyFailure::MalformedJws("signature is not 64 bytes"@)),
                    )
                    &&& signature_read && signature.len() == 64 && !crypto::signature_in_range(
                        signature,
                    ) ==> step == StepModel::Done(Err(VerifyFailure::InvalidSignature))
                    &&& signature_fits && inputs.key is None ==> step == StepModel::FindKey(
                        header.kid->0,
                    )
                    &&& signature_fits && inputs.key is Some && !crypto::ecdsa_accepts(
                        inputs.key->0,
                        digest,
                        signature,
                    ) ==> step == StepModel::Done(Err(VerifyFailure::InvalidSignature))
                    &&& signature_fits && inputs.key is Some && crypto::ecdsa_accepts(
                        inputs.key->0,
                        digest,
                        signature,
                    ) ==> step == StepModel::Done(
                        trinity_verifier::claims_outcome(issuer, audience, payload, now),
                    )
                },
            }
        }),
{
    if let Ok((h, p, g)) = trinity_verifier::jws_parts(raw) {
        let dot = seq!['.'];
        lemma_encode_concat(h, dot);
        lemma_encode_concat(h + dot, p);
        assert(vstd::utf8::encode_utf8(dot) =~= seq![46u8]) by {
            vstd::utf8::is_ascii_chars_encode_utf8(dot);
        }
        assert(vstd::utf8::encode_utf8(h + dot + p) =~= trinity_verifier::signing_input(h, p));
    }
}

/// A token has exactly three segments. One without a dot lacks its payload, one
/// with a single dot its signature, and one with more than two has too much.
pub proof fn tokens_have_three_segments(
    a: Seq<char>,
    b: Seq<char>,
    c: Seq<char>,
    rest: Seq<char>,
)
    requires
        !a.contains('.'),
        !b.contains('.'),
        !c.contains('.'),
    ensures
        trinity_verifier::jws_parts(a) == Err::<(Seq<char>, Seq<char>, Seq<char>), Seq<char>>(
            "missing payload"@,
        ),
        trinity_verifier::jws_parts(a + seq!['.'] + b) == Err::<
            (Seq<char>, Seq<char>, Seq<char>),
            Seq<char>,
        >("missing signature"@),
        trinity_verifier::jws_parts(a + seq!['.'] + (b + seq!['.'] + c)) == Ok::<
            (Seq<char>, Seq<char>, Seq<char>),
            Seq<char>,
        >((a, b, c)),
        trinity_verifier::jws_parts(a + seq!['.'] + (b + seq!['.'] + (c + seq!['.'] + rest)))
            == Err::<(Seq<char>, Seq<char>, Seq<char>), Seq<char>>("unexpected extra segment"@),
{
    let dot = seq!['.'];
    text::first_split_loses_nothing(a, '.');
    text::first_split_loses_nothing(b, '.');
    text::first_split_loses_nothing(c, '.');
    text::segments_by_first_split(a, '.');
    text::segments_by_first_split(b, '.');
    text::segments_by_first_split(c, '.');
    text::segments_by_first_split(rest, '.');
    text::segments_of_joined_texts(a, '.', b);
    text::segments_of_joined_texts(b, '.', c);
    text::segments_of_joined_texts(a, '.', b + dot + c);
    text::segments_of_joined_texts(c, '.', rest);
    text::segments_of_joined_texts(b, '.', c + dot + rest);
    text::segments_of_joined_texts(a, '.', b + dot + (c + dot + rest));
}

} // verus!
