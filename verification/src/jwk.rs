//! The key set that the issuer publishes.

use crate::base64url;
use crate::crypto;
use crate::crypto::PublicKey;
use crate::text::same_text;
use crate::trinity_verifier::b64url_decode;
use crate::verify_error::{TrinityVerifyError, VerifyFailure};
use vstd::hash_map::StringHashMap;
use vstd::prelude::*;

verus! {

/// One published key.
pub struct Jwk {
    pub kty: String,
    pub crv: Option<String>,
    pub kid: Option<String>,
    pub alg: Option<String>,
    pub x: Option<String>,
    pub y: Option<String>,
}

/// A published key set.
pub struct JwkSet {
    pub keys: Vec<Jwk>,
}

/// [`Jwk`] as contracts speak of it.
pub struct JwkModel {
    pub kty: Seq<char>,
    pub crv: Option<Seq<char>>,
    pub kid: Option<Seq<char>>,
    pub alg: Option<Seq<char>>,
    pub x: Option<Seq<char>>,
    pub y: Option<Seq<char>>,
}

impl View for Jwk {
    type V = JwkModel;

    open spec fn view(&self) -> JwkModel {
        JwkModel {
            kty: self.kty@,
            crv: self.crv.deep_view(),
            kid: self.kid.deep_view(),
            alg: self.alg.deep_view(),
            x: self.x.deep_view(),
            y: self.y.deep_view(),
        }
    }
}

impl View for JwkSet {
    type V = Seq<JwkModel>;

    open spec fn view(&self) -> Seq<JwkModel> {
        self.keys@.map_values(|jwk: Jwk| jwk@)
    }
}

/// A key that the verifier keeps: on secp256k1, not meant for another
/// algorithm, and with an id.
pub open spec fn usable(jwk: JwkModel) -> bool {
    &&& jwk.kty == "EC"@
    &&& jwk.crv == Some("secp256k1"@)
    &&& jwk.alg is None || jwk.alg == Some("ES256K"@)
    &&& jwk.kid is Some
}

/// The SEC1 encoding of a published key, from its two 32-byte coordinates.
pub open spec fn jwk_key(jwk: JwkModel) -> Result<Seq<u8>, VerifyFailure> {
    match (jwk.x, jwk.y) {
        (None, _) => Err(VerifyFailure::InvalidJwk("missing x"@)),
        (Some(_), None) => Err(VerifyFailure::InvalidJwk("missing y"@)),
        (Some(x_b64), Some(y_b64)) => match (
            base64url::decoded(x_b64),
            base64url::decoded(y_b64),
        ) {
            (Err(why), _) => Err(VerifyFailure::Base64(why)),
            (Ok(_), Err(why)) => Err(VerifyFailure::Base64(why)),
            (Ok(x), Ok(y)) => {
                let sec1 = seq![4u8] + x + y;
                if x.len() != 32 || y.len() != 32 {
                    Err(VerifyFailure::InvalidJwk("x and y must be 32 bytes each"@))
                } else if !crypto::on_curve(sec1) {
                    Err(VerifyFailure::InvalidJwk("signature error"@))
                } else {
                    Ok(sec1)
                }
            },
        },
    }
}

/// The keys of a published set by their ids. Keys that are not usable are
/// passed over, a usable key that cannot be rebuilt spoils the set, and of two
/// keys with one id the later counts.
pub open spec fn jwk_table(keys: Seq<JwkModel>) -> Result<Map<Seq<char>, Seq<u8>>, VerifyFailure>
    decreases keys.len(),
{
    if keys.len() == 0 {
        Ok(Map::empty())
    } else {
        match jwk_table(keys.drop_last()) {
            Err(e) => Err(e),
            Ok(table) => if !usable(keys.last()) {
                Ok(table)
            } else {
                match jwk_key(keys.last()) {
                    Err(e) => Err(e),
                    Ok(key) => Ok(table.insert(keys.last().kid->0, key)),
                }
            },
        }
    }
}

/// A table of keys as contracts speak of it.
pub open spec fn key_table(table: Map<Seq<char>, PublicKey>) -> Map<Seq<char>, Seq<u8>> {
    table.map_values(|key: PublicKey| key@)
}

/// Whether an optional text is `expected`.
fn is_text(text: &Option<String>, expected: &str) -> (same: bool)
    ensures
        same == (text.deep_view() == Some(expected@)),
{
    match text {
        Some(t) => same_text(t.as_str(), expected),
        None => false,
    }
}

/// Rebuild a public key from the `x` and `y` fields of a published key: both
/// coordinates are 32 bytes in base64url, put under the SEC1 prefix `0x04`.
pub fn jwk_to_verifying_key(jwk: &Jwk) -> (r: Result<PublicKey, TrinityVerifyError>)
    ensures
        match r {
            Ok(key) => jwk_key(jwk@) == Ok::<Seq<u8>, VerifyFailure>(key@),
            Err(e) => jwk_key(jwk@) == Err::<Seq<u8>, VerifyFailure>(e@),
        },
        r matches Ok(key) ==> {
            &&& jwk.x matches Some(x) && x@ == base64url::encoded(key@.subrange(1, 33))
            &&& jwk.y matches Some(y) && y@ == base64url::encoded(key@.subrange(33, 65))
        },
{
    let x_b64: &String = match &jwk.x {
        Some(x) => x,
        None => return Err(TrinityVerifyError::InvalidJwk("missing x".to_owned())),
    };
    let y_b64: &String = match &jwk.y {
        Some(y) => y,
        None => return Err(TrinityVerifyError::InvalidJwk("missing y".to_owned())),
    };
    let x: Vec<u8> = match b64url_decode(x_b64.as_str()) {
        Ok(bytes) => bytes,
        Err(e) => return Err(e),
    };
    let y: Vec<u8> = match b64url_decode(y_b64.as_str()) {
        Ok(bytes) => bytes,
        Err(e) => return Err(e),
    };
    if x.len() != 32 || y.len() != 32 {
        return Err(TrinityVerifyError::InvalidJwk("x and y must be 32 bytes each".to_owned()));
    }
    let mut sec1: Vec<u8> = Vec::with_capacity(65);
    sec1.push(4);
    sec1.extend_from_slice(x.as_slice());
    sec1.extend_from_slice(y.as_slice());
    assert(sec1@ =~= seq![4u8] + x@ + y@);
    assert(sec1@.subrange(1, 33) =~= x@);
    assert(sec1@.subrange(33, 65) =~= y@);
    match PublicKey::from_sec1(sec1) {
        Ok(key) => Ok(key),
        Err(why) => Err(TrinityVerifyError::InvalidJwk(why)),
    }
}

/// Whether the verifier keeps a published key.
pub fn is_usable(jwk: &Jwk) -> (r: bool)
    ensures
        r == usable(jwk@),
        r ==> jwk.kty@ == "EC"@ && jwk.crv.deep_view() == Some("secp256k1"@) && jwk.kid is Some,
{
    same_text(jwk.kty.as_str(), "EC") && is_text(&jwk.crv, "secp256k1") && (jwk.alg.is_none()
        || is_text(&jwk.alg, "ES256K")) && jwk.kid.is_some()
}

/// The keys of a published set by their ids.
pub fn jwks_to_keys(set: &JwkSet) -> (r: Result<StringHashMap<PublicKey>, TrinityVerifyError>)
    ensures
        match r {
            Ok(table) => jwk_table(set@) == Ok::<Map<Seq<char>, Seq<u8>>, VerifyFailure>(
                key_table(table@),
            ),
            Err(e) => jwk_table(set@) == Err::<Map<Seq<char>, Seq<u8>>, VerifyFailure>(e@),
        },
{
    let mut table: StringHashMap<PublicKey> = StringHashMap::new();
    let mut i: usize = 0;
    assert(key_table(table@) =~= Map::empty());
    while i < set.keys.len()
        invariant
            i <= set.keys@.len(),
            jwk_table(set@.take(i as int)) == Ok::<Map<Seq<char>, Seq<u8>>, VerifyFailure>(
                key_table(table@),
            ),
        decreases set.keys@.len() - i,
    {
        let ghost seen = set@.take(i + 1);
        let ghost before = table@;
        assert(seen.drop_last() =~= set@.take(i as int));
        assert(seen.last() == set.keys@[i as int]@);
        let jwk: &Jwk = &set.keys[i];
        if is_usable(jwk) {
            match jwk_to_verifying_key(jwk) {
                Ok(key) => {
                    if let Some(kid) = &jwk.kid {
                        table.insert(kid.clone(), key);
                        assert(key_table(table@) =~= key_table(before).insert(kid@, key@));
                    }
                },
                Err(e) => {
                    proof {
                        lemma_table_failure(set@, i + 1);
                    }
                    return Err(e);
                },
            }
        }
        i = i + 1;
    }
    assert(set@.take(i as int) =~= set@);
    Ok(table)
}

/// A prefix that spoils the table spoils it for the whole set.
proof fn lemma_table_failure(keys: Seq<JwkModel>, n: int)
    requires
        0 <= n <= keys.len(),
        jwk_table(keys.take(n)) is Err,
    ensures
        jwk_table(keys) == jwk_table(keys.take(n)),
    decreases keys.len(),
{
    if n < keys.len() {
        assert(keys.drop_last().take(n) =~= keys.take(n));
        lemma_table_failure(keys.drop_last(), n);
    } else {
        assert(keys.take(n) =~= keys);
    }
}

} // verus!
