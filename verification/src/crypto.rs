//! SHA-256 and the secp256k1 signature check that `ES256K` tokens rest on.

use k256::ecdsa::signature::hazmat::PrehashVerifier;
use k256::ecdsa::{Signature, VerifyingKey};
use sha2::{Digest, Sha256};
use vstd::prelude::*;

verus! {

/// The number that `bytes` write, most significant byte first.
pub open spec fn big_endian(bytes: Seq<u8>) -> nat
    decreases bytes.len(),
{
    if bytes.len() == 0 {
        0
    } else {
        256 * big_endian(bytes.drop_last()) + bytes.last() as nat
    }
}

/// The prime over which secp256k1 is defined.
pub open spec fn field_prime() -> nat {
    0xFFFFFFFFFFFFFFFFFFFFFFFFFFFFFFFFFFFFFFFFFFFFFFFFFFFFFFFEFFFFFC2Fnat
}

/// The order of the secp256k1 group.
pub open spec fn group_order() -> nat {
    0xFFFFFFFFFFFFFFFFFFFFFFFFFFFFFFFEBAAEDCE6AF48A03BBFD25E8CD0364141nat
}

/// The shape of an uncompressed SEC1 point: the tag `4`, then both coordinates.
pub open spec fn uncompressed(sec1: Seq<u8>) -> bool {
    sec1.len() == 65 && sec1[0] == 4
}

/// Both coordinates are below the prime and satisfy `y^2 = x^3 + 7`.
pub open spec fn on_curve(sec1: Seq<u8>) -> bool {
    let x = big_endian(sec1.subrange(1, 33));
    let y = big_endian(sec1.subrange(33, 65));
    x < field_prime() && y < field_prime() && (y * y) % field_prime() == (x * x * x + 7)
        % field_prime()
}

/// The first half of a signature, as a number.
pub open spec fn r_part(signature: Seq<u8>) -> nat {
    big_endian(signature.take(32))
}

/// The second half of a signature, as a number.
pub open spec fn s_part(signature: Seq<u8>) -> nat {
    big_endian(signature.skip(32))
}

/// Both halves of a signature lie in `1..n`.
pub open spec fn signature_in_range(signature: Seq<u8>) -> bool {
    &&& signature.len() == 64
    &&& 0 < r_part(signature) < group_order()
    &&& 0 < s_part(signature) < group_order()
}

/// The SHA-256 digest of `data`.
pub uninterp spec fn sha256(data: Seq<u8>) -> Seq<u8>;

/// Whether the ECDSA check of `signature` over `digest` succeeds for the public
/// key `sec1`.
pub uninterp spec fn ecdsa_accepts(sec1: Seq<u8>, digest: Seq<u8>, signature: Seq<u8>) -> bool;

/// `Sha256::digest` of the `sha2` crate. The digest is left as a name; it is 32
/// bytes long.
#[verifier::external_body]
pub(crate) fn sha256_digest(data: &[u8]) -> (digest: Vec<u8>)
    ensures
        digest@ == sha256(data@),
        digest@.len() == 32,
{
    Sha256::digest(data).to_vec()
}

/// `VerifyingKey::from_sec1_bytes` of the `k256` crate, on uncompressed points:
/// it accepts those on the curve, and the error of the others displays as
/// `signature error`.
#[verifier::external_body]
pub(crate) fn check_sec1(sec1: &[u8]) -> (r: Result<(), String>)
    requires
        uncompressed(sec1@),
    ensures
        match r {
            Ok(_) => on_curve(sec1@),
            Err(complaint) => !on_curve(sec1@) && complaint@ == "signature error"@,
        },
{
    VerifyingKey::from_sec1_bytes(sec1).map(|_| ()).map_err(|e| e.to_string())
}

/// `Signature::from_slice` of the `k256` crate: it accepts 64 bytes of which
/// both halves are in `1..n`.
#[verifier::external_body]
pub(crate) fn check_signature(signature: &[u8]) -> (ok: bool)
    ensures
        ok == signature_in_range(signature@),
{
    Signature::from_slice(signature).is_ok()
}

/// `PrehashVerifier::verify_prehash` of the `k256` crate, on a key and a
/// signature that parse. Its answer is left as a name; a signature whose second
/// half is above half the group order is never accepted.
#[verifier::external_body]
pub(crate) fn verify_prehash(sec1: &[u8], digest: &[u8], signature: &[u8]) -> (ok: bool)
    requires
        uncompressed(sec1@),
        on_curve(sec1@),
        digest@.len() == 32,
        signature_in_range(signature@),
    ensures
        ok == ecdsa_accepts(sec1@, digest@, signature@),
        ok ==> s_part(signature@) <= group_order() / 2,
{
    match (VerifyingKey::from_sec1_bytes(sec1), Signature::from_slice(signature)) {
        (Ok(key), Ok(parsed)) => key.verify_prehash(digest, &parsed).is_ok(),
        _ => false,
    }
}

/// A secp256k1 public key, held as the uncompressed SEC1 encoding of a point on
/// the curve.
pub struct PublicKey {
    sec1: Vec<u8>,
}

impl View for PublicKey {
    type V = Seq<u8>;

    closed spec fn view(&self) -> Seq<u8> {
        self.sec1@
    }
}

impl PublicKey {
    #[verifier::type_invariant]
    spec fn on_the_curve(self) -> bool {
        uncompressed(self.sec1@) && on_curve(self.sec1@)
    }

    /// Take a key from its uncompressed SEC1 encoding. The error is that of the
    /// curve check.
    pub fn from_sec1(sec1: Vec<u8>) -> (r: Result<PublicKey, String>)
        requires
            uncompressed(sec1@),
        ensures
            match r {
                Ok(key) => on_curve(sec1@) && key@ == sec1@,
                Err(complaint) => !on_curve(sec1@) && complaint@ == "signature error"@,
            },
    {
        match check_sec1(sec1.as_slice()) {
            Ok(_) => Ok(PublicKey { sec1 }),
            Err(complaint) => Err(complaint),
        }
    }

    /// The uncompressed SEC1 encoding.
    pub fn sec1_bytes(&self) -> (bytes: &[u8])
        ensures
            bytes@ == self@,
            uncompressed(self@),
            on_curve(self@),
    {
        proof {
            use_type_invariant(self);
        }
        self.sec1.as_slice()
    }

    /// Another copy of the key.
    pub fn duplicate(&self) -> (copy: PublicKey)
        ensures
            copy@ == self@,
    {
        proof {
            use_type_invariant(self);
        }
        let sec1: Vec<u8> = self.sec1.clone();
        assert(sec1@ =~= self.sec1@);
        PublicKey { sec1 }
    }

    /// Whether `signature` over `digest` is this key's.
    pub fn accepts(&self, digest: &[u8], signature: &[u8]) -> (ok: bool)
        requires
            digest@.len() == 32,
            signature_in_range(signature@),
        ensures
            ok == ecdsa_accepts(self@, digest@, signature@),
            ok ==> s_part(signature@) <= group_order() / 2,
    {
        verify_prehash(self.sec1_bytes(), digest, signature)
    }
}

} // verus!
