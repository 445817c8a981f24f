//! The trusted boundary to the `secp256k1` crate, as `bitcoin` hands it on:
//! keys and signatures, as bytes. Nothing in this file is proved: every
//! contract gives the result a name.

use bitcoin::secp256k1::{ecdsa, schnorr, Keypair, Message, PublicKey, Scalar, Secp256k1, SecretKey, XOnlyPublicKey};
use vstd::prelude::*;

verus! {

/// The public key of a secret key, in compressed form; none where the
/// bytes are no secret key.
pub uninterp spec fn public_of_secret(secret: Seq<u8>) -> Option<Seq<u8>>;

/// The public key that `bytes` serialize, as whether they do so in
/// compressed form and the compressed form itself.
pub uninterp spec fn parsed_point(bytes: Seq<u8>) -> Option<(bool, Seq<u8>)>;

/// The uncompressed form of a public key given in compressed form.
pub uninterp spec fn uncompressed_point(point: Seq<u8>) -> Option<Seq<u8>>;

/// Whether 32 bytes are the x coordinate of a public key.
pub uninterp spec fn xonly_valid(bytes: Seq<u8>) -> bool;

/// The ECDSA signature, in compact form, that `secret` makes of `digest`.
pub uninterp spec fn ecdsa_signature(digest: Seq<u8>, secret: Seq<u8>) -> Option<Seq<u8>>;

/// Whether an ECDSA signature in compact form is one of `digest` by the
/// key `point`; none where the bytes are no signature or no key.
pub uninterp spec fn ecdsa_verified(digest: Seq<u8>, signature: Seq<u8>, point: Seq<u8>) -> Option<
    bool,
>;

/// The compact form of the signature that `bytes` hold in compact form.
pub uninterp spec fn compact_signature(bytes: Seq<u8>) -> Option<Seq<u8>>;

/// The compact form of the signature that `bytes` hold in DER.
pub uninterp spec fn der_signature(bytes: Seq<u8>) -> Option<Seq<u8>>;

/// The DER form of a signature given in compact form.
pub uninterp spec fn signature_der(compact: Seq<u8>) -> Option<Seq<u8>>;

/// The Schnorr signature that `secret` makes of `digest` with auxiliary
/// randomness `aux`.
pub uninterp spec fn schnorr_signature(digest: Seq<u8>, secret: Seq<u8>, aux: Seq<u8>) -> Option<
    Seq<u8>,
>;

/// Whether a Schnorr signature is one of `digest` by the x-only key `key`;
/// none where the bytes are no key.
pub uninterp spec fn schnorr_verified(digest: Seq<u8>, signature: Seq<u8>, key: Seq<u8>) -> Option<
    bool,
>;

/// The negation of a public key, both in compressed form.
pub uninterp spec fn negated_point(point: Seq<u8>) -> Option<Seq<u8>>;

/// The point plus the scalar times the generator; none where the bytes are
/// no key or no scalar, or the sum is no key.
pub uninterp spec fn tweaked_point(point: Seq<u8>, scalar: Seq<u8>) -> Option<Seq<u8>>;

/// The sum of two public keys; none where the sum is no key.
pub uninterp spec fn combined_point(a: Seq<u8>, b: Seq<u8>) -> Option<Seq<u8>>;

/// The value of an optional array of bytes.
pub open spec fn bytes_view<const N: usize>(r: Option<[u8; N]>) -> Option<Seq<u8>> {
    match r {
        Some(a) => Some(a@),
        None => None,
    }
}

/// `SecretKey::from_slice`, `PublicKey::from_secret_key`, then
/// `PublicKey::serialize`. The contract only names the outcome.
#[verifier::external_body]
pub(crate) fn derive_public(secret: &[u8; 32]) -> (r: Option<[u8; 33]>)
    ensures
        bytes_view(r) == public_of_secret(secret@),
{
    let key = SecretKey::from_slice(secret).ok()?;
    Some(PublicKey::from_secret_key(&Secp256k1::new(), &key).serialize())
}

/// `bitcoin::PublicKey::from_slice`, then its `compressed` flag and
/// `PublicKey::serialize` of its point. The contract only names the
/// outcome.
#[verifier::external_body]
pub(crate) fn parse_point(bytes: &[u8]) -> (r: Option<(bool, [u8; 33])>)
    ensures
        match r {
            Some(p) => parsed_point(bytes@) == Some((p.0, p.1@)),
            None => parsed_point(bytes@) is None,
        },
{
    let key = bitcoin::PublicKey::from_slice(bytes).ok()?;
    Some((key.compressed, key.inner.serialize()))
}

/// `PublicKey::from_slice`, then `PublicKey::serialize_uncompressed`. The
/// contract only names the outcome.
#[verifier::external_body]
pub(crate) fn expand_point(point: &[u8; 33]) -> (r: Option<[u8; 65]>)
    ensures
        bytes_view(r) == uncompressed_point(point@),
{
    Some(PublicKey::from_slice(point).ok()?.serialize_uncompressed())
}

/// Whether `XOnlyPublicKey::from_slice` accepts the bytes. The contract
/// only names the outcome.
#[verifier::external_body]
pub(crate) fn check_xonly(bytes: &[u8; 32]) -> (r: bool)
    ensures
        r == xonly_valid(bytes@),
{
    XOnlyPublicKey::from_slice(bytes).is_ok()
}

/// `SecretKey::from_slice`, `Secp256k1::sign_ecdsa`, then
/// `Signature::serialize_compact`. The contract only names the outcome.
#[verifier::external_body]
pub(crate) fn sign_ecdsa(digest: &[u8; 32], secret: &[u8; 32]) -> (r: Option<[u8; 64]>)
    ensures
        bytes_view(r) == ecdsa_signature(digest@, secret@),
{
    let key = SecretKey::from_slice(secret).ok()?;
    Some(Secp256k1::new().sign_ecdsa(&Message::from_digest(*digest), &key).serialize_compact())
}

/// `Signature::from_compact`, `PublicKey::from_slice`, then whether
/// `Secp256k1::verify_ecdsa` accepts. The contract only names the outcome.
#[verifier::external_body]
pub(crate) fn verify_ecdsa(digest: &[u8; 32], signature: &[u8; 64], point: &[u8; 33]) -> (r: Option<
    bool,
>)
    ensures
        r == ecdsa_verified(digest@, signature@, point@),
{
    let sig = ecdsa::Signature::from_compact(signature).ok()?;
    let key = PublicKey::from_slice(point).ok()?;
    Some(Secp256k1::new().verify_ecdsa(&Message::from_digest(*digest), &sig, &key).is_ok())
}

/// `Signature::from_compact`, then `Signature::serialize_compact`. The
/// contract only names the outcome.
#[verifier::external_body]
pub(crate) fn read_compact(bytes: &[u8]) -> (r: Option<[u8; 64]>)
    ensures
        bytes_view(r) == compact_signature(bytes@),
{
    Some(ecdsa::Signature::from_compact(bytes).ok()?.serialize_compact())
}

/// `Signature::from_der`, then `Signature::serialize_compact`. The contract
/// only names the outcome.
#[verifier::external_body]
pub(crate) fn read_der(bytes: &[u8]) -> (r: Option<[u8; 64]>)
    ensures
        bytes_view(r) == der_signature(bytes@),
{
    Some(ecdsa::Signature::from_der(bytes).ok()?.serialize_compact())
}

/// `Signature::from_compact`, then `Signature::serialize_der`. The contract
/// only names the outcome.
#[verifier::external_body]
pub(crate) fn write_der(compact: &[u8; 64]) -> (r: Option<Vec<u8>>)
    ensures
        r.deep_view() == signature_der(compact@),
{
    Some(ecdsa::Signature::from_compact(compact).ok()?.serialize_der().to_vec())
}

/// `SecretKey::from_slice`, `Keypair::from_secret_key`, then
/// `Secp256k1::sign_schnorr_with_aux_rand` and `Signature::serialize`. The
/// contract only names the outcome.
#[verifier::external_body]
pub(crate) fn sign_schnorr(digest: &[u8; 32], secret: &[u8; 32], aux: &[u8; 32]) -> (r: Option<
    [u8; 64],
>)
    ensures
        bytes_view(r) == schnorr_signature(digest@, secret@, aux@),
{
    let secp = Secp256k1::new();
    let pair = Keypair::from_secret_key(&secp, &SecretKey::from_slice(secret).ok()?);
    Some(secp.sign_schnorr_with_aux_rand(&Message::from_digest(*digest), &pair, aux).serialize())
}

/// `schnorr::Signature::from_slice`, `XOnlyPublicKey::from_slice`, then
/// whether `Secp256k1::verify_schnorr` accepts. The contract only names the
/// outcome.
#[verifier::external_body]
pub(crate) fn verify_schnorr(digest: &[u8; 32], signature: &[u8; 64], key: &[u8; 32]) -> (r: Option<
    bool,
>)
    ensures
        r == schnorr_verified(digest@, signature@, key@),
{
    let sig = schnorr::Signature::from_slice(signature).ok()?;
    let key = XOnlyPublicKey::from_slice(key).ok()?;
    Some(Secp256k1::new().verify_schnorr(&sig, &Message::from_digest(*digest), &key).is_ok())
}

/// `PublicKey::from_slice`, `PublicKey::negate`, then
/// `PublicKey::serialize`. The contract only names the outcome.
#[verifier::external_body]
pub(crate) fn negate_point(point: &[u8; 33]) -> (r: Option<[u8; 33]>)
    ensures
        bytes_view(r) == negated_point(point@),
{
    Some(PublicKey::from_slice(point).ok()?.negate(&Secp256k1::new()).serialize())
}

/// `PublicKey::from_slice`, `Scalar::from_be_bytes`, then
/// `PublicKey::add_exp_tweak` and `PublicKey::serialize`. The contract only
/// names the outcome.
#[verifier::external_body]
pub(crate) fn tweak_point(point: &[u8; 33], scalar: &[u8; 32]) -> (r: Option<[u8; 33]>)
    ensures
        bytes_view(r) == tweaked_point(point@, scalar@),
{
    let key = PublicKey::from_slice(point).ok()?;
    let tweak = Scalar::from_be_bytes(*scalar).ok()?;
    Some(key.add_exp_tweak(&Secp256k1::new(), &tweak).ok()?.serialize())
}

/// `PublicKey::from_slice` twice, then `PublicKey::combine` and
/// `PublicKey::serialize`. The contract only names the outcome.
#[verifier::external_body]
pub(crate) fn combine_points(a: &[u8; 33], b: &[u8; 33]) -> (r: Option<[u8; 33]>)
    ensures
        bytes_view(r) == combined_point(a@, b@),
{
    let a = PublicKey::from_slice(a).ok()?;
    Some(a.combine(&PublicKey::from_slice(b).ok()?).ok()?.serialize())
}

/// Whether 32 bytes, read as a big-endian number, are a scalar: a number
/// below the order of the curve.
pub uninterp spec fn scalar_valid(bytes: Seq<u8>) -> bool;

/// Whether `Scalar::from_be_bytes` accepts the bytes. The contract only
/// names the outcome.
#[verifier::external_body]
pub(crate) fn check_scalar(bytes: &[u8; 32]) -> (r: bool)
    ensures
        r == scalar_valid(bytes@),
{
    Scalar::from_be_bytes(*bytes).is_ok()
}

} // verus!
