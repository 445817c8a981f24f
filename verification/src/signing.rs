//! Signing and checking signatures of 32-byte messages given in
//! hexadecimal, and arithmetic on public keys.

use crate::bytes::{reversed, reversed_digest, to_array32, to_array64};
use crate::chain::Chain;
use crate::encoding::{decode_hex, hex_decoded};
use crate::key::{EcdsaSignatureInfo, KeyInfo, PrivateKey, PubKey, Signature, key_info, key_info_view};
use crate::btc::wif_text;
use crate::secp::{
    check_scalar, combine_points, combined_point, compact_signature, der_signature,
    ecdsa_signature, ecdsa_verified, negate_point, negated_point, read_compact, read_der,
    scalar_valid, schnorr_signature, schnorr_verified, sign_ecdsa, sign_schnorr, signature_der,
    tweak_point, tweaked_point, verify_ecdsa, verify_schnorr,
};
use vstd::prelude::*;

verus! {

/// Why a message, a key or a signature is refused.
#[derive(Clone, Copy, Debug, PartialEq, Eq, Structural)]
pub enum KeyError {
    /// The message is no hexadecimal text.
    InvalidHexMessage,
    /// The message is not 32 bytes long.
    InvalidMessage,
    /// The signature is no hexadecimal text.
    SignatureNotHex,
    /// The bytes are no signature.
    InvalidSignature,
    /// The bytes are no signature in DER.
    InvalidDerSignature,
    /// The bytes are no key.
    InvalidKey,
    /// The scalar is no hexadecimal text of 32 bytes.
    InvalidScalarHex,
    /// The scalar is not below the order of the curve.
    InvalidScalar,
    /// The result of the operation is no key.
    InvalidResult,
}

impl KeyError {
    pub open spec fn spec_message(self) -> Seq<char> {
        match self {
            KeyError::InvalidHexMessage => "invalid hex message"@,
            KeyError::InvalidMessage => "invalid message to be signed"@,
            KeyError::SignatureNotHex => "invalid signature: not hex"@,
            KeyError::InvalidSignature => "invalid signature"@,
            KeyError::InvalidDerSignature => "invalid DER signature"@,
            KeyError::InvalidKey => "invalid key"@,
            KeyError::InvalidScalarHex => "invalid scalar hex"@,
            KeyError::InvalidScalar => "invalid scalar"@,
            KeyError::InvalidResult => "the result is not a valid key"@,
        }
    }

    /// The sentence that describes the error.
    pub fn message(self) -> (r: &'static str)
        ensures
            r@ == self.spec_message(),
    {
        match self {
            KeyError::InvalidHexMessage => "invalid hex message",
            KeyError::InvalidMessage => "invalid message to be signed",
            KeyError::SignatureNotHex => "invalid signature: not hex",
            KeyError::InvalidSignature => "invalid signature",
            KeyError::InvalidDerSignature => "invalid DER signature",
            KeyError::InvalidKey => "invalid key",
            KeyError::InvalidScalarHex => "invalid scalar hex",
            KeyError::InvalidScalar => "invalid scalar",
            KeyError::InvalidResult => "the result is not a valid key",
        }
    }
}

/// The message that a hexadecimal text holds: its bytes, in opposite order
/// if `reverse` is set. It must be 32 bytes long.
pub open spec fn digest_of(message_hex: Seq<char>, reverse: bool) -> Result<Seq<u8>, KeyError> {
    match hex_decoded(message_hex) {
        None => Err(KeyError::InvalidHexMessage),
        Some(bytes) => if bytes.len() != 32 {
            Err(KeyError::InvalidMessage)
        } else if reverse {
            Ok(bytes.reverse())
        } else {
            Ok(bytes)
        },
    }
}

/// The value of a message or of its refusal.
pub open spec fn digest_view(r: Result<[u8; 32], KeyError>) -> Result<Seq<u8>, KeyError> {
    match r {
        Ok(d) => Ok(d@),
        Err(e) => Err(e),
    }
}

/// Reads the message to sign or to check.
pub fn read_digest(message_hex: &str, reverse: bool) -> (r: Result<[u8; 32], KeyError>)
    ensures
        digest_view(r) == digest_of(message_hex@, reverse),
{
    let bytes = match decode_hex(message_hex) {
        Some(bytes) => bytes,
        None => {
            return Err(KeyError::InvalidHexMessage);
        },
    };
    let bytes = if reverse {
        reversed(&bytes)
    } else {
        bytes
    };
    if bytes.len() != 32 {
        return Err(KeyError::InvalidMessage);
    }
    Ok(to_array32(&bytes))
}

/// The ECDSA signature of the message by the key, in both serializations.
pub open spec fn ecdsa_signed(secret: Seq<u8>, message_hex: Seq<char>, reverse: bool) -> Result<
    (Seq<u8>, Seq<u8>),
    KeyError,
> {
    match digest_of(message_hex, reverse) {
        Err(e) => Err(e),
        Ok(digest) => match ecdsa_signature(digest, secret) {
            None => Err(KeyError::InvalidKey),
            Some(compact) => match signature_der(compact) {
                None => Err(KeyError::InvalidSignature),
                Some(der) => Ok((der, compact)),
            },
        },
    }
}

/// Signs a 32-byte message, given in hexadecimal, with ECDSA.
pub fn ecdsa_sign(privkey: &PrivateKey, message_hex: &str, reverse: bool) -> (r: Result<
    EcdsaSignatureInfo,
    KeyError,
>)
    ensures
        match r {
            Ok(info) => ecdsa_signed(privkey.secret@, message_hex@, reverse) == Ok::<
                (Seq<u8>, Seq<u8>),
                KeyError,
            >((info@.der, info@.compact)),
            Err(e) => ecdsa_signed(privkey.secret@, message_hex@, reverse) == Err::<
                (Seq<u8>, Seq<u8>),
                KeyError,
            >(e),
        },
{
    let digest = match read_digest(message_hex, reverse) {
        Ok(digest) => digest,
        Err(e) => {
            return Err(e);
        },
    };
    let compact = match sign_ecdsa(&digest, &privkey.secret) {
        Some(compact) => compact,
        None => {
            return Err(KeyError::InvalidKey);
        },
    };
    match Signature(compact).get_info(Chain::Bitcoin) {
        Some(info) => Ok(info),
        None => Err(KeyError::InvalidSignature),
    }
}

/// What to tell the user of a signature that is valid only for the message
/// in opposite byte order.
#[derive(Clone, Copy, Debug, PartialEq, Eq, Structural)]
pub enum ReverseHint {
    /// Nothing: the signature is valid as given, or invalid either way, or
    /// the other order was not tried.
    Nothing,
    /// The message was reversed on request: it should not be.
    DropReverse,
    /// The message was taken as given: it should be reversed.
    TryReverse,
}

/// The outcome of checking a signature.
#[derive(Clone, Copy, Debug, PartialEq, Eq, Structural)]
pub struct Verification {
    /// Whether the signature is valid for the message as asked.
    pub valid: bool,
    pub hint: ReverseHint,
}

/// The outcome, given whether the signature is valid for the message as
/// asked and for the message in opposite order. The opposite order counts
/// only where the first check fails and trying was not switched off.
pub open spec fn verification(valid: bool, valid_reversed: bool, reverse: bool, no_try_reverse: bool) -> Verification {
    Verification {
        valid,
        hint: if !valid && !no_try_reverse && valid_reversed {
            if reverse {
                ReverseHint::DropReverse
            } else {
                ReverseHint::TryReverse
            }
        } else {
            ReverseHint::Nothing
        },
    }
}

/// Decides what to report of a signature check.
pub fn judge_verification(valid: bool, valid_reversed: bool, reverse: bool, no_try_reverse: bool) -> (r:
    Verification)
    ensures
        r == verification(valid, valid_reversed, reverse, no_try_reverse),
        r.valid == valid,
        r.hint != ReverseHint::Nothing ==> !valid && valid_reversed && !no_try_reverse,
{
    let hint = if !valid && !no_try_reverse && valid_reversed {
        if reverse {
            ReverseHint::DropReverse
        } else {
            ReverseHint::TryReverse
        }
    } else {
        ReverseHint::Nothing
    };
    Verification { valid, hint }
}

/// The signature that a hexadecimal text holds: in compact form if it is
/// 64 bytes long, in DER otherwise.
pub open spec fn ecdsa_signature_of(signature_hex: Seq<char>) -> Result<Seq<u8>, KeyError> {
    match hex_decoded(signature_hex) {
        None => Err(KeyError::SignatureNotHex),
        Some(bytes) => if bytes.len() == 64 {
            match compact_signature(bytes) {
                Some(s) => Ok(s),
                None => Err(KeyError::InvalidSignature),
            }
        } else {
            match der_signature(bytes) {
                Some(s) => Ok(s),
                None => Err(KeyError::InvalidDerSignature),
            }
        },
    }
}

/// Reads an ECDSA signature.
pub fn read_ecdsa_signature(signature_hex: &str) -> (r: Result<[u8; 64], KeyError>)
    ensures
        match r {
            Ok(s) => ecdsa_signature_of(signature_hex@) == Ok::<Seq<u8>, KeyError>(s@),
            Err(e) => ecdsa_signature_of(signature_hex@) == Err::<Seq<u8>, KeyError>(e),
        },
{
    let bytes = match decode_hex(signature_hex) {
        Some(bytes) => bytes,
        None => {
            return Err(KeyError::SignatureNotHex);
        },
    };
    if bytes.len() == 64 {
        match read_compact(bytes.as_slice()) {
            Some(s) => Ok(s),
            None => Err(KeyError::InvalidSignature),
        }
    } else {
        match read_der(bytes.as_slice()) {
            Some(s) => Ok(s),
            None => Err(KeyError::InvalidDerSignature),
        }
    }
}

/// What checking an ECDSA signature comes to.
pub open spec fn ecdsa_checked(
    message_hex: Seq<char>,
    point: Seq<u8>,
    signature_hex: Seq<char>,
    reverse: bool,
    no_try_reverse: bool,
) -> Result<Verification, KeyError> {
    match digest_of(message_hex, reverse) {
        Err(e) => Err(e),
        Ok(digest) => match ecdsa_signature_of(signature_hex) {
            Err(e) => Err(e),
            Ok(signature) => match ecdsa_verified(digest, signature, point) {
                None => Err(KeyError::InvalidKey),
                Some(valid) => Ok(
                    verification(
                        valid,
                        ecdsa_verified(digest.reverse(), signature, point) == Some(true),
                        reverse,
                        no_try_reverse,
                    ),
                ),
            },
        },
    }
}

/// Checks an ECDSA signature of a 32-byte message, both given in
/// hexadecimal. Where the signature is invalid, the message is also tried in
/// opposite byte order, unless that is switched off.
pub fn ecdsa_verify(
    message_hex: &str,
    pubkey: &PubKey,
    signature_hex: &str,
    reverse: bool,
    no_try_reverse: bool,
) -> (r: Result<Verification, KeyError>)
    ensures
        r == ecdsa_checked(message_hex@, pubkey.point@, signature_hex@, reverse, no_try_reverse),
{
    let digest = match read_digest(message_hex, reverse) {
        Ok(digest) => digest,
        Err(e) => {
            return Err(e);
        },
    };
    let signature = match read_ecdsa_signature(signature_hex) {
        Ok(signature) => signature,
        Err(e) => {
            return Err(e);
        },
    };
    let valid = match verify_ecdsa(&digest, &signature, &pubkey.point) {
        Some(valid) => valid,
        None => {
            return Err(KeyError::InvalidKey);
        },
    };
    let mut valid_reversed = false;
    if !valid && !no_try_reverse {
        let other = reversed_digest(&digest);
        valid_reversed = match verify_ecdsa(&other, &signature, &pubkey.point) {
            Some(v) => v,
            None => false,
        };
    }
    Ok(judge_verification(valid, valid_reversed, reverse, no_try_reverse))
}

/// The Schnorr signature of the message by the key.
pub open spec fn schnorr_signed(secret: Seq<u8>, message_hex: Seq<char>, reverse: bool, aux: Seq<u8>) -> Result<
    Seq<u8>,
    KeyError,
> {
    match digest_of(message_hex, reverse) {
        Err(e) => Err(e),
        Ok(digest) => match schnorr_signature(digest, secret, aux) {
            None => Err(KeyError::InvalidKey),
            Some(signature) => Ok(signature),
        },
    }
}

/// Signs a 32-byte message, given in hexadecimal, with Schnorr. The
/// auxiliary randomness is the caller's to draw.
pub fn schnorr_sign(privkey: &PrivateKey, message_hex: &str, reverse: bool, aux: &[u8; 32]) -> (r: Result<
    [u8; 64],
    KeyError,
>)
    ensures
        match r {
            Ok(s) => schnorr_signed(privkey.secret@, message_hex@, reverse, aux@) == Ok::<
                Seq<u8>,
                KeyError,
            >(s@),
            Err(e) => schnorr_signed(privkey.secret@, message_hex@, reverse, aux@) == Err::<
                Seq<u8>,
                KeyError,
            >(e),
        },
{
    let digest = match read_digest(message_hex, reverse) {
        Ok(digest) => digest,
        Err(e) => {
            return Err(e);
        },
    };
    match sign_schnorr(&digest, &privkey.secret, aux) {
        Some(signature) => Ok(signature),
        None => Err(KeyError::InvalidKey),
    }
}

/// The Schnorr signature that a hexadecimal text holds: 64 bytes.
pub open spec fn schnorr_signature_of(signature_hex: Seq<char>) -> Result<Seq<u8>, KeyError> {
    match hex_decoded(signature_hex) {
        None => Err(KeyError::SignatureNotHex),
        Some(bytes) => if bytes.len() == 64 {
            Ok(bytes)
        } else {
            Err(KeyError::InvalidSignature)
        },
    }
}

/// What checking a Schnorr signature comes to.
pub open spec fn schnorr_checked(
    message_hex: Seq<char>,
    key: Seq<u8>,
    signature_hex: Seq<char>,
    reverse: bool,
    no_try_reverse: bool,
) -> Result<Verification, KeyError> {
    match digest_of(message_hex, reverse) {
        Err(e) => Err(e),
        Ok(digest) => match schnorr_signature_of(signature_hex) {
            Err(e) => Err(e),
            Ok(signature) => match schnorr_verified(digest, signature, key) {
                None => Err(KeyError::InvalidKey),
                Some(valid) => Ok(
                    verification(
                        valid,
                        schnorr_verified(digest.reverse(), signature, key) == Some(true),
                        reverse,
                        no_try_reverse,
                    ),
                ),
            },
        },
    }
}

/// Checks a Schnorr signature of a 32-byte message, both given in
/// hexadecimal, against an x-only public key. Where the signature is
/// invalid, the message is also tried in opposite byte order, unless that
/// is switched off.
pub fn schnorr_verify(
    message_hex: &str,
    pubkey: &[u8; 32],
    signature_hex: &str,
    reverse: bool,
    no_try_reverse: bool,
) -> (r: Result<Verification, KeyError>)
    ensures
        r == schnorr_checked(message_hex@, pubkey@, signature_hex@, reverse, no_try_reverse),
{
    let digest = match read_digest(message_hex, reverse) {
        Ok(digest) => digest,
        Err(e) => {
            return Err(e);
        },
    };
    let bytes = match decode_hex(signature_hex) {
        Some(bytes) => bytes,
        None => {
            return Err(KeyError::SignatureNotHex);
        },
    };
    if bytes.len() != 64 {
        return Err(KeyError::InvalidSignature);
    }
    let signature = to_array64(&bytes);
    let valid = match verify_schnorr(&digest, &signature, pubkey) {
        Some(valid) => valid,
        None => {
            return Err(KeyError::InvalidKey);
        },
    };
    let mut valid_reversed = false;
    if !valid && !no_try_reverse {
        let other = reversed_digest(&digest);
        valid_reversed = match verify_schnorr(&other, &signature, pubkey) {
            Some(v) => v,
            None => false,
        };
    }
    Ok(judge_verification(valid, valid_reversed, reverse, no_try_reverse))
}

/// Makes the report on a new private key from 32 bytes of entropy, for
/// `chain`. The public key is used in compressed form.
pub fn generate(entropy: [u8; 32], chain: Chain) -> (r: Option<KeyInfo>)
    ensures
        key_info_view(r) == key_info(
            entropy@,
            true,
            wif_text(entropy@, true, chain.spec_is_mainnet()),
            chain,
        ),
{
    let privkey = PrivateKey { compressed: true, mainnet: chain.is_mainnet(), secret: entropy };
    privkey.get_info(chain)
}

/// The negation of a public key.
pub fn negate_pubkey(key: &PubKey) -> (r: Option<[u8; 33]>)
    ensures
        crate::secp::bytes_view(r) == negated_point(key.point@),
{
    negate_point(&key.point)
}

/// The scalar that a hexadecimal text holds: 32 bytes that are below the
/// order of the curve.
pub open spec fn scalar_of(scalar_hex: Seq<char>) -> Result<Seq<u8>, KeyError> {
    match hex_decoded(scalar_hex) {
        None => Err(KeyError::InvalidScalarHex),
        Some(bytes) => if bytes.len() != 32 {
            Err(KeyError::InvalidScalarHex)
        } else if !scalar_valid(bytes) {
            Err(KeyError::InvalidScalar)
        } else {
            Ok(bytes)
        },
    }
}

/// Reads a scalar.
pub fn read_scalar(scalar_hex: &str) -> (r: Result<[u8; 32], KeyError>)
    ensures
        digest_view(r) == scalar_of(scalar_hex@),
{
    let bytes = match decode_hex(scalar_hex) {
        Some(bytes) => bytes,
        None => {
            return Err(KeyError::InvalidScalarHex);
        },
    };
    if bytes.len() != 32 {
        return Err(KeyError::InvalidScalarHex);
    }
    let scalar = to_array32(&bytes);
    if !check_scalar(&scalar) {
        return Err(KeyError::InvalidScalar);
    }
    Ok(scalar)
}

/// The point with the scalar times the generator added to it.
pub open spec fn tweak_added(point: Seq<u8>, scalar_hex: Seq<char>) -> Result<Seq<u8>, KeyError> {
    match scalar_of(scalar_hex) {
        Err(e) => Err(e),
        Ok(scalar) => match tweaked_point(point, scalar) {
            None => Err(KeyError::InvalidResult),
            Some(sum) => Ok(sum),
        },
    }
}

/// Adds a scalar, given in hexadecimal, times the generator to a point.
pub fn pubkey_tweak_add(point: &PubKey, scalar_hex: &str) -> (r: Result<[u8; 33], KeyError>)
    ensures
        digest_view33(r) == tweak_added(point.point@, scalar_hex@),
{
    let scalar = match read_scalar(scalar_hex) {
        Ok(scalar) => scalar,
        Err(e) => {
            return Err(e);
        },
    };
    match tweak_point(&point.point, &scalar) {
        Some(sum) => Ok(sum),
        None => Err(KeyError::InvalidResult),
    }
}

/// The value of a point or of its refusal.
pub open spec fn digest_view33(r: Result<[u8; 33], KeyError>) -> Result<Seq<u8>, KeyError> {
    match r {
        Ok(d) => Ok(d@),
        Err(e) => Err(e),
    }
}

/// Adds two points.
pub fn pubkey_combine(a: &PubKey, b: &PubKey) -> (r: Result<[u8; 33], KeyError>)
    ensures
        digest_view33(r) == (match combined_point(a.point@, b.point@) {
            Some(sum) => Ok::<Seq<u8>, KeyError>(sum),
            None => Err::<Seq<u8>, KeyError>(KeyError::InvalidResult),
        }),
{
    match combine_points(&a.point, &b.point) {
        Some(sum) => Ok(sum),
        None => Err(KeyError::InvalidResult),
    }
}

/// Reversing a message twice gives the message back, and the message read
/// in reverse is the reverse of the message read as given.
pub proof fn lemma_reverse_twice(message_hex: Seq<char>)
    ensures
        digest_of(message_hex, false) matches Ok(d) ==> digest_of(message_hex, true) == Ok::<
            Seq<u8>,
            KeyError,
        >(d.reverse()) && d.reverse().reverse() == d && d.reverse().len() == 32,
        digest_of(message_hex, false) matches Err(e) ==> digest_of(message_hex, true) == Err::<
            Seq<u8>,
            KeyError,
        >(e),
{
    if digest_of(message_hex, false) is Ok {
        let d = digest_of(message_hex, false)->Ok_0;
        assert(d.reverse().reverse() =~= d);
    }
}

/// The hint is right: where an ECDSA check fails with a hint, the same
/// check with the `reverse` switch turned the other way finds the signature
/// valid.
pub proof fn lemma_ecdsa_hint_is_right(
    message_hex: Seq<char>,
    point: Seq<u8>,
    signature_hex: Seq<char>,
    reverse: bool,
)
    requires
        ecdsa_checked(message_hex, point, signature_hex, reverse, false) matches Ok(v) && v.hint
            != ReverseHint::Nothing,
    ensures
        ecdsa_checked(message_hex, point, signature_hex, !reverse, false) matches Ok(v) && v.valid,
        ecdsa_checked(message_hex, point, signature_hex, reverse, false)->Ok_0.hint == (if reverse {
            ReverseHint::DropReverse
        } else {
            ReverseHint::TryReverse
        }),
{
    lemma_reverse_twice(message_hex);
}

/// The hint is right for Schnorr signatures too.
pub proof fn lemma_schnorr_hint_is_right(
    message_hex: Seq<char>,
    key: Seq<u8>,
    signature_hex: Seq<char>,
    reverse: bool,
)
    requires
        schnorr_checked(message_hex, key, signature_hex, reverse, false) matches Ok(v) && v.hint
            != ReverseHint::Nothing,
    ensures
        schnorr_checked(message_hex, key, signature_hex, !reverse, false) matches Ok(v) && v.valid,
{
    lemma_reverse_twice(message_hex);
}

/// No hint is given where trying the other order is switched off, nor where
/// the signature is valid.
pub proof fn lemma_no_hint(valid: bool, valid_reversed: bool, reverse: bool, no_try_reverse: bool)
    ensures
        valid || no_try_reverse ==> verification(valid, valid_reversed, reverse, no_try_reverse).hint
            == ReverseHint::Nothing,
{
}

} // verus!
