//! Keys and signatures as plain bytes, and the reports on them.

use crate::address::{Addresses, AddressesView};
use crate::btc::{wif_of, wif_text};
use crate::chain::Chain;
use crate::secp::{
    derive_public, expand_point, public_of_secret, signature_der, uncompressed_point, write_der,
};
use crate::bytes::{copy_bytes, copy_range};
use vstd::prelude::*;

verus! {

/// A secret key.
#[derive(Clone, Debug, PartialEq, Eq)]
pub struct SecretKey(pub [u8; 32]);

/// A private key as wallets keep it: the secret key, whether its public key
/// is used in compressed form, and the kind of network it is for.
#[derive(Clone, Debug, PartialEq, Eq)]
pub struct PrivateKey {
    pub compressed: bool,
    pub mainnet: bool,
    pub secret: [u8; 32],
}

/// A public key: the point in compressed form, and whether the key is used
/// in compressed form.
#[derive(Clone, Debug, PartialEq, Eq)]
pub struct PubKey {
    pub compressed: bool,
    pub point: [u8; 33],
}

/// An ECDSA signature in compact form.
#[derive(Clone, Debug, PartialEq, Eq)]
pub struct Signature(pub [u8; 64]);

/// The report on a private key.
#[derive(Clone, Debug, PartialEq, Eq)]
pub struct KeyInfo {
    pub raw_private_key: Vec<u8>,
    /// The key in wallet import format, where it came as a private key.
    pub wif_private_key: Option<String>,
    /// The public key, serialized in the form it is used in.
    pub public_key: Vec<u8>,
    /// The x coordinate of the public key.
    pub xonly_public_key: Vec<u8>,
    pub uncompressed_public_key: Vec<u8>,
    pub addresses: Addresses,
}

/// The mathematical value of a [`KeyInfo`].
pub struct KeyInfoView {
    pub raw_private_key: Seq<u8>,
    pub wif_private_key: Option<Seq<char>>,
    pub public_key: Seq<u8>,
    pub xonly_public_key: Seq<u8>,
    pub uncompressed_public_key: Seq<u8>,
    pub addresses: AddressesView,
}

impl View for KeyInfo {
    type V = KeyInfoView;

    open spec fn view(&self) -> KeyInfoView {
        KeyInfoView {
            raw_private_key: self.raw_private_key@,
            wif_private_key: self.wif_private_key.deep_view(),
            public_key: self.public_key@,
            xonly_public_key: self.xonly_public_key@,
            uncompressed_public_key: self.uncompressed_public_key@,
            addresses: self.addresses@,
        }
    }
}

/// The report on a public key.
#[derive(Clone, Debug, PartialEq, Eq)]
pub struct PublicKeyInfo {
    /// The key in compressed form.
    pub public_key: Vec<u8>,
    pub uncompressed_public_key: Vec<u8>,
    pub addresses: Addresses,
}

/// The mathematical value of a [`PublicKeyInfo`].
pub struct PublicKeyInfoView {
    pub public_key: Seq<u8>,
    pub uncompressed_public_key: Seq<u8>,
    pub addresses: AddressesView,
}

impl View for PublicKeyInfo {
    type V = PublicKeyInfoView;

    open spec fn view(&self) -> PublicKeyInfoView {
        PublicKeyInfoView {
            public_key: self.public_key@,
            uncompressed_public_key: self.uncompressed_public_key@,
            addresses: self.addresses@,
        }
    }
}

/// An ECDSA signature in its two serializations.
#[derive(Clone, Debug, PartialEq, Eq)]
pub struct EcdsaSignatureInfo {
    pub der: Vec<u8>,
    pub compact: Vec<u8>,
}

/// The mathematical value of an [`EcdsaSignatureInfo`].
pub struct EcdsaSignatureInfoView {
    pub der: Seq<u8>,
    pub compact: Seq<u8>,
}

impl View for EcdsaSignatureInfo {
    type V = EcdsaSignatureInfoView;

    open spec fn view(&self) -> EcdsaSignatureInfoView {
        EcdsaSignatureInfoView { der: self.der@, compact: self.compact@ }
    }
}

/// The x coordinate of a point given in compressed form: what follows the
/// first byte.
pub open spec fn xonly_of(point: Seq<u8>) -> Seq<u8> {
    point.subrange(1, 33)
}

/// The report on the secret key `secret`, whose public key is used as
/// `compressed` says and whose wallet import format, if any, is `wif`; none
/// where the bytes are no secret key.
pub open spec fn key_info(secret: Seq<u8>, compressed: bool, wif: Option<Seq<char>>, chain: Chain) -> Option<
    KeyInfoView,
> {
    match public_of_secret(secret) {
        None => None,
        Some(point) => match uncompressed_point(point) {
            None => None,
            Some(uncompressed) => Some(
                KeyInfoView {
                    raw_private_key: secret,
                    wif_private_key: wif,
                    public_key: if compressed {
                        point
                    } else {
                        uncompressed
                    },
                    xonly_public_key: xonly_of(point),
                    uncompressed_public_key: uncompressed,
                    addresses: AddressesView::of_pubkey(point, compressed, chain),
                },
            ),
        },
    }
}

/// The value of an optional key report.
pub open spec fn key_info_view(r: Option<KeyInfo>) -> Option<KeyInfoView> {
    match r {
        Some(info) => Some(info@),
        None => None,
    }
}

fn report_key(secret: &[u8; 32], compressed: bool, wif: Option<String>, chain: Chain) -> (r: Option<
    KeyInfo,
>)
    ensures
        key_info_view(r) == key_info(secret@, compressed, wif.deep_view(), chain),
{
    let point = match derive_public(secret) {
        Some(point) => point,
        None => {
            return None;
        },
    };
    let uncompressed = match expand_point(&point) {
        Some(uncompressed) => uncompressed,
        None => {
            return None;
        },
    };
    let pubkey = PubKey { compressed, point };
    let xonly = copy_range(&point, 1, 33);
    Some(
        KeyInfo {
            raw_private_key: copy_bytes(secret.as_slice()),
            wif_private_key: wif,
            public_key: if compressed {
                copy_bytes(point.as_slice())
            } else {
                copy_bytes(uncompressed.as_slice())
            },
            xonly_public_key: xonly,
            uncompressed_public_key: copy_bytes(uncompressed.as_slice()),
            addresses: Addresses::from_pubkey(&pubkey, chain),
        },
    )
}

impl PrivateKey {
    /// The report on this key: the key itself in both forms, its public key
    /// in three forms, and the addresses of the public key on `chain`.
    pub fn get_info(&self, chain: Chain) -> (r: Option<KeyInfo>)
        ensures
            key_info_view(r) == key_info(
                self.secret@,
                self.compressed,
                wif_text(self.secret@, self.compressed, self.mainnet),
                chain,
            ),
    {
        let wif = wif_of(&self.secret, self.compressed, self.mainnet);
        report_key(&self.secret, self.compressed, wif, chain)
    }
}

impl SecretKey {
    /// The report on this key, with its public key in compressed form. A
    /// bare secret key has no wallet import format.
    pub fn get_info(&self, chain: Chain) -> (r: Option<KeyInfo>)
        ensures
            key_info_view(r) == key_info(self.0@, true, None, chain),
    {
        report_key(&self.0, true, None, chain)
    }
}

/// The report on a public key; none where the bytes are no point.
pub open spec fn public_key_info(point: Seq<u8>, compressed: bool, chain: Chain) -> Option<
    PublicKeyInfoView,
> {
    match uncompressed_point(point) {
        None => None,
        Some(uncompressed) => Some(
            PublicKeyInfoView {
                public_key: point,
                uncompressed_public_key: uncompressed,
                addresses: AddressesView::of_pubkey(point, compressed, chain),
            },
        ),
    }
}

impl PubKey {
    /// The report on this key: its compressed and uncompressed forms, and
    /// its addresses on `chain` in the form it is used in.
    pub fn get_info(&self, chain: Chain) -> (r: Option<PublicKeyInfo>)
        ensures
            match r {
                Some(info) => public_key_info(self.point@, self.compressed, chain) == Some(info@),
                None => public_key_info(self.point@, self.compressed, chain) is None,
            },
    {
        let uncompressed = match expand_point(&self.point) {
            Some(uncompressed) => uncompressed,
            None => {
                return None;
            },
        };
        Some(
            PublicKeyInfo {
                public_key: copy_bytes(self.point.as_slice()),
                uncompressed_public_key: copy_bytes(uncompressed.as_slice()),
                addresses: Addresses::from_pubkey(self, chain),
            },
        )
    }
}

impl Signature {
    /// The signature in DER and in compact form; none where the bytes are
    /// no signature.
    pub fn get_info(&self, chain: Chain) -> (r: Option<EcdsaSignatureInfo>)
        ensures
            match r {
                Some(info) => signature_der(self.0@) == Some(info@.der) && info@.compact
                    == self.0@,
                None => signature_der(self.0@) is None,
            },
    {
        match write_der(&self.0) {
            Some(der) => {
                assert(der.deep_view() =~= der@);
                Some(EcdsaSignatureInfo { der, compact: copy_bytes(self.0.as_slice()) })
            },
            None => None,
        }
    }
}

} // verus!
