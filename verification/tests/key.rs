use hal::address::Addresses;
use hal::chain::Chain;
use hal::encoding::{from_hex, to_hex};
use hal::bytes::{copy_range, reversed, reversed_digest, to_array32, to_array33, to_array64};
use hal::key::{
    EcdsaSignatureInfo, KeyInfo, PrivateKey, PubKey, PublicKeyInfo, SecretKey,
    Signature,
};
use hal::signing::{
    ecdsa_sign, ecdsa_verify, generate, judge_verification, negate_pubkey, pubkey_combine,
    pubkey_tweak_add, read_digest, read_ecdsa_signature, read_scalar, schnorr_sign,
    schnorr_verify, KeyError, ReverseHint, Verification,
};

const G: &str = "0279be667ef9dcbbac55a06295ce870b07029bfcdb2dce28d959f2815b16f81798";
const G_FULL: &str = "0479be667ef9dcbbac55a06295ce870b07029bfcdb2dce28d959f2815b16f81798483ada7726a3c4655da4fbfc0e1108a8fd17b448a68554199c47d08ffb10d4b8";
const TWO_G: &str = "02c6047f9441ed7d6d3045406e95c07cd85c778e4b8cef3ca7abac09b95c709ee5";
const ORDER: &str = "fffffffffffffffffffffffffffffffebaaedce6af48a03bbfd25e8cd0364141";
const MSG: &str = "000102030405060708090a0b0c0d0e0f101112131415161718191a1b1c1d1e1f";

fn one() -> [u8; 32] {
    let mut secret = [0u8; 32];
    secret[31] = 1;
    secret
}

fn point(hex: &str) -> PubKey {
    PubKey { compressed: true, point: to_array33(&from_hex(hex).unwrap()) }
}

fn addresses_of_one() -> Addresses {
    Addresses {
        p2pkh: Some("1BgGZ9tcN4rm9KBzDn7KprQz87SZ26SAMH".to_string()),
        p2wpkh: Some("bc1qw508d6qejxtdg4y5r3zarvary0c5xw7kv8f3t4".to_string()),
        p2shwpkh: Some("3JvL6Ymt8MVWiCNHC7oWU6nLeHNJKLZGLN".to_string()),
        p2sh: None,
        p2wsh: None,
        p2shwsh: None,
        p2tr: Some("bc1pmfr3p9j00pfxjh0zmgp99y8zftmd3s5pmedqhyptwy6lm87hf5sspknck9".to_string()),
    }
}

#[test]
fn report_on_a_private_key() {
    let key = PrivateKey { compressed: true, mainnet: true, secret: one() };
    let info = key.get_info(Chain::Bitcoin).unwrap();
    assert_eq!(
        info,
        KeyInfo {
            raw_private_key: one().to_vec(),
            wif_private_key: Some(
                "KwDiBf89QgGbjEhKnhXJuH7LrciVrZi3qYjgd9M7rFU73sVHnoWn".to_string()
            ),
            public_key: from_hex(G).unwrap(),
            xonly_public_key: from_hex(&G[2..]).unwrap(),
            uncompressed_public_key: from_hex(G_FULL).unwrap(),
            addresses: addresses_of_one(),
        }
    );
    assert_eq!(generate(one(), Chain::Bitcoin), Some(info));
}

#[test]
fn report_on_an_uncompressed_private_key() {
    let key = PrivateKey { compressed: false, mainnet: true, secret: one() };
    let info = key.get_info(Chain::Bitcoin).unwrap();
    assert_eq!(
        info.wif_private_key,
        Some("5HpHagT65TZzG1PH3CSu63k8DbpvD8s5ip4nEB3kEsreAnchuDf".to_string())
    );
    assert_eq!(info.public_key, from_hex(G_FULL).unwrap());
    assert_eq!(info.uncompressed_public_key, from_hex(G_FULL).unwrap());
    assert_eq!(info.xonly_public_key, from_hex(&G[2..]).unwrap());
    assert_eq!(info.addresses.p2pkh, Some("1EHNa6Q4Jz2uvNExL497mE43ikXhwF6kZm".to_string()));
    assert_eq!(info.addresses.p2wpkh, None);
    assert_eq!(info.addresses.p2shwpkh, None);
    assert_eq!(info.addresses.p2tr, addresses_of_one().p2tr);
}

#[test]
fn report_on_a_test_key() {
    let key = PrivateKey { compressed: true, mainnet: false, secret: one() };
    let info = key.get_info(Chain::Testnet).unwrap();
    assert_eq!(
        info.wif_private_key,
        Some("cMahea7zqjxrtgAbB7LSGbcQUr1uX1ojuat9jZodMN87JcbXMTcA".to_string())
    );
    assert_eq!(info.addresses.p2pkh, Some("mrCDrCybB6J1vRfbwM5hemdJz73FwDBC8r".to_string()));
    assert_eq!(
        info.addresses.p2wpkh,
        Some("tb1qw508d6qejxtdg4y5r3zarvary0c5xw7kxpjzsx".to_string())
    );
    assert_eq!(generate(one(), Chain::Testnet), Some(info));
}

#[test]
fn report_on_a_secret_key() {
    let info = SecretKey(one()).get_info(Chain::Bitcoin).unwrap();
    assert_eq!(info.wif_private_key, None);
    assert_eq!(info.public_key, from_hex(G).unwrap());
    assert_eq!(info.addresses, addresses_of_one());
}

#[test]
fn what_is_no_secret_key() {
    assert_eq!(SecretKey([0u8; 32]).get_info(Chain::Bitcoin), None);
    let order = to_array32(&from_hex(ORDER).unwrap());
    assert_eq!(SecretKey(order).get_info(Chain::Bitcoin), None);
    let key = PrivateKey { compressed: true, mainnet: true, secret: [0xff; 32] };
    assert_eq!(key.get_info(Chain::Bitcoin), None);
    assert_eq!(generate([0u8; 32], Chain::Bitcoin), None);
}

#[test]
fn report_on_a_public_key() {
    let info = point(G).get_info(Chain::Bitcoin).unwrap();
    assert_eq!(
        info,
        PublicKeyInfo {
            public_key: from_hex(G).unwrap(),
            uncompressed_public_key: from_hex(G_FULL).unwrap(),
            addresses: addresses_of_one(),
        }
    );
    let uncompressed = PubKey { compressed: false, point: point(G).point };
    let info = uncompressed.get_info(Chain::Bitcoin).unwrap();
    assert_eq!(info.public_key, from_hex(G).unwrap());
    assert_eq!(info.addresses.p2wpkh, None);
    assert_eq!(info.addresses.p2pkh, Some("1EHNa6Q4Jz2uvNExL497mE43ikXhwF6kZm".to_string()));
    let mut bad = point(G);
    bad.point[0] = 0x05;
    assert_eq!(bad.get_info(Chain::Bitcoin), None);
}

#[test]
fn parts_of_a_point() {
    let p = point(G).point;
    assert_eq!(copy_range(&p, 1, 33), from_hex(&G[2..]).unwrap());
    assert_eq!(copy_range(&p, 0, 1), vec![2]);
    assert_eq!(copy_range(&p, 5, 5), Vec::<u8>::new());
}

#[test]
fn reading_a_message() {
    let bytes: Vec<u8> = (0..32u8).collect();
    assert_eq!(read_digest(MSG, false), Ok(to_array32(&bytes)));
    let mut back = bytes.clone();
    back.reverse();
    assert_eq!(read_digest(MSG, true), Ok(to_array32(&back)));
    assert_eq!(reversed(&bytes), back);
    assert_eq!(reversed(&vec![]), Vec::<u8>::new());
    assert_eq!(reversed_digest(&to_array32(&bytes)), to_array32(&back));
    assert_eq!(read_digest("zz", false), Err(KeyError::InvalidHexMessage));
    assert_eq!(read_digest("0", false), Err(KeyError::InvalidHexMessage));
    assert_eq!(read_digest("00", false), Err(KeyError::InvalidMessage));
    assert_eq!(read_digest("", true), Err(KeyError::InvalidMessage));
    assert_eq!(read_digest(&format!("{}00", MSG), false), Err(KeyError::InvalidMessage));
    assert_eq!(to_array64(&vec![7u8; 64]), [7u8; 64]);
}

#[test]
fn signing_and_checking_with_ecdsa() {
    let key = PrivateKey { compressed: true, mainnet: true, secret: one() };
    let signed = ecdsa_sign(&key, MSG, false).unwrap();
    assert_eq!(signed.compact.len(), 64);
    assert_eq!(signed.der[0], 0x30);
    assert_eq!(
        Signature(to_array64(&signed.compact)).get_info(Chain::Bitcoin),
        Some(signed.clone())
    );
    assert_eq!(read_ecdsa_signature(&to_hex(&signed.compact)), Ok(to_array64(&signed.compact)));
    assert_eq!(read_ecdsa_signature(&to_hex(&signed.der)), Ok(to_array64(&signed.compact)));
    let good = Verification { valid: true, hint: ReverseHint::Nothing };
    for sig in [to_hex(&signed.compact), to_hex(&signed.der)] {
        assert_eq!(ecdsa_verify(MSG, &point(G), &sig, false, false), Ok(good));
        assert_eq!(ecdsa_verify(MSG, &point(G), &sig, false, true), Ok(good));
        assert_eq!(
            ecdsa_verify(MSG, &point(G), &sig, true, false),
            Ok(Verification { valid: false, hint: ReverseHint::DropReverse })
        );
        assert_eq!(
            ecdsa_verify(MSG, &point(G), &sig, true, true),
            Ok(Verification { valid: false, hint: ReverseHint::Nothing })
        );
        assert_eq!(
            ecdsa_verify(MSG, &point(TWO_G), &sig, false, false),
            Ok(Verification { valid: false, hint: ReverseHint::Nothing })
        );
    }
    let reversed_signed = ecdsa_sign(&key, MSG, true).unwrap();
    assert_ne!(reversed_signed, signed);
    let sig = to_hex(&reversed_signed.compact);
    assert_eq!(ecdsa_verify(MSG, &point(G), &sig, true, false), Ok(good));
    assert_eq!(
        ecdsa_verify(MSG, &point(G), &sig, false, false),
        Ok(Verification { valid: false, hint: ReverseHint::TryReverse })
    );
}

#[test]
fn what_ecdsa_refuses() {
    let key = PrivateKey { compressed: true, mainnet: true, secret: one() };
    let sig = to_hex(&ecdsa_sign(&key, MSG, false).unwrap().compact);
    assert_eq!(ecdsa_sign(&key, "xy", false), Err(KeyError::InvalidHexMessage));
    assert_eq!(ecdsa_sign(&key, "00", false), Err(KeyError::InvalidMessage));
    let zero = PrivateKey { compressed: true, mainnet: true, secret: [0u8; 32] };
    assert_eq!(ecdsa_sign(&zero, MSG, false), Err(KeyError::InvalidKey));
    assert_eq!(
        ecdsa_verify("xy", &point(G), &sig, false, false),
        Err(KeyError::InvalidHexMessage)
    );
    assert_eq!(ecdsa_verify("00", &point(G), &sig, false, false), Err(KeyError::InvalidMessage));
    assert_eq!(ecdsa_verify(MSG, &point(G), "xy", false, false), Err(KeyError::SignatureNotHex));
    assert_eq!(
        ecdsa_verify(MSG, &point(G), "3000", false, false),
        Err(KeyError::InvalidDerSignature)
    );
    assert_eq!(ecdsa_verify(MSG, &point(G), "", false, false), Err(KeyError::InvalidDerSignature));
    let over = format!("{}{}", ORDER, ORDER);
    assert_eq!(ecdsa_verify(MSG, &point(G), &over, false, false), Err(KeyError::InvalidSignature));
    let mut bad = point(G);
    bad.point[0] = 0x05;
    assert_eq!(ecdsa_verify(MSG, &bad, &sig, false, false), Err(KeyError::InvalidKey));
    assert_eq!(Signature(to_array64(&from_hex(&over).unwrap())).get_info(Chain::Bitcoin), None);
}

#[test]
fn what_to_tell_of_a_check() {
    for valid in [false, true] {
        for other in [false, true] {
            for reverse in [false, true] {
                for no_try in [false, true] {
                    let v = judge_verification(valid, other, reverse, no_try);
                    assert_eq!(v.valid, valid);
                    let hinted = !valid && other && !no_try;
                    let hint = if !hinted {
                        ReverseHint::Nothing
                    } else if reverse {
                        ReverseHint::DropReverse
                    } else {
                        ReverseHint::TryReverse
                    };
                    assert_eq!(v.hint, hint);
                }
            }
        }
    }
}

#[test]
fn signing_and_checking_with_schnorr() {
    let key = PrivateKey { compressed: true, mainnet: true, secret: one() };
    let xonly = to_array32(&from_hex(&G[2..]).unwrap());
    let sig = schnorr_sign(&key, MSG, false, &[0u8; 32]).unwrap();
    let other = schnorr_sign(&key, MSG, false, &[1u8; 32]).unwrap();
    assert_ne!(sig, other);
    assert_eq!(schnorr_sign(&key, MSG, false, &[0u8; 32]), Ok(sig));
    let good = Verification { valid: true, hint: ReverseHint::Nothing };
    assert_eq!(schnorr_verify(MSG, &xonly, &to_hex(&sig), false, false), Ok(good));
    assert_eq!(schnorr_verify(MSG, &xonly, &to_hex(&other), false, false), Ok(good));
    assert_eq!(
        schnorr_verify(MSG, &xonly, &to_hex(&sig), true, false),
        Ok(Verification { valid: false, hint: ReverseHint::DropReverse })
    );
    assert_eq!(
        schnorr_verify(MSG, &xonly, &to_hex(&sig), true, true),
        Ok(Verification { valid: false, hint: ReverseHint::Nothing })
    );
    let reversed_sig = schnorr_sign(&key, MSG, true, &[0u8; 32]).unwrap();
    assert_eq!(
        schnorr_verify(MSG, &xonly, &to_hex(&reversed_sig), false, false),
        Ok(Verification { valid: false, hint: ReverseHint::TryReverse })
    );
    assert_eq!(schnorr_sign(&key, "0", false, &[0u8; 32]), Err(KeyError::InvalidHexMessage));
    assert_eq!(schnorr_sign(&key, "00", false, &[0u8; 32]), Err(KeyError::InvalidMessage));
    let zero = PrivateKey { compressed: true, mainnet: true, secret: [0u8; 32] };
    assert_eq!(schnorr_sign(&zero, MSG, false, &[0u8; 32]), Err(KeyError::InvalidKey));
    assert_eq!(schnorr_verify(MSG, &xonly, "xy", false, false), Err(KeyError::SignatureNotHex));
    assert_eq!(schnorr_verify(MSG, &xonly, "00", false, false), Err(KeyError::InvalidSignature));
    assert_eq!(
        schnorr_verify(MSG, &[0xff; 32], &to_hex(&sig), false, false),
        Err(KeyError::InvalidKey)
    );
    assert_eq!(schnorr_verify("00", &xonly, &to_hex(&sig), false, false), Err(KeyError::InvalidMessage));
}

#[test]
fn arithmetic_on_points() {
    let minus_g = format!("03{}", &G[2..]);
    assert_eq!(negate_pubkey(&point(G)).map(|p| to_hex(&p)), Some(minus_g.clone()));
    assert_eq!(negate_pubkey(&point(&minus_g)).map(|p| to_hex(&p)), Some(G.to_string()));
    assert_eq!(pubkey_combine(&point(G), &point(G)).map(|p| to_hex(&p)), Ok(TWO_G.to_string()));
    assert_eq!(pubkey_combine(&point(G), &point(&minus_g)), Err(KeyError::InvalidResult));
    let scalar_one = to_hex(&one());
    assert_eq!(
        pubkey_tweak_add(&point(G), &scalar_one).map(|p| to_hex(&p)),
        Ok(TWO_G.to_string())
    );
    let zero = to_hex(&[0u8; 32]);
    assert_eq!(pubkey_tweak_add(&point(G), &zero).map(|p| to_hex(&p)), Ok(G.to_string()));
    assert_eq!(pubkey_tweak_add(&point(G), "xy"), Err(KeyError::InvalidScalarHex));
    assert_eq!(pubkey_tweak_add(&point(G), "00"), Err(KeyError::InvalidScalarHex));
    assert_eq!(pubkey_tweak_add(&point(G), ORDER), Err(KeyError::InvalidScalar));
    let minus_one = "fffffffffffffffffffffffffffffffebaaedce6af48a03bbfd25e8cd0364140";
    assert_eq!(pubkey_tweak_add(&point(G), minus_one), Err(KeyError::InvalidResult));
    assert_eq!(read_scalar(minus_one).map(|s| to_hex(&s)), Ok(minus_one.to_string()));
    assert_eq!(read_scalar(ORDER), Err(KeyError::InvalidScalar));
    let mut bad = point(G);
    bad.point[0] = 0x05;
    assert_eq!(negate_pubkey(&bad), None);
    assert_eq!(pubkey_combine(&bad, &point(G)), Err(KeyError::InvalidResult));
}

#[test]
fn messages_of_key_errors() {
    assert_eq!(KeyError::InvalidHexMessage.message(), "invalid hex message");
    assert_eq!(KeyError::InvalidMessage.message(), "invalid message to be signed");
    assert_eq!(KeyError::SignatureNotHex.message(), "invalid signature: not hex");
    assert_eq!(KeyError::InvalidSignature.message(), "invalid signature");
    assert_eq!(KeyError::InvalidDerSignature.message(), "invalid DER signature");
    assert_eq!(KeyError::InvalidKey.message(), "invalid key");
    assert_eq!(KeyError::InvalidScalarHex.message(), "invalid scalar hex");
    assert_eq!(KeyError::InvalidScalar.message(), "invalid scalar");
    assert_eq!(KeyError::InvalidResult.message(), "the result is not a valid key");
    let _ = EcdsaSignatureInfo { der: vec![], compact: vec![] };
}
