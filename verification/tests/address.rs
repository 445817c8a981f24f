use hal::address::{
    create, create_from_script, inspect_address, inspect_script, more_than_one, nums_h,
    AddressError, AddressInfo, Addresses, CreateError, NumsOptions,
};
use hal::chain::Chain;
use hal::encoding::{from_hex, to_hex};
use hal::key::PubKey;
use hal::bytes::to_array33;
use hal::tx::OutputScriptInfo;

const G: &str = "0279be667ef9dcbbac55a06295ce870b07029bfcdb2dce28d959f2815b16f81798";

fn point(hex: &str) -> PubKey {
    PubKey { compressed: true, point: to_array33(&from_hex(hex).unwrap()) }
}

fn no_nums() -> NumsOptions {
    NumsOptions { h: false, key: None, entropy: None }
}

#[test]
fn addresses_of_a_script() {
    let script = from_hex("51").unwrap();
    let a = Addresses::from_script(&script, Chain::Bitcoin);
    assert_eq!(
        a,
        Addresses {
            p2pkh: None,
            p2wpkh: None,
            p2shwpkh: None,
            p2sh: Some("3MaB7QVq3k4pQx3BhsvEADgzQonLSBwMdj".to_string()),
            p2wsh: Some("bc1qft5p2uhsdcdc3l2ua4ap5qqfg4pjaqlp250x7us7a8qqhrxrxfsq2gp3gp".to_string()),
            p2shwsh: Some("3C9r8LAC7PAURpXmC31h15yHbrCBccB12N".to_string()),
            p2tr: None,
        }
    );
    assert_eq!(create_from_script("51", &no_nums(), Chain::Bitcoin), Ok(a.clone()));
    assert_eq!(create(None, Some("51"), &no_nums(), Chain::Bitcoin), Ok(a));
}

#[test]
fn a_long_script_has_no_script_hash_address() {
    let fits = vec![0x51u8; 520];
    let long = vec![0x51u8; 521];
    assert!(Addresses::from_script(&fits, Chain::Bitcoin).p2sh.is_some());
    let a = Addresses::from_script(&long, Chain::Bitcoin);
    assert_eq!(a.p2sh, None);
    assert!(a.p2wsh.is_some());
    assert!(a.p2shwsh.is_some());
}

#[test]
fn addresses_of_a_key() {
    let a = Addresses::from_pubkey(&point(G), Chain::Bitcoin);
    assert_eq!(a.p2pkh, Some("1BgGZ9tcN4rm9KBzDn7KprQz87SZ26SAMH".to_string()));
    assert_eq!(a.p2sh, None);
    assert_eq!(a.p2wsh, None);
    assert_eq!(create(Some(&point(G)), None, &no_nums(), Chain::Bitcoin), Ok(a.clone()));
    assert_eq!(create(Some(&point(G)), Some("zz"), &no_nums(), Chain::Bitcoin), Ok(a));
    let regtest = Addresses::from_pubkey(&point(G), Chain::Regtest);
    assert_eq!(
        regtest.p2wpkh,
        Some("bcrt1qw508d6qejxtdg4y5r3zarvary0c5xw7kygt080".to_string())
    );
}

#[test]
fn what_makes_no_addresses() {
    assert_eq!(create(None, None, &no_nums(), Chain::Bitcoin), Err(CreateError::NothingGiven));
    assert_eq!(
        create(None, Some("5"), &no_nums(), Chain::Bitcoin),
        Err(CreateError::InvalidScriptHex)
    );
    let both = NumsOptions { h: true, key: Some(G.to_string()), entropy: None };
    assert_eq!(create_from_script("51", &both, Chain::Bitcoin), Err(CreateError::ConflictingNums));
    let all = NumsOptions { h: true, key: Some(G.to_string()), entropy: Some("00".to_string()) };
    assert_eq!(create_from_script("51", &all, Chain::Bitcoin), Err(CreateError::ConflictingNums));
    assert_eq!(create_from_script("5", &all, Chain::Bitcoin), Err(CreateError::InvalidScriptHex));
    let key = |k: &str| NumsOptions { h: false, key: Some(k.to_string()), entropy: None };
    assert_eq!(
        create_from_script("51", &key("zz"), Chain::Bitcoin),
        Err(CreateError::InvalidNumsKey)
    );
    assert_eq!(
        create_from_script("51", &key("0579be667ef9dcbbac55a06295ce870b07029bfcdb2dce28d959f2815b16f81798"), Chain::Bitcoin),
        Err(CreateError::InvalidNumsKey)
    );
    let entropy = |e: &str| NumsOptions { h: false, key: None, entropy: Some(e.to_string()) };
    assert_eq!(
        create_from_script("51", &entropy("zz"), Chain::Bitcoin),
        Err(CreateError::InvalidEntropyFormat)
    );
    assert_eq!(
        create_from_script("51", &entropy("00"), Chain::Bitcoin),
        Err(CreateError::InvalidEntropyFormat)
    );
    assert_eq!(
        create_from_script(
            "51",
            &entropy("fffffffffffffffffffffffffffffffebaaedce6af48a03bbfd25e8cd0364141"),
            Chain::Bitcoin
        ),
        Err(CreateError::InvalidNumsEntropy)
    );
}

#[test]
fn a_taproot_address_for_a_script() {
    assert_eq!(
        to_hex(&nums_h()),
        "0250929b74c1a04954b78b4b6035e97a5e078a5a0f28ec96d547bfee9ace803ac0"
    );
    let h = NumsOptions { h: true, key: None, entropy: None };
    let with_h = create_from_script("51", &h, Chain::Bitcoin).unwrap();
    let plain = Addresses::from_script(&[0x51], Chain::Bitcoin);
    assert!(with_h.p2tr.as_ref().unwrap().starts_with("bc1p"));
    assert_eq!(with_h.p2sh, plain.p2sh);
    assert_eq!(with_h.p2wsh, plain.p2wsh);
    assert_eq!(with_h.p2shwsh, plain.p2shwsh);
    let as_key = NumsOptions { h: false, key: Some(to_hex(&nums_h())), entropy: None };
    assert_eq!(create_from_script("51", &as_key, Chain::Bitcoin), Ok(with_h.clone()));
    let zero = NumsOptions { h: false, key: None, entropy: Some(to_hex(&[0u8; 32])) };
    assert_eq!(create_from_script("51", &zero, Chain::Bitcoin), Ok(with_h.clone()));
    assert_eq!(zero.internal_key(), Ok(Some(nums_h())));
    let mut one = [0u8; 32];
    one[31] = 1;
    let moved = NumsOptions { h: false, key: None, entropy: Some(to_hex(&one)) };
    let other = create_from_script("51", &moved, Chain::Bitcoin).unwrap();
    assert_ne!(other.p2tr, with_h.p2tr);
    assert_ne!(moved.internal_key(), Ok(Some(nums_h())));
    let g = NumsOptions { h: false, key: Some(G.to_string()), entropy: None };
    assert_eq!(g.internal_key(), Ok(Some(point(G).point)));
    let full = "0479be667ef9dcbbac55a06295ce870b07029bfcdb2dce28d959f2815b16f81798483ada7726a3c4655da4fbfc0e1108a8fd17b448a68554199c47d08ffb10d4b8";
    let g_full = NumsOptions { h: false, key: Some(full.to_string()), entropy: None };
    assert_eq!(g_full.internal_key(), Ok(Some(point(G).point)));
    assert_eq!(no_nums().internal_key(), Ok(None));
    assert!(!no_nums().is_conflicting());
    assert!(!h.is_conflicting());
}

#[test]
fn more_than_one_flag() {
    assert!(!more_than_one(&[]));
    assert!(!more_than_one(&[true]));
    assert!(!more_than_one(&[false, false, false]));
    assert!(!more_than_one(&[false, true, false]));
    assert!(more_than_one(&[true, true, false]));
    assert!(more_than_one(&[true, false, true]));
    assert!(more_than_one(&[true, true, true]));
}

fn blank(script: &str, assembly: &str, chain: Chain) -> AddressInfo {
    AddressInfo {
        network: chain,
        type_: None,
        script_pub_key: OutputScriptInfo {
            hex: from_hex(script),
            assembly: Some(assembly.to_string()),
            type_: None,
            address: None,
        },
        witness_program_version: None,
        pubkey_hash: None,
        script_hash: None,
        witness_pubkey_hash: None,
        witness_script_hash: None,
        taproot_output_key: None,
    }
}

#[test]
fn what_an_address_says() {
    let hash = "751e76e8199196d454941c45d1b3a323f1433bd6";
    let info = inspect_address("1BgGZ9tcN4rm9KBzDn7KprQz87SZ26SAMH", Chain::Bitcoin).unwrap();
    let mut expected = blank(
        &format!("76a914{}88ac", hash),
        &format!("OP_DUP OP_HASH160 OP_PUSHBYTES_20 {} OP_EQUALVERIFY OP_CHECKSIG", hash),
        Chain::Bitcoin,
    );
    expected.type_ = Some("p2pkh".to_string());
    expected.pubkey_hash = from_hex(hash);
    assert_eq!(info, expected);

    let info = inspect_address("bc1qw508d6qejxtdg4y5r3zarvary0c5xw7kv8f3t4", Chain::Bitcoin).unwrap();
    let mut expected = blank(
        &format!("0014{}", hash),
        &format!("OP_0 OP_PUSHBYTES_20 {}", hash),
        Chain::Bitcoin,
    );
    expected.type_ = Some("p2wpkh".to_string());
    expected.witness_program_version = Some(0);
    expected.witness_pubkey_hash = from_hex(hash);
    assert_eq!(info, expected);

    let info = inspect_address("3JvL6Ymt8MVWiCNHC7oWU6nLeHNJKLZGLN", Chain::Bitcoin).unwrap();
    assert_eq!(info.type_, Some("p2sh".to_string()));
    assert_eq!(info.script_hash.as_ref().map(|h| h.len()), Some(20));
    assert_eq!(info.witness_program_version, None);

    let info = inspect_address(
        "bc1pmfr3p9j00pfxjh0zmgp99y8zftmd3s5pmedqhyptwy6lm87hf5sspknck9",
        Chain::Bitcoin,
    )
    .unwrap();
    assert_eq!(info.type_, Some("p2tr".to_string()));
    assert_eq!(info.witness_program_version, Some(1));
    assert_eq!(
        info.taproot_output_key.as_ref().map(|k| to_hex(k)),
        Some("da4710964f7852695de2da025290e24af6d8c281de5a0b902b7135fd9fd74d21".to_string())
    );

    let info = inspect_address(
        "bc1qft5p2uhsdcdc3l2ua4ap5qqfg4pjaqlp250x7us7a8qqhrxrxfsq2gp3gp",
        Chain::Bitcoin,
    )
    .unwrap();
    assert_eq!(info.type_, Some("p2wsh".to_string()));
    assert_eq!(info.witness_script_hash.as_ref().map(|h| h.len()), Some(32));
}

#[test]
fn what_is_no_address_of_the_network() {
    assert_eq!(inspect_address("", Chain::Bitcoin), Err(AddressError::InvalidFormat));
    assert_eq!(inspect_address("hello", Chain::Bitcoin), Err(AddressError::InvalidFormat));
    assert_eq!(
        inspect_address("1BgGZ9tcN4rm9KBzDn7KprQz87SZ26SAMH", Chain::Testnet),
        Err(AddressError::WrongNetwork)
    );
    assert_eq!(
        inspect_address("tb1qw508d6qejxtdg4y5r3zarvary0c5xw7kxpjzsx", Chain::Bitcoin),
        Err(AddressError::WrongNetwork)
    );
    assert!(inspect_address("tb1qw508d6qejxtdg4y5r3zarvary0c5xw7kxpjzsx", Chain::Testnet).is_ok());
    assert!(inspect_address("mrCDrCybB6J1vRfbwM5hemdJz73FwDBC8r", Chain::Regtest).is_ok());
}

#[test]
fn what_a_script_says() {
    let unknown = inspect_script(&from_hex("51").unwrap(), Chain::Bitcoin).unwrap();
    assert_eq!(unknown.type_, Some("unknown payload".to_string()));
    assert_eq!(unknown.witness_program_version, None);
    let anchor = inspect_script(&from_hex("51024e73").unwrap(), Chain::Bitcoin).unwrap();
    assert_eq!(anchor.type_, Some("p2a".to_string()));
    assert_eq!(anchor.witness_program_version, Some(1));
    assert_eq!(anchor.taproot_output_key, None);
    let future = inspect_script(&from_hex("5202ffff").unwrap(), Chain::Bitcoin).unwrap();
    assert_eq!(future.type_, Some("unknown-witness-program-version".to_string()));
    assert_eq!(future.witness_program_version, Some(2));
    let last = inspect_script(&from_hex("6002ffff").unwrap(), Chain::Bitcoin).unwrap();
    assert_eq!(last.witness_program_version, Some(16));
    let odd = inspect_script(&from_hex("0003ffffff").unwrap(), Chain::Bitcoin).unwrap();
    assert_eq!(odd.type_, Some("unknown-witness-program-version".to_string()));
    assert_eq!(odd.witness_program_version, Some(0));
    let short = inspect_script(&from_hex("5101ff").unwrap(), Chain::Bitcoin).unwrap();
    assert_eq!(short.type_, Some("unknown payload".to_string()));
    let no_version = inspect_script(&from_hex("6102ffff").unwrap(), Chain::Bitcoin).unwrap();
    assert_eq!(no_version.type_, Some("unknown payload".to_string()));
    let bad_key = format!("5120{}", "ff".repeat(32));
    assert_eq!(
        inspect_script(&from_hex(&bad_key).unwrap(), Chain::Bitcoin),
        Err(AddressError::InvalidTaprootKey)
    );
}
