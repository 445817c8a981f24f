//! Addresses: those of a key and of a script, and what an address says.

use crate::btc::{
    address_script, p2pkh_address, p2pkh_of, p2sh_address, p2sh_of, p2shwpkh_address,
    p2shwpkh_of, p2shwsh_address, p2shwsh_of, p2tr_address, p2tr_of, p2tr_script_address,
    p2tr_script_of, p2wpkh_address, p2wpkh_of, p2wsh_address, p2wsh_of, read_address,
    script_text, script_to_text, MAX_P2SH_SCRIPT_SIZE,
};
use crate::chain::Chain;
use crate::encoding::{decode_hex, hex_decoded};
use crate::key::PubKey;
use crate::secp::{
    check_scalar, check_xonly, parse_point, parsed_point, scalar_valid, tweak_point,
    tweaked_point, xonly_valid,
};
use crate::bytes::{copy_bytes, to_array32};
use crate::tx::{
    is_p2pkh, is_p2sh, script_kind, OutputScript, OutputScriptInfo,
    OutputScriptInfoView, ScriptKind,
};
use vstd::prelude::*;
use vstd::slice::slice_subrange;

verus! {

/// The addresses of a key or of a script, one per address type.
#[derive(Clone, Debug, PartialEq, Eq)]
pub struct Addresses {
    pub p2pkh: Option<String>,
    pub p2wpkh: Option<String>,
    pub p2shwpkh: Option<String>,
    pub p2sh: Option<String>,
    pub p2wsh: Option<String>,
    pub p2shwsh: Option<String>,
    pub p2tr: Option<String>,
}

/// The mathematical value of [`Addresses`].
pub struct AddressesView {
    pub p2pkh: Option<Seq<char>>,
    pub p2wpkh: Option<Seq<char>>,
    pub p2shwpkh: Option<Seq<char>>,
    pub p2sh: Option<Seq<char>>,
    pub p2wsh: Option<Seq<char>>,
    pub p2shwsh: Option<Seq<char>>,
    pub p2tr: Option<Seq<char>>,
}

impl View for Addresses {
    type V = AddressesView;

    open spec fn view(&self) -> AddressesView {
        AddressesView {
            p2pkh: self.p2pkh.deep_view(),
            p2wpkh: self.p2wpkh.deep_view(),
            p2shwpkh: self.p2shwpkh.deep_view(),
            p2sh: self.p2sh.deep_view(),
            p2wsh: self.p2wsh.deep_view(),
            p2shwsh: self.p2shwsh.deep_view(),
            p2tr: self.p2tr.deep_view(),
        }
    }
}

impl AddressesView {
    /// The addresses of a public key: witness addresses only for a key in
    /// compressed form, and no script addresses.
    pub open spec fn of_pubkey(point: Seq<u8>, compressed: bool, chain: Chain) -> AddressesView {
        AddressesView {
            p2pkh: p2pkh_address(point, compressed, chain),
            p2wpkh: if compressed {
                p2wpkh_address(point, chain)
            } else {
                None
            },
            p2shwpkh: if compressed {
                p2shwpkh_address(point, chain)
            } else {
                None
            },
            p2sh: None,
            p2wsh: None,
            p2shwsh: None,
            p2tr: p2tr_address(point, chain),
        }
    }

    /// The addresses of a script: a script hash address only for a script
    /// that fits one, and no key addresses.
    pub open spec fn of_script(script: Seq<u8>, chain: Chain) -> AddressesView {
        AddressesView {
            p2pkh: None,
            p2wpkh: None,
            p2shwpkh: None,
            p2sh: if script.len() <= MAX_P2SH_SCRIPT_SIZE {
                Some(p2sh_address(script, chain))
            } else {
                None
            },
            p2wsh: Some(p2wsh_address(script, chain)),
            p2shwsh: Some(p2shwsh_address(script, chain)),
            p2tr: None,
        }
    }
}

impl Addresses {
    /// The addresses that pay to `pubkey` on `chain`.
    pub fn from_pubkey(pubkey: &PubKey, chain: Chain) -> (r: Addresses)
        ensures
            r@ == AddressesView::of_pubkey(pubkey.point@, pubkey.compressed, chain),
    {
        Addresses {
            p2pkh: p2pkh_of(&pubkey.point, pubkey.compressed, chain),
            p2wpkh: if pubkey.compressed {
                p2wpkh_of(&pubkey.point, chain)
            } else {
                None
            },
            p2shwpkh: if pubkey.compressed {
                p2shwpkh_of(&pubkey.point, chain)
            } else {
                None
            },
            p2sh: None,
            p2wsh: None,
            p2shwsh: None,
            p2tr: p2tr_of(&pubkey.point, chain),
        }
    }

    /// The addresses that pay to `script` on `chain`.
    pub fn from_script(script: &[u8], chain: Chain) -> (r: Addresses)
        ensures
            r@ == AddressesView::of_script(script@, chain),
    {
        Addresses {
            p2pkh: None,
            p2wpkh: None,
            p2shwpkh: None,
            p2sh: p2sh_of(script, chain),
            p2wsh: Some(p2wsh_of(script, chain)),
            p2shwsh: Some(p2shwsh_of(script, chain)),
            p2tr: None,
        }
    }
}

/// Why an address gives no report.
#[derive(Clone, Copy, Debug, PartialEq, Eq, Structural)]
pub enum AddressError {
    /// The text is no address.
    InvalidFormat,
    /// The address belongs to another network.
    WrongNetwork,
    /// The address is a taproot address whose key is no x coordinate.
    InvalidTaprootKey,
}

/// The version and the program of a witness program script: a version
/// opcode, then one push of 2 to 40 bytes that ends the script.
pub open spec fn witness_program(s: Seq<u8>) -> Option<(u8, Seq<u8>)> {
    if 4 <= s.len() <= 42 && 2 <= s[1] <= 40 && s.len() - 2 == s[1] {
        if s[0] == 0 {
            Some((0u8, s.subrange(2, s.len() as int)))
        } else if 0x51 <= s[0] <= 0x60 {
            Some(((s[0] - 0x50) as u8, s.subrange(2, s.len() as int)))
        } else {
            None
        }
    } else {
        None
    }
}

/// The program of a pay-to-anchor output.
pub open spec fn is_anchor(program: Seq<u8>) -> bool {
    program.len() == 2 && program[0] == 0x4e && program[1] == 0x73
}

/// The name of the type of a witness program, for the types that have one.
pub open spec fn witness_type(version: u8, program: Seq<u8>) -> Option<Seq<char>> {
    if version == 0 && program.len() == 20 {
        Some("p2wpkh"@)
    } else if version == 0 && program.len() == 32 {
        Some("p2wsh"@)
    } else if version == 1 && program.len() == 32 {
        Some("p2tr"@)
    } else if version == 1 && is_anchor(program) {
        Some("p2a"@)
    } else {
        None
    }
}

/// The report on an address.
#[derive(Clone, Debug, PartialEq, Eq)]
pub struct AddressInfo {
    pub network: Chain,
    pub type_: Option<String>,
    pub script_pub_key: OutputScriptInfo,
    pub witness_program_version: Option<usize>,
    pub pubkey_hash: Option<Vec<u8>>,
    pub script_hash: Option<Vec<u8>>,
    pub witness_pubkey_hash: Option<Vec<u8>>,
    pub witness_script_hash: Option<Vec<u8>>,
    pub taproot_output_key: Option<Vec<u8>>,
}

/// The mathematical value of an [`AddressInfo`].
pub struct AddressInfoView {
    pub network: Chain,
    pub type_: Option<Seq<char>>,
    pub script_pub_key: OutputScriptInfoView,
    pub witness_program_version: Option<usize>,
    pub pubkey_hash: Option<Seq<u8>>,
    pub script_hash: Option<Seq<u8>>,
    pub witness_pubkey_hash: Option<Seq<u8>>,
    pub witness_script_hash: Option<Seq<u8>>,
    pub taproot_output_key: Option<Seq<u8>>,
}

impl View for AddressInfo {
    type V = AddressInfoView;

    open spec fn view(&self) -> AddressInfoView {
        AddressInfoView {
            network: self.network,
            type_: self.type_.deep_view(),
            script_pub_key: self.script_pub_key@,
            witness_program_version: self.witness_program_version,
            pubkey_hash: self.pubkey_hash.deep_view(),
            script_hash: self.script_hash.deep_view(),
            witness_pubkey_hash: self.witness_pubkey_hash.deep_view(),
            witness_script_hash: self.witness_script_hash.deep_view(),
            taproot_output_key: self.taproot_output_key.deep_view(),
        }
    }
}

/// The report on an address of `chain` that pays to `script`, before the
/// payload is looked at: the script, and nothing else.
pub open spec fn blank_info(script: Seq<u8>, chain: Chain) -> AddressInfoView {
    AddressInfoView {
        network: chain,
        type_: None,
        script_pub_key: OutputScriptInfoView {
            hex: Some(script),
            assembly: Some(script_text(script)),
            type_: None,
            address: None,
        },
        witness_program_version: None,
        pubkey_hash: None,
        script_hash: None,
        witness_pubkey_hash: None,
        witness_script_hash: None,
        taproot_output_key: None,
    }
}

/// The report on an address of `chain` that pays to `script`. A key hash
/// or a script hash is reported with its hash; a witness program with its
/// version and, by its type, its hash or its key; anything else as an
/// unknown payload. A taproot program that is no x coordinate is an error.
pub open spec fn script_report(script: Seq<u8>, chain: Chain) -> Result<AddressInfoView, AddressError> {
    let blank = blank_info(script, chain);
    if is_p2pkh(script) {
        Ok(
            AddressInfoView {
                type_: Some("p2pkh"@),
                pubkey_hash: Some(script.subrange(3, 23)),
                ..blank
            },
        )
    } else if is_p2sh(script) {
        Ok(
            AddressInfoView {
                type_: Some("p2sh"@),
                script_hash: Some(script.subrange(2, 22)),
                ..blank
            },
        )
    } else {
        match witness_program(script) {
            None => Ok(AddressInfoView { type_: Some("unknown payload"@), ..blank }),
            Some((version, program)) => {
                let versioned = AddressInfoView {
                    witness_program_version: Some(version as usize),
                    ..blank
                };
                match witness_type(version, program) {
                    None => Ok(
                        AddressInfoView {
                            type_: Some("unknown-witness-program-version"@),
                            ..versioned
                        },
                    ),
                    Some(name) => if version == 0 && program.len() == 20 {
                        Ok(
                            AddressInfoView {
                                type_: Some(name),
                                witness_pubkey_hash: Some(program),
                                ..versioned
                            },
                        )
                    } else if version == 0 {
                        Ok(
                            AddressInfoView {
                                type_: Some(name),
                                witness_script_hash: Some(program),
                                ..versioned
                            },
                        )
                    } else if program.len() == 32 {
                        if xonly_valid(program) {
                            Ok(
                                AddressInfoView {
                                    type_: Some(name),
                                    taproot_output_key: Some(program),
                                    ..versioned
                                },
                            )
                        } else {
                            Err(AddressError::InvalidTaprootKey)
                        }
                    } else {
                        Ok(AddressInfoView { type_: Some(name), ..versioned })
                    },
                }
            },
        }
    }
}

/// An address's type is the kind of the script it pays to: where the script
/// fits one of the five templates that addresses are made for, the report
/// names that template.
pub proof fn lemma_report_names_the_script_kind(script: Seq<u8>, chain: Chain)
    requires
        script_report(script, chain) is Ok,
        script_kind(script) == ScriptKind::P2pkh || script_kind(script) == ScriptKind::P2sh
            || script_kind(script) == ScriptKind::P2wpkh || script_kind(script)
            == ScriptKind::P2wsh || script_kind(script) == ScriptKind::P2tr,
    ensures
        script_report(script, chain)->Ok_0.type_ == Some(script_kind(script).spec_name()),
{
    crate::tx::lemma_templates_exclusive(script);
    let n = script.len() as int;
    if script_kind(script) == ScriptKind::P2wpkh {
        assert(witness_program(script) == Some((0u8, script.subrange(2, n))));
    } else if script_kind(script) == ScriptKind::P2wsh {
        assert(witness_program(script) == Some((0u8, script.subrange(2, n))));
    } else if script_kind(script) == ScriptKind::P2tr {
        assert(witness_program(script) == Some((1u8, script.subrange(2, n))));
    }
}

/// What a report holds goes with its type: a hash or a key is present only
/// in the report of the type it belongs to, and a witness version only in
/// the report of a witness program.
pub proof fn lemma_report_fields(script: Seq<u8>, chain: Chain)
    requires
        script_report(script, chain) is Ok,
    ensures
        ({
            let r = script_report(script, chain)->Ok_0;
            &&& r.type_ is Some
            &&& r.network == chain
            &&& r.script_pub_key.hex == Some(script)
            &&& (r.pubkey_hash is Some <==> is_p2pkh(script))
            &&& (r.script_hash is Some <==> !is_p2pkh(script) && is_p2sh(script))
            &&& (r.witness_program_version is Some <==> !is_p2pkh(script) && !is_p2sh(script)
                && witness_program(script) is Some)
            &&& (r.pubkey_hash matches Some(h) ==> h.len() == 20)
            &&& (r.script_hash matches Some(h) ==> h.len() == 20)
            &&& (r.witness_pubkey_hash matches Some(h) ==> h.len() == 20)
            &&& (r.witness_script_hash matches Some(h) ==> h.len() == 32)
            &&& (r.taproot_output_key matches Some(k) ==> k.len() == 32 && xonly_valid(k))
        }),
{
}

/// The value of an address report or of its refusal.
pub open spec fn address_result_view(r: Result<AddressInfo, AddressError>) -> Result<
    AddressInfoView,
    AddressError,
> {
    match r {
        Ok(info) => Ok(info@),
        Err(e) => Err(e),
    }
}

fn part(script: &[u8], from: usize, to: usize) -> (r: Option<Vec<u8>>)
    requires
        from <= to <= script@.len(),
    ensures
        r.deep_view() == Some(script@.subrange(from as int, to as int)),
{
    let bytes = copy_bytes(slice_subrange(script, from, to));
    assert(bytes.deep_view() =~= bytes@);
    Some(bytes)
}

/// Reports on the script that an address of `chain` pays to.
pub fn inspect_script(script: &[u8], chain: Chain) -> (r: Result<AddressInfo, AddressError>)
    ensures
        address_result_view(r) == script_report(script@, chain),
{
    let bytes = copy_bytes(script);
    assert(bytes.deep_view() =~= bytes@);
    let mut info = AddressInfo {
        network: chain,
        script_pub_key: OutputScriptInfo {
            hex: Some(bytes),
            assembly: Some(script_to_text(script)),
            address: None,
            type_: None,
        },
        type_: None,
        witness_program_version: None,
        pubkey_hash: None,
        script_hash: None,
        witness_pubkey_hash: None,
        witness_script_hash: None,
        taproot_output_key: None,
    };
    assert(info@ == blank_info(script@, chain));
    let kind = OutputScript(script).kind();
    let n = script.len();
    if matches!(kind, ScriptKind::P2pkh) {
        info.type_ = Some("p2pkh".to_owned());
        info.pubkey_hash = part(script, 3, 23);
        return Ok(info);
    }
    if matches!(kind, ScriptKind::P2sh) {
        proof {
            crate::tx::lemma_templates_exclusive(script@);
        }
        info.type_ = Some("p2sh".to_owned());
        info.script_hash = part(script, 2, 22);
        return Ok(info);
    }
    proof {
        crate::tx::lemma_templates_exclusive(script@);
    }
    assert(!is_p2pkh(script@) && !is_p2sh(script@));
    if !(4 <= n && n <= 42 && 2 <= script[1] && script[1] <= 40 && n - 2 == script[1] as usize) {
        info.type_ = Some("unknown payload".to_owned());
        return Ok(info);
    }
    let version: u8 = if script[0] == 0 {
        0
    } else if 0x51 <= script[0] && script[0] <= 0x60 {
        script[0] - 0x50
    } else {
        info.type_ = Some("unknown payload".to_owned());
        return Ok(info);
    };
    let program = n - 2;
    assert(witness_program(script@) == Some((version, script@.subrange(2, n as int))));
    info.witness_program_version = Some(version as usize);
    if version == 0 && program == 20 {
        info.type_ = Some("p2wpkh".to_owned());
        info.witness_pubkey_hash = part(script, 2, n);
    } else if version == 0 && program == 32 {
        info.type_ = Some("p2wsh".to_owned());
        info.witness_script_hash = part(script, 2, n);
    } else if version == 1 && program == 32 {
        let key = copy_bytes(slice_subrange(script, 2, n));
        let key = to_array32(&key);
        if !check_xonly(&key) {
            return Err(AddressError::InvalidTaprootKey);
        }
        info.type_ = Some("p2tr".to_owned());
        info.taproot_output_key = part(script, 2, n);
    } else if version == 1 && program == 2 && script[2] == 0x4e && script[3] == 0x73 {
        info.type_ = Some("p2a".to_owned());
    } else {
        info.type_ = Some("unknown-witness-program-version".to_owned());
    }
    Ok(info)
}

/// The report on the address written as `text`.
pub open spec fn address_report(text: Seq<char>, chain: Chain) -> Result<AddressInfoView, AddressError> {
    match address_script(text, chain) {
        Err(e) => Err(e),
        Ok(script) => script_report(script, chain),
    }
}

/// Inspects an address of `chain`: the script it pays to, its type, and the
/// hash or key it holds.
pub fn inspect_address(text: &str, chain: Chain) -> (r: Result<AddressInfo, AddressError>)
    ensures
        address_result_view(r) == address_report(text@, chain),
{
    match read_address(text, chain) {
        Err(e) => Err(e),
        Ok(script) => inspect_script(script.as_slice(), chain),
    }
}

/// The number of flags that are set.
pub open spec fn count_set(flags: Seq<bool>) -> nat
    decreases flags.len(),
{
    if flags.len() == 0 {
        0
    } else {
        count_set(flags.drop_last()) + if flags.last() {
            1nat
        } else {
            0nat
        }
    }
}

/// Whether more than one of the flags is set.
pub fn more_than_one(flags: &[bool]) -> (r: bool)
    ensures
        r == (count_set(flags@) > 1),
{
    let mut seen = false;
    let mut i: usize = 0;
    while i < flags.len()
        invariant
            i <= flags.len(),
            count_set(flags@.subrange(0, i as int)) == if seen {
                1nat
            } else {
                0nat
            },
        decreases flags.len() - i,
    {
        proof {
            let longer = flags@.subrange(0, i + 1);
            assert(longer.drop_last() =~= flags@.subrange(0, i as int));
            lemma_count_set_monotone(flags@, i + 1);
        }
        if flags[i] {
            if seen {
                return true;
            }
            seen = true;
        }
        i += 1;
    }
    assert(flags@.subrange(0, flags@.len() as int) =~= flags@);
    false
}

/// The count over a prefix is at most the count over the whole.
pub proof fn lemma_count_set_monotone(flags: Seq<bool>, n: int)
    requires
        0 <= n <= flags.len(),
    ensures
        count_set(flags.subrange(0, n)) <= count_set(flags),
    decreases flags.len() - n,
{
    if n < flags.len() {
        let longer = flags.subrange(0, n + 1);
        assert(longer.drop_last() =~= flags.subrange(0, n));
        lemma_count_set_monotone(flags, n + 1);
    } else {
        assert(flags.subrange(0, n) =~= flags);
    }
}

/// The point that BIP-341 gives as a key nobody holds: its x coordinate is
/// the hash of the generator's uncompressed encoding.
pub fn nums_h() -> (r: [u8; 33])
    ensures
        r@ == spec_nums_h(),
{
    let r: [u8; 33] = [
        0x02, 0x50, 0x92, 0x9b, 0x74, 0xc1, 0xa0, 0x49, 0x54, 0xb7, 0x8b, 0x4b, 0x60, 0x35, 0xe9,
        0x7a, 0x5e, 0x07, 0x8a, 0x5a, 0x0f, 0x28, 0xec, 0x96, 0xd5, 0x47, 0xbf, 0xee, 0x9a, 0xce,
        0x80, 0x3a, 0xc0,
    ];
    assert(r@ =~= spec_nums_h());
    r
}

pub open spec fn spec_nums_h() -> Seq<u8> {
    seq![
        0x02u8, 0x50u8, 0x92u8, 0x9bu8, 0x74u8, 0xc1u8, 0xa0u8, 0x49u8, 0x54u8, 0xb7u8, 0x8bu8,
        0x4bu8, 0x60u8, 0x35u8, 0xe9u8, 0x7au8, 0x5eu8, 0x07u8, 0x8au8, 0x5au8, 0x0fu8, 0x28u8,
        0xecu8, 0x96u8, 0xd5u8, 0x47u8, 0xbfu8, 0xeeu8, 0x9au8, 0xceu8, 0x80u8, 0x3au8, 0xc0u8,
    ]
}

/// How the internal key of a taproot address for a script is chosen.
#[derive(Clone, Debug, PartialEq, Eq)]
pub struct NumsOptions {
    /// Use the point of BIP-341.
    pub h: bool,
    /// Use this key, given in hexadecimal.
    pub key: Option<String>,
    /// Use the point of BIP-341 plus this scalar, given in hexadecimal,
    /// times the generator.
    pub entropy: Option<String>,
}

/// The mathematical value of [`NumsOptions`].
pub struct NumsOptionsView {
    pub h: bool,
    pub key: Option<Seq<char>>,
    pub entropy: Option<Seq<char>>,
}

impl View for NumsOptions {
    type V = NumsOptionsView;

    open spec fn view(&self) -> NumsOptionsView {
        NumsOptionsView { h: self.h, key: self.key.deep_view(), entropy: self.entropy.deep_view() }
    }
}

/// Why no addresses are made.
#[derive(Clone, Copy, Debug, PartialEq, Eq, Structural)]
pub enum CreateError {
    /// Neither a key nor a script is given.
    NothingGiven,
    /// The script is no hexadecimal text.
    InvalidScriptHex,
    /// More than one way to choose the internal key is given.
    ConflictingNums,
    /// The internal key is no key.
    InvalidNumsKey,
    /// The entropy is no hexadecimal text of 32 bytes.
    InvalidEntropyFormat,
    /// The entropy is no scalar, or leads to no key.
    InvalidNumsEntropy,
}

impl NumsOptionsView {
    /// Whether more than one option is given.
    pub open spec fn conflicting(self) -> bool {
        count_set(seq![self.h, self.key is Some, self.entropy is Some]) > 1
    }

    /// The internal key chosen, if one is: the fixed point if asked for,
    /// else the key given, else the fixed point moved by the entropy.
    pub open spec fn internal_key(self) -> Result<Option<Seq<u8>>, CreateError> {
        if self.h {
            Ok(Some(spec_nums_h()))
        } else if self.key is Some {
            match hex_decoded(self.key->0) {
                None => Err(CreateError::InvalidNumsKey),
                Some(bytes) => match parsed_point(bytes) {
                    None => Err(CreateError::InvalidNumsKey),
                    Some(p) => Ok(Some(p.1)),
                },
            }
        } else if self.entropy is Some {
            match hex_decoded(self.entropy->0) {
                None => Err(CreateError::InvalidEntropyFormat),
                Some(bytes) => if bytes.len() != 32 {
                    Err(CreateError::InvalidEntropyFormat)
                } else if !scalar_valid(bytes) {
                    Err(CreateError::InvalidNumsEntropy)
                } else {
                    match tweaked_point(spec_nums_h(), bytes) {
                        None => Err(CreateError::InvalidNumsEntropy),
                        Some(point) => Ok(Some(point)),
                    }
                },
            }
        } else {
            Ok(None)
        }
    }
}

/// The value of an optional array of bytes, or of an error.
pub open spec fn key_choice_view(r: Result<Option<[u8; 33]>, CreateError>) -> Result<
    Option<Seq<u8>>,
    CreateError,
> {
    match r {
        Ok(Some(k)) => Ok(Some(k@)),
        Ok(None) => Ok(None),
        Err(e) => Err(e),
    }
}

impl NumsOptions {
    /// Whether more than one option is given.
    pub fn is_conflicting(&self) -> (r: bool)
        ensures
            r == self@.conflicting(),
    {
        let flags = [self.h, self.key.is_some(), self.entropy.is_some()];
        assert(flags@ =~= seq![self.h, self.key is Some, self.entropy is Some]);
        more_than_one(flags.as_slice())
    }

    /// Works out the internal key that the options choose.
    pub fn internal_key(&self) -> (r: Result<Option<[u8; 33]>, CreateError>)
        ensures
            key_choice_view(r) == self@.internal_key(),
    {
        if self.h {
            return Ok(Some(nums_h()));
        }
        match &self.key {
            Some(key) => {
                let bytes = match decode_hex(key.as_str()) {
                    Some(bytes) => bytes,
                    None => {
                        return Err(CreateError::InvalidNumsKey);
                    },
                };
                return match parse_point(bytes.as_slice()) {
                    Some(p) => Ok(Some(p.1)),
                    None => Err(CreateError::InvalidNumsKey),
                };
            },
            None => {},
        }
        match &self.entropy {
            Some(entropy) => {
                let bytes = match decode_hex(entropy.as_str()) {
                    Some(bytes) => bytes,
                    None => {
                        return Err(CreateError::InvalidEntropyFormat);
                    },
                };
                if bytes.len() != 32 {
                    return Err(CreateError::InvalidEntropyFormat);
                }
                let scalar = to_array32(&bytes);
                if !check_scalar(&scalar) {
                    return Err(CreateError::InvalidNumsEntropy);
                }
                match tweak_point(&nums_h(), &scalar) {
                    Some(point) => Ok(Some(point)),
                    None => Err(CreateError::InvalidNumsEntropy),
                }
            },
            None => Ok(None),
        }
    }
}

/// The addresses of the script written as `script_hex`, with a taproot
/// address if the options choose an internal key.
pub open spec fn script_addresses(script_hex: Seq<char>, nums: NumsOptionsView, chain: Chain) -> Result<
    AddressesView,
    CreateError,
> {
    match hex_decoded(script_hex) {
        None => Err(CreateError::InvalidScriptHex),
        Some(script) => if nums.conflicting() {
            Err(CreateError::ConflictingNums)
        } else {
            match nums.internal_key() {
                Err(e) => Err(e),
                Ok(None) => Ok(AddressesView::of_script(script, chain)),
                Ok(Some(key)) => match p2tr_script_address(script, key, chain) {
                    None => Err(CreateError::InvalidNumsKey),
                    Some(p2tr) => Ok(
                        AddressesView { p2tr: Some(p2tr), ..AddressesView::of_script(script, chain) },
                    ),
                },
            }
        },
    }
}

/// The value of the addresses made, or of the refusal.
pub open spec fn creation_view(r: Result<Addresses, CreateError>) -> Result<AddressesView, CreateError> {
    match r {
        Ok(a) => Ok(a@),
        Err(e) => Err(e),
    }
}

/// Makes the addresses that pay to a script given in hexadecimal.
pub fn create_from_script(script_hex: &str, nums: &NumsOptions, chain: Chain) -> (r: Result<
    Addresses,
    CreateError,
>)
    ensures
        creation_view(r) == script_addresses(script_hex@, nums@, chain),
{
    let script = match decode_hex(script_hex) {
        Some(script) => script,
        None => {
            return Err(CreateError::InvalidScriptHex);
        },
    };
    let mut ret = Addresses::from_script(script.as_slice(), chain);
    if nums.is_conflicting() {
        return Err(CreateError::ConflictingNums);
    }
    match nums.internal_key() {
        Err(e) => Err(e),
        Ok(None) => Ok(ret),
        Ok(Some(key)) => match p2tr_script_of(script.as_slice(), &key, chain) {
            None => Err(CreateError::InvalidNumsKey),
            Some(p2tr) => {
                ret.p2tr = Some(p2tr);
                Ok(ret)
            },
        },
    }
}

/// What making addresses comes to: those of the key if one is given, else
/// those of the script if one is given.
pub open spec fn created(
    pubkey: Option<PubKey>,
    script_hex: Option<Seq<char>>,
    nums: NumsOptionsView,
    chain: Chain,
) -> Result<AddressesView, CreateError> {
    match pubkey {
        Some(key) => Ok(AddressesView::of_pubkey(key.point@, key.compressed, chain)),
        None => match script_hex {
            Some(hex) => script_addresses(hex, nums, chain),
            None => Err(CreateError::NothingGiven),
        },
    }
}

/// Makes the addresses of a public key, or of a script given in
/// hexadecimal.
pub fn create(pubkey: Option<&PubKey>, script_hex: Option<&str>, nums: &NumsOptions, chain: Chain) -> (r:
    Result<Addresses, CreateError>)
    ensures
        creation_view(r) == created(
            match pubkey {
                Some(k) => Some(*k),
                None => None,
            },
            match script_hex {
                Some(h) => Some(h@),
                None => None,
            },
            nums@,
            chain,
        ),
{
    match pubkey {
        Some(key) => Ok(Addresses::from_pubkey(key, chain)),
        None => match script_hex {
            Some(hex) => create_from_script(hex, nums, chain),
            None => Err(CreateError::NothingGiven),
        },
    }
}

} // verus!
