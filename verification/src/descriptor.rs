//! Reports on output descriptors.

use crate::context::MiniscriptKeyType;
use crate::btc::{script_address, script_to_address, MAX_P2SH_SCRIPT_SIZE};
use crate::engine::{
    describe_keyed, describe_named, keyed_descriptor, keyed_descriptor_kind, named_descriptor,
    read_descriptor_kind,
};
use crate::chain::Chain;
use vstd::prelude::*;

verus! {

/// The kinds of output descriptor.
#[derive(Clone, Copy, Debug, PartialEq, Eq, Structural)]
pub enum DescriptorKind {
    /// A raw script.
    Bare,
    /// A script behind a script hash.
    Sh,
    Pkh,
    Wpkh,
    Wsh,
    /// A witness script hash behind a script hash.
    ShWsh,
    /// A witness key hash behind a script hash.
    ShWpkh,
    /// A sorted multisig behind a script hash.
    ShSortedMulti,
    WshSortedMulti,
    ShWshSortedMulti,
    Tr,
}

impl DescriptorKind {
    /// Whether the script of the descriptor itself is what a script hash
    /// address pays to, so that it must fit such an address.
    pub open spec fn spec_hashes_its_script(self) -> bool {
        self == DescriptorKind::Sh || self == DescriptorKind::ShSortedMulti
    }

    pub fn hashes_its_script(self) -> (r: bool)
        ensures
            r == self.spec_hashes_its_script(),
    {
        match self {
            DescriptorKind::Sh | DescriptorKind::ShSortedMulti => true,
            _ => false,
        }
    }
}

/// What a descriptor with public keys comes to.
#[derive(Clone, Debug, PartialEq, Eq)]
pub struct DescriptorAnalysis {
    /// The descriptor in canonical text, with its checksum.
    pub descriptor: String,
    pub script_pubkey: Vec<u8>,
    /// The script that stands in an input before it is signed.
    pub unsigned_script_sig: Vec<u8>,
    /// The script before any hashing; a taproot descriptor has none.
    pub witness_script: Option<Vec<u8>>,
    /// Weight of the largest satisfaction, where one exists.
    pub max_satisfaction_weight: Option<u64>,
    pub policy: Option<String>,
}

/// The mathematical value of a [`DescriptorAnalysis`].
pub struct DescriptorAnalysisView {
    pub descriptor: Seq<char>,
    pub script_pubkey: Seq<u8>,
    pub unsigned_script_sig: Seq<u8>,
    pub witness_script: Option<Seq<u8>>,
    pub max_satisfaction_weight: Option<u64>,
    pub policy: Option<Seq<char>>,
}

impl View for DescriptorAnalysis {
    type V = DescriptorAnalysisView;

    open spec fn view(&self) -> DescriptorAnalysisView {
        DescriptorAnalysisView {
            descriptor: self.descriptor@,
            script_pubkey: self.script_pubkey@,
            unsigned_script_sig: self.unsigned_script_sig@,
            witness_script: self.witness_script.deep_view(),
            max_satisfaction_weight: self.max_satisfaction_weight,
            policy: self.policy.deep_view(),
        }
    }
}

/// The report on a descriptor. The scripts and the address are present
/// only where the keys are public keys.
#[derive(Clone, Debug, PartialEq, Eq)]
pub struct DescriptorInfo {
    pub descriptor: String,
    pub key_type: MiniscriptKeyType,
    pub address: Option<String>,
    pub script_pubkey: Option<Vec<u8>>,
    pub unsigned_script_sig: Option<Vec<u8>>,
    pub witness_script: Option<Vec<u8>>,
    pub max_satisfaction_weight: Option<u64>,
    pub policy: Option<String>,
}

/// The mathematical value of a [`DescriptorInfo`].
pub struct DescriptorInfoView {
    pub descriptor: Seq<char>,
    pub key_type: MiniscriptKeyType,
    pub address: Option<Seq<char>>,
    pub script_pubkey: Option<Seq<u8>>,
    pub unsigned_script_sig: Option<Seq<u8>>,
    pub witness_script: Option<Seq<u8>>,
    pub max_satisfaction_weight: Option<u64>,
    pub policy: Option<Seq<char>>,
}

impl View for DescriptorInfo {
    type V = DescriptorInfoView;

    open spec fn view(&self) -> DescriptorInfoView {
        DescriptorInfoView {
            descriptor: self.descriptor@,
            key_type: self.key_type,
            address: self.address.deep_view(),
            script_pubkey: self.script_pubkey.deep_view(),
            unsigned_script_sig: self.unsigned_script_sig.deep_view(),
            witness_script: self.witness_script.deep_view(),
            max_satisfaction_weight: self.max_satisfaction_weight,
            policy: self.policy.deep_view(),
        }
    }
}

/// The text is no descriptor, with public keys or with placeholder names;
/// the reason is that of reading it with names.
#[derive(Clone, Debug, PartialEq, Eq)]
pub struct InvalidDescriptor {
    pub reason: String,
}

/// The value of a descriptor report or of its refusal.
pub open spec fn description_view(r: Result<DescriptorInfo, InvalidDescriptor>) -> Result<
    DescriptorInfoView,
    Seq<char>,
> {
    match r {
        Ok(info) => Ok(info@),
        Err(e) => Err(e.reason@),
    }
}

/// Whether a descriptor of the given kind and scripts has an address: a
/// raw script has none, and a script behind a script hash has one only if
/// it is no longer than such an address can pay to.
pub open spec fn has_address(kind: Option<DescriptorKind>, a: DescriptorAnalysisView) -> bool {
    match kind {
        None => false,
        Some(DescriptorKind::Bare) => false,
        Some(k) => k.spec_hashes_its_script() ==> (a.witness_script matches Some(script)
            && script.len() <= MAX_P2SH_SCRIPT_SIZE),
    }
}

/// The report on a descriptor with public keys, on `chain`. Its address,
/// where it has one, is the address of its script pubkey.
pub open spec fn keyed_report(
    a: DescriptorAnalysisView,
    kind: Option<DescriptorKind>,
    chain: Chain,
) -> DescriptorInfoView {
    DescriptorInfoView {
        descriptor: a.descriptor,
        key_type: MiniscriptKeyType::PublicKey,
        address: if has_address(kind, a) {
            script_address(a.script_pubkey, chain)
        } else {
            None
        },
        script_pubkey: Some(a.script_pubkey),
        unsigned_script_sig: Some(a.unsigned_script_sig),
        witness_script: a.witness_script,
        max_satisfaction_weight: a.max_satisfaction_weight,
        policy: a.policy,
    }
}

/// The report on a descriptor with placeholder names: it has neither
/// scripts nor an address.
pub open spec fn named_report(a: (Seq<char>, Option<u64>, Option<Seq<char>>)) -> DescriptorInfoView {
    DescriptorInfoView {
        descriptor: a.0,
        key_type: MiniscriptKeyType::String,
        address: None,
        script_pubkey: None,
        unsigned_script_sig: None,
        witness_script: None,
        max_satisfaction_weight: a.1,
        policy: a.2,
    }
}

/// The report chosen from the two readings: that with public keys where it
/// succeeds, else that with names, else the refusal of the latter.
pub open spec fn description(
    keyed: Result<DescriptorAnalysisView, Seq<char>>,
    kind: Option<DescriptorKind>,
    named: Result<(Seq<char>, Option<u64>, Option<Seq<char>>), Seq<char>>,
    chain: Chain,
) -> Result<DescriptorInfoView, Seq<char>> {
    match keyed {
        Ok(a) => Ok(keyed_report(a, kind, chain)),
        Err(_) => match named {
            Ok(a) => Ok(named_report(a)),
            Err(e) => Err(e),
        },
    }
}

impl DescriptorInfo {
    /// The report on a descriptor with public keys of the given kind, on
    /// `chain`.
    pub fn from_keyed(a: DescriptorAnalysis, kind: Option<DescriptorKind>, chain: Chain) -> (r:
        DescriptorInfo)
        ensures
            r@ == keyed_report(a@, kind, chain),
            r@.address is Some ==> has_address(kind, a@),
    {
        let fits = match &a.witness_script {
            Some(script) => {
                assert(script.deep_view() =~= script@);
                script.len() <= MAX_P2SH_SCRIPT_SIZE
            },
            None => false,
        };
        let has = match kind {
            None => false,
            Some(DescriptorKind::Bare) => false,
            Some(k) => !k.hashes_its_script() || fits,
        };
        let address = if has {
            script_to_address(a.script_pubkey.as_slice(), chain)
        } else {
            None
        };
        let r = DescriptorInfo {
            descriptor: a.descriptor,
            key_type: MiniscriptKeyType::PublicKey,
            address,
            script_pubkey: Some(a.script_pubkey),
            unsigned_script_sig: Some(a.unsigned_script_sig),
            witness_script: a.witness_script,
            max_satisfaction_weight: a.max_satisfaction_weight,
            policy: a.policy,
        };
        assert(r.script_pubkey.deep_view() == Some(a.script_pubkey@)) by {
            assert(r.script_pubkey->0.deep_view() =~= a.script_pubkey@);
        }
        assert(r.unsigned_script_sig.deep_view() == Some(a.unsigned_script_sig@)) by {
            assert(r.unsigned_script_sig->0.deep_view() =~= a.unsigned_script_sig@);
        }
        r
    }

    /// The report on a descriptor with placeholder names.
    pub fn from_named(descriptor: String, max_satisfaction_weight: Option<u64>, policy: Option<String>) -> (r:
        DescriptorInfo)
        ensures
            r@ == named_report((descriptor@, max_satisfaction_weight, policy.deep_view())),
    {
        DescriptorInfo {
            descriptor,
            key_type: MiniscriptKeyType::String,
            address: None,
            script_pubkey: None,
            unsigned_script_sig: None,
            witness_script: None,
            max_satisfaction_weight,
            policy,
        }
    }
}

/// Reports on an output descriptor: its scripts, its address on `chain`,
/// the weight of its largest satisfaction and its policy. The keys are taken
/// as public keys first, then as placeholder names.
pub fn descriptor_info(text: &str, chain: Chain) -> (r: Result<DescriptorInfo, InvalidDescriptor>)
    ensures
        description_view(r) == description(
            keyed_descriptor(text@),
            keyed_descriptor_kind(text@),
            named_descriptor(text@),
            chain,
        ),
{
    match describe_keyed(text) {
        Ok(a) => Ok(DescriptorInfo::from_keyed(a, read_descriptor_kind(text), chain)),
        Err(_) => match describe_named(text) {
            Ok(a) => Ok(DescriptorInfo::from_named(a.0, a.1, a.2)),
            Err(e) => Err(InvalidDescriptor { reason: e }),
        },
    }
}

} // verus!
