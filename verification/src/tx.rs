//! Reports on transactions and their scripts.

use crate::btc::{
    decode_tx, decoded_tx, identify_tx, outpoint_text, outpoint_to_text, script_address,
    script_text, script_to_address, script_to_text, tx_identity, txid_text, txid_to_text,
};
use crate::bytes::copy_bytes;
use crate::chain::Chain;
use vstd::prelude::*;

verus! {

/// A script of an input, as bytes and in readable form.
#[derive(Clone, Debug, PartialEq, Eq)]
pub struct InputScriptInfo {
    pub hex: Option<Vec<u8>>,
    pub assembly: Option<String>,
}

/// The mathematical value of an [`InputScriptInfo`].
pub struct InputScriptInfoView {
    pub hex: Option<Seq<u8>>,
    pub assembly: Option<Seq<char>>,
}

impl View for InputScriptInfo {
    type V = InputScriptInfoView;

    open spec fn view(&self) -> InputScriptInfoView {
        InputScriptInfoView { hex: self.hex.deep_view(), assembly: self.assembly.deep_view() }
    }
}

/// The script of an input.
pub struct InputScript<'a>(pub &'a [u8]);

impl<'a> InputScript<'a> {
    /// The script as bytes and in readable form.
    pub fn get_info(&self, chain: Chain) -> (r: InputScriptInfo)
        ensures
            r@ == (InputScriptInfoView {
                hex: Some(self.0@),
                assembly: Some(script_text(self.0@)),
            }),
    {
        let bytes = copy_bytes(self.0);
        let r = InputScriptInfo { hex: Some(bytes), assembly: Some(script_to_text(self.0)) };
        assert(r.hex.deep_view() == Some(self.0@)) by {
            assert(r.hex->0.deep_view() =~= self.0@);
        }
        r
    }
}

/// An input of a transaction.
#[derive(Clone, Debug, PartialEq, Eq)]
pub struct TxIn {
    /// The id of the transaction whose output is spent.
    pub txid: [u8; 32],
    /// The index of that output.
    pub vout: u32,
    pub script_sig: Vec<u8>,
    pub sequence: u32,
    /// The witness stack, bottom first.
    pub witness: Vec<Vec<u8>>,
}

/// The mathematical value of a [`TxIn`].
pub struct TxInView {
    pub txid: Seq<u8>,
    pub vout: u32,
    pub script_sig: Seq<u8>,
    pub sequence: u32,
    pub witness: Seq<Seq<u8>>,
}

impl View for TxIn {
    type V = TxInView;

    open spec fn view(&self) -> TxInView {
        TxInView {
            txid: self.txid@,
            vout: self.vout,
            script_sig: self.script_sig@,
            sequence: self.sequence,
            witness: self.witness.deep_view(),
        }
    }
}

/// The report on an input.
#[derive(Clone, Debug, PartialEq, Eq)]
pub struct InputInfo {
    pub prevout: Option<String>,
    pub txid: Option<String>,
    pub vout: Option<u32>,
    pub script_sig: Option<InputScriptInfo>,
    pub sequence: Option<u32>,
    /// The witness stack; absent where it is empty.
    pub witness: Option<Vec<Vec<u8>>>,
}

/// The mathematical value of an [`InputInfo`].
pub struct InputInfoView {
    pub prevout: Option<Seq<char>>,
    pub txid: Option<Seq<char>>,
    pub vout: Option<u32>,
    pub script_sig: Option<InputScriptInfoView>,
    pub sequence: Option<u32>,
    pub witness: Option<Seq<Seq<u8>>>,
}

impl View for InputInfo {
    type V = InputInfoView;

    open spec fn view(&self) -> InputInfoView {
        InputInfoView {
            prevout: self.prevout.deep_view(),
            txid: self.txid.deep_view(),
            vout: self.vout,
            script_sig: match self.script_sig {
                Some(s) => Some(s@),
                None => None,
            },
            sequence: self.sequence,
            witness: self.witness.deep_view(),
        }
    }
}

impl TxInView {
    /// The report on this input.
    pub open spec fn info(self) -> InputInfoView {
        InputInfoView {
            prevout: Some(outpoint_text(self.txid, self.vout)),
            txid: Some(txid_text(self.txid)),
            vout: Some(self.vout),
            script_sig: Some(
                InputScriptInfoView {
                    hex: Some(self.script_sig),
                    assembly: Some(script_text(self.script_sig)),
                },
            ),
            sequence: Some(self.sequence),
            witness: if self.witness.len() > 0 {
                Some(self.witness)
            } else {
                None
            },
        }
    }
}

impl TxIn {
    /// The report on this input. An empty witness is left out.
    pub fn get_info(&self, chain: Chain) -> (r: InputInfo)
        ensures
            r@ == self@.info(),
    {
        let script_sig = InputScript(self.script_sig.as_slice()).get_info(chain);
        InputInfo {
            prevout: Some(outpoint_to_text(&self.txid, self.vout)),
            txid: Some(txid_to_text(&self.txid)),
            vout: Some(self.vout),
            sequence: Some(self.sequence),
            script_sig: Some(script_sig),
            witness: if self.witness.len() > 0 {
                Some(self.witness.clone())
            } else {
                None
            },
        }
    }
}

/// The kinds of output script that are told apart.
#[derive(Clone, Copy, Debug, PartialEq, Eq, Structural)]
pub enum ScriptKind {
    P2pk,
    P2pkh,
    OpReturn,
    P2sh,
    P2wpkh,
    P2wsh,
    P2tr,
    Unknown,
}

/// A push of 65 bytes, here, an uncompressed key, then `OP_CHECKSIG`; or
/// the same with a push of 33 bytes.
pub open spec fn is_p2pk(s: Seq<u8>) -> bool {
    ||| s.len() == 67 && s[0] == 0x41 && s[66] == 0xac
    ||| s.len() == 35 && s[0] == 0x21 && s[34] == 0xac
}

/// `OP_DUP OP_HASH160 <20 bytes> OP_EQUALVERIFY OP_CHECKSIG`.
pub open spec fn is_p2pkh(s: Seq<u8>) -> bool {
    s.len() == 25 && s[0] == 0x76 && s[1] == 0xa9 && s[2] == 0x14 && s[23] == 0x88 && s[24]
        == 0xac
}

/// A script that starts with `OP_RETURN`.
pub open spec fn is_op_return(s: Seq<u8>) -> bool {
    s.len() > 0 && s[0] == 0x6a
}

/// `OP_HASH160 <20 bytes> OP_EQUAL`.
pub open spec fn is_p2sh(s: Seq<u8>) -> bool {
    s.len() == 23 && s[0] == 0xa9 && s[1] == 0x14 && s[22] == 0x87
}

/// Witness version 0 with a program of 20 bytes.
pub open spec fn is_p2wpkh(s: Seq<u8>) -> bool {
    s.len() == 22 && s[0] == 0x00 && s[1] == 0x14
}

/// Witness version 0 with a program of 32 bytes.
pub open spec fn is_p2wsh(s: Seq<u8>) -> bool {
    s.len() == 34 && s[0] == 0x00 && s[1] == 0x20
}

/// Witness version 1 with a program of 32 bytes.
pub open spec fn is_p2tr(s: Seq<u8>) -> bool {
    s.len() == 34 && s[0] == 0x51 && s[1] == 0x20
}

/// The kind of an output script: the first of the known templates that it
/// fits.
pub open spec fn script_kind(s: Seq<u8>) -> ScriptKind {
    if is_p2pk(s) {
        ScriptKind::P2pk
    } else if is_p2pkh(s) {
        ScriptKind::P2pkh
    } else if is_op_return(s) {
        ScriptKind::OpReturn
    } else if is_p2sh(s) {
        ScriptKind::P2sh
    } else if is_p2wpkh(s) {
        ScriptKind::P2wpkh
    } else if is_p2wsh(s) {
        ScriptKind::P2wsh
    } else if is_p2tr(s) {
        ScriptKind::P2tr
    } else {
        ScriptKind::Unknown
    }
}

impl ScriptKind {
    pub open spec fn spec_name(self) -> Seq<char> {
        match self {
            ScriptKind::P2pk => "p2pk"@,
            ScriptKind::P2pkh => "p2pkh"@,
            ScriptKind::OpReturn => "opreturn"@,
            ScriptKind::P2sh => "p2sh"@,
            ScriptKind::P2wpkh => "p2wpkh"@,
            ScriptKind::P2wsh => "p2wsh"@,
            ScriptKind::P2tr => "p2tr"@,
            ScriptKind::Unknown => "unknown"@,
        }
    }

    /// The name under which the kind is reported.
    pub fn name(self) -> (r: &'static str)
        ensures
            r@ == self.spec_name(),
    {
        match self {
            ScriptKind::P2pk => "p2pk",
            ScriptKind::P2pkh => "p2pkh",
            ScriptKind::OpReturn => "opreturn",
            ScriptKind::P2sh => "p2sh",
            ScriptKind::P2wpkh => "p2wpkh",
            ScriptKind::P2wsh => "p2wsh",
            ScriptKind::P2tr => "p2tr",
            ScriptKind::Unknown => "unknown",
        }
    }
}

/// The templates exclude each other, but for `OP_RETURN`, which only looks
/// at the first byte: a script fits at most one of the other six.
pub proof fn lemma_templates_exclusive(s: Seq<u8>)
    ensures
        is_p2pk(s) ==> !is_p2pkh(s) && !is_p2sh(s) && !is_p2wpkh(s) && !is_p2wsh(s) && !is_p2tr(s)
            && !is_op_return(s),
        is_p2pkh(s) ==> !is_p2sh(s) && !is_p2wpkh(s) && !is_p2wsh(s) && !is_p2tr(s)
            && !is_op_return(s),
        is_p2sh(s) ==> !is_p2wpkh(s) && !is_p2wsh(s) && !is_p2tr(s) && !is_op_return(s),
        is_p2wpkh(s) ==> !is_p2wsh(s) && !is_p2tr(s) && !is_op_return(s),
        is_p2wsh(s) ==> !is_p2tr(s) && !is_op_return(s),
        is_p2tr(s) ==> !is_op_return(s),
{
}

/// The report on an output script.
#[derive(Clone, Debug, PartialEq, Eq)]
pub struct OutputScriptInfo {
    pub hex: Option<Vec<u8>>,
    pub assembly: Option<String>,
    pub type_: Option<String>,
    pub address: Option<String>,
}

/// The mathematical value of an [`OutputScriptInfo`].
pub struct OutputScriptInfoView {
    pub hex: Option<Seq<u8>>,
    pub assembly: Option<Seq<char>>,
    pub type_: Option<Seq<char>>,
    pub address: Option<Seq<char>>,
}

impl View for OutputScriptInfo {
    type V = OutputScriptInfoView;

    open spec fn view(&self) -> OutputScriptInfoView {
        OutputScriptInfoView {
            hex: self.hex.deep_view(),
            assembly: self.assembly.deep_view(),
            type_: self.type_.deep_view(),
            address: self.address.deep_view(),
        }
    }
}

/// The report on the output script `s` on `chain`.
pub open spec fn output_script_info(s: Seq<u8>, chain: Chain) -> OutputScriptInfoView {
    OutputScriptInfoView {
        hex: Some(s),
        assembly: Some(script_text(s)),
        type_: Some(script_kind(s).spec_name()),
        address: script_address(s, chain),
    }
}

/// The script of an output.
pub struct OutputScript<'a>(pub &'a [u8]);

impl<'a> OutputScript<'a> {
    /// Tells which template the script fits.
    pub fn kind(&self) -> (r: ScriptKind)
        ensures
            r == script_kind(self.0@),
    {
        let s = self.0;
        let n = s.len();
        if (n == 67 && s[0] == 0x41 && s[66] == 0xac) || (n == 35 && s[0] == 0x21 && s[34]
            == 0xac) {
            ScriptKind::P2pk
        } else if n == 25 && s[0] == 0x76 && s[1] == 0xa9 && s[2] == 0x14 && s[23] == 0x88 && s[24]
            == 0xac {
            ScriptKind::P2pkh
        } else if n > 0 && s[0] == 0x6a {
            ScriptKind::OpReturn
        } else if n == 23 && s[0] == 0xa9 && s[1] == 0x14 && s[22] == 0x87 {
            ScriptKind::P2sh
        } else if n == 22 && s[0] == 0x00 && s[1] == 0x14 {
            ScriptKind::P2wpkh
        } else if n == 34 && s[0] == 0x00 && s[1] == 0x20 {
            ScriptKind::P2wsh
        } else if n == 34 && s[0] == 0x51 && s[1] == 0x20 {
            ScriptKind::P2tr
        } else {
            ScriptKind::Unknown
        }
    }

    /// The script as bytes and in readable form, its kind, and its address
    /// on `chain` where it has one.
    pub fn get_info(&self, chain: Chain) -> (r: OutputScriptInfo)
        ensures
            r@ == output_script_info(self.0@, chain),
    {
        let bytes = copy_bytes(self.0);
        let r = OutputScriptInfo {
            hex: Some(bytes),
            assembly: Some(script_to_text(self.0)),
            type_: Some(self.kind().name().to_owned()),
            address: script_to_address(self.0, chain),
        };
        assert(r.hex.deep_view() == Some(self.0@)) by {
            assert(r.hex->0.deep_view() =~= self.0@);
        }
        r
    }
}

/// An output of a transaction.
#[derive(Clone, Debug, PartialEq, Eq)]
pub struct TxOut {
    /// The amount in satoshi.
    pub value: u64,
    pub script_pubkey: Vec<u8>,
}

/// The mathematical value of a [`TxOut`].
pub struct TxOutView {
    pub value: u64,
    pub script_pubkey: Seq<u8>,
}

impl View for TxOut {
    type V = TxOutView;

    open spec fn view(&self) -> TxOutView {
        TxOutView { value: self.value, script_pubkey: self.script_pubkey@ }
    }
}

/// The report on an output.
#[derive(Clone, Debug, PartialEq, Eq)]
pub struct OutputInfo {
    pub value: Option<u64>,
    pub script_pub_key: Option<OutputScriptInfo>,
}

/// The mathematical value of an [`OutputInfo`].
pub struct OutputInfoView {
    pub value: Option<u64>,
    pub script_pub_key: Option<OutputScriptInfoView>,
}

impl View for OutputInfo {
    type V = OutputInfoView;

    open spec fn view(&self) -> OutputInfoView {
        OutputInfoView {
            value: self.value,
            script_pub_key: match self.script_pub_key {
                Some(s) => Some(s@),
                None => None,
            },
        }
    }
}

impl TxOutView {
    /// The report on this output on `chain`.
    pub open spec fn info(self, chain: Chain) -> OutputInfoView {
        OutputInfoView {
            value: Some(self.value),
            script_pub_key: Some(output_script_info(self.script_pubkey, chain)),
        }
    }
}

impl TxOut {
    /// The report on this output.
    pub fn get_info(&self, chain: Chain) -> (r: OutputInfo)
        ensures
            r@ == self@.info(chain),
    {
        OutputInfo {
            value: Some(self.value),
            script_pub_key: Some(OutputScript(self.script_pubkey.as_slice()).get_info(chain)),
        }
    }
}

/// A transaction.
#[derive(Clone, Debug, PartialEq, Eq)]
pub struct Transaction {
    pub version: i32,
    pub lock_time: u32,
    pub input: Vec<TxIn>,
    pub output: Vec<TxOut>,
}

/// The mathematical value of a [`Transaction`].
pub struct TransactionView {
    pub version: i32,
    pub lock_time: u32,
    pub input: Seq<TxInView>,
    pub output: Seq<TxOutView>,
}

impl View for Transaction {
    type V = TransactionView;

    open spec fn view(&self) -> TransactionView {
        TransactionView {
            version: self.version,
            lock_time: self.lock_time,
            input: self.input@.map_values(|i: TxIn| i@),
            output: self.output@.map_values(|o: TxOut| o@),
        }
    }
}

/// What identifies a serialized transaction, and what it weighs.
#[derive(Clone, Debug, PartialEq, Eq)]
pub struct TxIdentity {
    pub txid: String,
    pub wtxid: String,
    /// Length of the serialization in bytes.
    pub size: usize,
    /// Weight in weight units.
    pub weight: u64,
}

/// The mathematical value of a [`TxIdentity`].
pub struct TxIdentityView {
    pub txid: Seq<char>,
    pub wtxid: Seq<char>,
    pub size: usize,
    pub weight: u64,
}

impl View for TxIdentity {
    type V = TxIdentityView;

    open spec fn view(&self) -> TxIdentityView {
        TxIdentityView {
            txid: self.txid@,
            wtxid: self.wtxid@,
            size: self.size,
            weight: self.weight,
        }
    }
}

/// The report on a transaction.
#[derive(Clone, Debug, PartialEq, Eq)]
pub struct TransactionInfo {
    pub txid: Option<String>,
    pub wtxid: Option<String>,
    pub size: Option<usize>,
    pub weight: Option<u64>,
    pub vsize: Option<u64>,
    pub version: Option<i32>,
    pub locktime: Option<u32>,
    pub inputs: Option<Vec<InputInfo>>,
    pub outputs: Option<Vec<OutputInfo>>,
    pub total_output_value: Option<u64>,
}

/// The mathematical value of a [`TransactionInfo`].
pub struct TransactionInfoView {
    pub txid: Option<Seq<char>>,
    pub wtxid: Option<Seq<char>>,
    pub size: Option<usize>,
    pub weight: Option<u64>,
    pub vsize: Option<u64>,
    pub version: Option<i32>,
    pub locktime: Option<u32>,
    pub inputs: Option<Seq<InputInfoView>>,
    pub outputs: Option<Seq<OutputInfoView>>,
    pub total_output_value: Option<u64>,
}

impl View for TransactionInfo {
    type V = TransactionInfoView;

    open spec fn view(&self) -> TransactionInfoView {
        TransactionInfoView {
            txid: self.txid.deep_view(),
            wtxid: self.wtxid.deep_view(),
            size: self.size,
            weight: self.weight,
            vsize: self.vsize,
            version: self.version,
            locktime: self.locktime,
            inputs: match self.inputs {
                Some(v) => Some(v@.map_values(|i: InputInfo| i@)),
                None => None,
            },
            outputs: match self.outputs {
                Some(v) => Some(v@.map_values(|o: OutputInfo| o@)),
                None => None,
            },
            total_output_value: self.total_output_value,
        }
    }
}

/// The sum of the values of `outputs`.
pub open spec fn total_value(outputs: Seq<TxOutView>) -> nat
    decreases outputs.len(),
{
    if outputs.len() == 0 {
        0
    } else {
        total_value(outputs.drop_last()) + outputs.last().value as nat
    }
}

impl TransactionView {
    /// The report on this transaction, given its identity.
    pub open spec fn info(self, identity: TxIdentityView, chain: Chain) -> TransactionInfoView {
        TransactionInfoView {
            txid: Some(identity.txid),
            wtxid: Some(identity.wtxid),
            size: Some(identity.size),
            weight: Some(identity.weight),
            vsize: Some((identity.weight / 4) as u64),
            version: Some(self.version),
            locktime: Some(self.lock_time),
            inputs: Some(self.input.map_values(|i: TxInView| i.info())),
            outputs: Some(self.output.map_values(|o: TxOutView| o.info(chain))),
            total_output_value: if total_value(self.output) <= u64::MAX {
                Some(total_value(self.output) as u64)
            } else {
                None
            },
        }
    }
}

impl Transaction {
    /// The sum of the output values, if it fits 64 bits.
    pub fn total_output_value(&self) -> (r: Option<u64>)
        ensures
            match r {
                Some(total) => total == total_value(self@.output),
                None => total_value(self@.output) > u64::MAX,
            },
    {
        let mut total: u64 = 0;
        let mut i: usize = 0;
        while i < self.output.len()
            invariant
                i <= self.output.len(),
                total == total_value(self@.output.subrange(0, i as int)),
            decreases self.output.len() - i,
        {
            let value = self.output[i].value;
            proof {
                let prefix = self@.output.subrange(0, i + 1);
                assert(prefix.drop_last() =~= self@.output.subrange(0, i as int));
                assert(prefix.last() == self@.output[i as int]);
                lemma_total_value_monotone(self@.output, i + 1);
            }
            match total.checked_add(value) {
                Some(sum) => {
                    total = sum;
                },
                None => {
                    return None;
                },
            }
            i += 1;
        }
        assert(self@.output.subrange(0, self.output.len() as int) =~= self@.output);
        Some(total)
    }

    /// The report on this transaction: its identity, its inputs and
    /// outputs, and the sum of the output values, which is absent where it
    /// does not fit 64 bits. The virtual size is a quarter of the weight,
    /// rounded down.
    pub fn get_info(&self, identity: &TxIdentity, chain: Chain) -> (r: TransactionInfo)
        ensures
            r@ == self@.info(identity@, chain),
    {
        let mut inputs: Vec<InputInfo> = Vec::new();
        let mut i: usize = 0;
        while i < self.input.len()
            invariant
                i <= self.input.len(),
                inputs@.len() == i,
                forall|k: int| 0 <= k < i ==> (#[trigger] inputs@[k])@ == self.input@[k]@.info(),
            decreases self.input.len() - i,
        {
            inputs.push(self.input[i].get_info(chain));
            i += 1;
        }
        let mut outputs: Vec<OutputInfo> = Vec::new();
        let mut j: usize = 0;
        while j < self.output.len()
            invariant
                j <= self.output.len(),
                outputs@.len() == j,
                forall|k: int|
                    0 <= k < j ==> (#[trigger] outputs@[k])@ == self.output@[k]@.info(chain),
            decreases self.output.len() - j,
        {
            outputs.push(self.output[j].get_info(chain));
            j += 1;
        }
        let total = self.total_output_value();
        let r = TransactionInfo {
            txid: Some(identity.txid.clone()),
            wtxid: Some(identity.wtxid.clone()),
            version: Some(self.version),
            locktime: Some(self.lock_time),
            size: Some(identity.size),
            weight: Some(identity.weight),
            vsize: Some(identity.weight / 4),
            inputs: Some(inputs),
            outputs: Some(outputs),
            total_output_value: total,
        };
        assert(r@.inputs->0 =~= self@.input.map_values(|i: TxInView| i.info()));
        assert(r@.outputs->0 =~= self@.output.map_values(|o: TxOutView| o.info(chain)));
        r
    }
}

/// The sum over a prefix is at most the sum over the whole.
pub proof fn lemma_total_value_monotone(outputs: Seq<TxOutView>, n: int)
    requires
        0 <= n <= outputs.len(),
    ensures
        total_value(outputs.subrange(0, n)) <= total_value(outputs),
    decreases outputs.len() - n,
{
    if n < outputs.len() {
        let longer = outputs.subrange(0, n + 1);
        assert(longer.drop_last() =~= outputs.subrange(0, n));
        lemma_total_value_monotone(outputs, n + 1);
    } else {
        assert(outputs.subrange(0, n) =~= outputs);
    }
}

/// The value of an optional transaction report.
pub open spec fn transaction_info_view(r: Option<TransactionInfo>) -> Option<TransactionInfoView> {
    match r {
        Some(info) => Some(info@),
        None => None,
    }
}

/// The report on the transaction that `raw` serializes: none if `raw`
/// serializes no transaction.
pub open spec fn decoded_info(raw: Seq<u8>, chain: Chain) -> Option<TransactionInfoView> {
    match (decoded_tx(raw), tx_identity(raw)) {
        (Some(tx), Some(identity)) => Some(tx.info(identity, chain)),
        _ => None,
    }
}

/// Decodes a serialized transaction and reports on it.
pub fn decode_transaction(raw: &[u8], chain: Chain) -> (r: Option<TransactionInfo>)
    ensures
        transaction_info_view(r) == decoded_info(raw@, chain),
        r is Some <==> decoded_tx(raw@) is Some,
{
    let tx = match decode_tx(raw) {
        Some(tx) => tx,
        None => {
            return None;
        },
    };
    let identity = match identify_tx(raw) {
        Some(identity) => identity,
        None => {
            return None;
        },
    };
    Some(tx.get_info(&identity, chain))
}

} // verus!
