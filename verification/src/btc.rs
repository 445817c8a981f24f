//! The trusted boundary to the `bitcoin` crate: scripts, addresses and
//! transactions. Each function here makes the calls and hands back plain
//! values. Nothing in this file is proved: every contract states what the
//! crate's source shows, or gives the result a name.

use crate::chain::Chain;
use crate::encoding::hex_encoded;
use crate::tx::{Transaction, TransactionView, TxIdentity, TxIdentityView, TxIn, TxOut};
use crate::address::AddressError;
use bitcoin::address::NetworkUnchecked;
use bitcoin::consensus::encode::{deserialize, serialize};
use bitcoin::key::CompressedPublicKey;
use bitcoin::secp256k1::{PublicKey, Secp256k1, SecretKey};
use bitcoin::{Address, NetworkKind, OutPoint, PrivateKey, Script, Txid};
use std::str::FromStr;
use vstd::prelude::*;

verus! {

#[verifier::external_type_specification]
#[verifier::external_body]
pub struct ExNetwork(bitcoin::Network);

/// The `bitcoin` crate's value for a network.
#[verifier::external_body]
pub(crate) fn outside_network(chain: Chain) -> (r: bitcoin::Network) {
    match chain {
        Chain::Bitcoin => bitcoin::Network::Bitcoin,
        Chain::Testnet => bitcoin::Network::Testnet,
        Chain::Testnet4 => bitcoin::Network::Testnet4,
        Chain::Signet => bitcoin::Network::Signet,
        Chain::Regtest => bitcoin::Network::Regtest,
    }
}

/// The readable form of a script, opcode by opcode.
pub uninterp spec fn script_text(script: Seq<u8>) -> Seq<char>;

/// The address that pays to `script` on `chain`, for the scripts that have
/// one.
pub uninterp spec fn script_address(script: Seq<u8>, chain: Chain) -> Option<Seq<char>>;

/// A transaction id as it is written: its bytes in reverse order, in
/// hexadecimal.
pub open spec fn txid_text(txid: Seq<u8>) -> Seq<char> {
    hex_encoded(txid.reverse())
}

/// An outpoint as it is written.
pub uninterp spec fn outpoint_text(txid: Seq<u8>, vout: u32) -> Seq<char>;

/// The transaction that `raw` serializes, if it serializes one.
pub uninterp spec fn decoded_tx(raw: Seq<u8>) -> Option<TransactionView>;

/// The ids, size and weight of the transaction that `raw` serializes.
pub uninterp spec fn tx_identity(raw: Seq<u8>) -> Option<TxIdentityView>;

/// `Script::to_asm_string`. The contract only names the text.
#[verifier::external_body]
pub(crate) fn script_to_text(script: &[u8]) -> (r: String)
    ensures
        r@ == script_text(script@),
{
    Script::from_bytes(script).to_asm_string()
}

/// `Address::from_script`, then the address as text; `None` where the
/// script has no address. The contract only names the outcome.
#[verifier::external_body]
pub(crate) fn script_to_address(script: &[u8], chain: Chain) -> (r: Option<String>)
    ensures
        r.deep_view() == script_address(script@, chain),
{
    Address::from_script(Script::from_bytes(script), outside_network(chain)).ok().map(
        |a| a.to_string(),
    )
}

/// `Txid::from_byte_array`, then the id as text: a transaction id is
/// written with its bytes in reverse order, in lower-case hexadecimal.
#[verifier::external_body]
pub(crate) fn txid_to_text(txid: &[u8; 32]) -> (r: String)
    ensures
        r@ == txid_text(txid@),
{
    <Txid as bitcoin::hashes::Hash>::from_byte_array(*txid).to_string()
}

/// `OutPoint::new`, then the outpoint as text. The contract only names the
/// text.
#[verifier::external_body]
pub(crate) fn outpoint_to_text(txid: &[u8; 32], vout: u32) -> (r: String)
    ensures
        r@ == outpoint_text(txid@, vout),
{
    OutPoint::new(<Txid as bitcoin::hashes::Hash>::from_byte_array(*txid), vout).to_string()
}

/// `consensus::encode::deserialize` of a transaction, field by field;
/// `None` where the bytes serialize none. The contract only names the
/// outcome.
#[verifier::external_body]
pub(crate) fn decode_tx(raw: &[u8]) -> (r: Option<Transaction>)
    ensures
        match r {
            Some(tx) => decoded_tx(raw@) == Some(tx@),
            None => decoded_tx(raw@) is None,
        },
{
    let tx: bitcoin::Transaction = deserialize(raw).ok()?;
    let input = tx.input.iter().map(|i| TxIn {
        txid: bitcoin::hashes::Hash::to_byte_array(i.previous_output.txid),
        vout: i.previous_output.vout,
        script_sig: i.script_sig.to_bytes(),
        sequence: i.sequence.to_consensus_u32(),
        witness: i.witness.to_vec(),
    });
    let output = tx.output.iter().map(|o| TxOut { value: o.value.to_sat(), script_pubkey: o.script_pubkey.to_bytes() });
    let (version, lock_time) = (tx.version.0, tx.lock_time.to_consensus_u32());
    Some(Transaction { version, lock_time, input: input.collect(), output: output.collect() })
}

/// `consensus::encode::deserialize` of a transaction, then `compute_txid`,
/// `compute_wtxid`, the length of `serialize` and `weight`. There is an
/// outcome exactly when the bytes serialize a transaction. The contract
/// only names the outcome.
#[verifier::external_body]
pub(crate) fn identify_tx(raw: &[u8]) -> (r: Option<TxIdentity>)
    ensures
        match r {
            Some(id) => tx_identity(raw@) == Some(id@),
            None => tx_identity(raw@) is None,
        },
        r is Some <==> decoded_tx(raw@) is Some,
{
    let tx: bitcoin::Transaction = deserialize(raw).ok()?;
    Some(TxIdentity {
        txid: tx.compute_txid().to_string(),
        wtxid: tx.compute_wtxid().to_string(),
        size: serialize(&tx).len(),
        weight: tx.weight().to_wu(),
    })
}

/// The address that pays to the hash of a public key, serialized as
/// `compressed` says.
pub uninterp spec fn p2pkh_address(point: Seq<u8>, compressed: bool, chain: Chain) -> Option<
    Seq<char>,
>;

/// The witness address that pays to the hash of a compressed public key.
pub uninterp spec fn p2wpkh_address(point: Seq<u8>, chain: Chain) -> Option<Seq<char>>;

/// The script hash address that wraps the witness address of a key.
pub uninterp spec fn p2shwpkh_address(point: Seq<u8>, chain: Chain) -> Option<Seq<char>>;

/// The taproot address whose internal key is the key, with no scripts.
pub uninterp spec fn p2tr_address(point: Seq<u8>, chain: Chain) -> Option<Seq<char>>;

/// The address that pays to the hash of a script.
pub uninterp spec fn p2sh_address(script: Seq<u8>, chain: Chain) -> Seq<char>;

/// The witness address that pays to the hash of a script.
pub uninterp spec fn p2wsh_address(script: Seq<u8>, chain: Chain) -> Seq<char>;

/// The script hash address that wraps the witness address of a script.
pub uninterp spec fn p2shwsh_address(script: Seq<u8>, chain: Chain) -> Seq<char>;

/// The taproot address of the one script under the internal key `point`.
pub uninterp spec fn p2tr_script_address(script: Seq<u8>, point: Seq<u8>, chain: Chain) -> Option<
    Seq<char>,
>;

/// A private key in wallet import format.
pub uninterp spec fn wif_text(secret: Seq<u8>, compressed: bool, mainnet: bool) -> Option<
    Seq<char>,
>;

/// The largest script that a script hash address can pay to (bytes).
pub const MAX_P2SH_SCRIPT_SIZE: usize = 520;

/// `PublicKey::from_slice`, then `Address::p2pkh` of the key serialized as
/// `compressed` says, as text. The contract only names the outcome.
#[verifier::external_body]
pub(crate) fn p2pkh_of(point: &[u8; 33], compressed: bool, chain: Chain) -> (r: Option<String>)
    ensures
        r.deep_view() == p2pkh_address(point@, compressed, chain),
{
    let key = bitcoin::PublicKey { compressed, inner: PublicKey::from_slice(point).ok()? };
    Some(Address::p2pkh(key, outside_network(chain)).to_string())
}

/// `CompressedPublicKey::from_slice`, then `Address::p2wpkh` as text. The
/// contract only names the outcome.
#[verifier::external_body]
pub(crate) fn p2wpkh_of(point: &[u8; 33], chain: Chain) -> (r: Option<String>)
    ensures
        r.deep_view() == p2wpkh_address(point@, chain),
{
    let key = CompressedPublicKey::from_slice(point).ok()?;
    Some(Address::p2wpkh(&key, outside_network(chain)).to_string())
}

/// `CompressedPublicKey::from_slice`, then `Address::p2shwpkh` as text. The
/// contract only names the outcome.
#[verifier::external_body]
pub(crate) fn p2shwpkh_of(point: &[u8; 33], chain: Chain) -> (r: Option<String>)
    ensures
        r.deep_view() == p2shwpkh_address(point@, chain),
{
    let key = CompressedPublicKey::from_slice(point).ok()?;
    Some(Address::p2shwpkh(&key, outside_network(chain)).to_string())
}

/// `PublicKey::from_slice`, then `Address::p2tr` with the key's x
/// coordinate as internal key and no script tree, as text. The contract
/// only names the outcome.
#[verifier::external_body]
pub(crate) fn p2tr_of(point: &[u8; 33], chain: Chain) -> (r: Option<String>)
    ensures
        r.deep_view() == p2tr_address(point@, chain),
{
    let key = PublicKey::from_slice(point).ok()?;
    Some(Address::p2tr(&Secp256k1::new(), key.into(), None, outside_network(chain)).to_string())
}

/// `Address::p2sh` as text. It fails, here `None`, exactly on a script of
/// more than 520 bytes; the contract says so and names the text.
#[verifier::external_body]
pub(crate) fn p2sh_of(script: &[u8], chain: Chain) -> (r: Option<String>)
    ensures
        r is Some <==> script@.len() <= MAX_P2SH_SCRIPT_SIZE,
        r matches Some(a) ==> a@ == p2sh_address(script@, chain),
{
    Address::p2sh(Script::from_bytes(script), outside_network(chain)).ok().map(|a| a.to_string())
}

/// `Address::p2wsh` as text. The contract only names the text.
#[verifier::external_body]
pub(crate) fn p2wsh_of(script: &[u8], chain: Chain) -> (r: String)
    ensures
        r@ == p2wsh_address(script@, chain),
{
    Address::p2wsh(Script::from_bytes(script), outside_network(chain)).to_string()
}

/// `Address::p2shwsh` as text. The contract only names the text.
#[verifier::external_body]
pub(crate) fn p2shwsh_of(script: &[u8], chain: Chain) -> (r: String)
    ensures
        r@ == p2shwsh_address(script@, chain),
{
    Address::p2shwsh(Script::from_bytes(script), outside_network(chain)).to_string()
}

/// `PublicKey::from_slice`, `Script::to_p2tr` with the key's x coordinate
/// as internal key, then `Address::from_script` as text. The contract only
/// names the outcome.
#[verifier::external_body]
pub(crate) fn p2tr_script_of(script: &[u8], point: &[u8; 33], chain: Chain) -> (r: Option<String>)
    ensures
        r.deep_view() == p2tr_script_address(script@, point@, chain),
{
    let key = PublicKey::from_slice(point).ok()?;
    let spk = Script::from_bytes(script).to_p2tr(&Secp256k1::new(), key.into());
    Some(Address::from_script(&spk, outside_network(chain)).ok()?.to_string())
}

/// `SecretKey::from_slice`, then `PrivateKey::to_wif`. The contract only
/// names the outcome.
#[verifier::external_body]
pub(crate) fn wif_of(secret: &[u8; 32], compressed: bool, mainnet: bool) -> (r: Option<String>)
    ensures
        r.deep_view() == wif_text(secret@, compressed, mainnet),
{
    let network = if mainnet { NetworkKind::Main } else { NetworkKind::Test };
    Some(PrivateKey { compressed, network, inner: SecretKey::from_slice(secret).ok()? }.to_wif())
}

/// The script that the address written as `text` pays to, if `text` is an
/// address of `chain`; else what is wrong with it.
pub uninterp spec fn address_script(text: Seq<char>, chain: Chain) -> Result<Seq<u8>, AddressError>;

/// `Address::from_str`, `Address::require_network`, then
/// `Address::script_pubkey`. The contract only names the outcome.
#[verifier::external_body]
pub(crate) fn read_address(text: &str, chain: Chain) -> (r: Result<Vec<u8>, AddressError>)
    ensures
        match r {
            Ok(script) => address_script(text@, chain) == Ok::<Seq<u8>, AddressError>(script@),
            Err(e) => address_script(text@, chain) == Err::<Seq<u8>, AddressError>(e),
        },
{
    let address = Address::<NetworkUnchecked>::from_str(text).map_err(
        |_| AddressError::InvalidFormat,
    )?;
    let address = address.require_network(outside_network(chain)).map_err(
        |_| AddressError::WrongNetwork,
    )?;
    Ok(address.script_pubkey().into_bytes())
}

} // verus!
