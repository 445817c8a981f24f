//! Lightning invoices: what an invoice says, and the report on it.

use lightning_invoice::Bolt11Invoice;
use std::str::FromStr;
use vstd::prelude::*;

verus! {

/// What a BOLT-11 invoice says, as plain values.
#[derive(Clone, Debug, PartialEq, Eq)]
pub struct Invoice {
    /// When the invoice was made, in seconds since the Unix epoch.
    pub timestamp: u64,
    /// How long the invoice is good for, in seconds.
    pub expiry: u64,
    pub payment_hash: Vec<u8>,
    /// The description, or the hash of a longer one.
    pub description: String,
    pub min_final_cltv_expiry: u64,
    pub fallback_addresses: Vec<String>,
    /// The amount in thousandths of a satoshi, if the invoice names one.
    pub amount_msat: Option<u64>,
    /// The key that signed the invoice.
    pub payee_pub_key: Vec<u8>,
}

/// The mathematical value of an [`Invoice`].
pub struct InvoiceView {
    pub timestamp: u64,
    pub expiry: u64,
    pub payment_hash: Seq<u8>,
    pub description: Seq<char>,
    pub min_final_cltv_expiry: u64,
    pub fallback_addresses: Seq<Seq<char>>,
    pub amount_msat: Option<u64>,
    pub payee_pub_key: Seq<u8>,
}

impl View for Invoice {
    type V = InvoiceView;

    open spec fn view(&self) -> InvoiceView {
        InvoiceView {
            timestamp: self.timestamp,
            expiry: self.expiry,
            payment_hash: self.payment_hash@,
            description: self.description@,
            min_final_cltv_expiry: self.min_final_cltv_expiry,
            fallback_addresses: self.fallback_addresses.deep_view(),
            amount_msat: self.amount_msat,
            payee_pub_key: self.payee_pub_key@,
        }
    }
}

/// The report on an invoice.
#[derive(Clone, Debug, PartialEq, Eq)]
pub struct InvoiceInfo {
    pub timestamp: u64,
    pub payment_hash: Vec<u8>,
    pub description: String,
    pub payee_pub_key: Vec<u8>,
    /// When the invoice expires, in seconds since the Unix epoch; absent
    /// where that moment lies beyond what 64 bits count.
    pub expiry_time: Option<u64>,
    pub min_final_cltv_expiry: u64,
    pub fallback_addresses: Vec<String>,
    /// The amount in whole satoshi, rounded down, if the invoice names one.
    pub amount_sat: Option<u64>,
    pub amount_msat: Option<u64>,
}

/// The mathematical value of an [`InvoiceInfo`].
pub struct InvoiceInfoView {
    pub timestamp: u64,
    pub payment_hash: Seq<u8>,
    pub description: Seq<char>,
    pub payee_pub_key: Seq<u8>,
    pub expiry_time: Option<u64>,
    pub min_final_cltv_expiry: u64,
    pub fallback_addresses: Seq<Seq<char>>,
    pub amount_sat: Option<u64>,
    pub amount_msat: Option<u64>,
}

impl View for InvoiceInfo {
    type V = InvoiceInfoView;

    open spec fn view(&self) -> InvoiceInfoView {
        InvoiceInfoView {
            timestamp: self.timestamp,
            payment_hash: self.payment_hash@,
            description: self.description@,
            payee_pub_key: self.payee_pub_key@,
            expiry_time: self.expiry_time,
            min_final_cltv_expiry: self.min_final_cltv_expiry,
            fallback_addresses: self.fallback_addresses.deep_view(),
            amount_sat: self.amount_sat,
            amount_msat: self.amount_msat,
        }
    }
}

impl InvoiceView {
    /// The report on this invoice.
    pub open spec fn info(self) -> InvoiceInfoView {
        InvoiceInfoView {
            timestamp: self.timestamp,
            payment_hash: self.payment_hash,
            description: self.description,
            payee_pub_key: self.payee_pub_key,
            expiry_time: if self.timestamp + self.expiry <= u64::MAX {
                Some((self.timestamp + self.expiry) as u64)
            } else {
                None
            },
            min_final_cltv_expiry: self.min_final_cltv_expiry,
            fallback_addresses: self.fallback_addresses,
            amount_sat: match self.amount_msat {
                Some(msat) => Some(msat / 1000),
                None => None,
            },
            amount_msat: self.amount_msat,
        }
    }
}

impl Invoice {
    /// The report on this invoice: what it says, the moment it expires and
    /// its amount in satoshi.
    pub fn get_info(self) -> (r: InvoiceInfo)
        ensures
            r@ == self@.info(),
    {
        InvoiceInfo {
            timestamp: self.timestamp,
            payment_hash: self.payment_hash,
            description: self.description,
            payee_pub_key: self.payee_pub_key,
            expiry_time: self.timestamp.checked_add(self.expiry),
            min_final_cltv_expiry: self.min_final_cltv_expiry,
            fallback_addresses: self.fallback_addresses,
            amount_sat: match self.amount_msat {
                Some(msat) => Some(msat / 1000),
                None => None,
            },
            amount_msat: self.amount_msat,
        }
    }
}

/// What the invoice written as `text` says, if `text` is an invoice with a
/// valid signature.
pub uninterp spec fn decoded_invoice(text: Seq<char>) -> Option<InvoiceView>;

/// `Bolt11Invoice::from_str`, then the invoice's `duration_since_epoch`,
/// `expiry_time`, `payment_hash`, `description`,
/// `min_final_cltv_expiry_delta`, `fallback_addresses`,
/// `amount_milli_satoshis` and `recover_payee_pub_key`. The contract only
/// names the outcome.
#[verifier::external_body]
fn read_invoice(text: &str) -> (r: Option<Invoice>)
    ensures
        match r {
            Some(invoice) => decoded_invoice(text@) == Some(invoice@),
            None => decoded_invoice(text@) is None,
        },
{
    let invoice = Bolt11Invoice::from_str(text).ok()?;
    Some(Invoice {
        timestamp: invoice.duration_since_epoch().as_secs(),
        expiry: invoice.expiry_time().as_secs(),
        payment_hash: AsRef::<[u8]>::as_ref(invoice.payment_hash()).to_vec(),
        description: invoice.description().to_string(),
        min_final_cltv_expiry: invoice.min_final_cltv_expiry_delta(),
        fallback_addresses: invoice.fallback_addresses().iter().map(|a| a.to_string()).collect(),
        amount_msat: invoice.amount_milli_satoshis(),
        payee_pub_key: invoice.recover_payee_pub_key().serialize().to_vec(),
    })
}

/// Decodes an invoice and reports on it; none where the text is no invoice.
pub fn decode_invoice(text: &str) -> (r: Option<InvoiceInfo>)
    ensures
        match r {
            Some(info) => decoded_invoice(text@) matches Some(invoice) && info@ == invoice.info(),
            None => decoded_invoice(text@) is None,
        },
{
    match read_invoice(text) {
        Some(invoice) => Some(invoice.get_info()),
        None => None,
    }
}

} // verus!
