//! Uniqueness check data: an invoice and the registry of invoice hashes that
//! have been financed before.

use vstd::prelude::*;
use vstd::string::StringSliceAdditionalSpecFns;
use crate::digest::{sha256, sha256_str};

verus! {

/// Input to the uniqueness check.
pub struct UniquenessInput {
    /// Hash of the seller's EIN.
    pub seller_ein_hash: [u8; 32],
    /// Hash of the buyer's (anchor's) EIN.
    pub buyer_ein_hash: [u8; 32],
    /// Hash of the anchor-issued purchase order number.
    pub po_number_hash: [u8; 32],
    /// Invoice amount in cents.
    pub invoice_amount_cents: u64,
    /// Invoice due date, as a UNIX timestamp.
    pub invoice_due_date: u32,
    /// The anchor's signature over the invoice.
    pub anchor_signature: Vec<u8>,
    /// Hashes of every invoice registered so far (empty for the first).
    pub registry: Vec<[u8; 32]>,
}

/// Public result of the uniqueness check.
pub struct UniquenessOutput {
    /// Hash identifying the invoice.
    pub invoice_hash: [u8; 32],
    /// True when the invoice has never been registered.
    pub is_unique: bool,
    /// Hash of the registry snapshot that was checked.
    pub registry_snapshot_hash: [u8; 32],
}

/// Builds the input of a uniqueness check from the invoice's identifiers in
/// clear: the seller EIN, buyer EIN and purchase order number are hashed with
/// SHA-256; the other fields are carried as given.
pub fn build_uniqueness_input(
    seller_ein: &str,
    buyer_ein: &str,
    po_number: &str,
    invoice_amount_cents: u64,
    invoice_due_date: u32,
    anchor_signature: Vec<u8>,
    registry: Vec<[u8; 32]>,
) -> (input: UniquenessInput)
    ensures
        input.seller_ein_hash@ == sha256(seller_ein.spec_bytes()),
        input.buyer_ein_hash@ == sha256(buyer_ein.spec_bytes()),
        input.po_number_hash@ == sha256(po_number.spec_bytes()),
        input.invoice_amount_cents == invoice_amount_cents,
        input.invoice_due_date == invoice_due_date,
        input.anchor_signature@ == anchor_signature@,
        input.registry@ == registry@,
{
    UniquenessInput {
        seller_ein_hash: sha256_str(seller_ein),
        buyer_ein_hash: sha256_str(buyer_ein),
        po_number_hash: sha256_str(po_number),
        invoice_amount_cents,
        invoice_due_date,
        anchor_signature,
        registry,
    }
}

} // verus!
