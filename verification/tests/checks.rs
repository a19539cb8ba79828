use maat_circuits::consistency::{build_consistency_input, evaluate_consistency};
use maat_circuits::digest::{digests_equal, hash_set, hash_watchlist, list_contains, sha256_bytes, sha256_str};
use maat_circuits::hexfmt::digest_hex;
use maat_circuits::membership::{build_membership_input, evaluate_membership};
use maat_circuits::nonmembership::{build_nonmembership_input, evaluate_nonmembership};
use maat_circuits::range::{build_range_input, evaluate_range};
use maat_circuits::uniqueness::build_uniqueness_input;

const EMPTY_SHA256: &str = "e3b0c44298fc1c149afbf4c8996fb92427ae41e4649b934ca495991b7852b855";
const ABC_SHA256: &str = "ba7816bf8f01cfea414140de5dae2223b00361a396177a9cb410ff61f20015ad";

fn prove_range(label: &str, value: u64, min: u64, max: u64) -> maat_circuits::range::RangeOutput {
    evaluate_range(build_range_input(label, value, min, max))
}

#[test]
fn sha256_of_known_strings() {
    assert_eq!(digest_hex(&sha256_str("")), EMPTY_SHA256);
    assert_eq!(digest_hex(&sha256_str("abc")), ABC_SHA256);
    assert_eq!(digest_hex(&sha256_bytes(b"abc")), ABC_SHA256);
}

#[test]
fn sha256_str_hashes_utf8_bytes() {
    let s = "café → ok";
    assert_eq!(sha256_str(s), sha256_bytes(s.as_bytes()));
}

#[test]
fn hex_rendering_is_lowercase_two_digits_per_byte() {
    let mut d = [0u8; 32];
    d[0] = 0x0f;
    d[1] = 0xa0;
    d[31] = 0xff;
    let h = digest_hex(&d);
    assert_eq!(h.len(), 64);
    assert!(h.starts_with("0fa0"));
    assert!(h.ends_with("ff"));
}

#[test]
fn snapshot_of_empty_list_is_hash_of_nothing() {
    assert_eq!(digest_hex(&hash_set(&[])), EMPTY_SHA256);
    assert_eq!(digest_hex(&hash_watchlist(&[])), EMPTY_SHA256);
}

#[test]
fn snapshot_hashes_entries_in_order() {
    let a = sha256_str("13-9876543");
    let b = sha256_str("91-1144442");
    let mut joined = a.to_vec();
    joined.extend_from_slice(&b);
    assert_eq!(hash_set(&[a, b]), sha256_bytes(&joined));
    assert_ne!(hash_set(&[a, b]), hash_set(&[b, a]));
    assert_eq!(hash_set(&[a, b]), hash_watchlist(&[a, b]));
}

#[test]
fn digest_equality_and_containment() {
    let a = sha256_str("a");
    let b = sha256_str("b");
    assert!(digests_equal(&a, &a));
    assert!(!digests_equal(&a, &b));
    assert!(list_contains(&[b, a], &a));
    assert!(!list_contains(&[b, b], &a));
    assert!(!list_contains(&[], &a));
}

#[test]
fn range_anchor_credit_rating_passes() {
    let r = prove_range("anchor_credit_rating", 375, 350, 500);
    assert!(r.in_range);
    assert_eq!((r.min, r.max, r.label.as_str()), (350, 500, "anchor_credit_rating"));
    assert_eq!(r.verdict(), "✓ PASS");
}

#[test]
fn range_invoice_amount_passes() {
    let r = prove_range("invoice_amount_cents", 150_000_000, 50_000_000, 500_000_000);
    assert!(r.in_range);
}

#[test]
fn range_ltv_within_limit_passes() {
    let r = prove_range("ltv_ratio_bps", 7500, 0, 8000);
    assert!(r.in_range);
}

#[test]
fn range_ltv_too_high_fails() {
    let r = prove_range("ltv_ratio_bps", 9000, 0, 8000);
    assert!(!r.in_range);
    assert_eq!(r.verdict(), "✗ FAIL");
}

#[test]
fn range_bounds_are_inclusive() {
    assert!(prove_range("x", 350, 350, 500).in_range);
    assert!(prove_range("x", 500, 350, 500).in_range);
    assert!(!prove_range("x", 349, 350, 500).in_range);
    assert!(!prove_range("x", 501, 350, 500).in_range);
    assert!(!prove_range("x", 400, 500, 350).in_range);
}

fn prove_membership(label: &str, entity: &str, approved: Vec<&str>) -> maat_circuits::membership::MembershipOutput {
    evaluate_membership(build_membership_input(label, entity, approved))
}

fn prove_nonmembership(label: &str, entity: &str, watchlist: Vec<&str>) -> maat_circuits::nonmembership::NonMembershipOutput {
    evaluate_nonmembership(build_nonmembership_input(label, entity, watchlist))
}

#[test]
fn membership_anchor_kyc_passes() {
    let r = prove_membership("anchor_kyc_cleared", "13-9876543", vec!["13-9876543", "91-1144442", "94-3203813"]);
    assert!(r.is_member);
    assert_eq!(r.label, "anchor_kyc_cleared");
    assert_eq!(r.verdict(), "✓ PASS — entity is in approved set");
}

#[test]
fn membership_supplier_passes() {
    let r = prove_membership("supplier_registry", "82-1234567", vec!["82-1234567", "45-6789012", "33-1122334"]);
    assert!(r.is_member);
}

#[test]
fn membership_unknown_entity_fails() {
    let r = prove_membership("anchor_kyc_cleared", "99-0000001", vec!["13-9876543", "91-1144442", "94-3203813"]);
    assert!(!r.is_member);
    assert_eq!(r.verdict(), "✗ FAIL — entity not found in approved set");
}

#[test]
fn membership_wallet_passes() {
    let r = prove_membership("wallet_kyc_registry", "0xabc123def456", vec!["0xabc123def456", "0xdeadbeef1234", "0xcafe00001111"]);
    assert!(r.is_member);
}

#[test]
fn membership_snapshot_is_hash_of_hashed_set() {
    let approved = vec!["13-9876543", "91-1144442", "94-3203813"];
    let input = build_membership_input("kyc", "13-9876543", approved.clone());
    let expected: Vec<[u8; 32]> = approved.iter().map(|s| sha256_str(s)).collect();
    assert_eq!(input.approved_set, expected);
    assert_eq!(input.entity_hash, sha256_str("13-9876543"));
    let r = evaluate_membership(input);
    assert_eq!(r.set_snapshot_hash, hash_set(&expected));
}

#[test]
fn membership_in_empty_set_fails() {
    let r = prove_membership("empty", "13-9876543", vec![]);
    assert!(!r.is_member);
    assert_eq!(digest_hex(&r.set_snapshot_hash), EMPTY_SHA256);
}

#[test]
fn nonmembership_borrower_clean() {
    let r = prove_nonmembership("bankruptcy_register", "82-1234567", vec!["11-1111111", "22-2222222", "33-3333333"]);
    assert!(r.is_clean);
    assert_eq!(r.verdict(), "✓ PASS — entity is clean");
}

#[test]
fn nonmembership_anchor_clean() {
    let r = prove_nonmembership("intercreditor_dispute_register", "13-9876543", vec!["44-4444444", "55-5555555", "66-6666666"]);
    assert!(r.is_clean);
}

#[test]
fn nonmembership_sanctioned_entity_flagged() {
    let r = prove_nonmembership("sanctions_list", "99-9999999", vec!["99-9999999", "88-8888888", "77-7777777"]);
    assert!(!r.is_clean);
    assert_eq!(r.verdict(), "✗ FAIL — entity found on watchlist");
}

#[test]
fn nonmembership_rbi_defaulters_clean() {
    let r = prove_nonmembership("rbi_defaulter_list", "82-1234567", vec!["11-1111111", "22-2222222"]);
    assert!(r.is_clean);
    assert_eq!(r.label, "rbi_defaulter_list");
}

#[test]
fn membership_and_nonmembership_are_complementary() {
    for entity in ["99-9999999", "82-1234567"] {
        let list = vec!["99-9999999", "88-8888888", "77-7777777"];
        let m = prove_membership("l", entity, list.clone());
        let n = prove_nonmembership("l", entity, list);
        assert_eq!(m.is_member, !n.is_clean);
        assert_eq!(m.set_snapshot_hash, n.watchlist_snapshot_hash);
    }
}

fn prove_consistency(label: &str, a: &[u8], b: &[u8]) -> maat_circuits::consistency::ConsistencyOutput {
    evaluate_consistency(build_consistency_input(label, a, b))
}

#[test]
fn consistency_financials_match() {
    let data = b"revenue:1500000,ebitda:350000,debt:200000,filing_year:2025";
    let r = prove_consistency("financials_vs_filed_returns", data, data);
    assert!(r.is_consistent);
    assert_eq!(r.dataset_a_hash, sha256_bytes(data));
    assert_eq!(r.dataset_b_hash, sha256_bytes(data));
    assert_eq!(r.verdict(), "✓ PASS — datasets are consistent");
}

#[test]
fn consistency_appraisal_matches() {
    let data = b"property:0x123MainSt,value_usd:850000,date:2026-07-18";
    assert!(prove_consistency("appraisal_vs_market_data", data, data).is_consistent);
}

#[test]
fn consistency_tampered_financials_fail() {
    let submitted = b"revenue:5000000,ebitda:1200000,debt:200000,filing_year:2025";
    let filed = b"revenue:1500000,ebitda:350000,debt:200000,filing_year:2025";
    let r = prove_consistency("financials_vs_filed_returns", submitted, filed);
    assert!(!r.is_consistent);
    assert_eq!(r.verdict(), "✗ FAIL — datasets do not match");
    let swapped = prove_consistency("financials_vs_filed_returns", filed, submitted);
    assert_eq!(swapped.is_consistent, r.is_consistent);
}

#[test]
fn consistency_invoice_matches_po() {
    let data = b"po:PO-2026-0042,amount:1500000,seller:82-1234567,buyer:13-9876543";
    let input = build_consistency_input("invoice_vs_anchor_po", data, data);
    assert_eq!(input.tolerance_bps, 0);
    assert!(evaluate_consistency(input).is_consistent);
}

#[test]
fn uniqueness_input_hashes_identifiers() {
    let input = build_uniqueness_input("82-1234567", "13-9876543", "PO-2026-0042", 1_500_000_00, 1_753_920_000, vec![0u8; 64], vec![]);
    assert_eq!(input.seller_ein_hash, sha256_str("82-1234567"));
    assert_eq!(input.buyer_ein_hash, sha256_str("13-9876543"));
    assert_eq!(input.po_number_hash, sha256_str("PO-2026-0042"));
    assert_eq!(input.invoice_amount_cents, 150_000_000);
    assert_eq!(input.invoice_due_date, 1_753_920_000);
    assert_eq!(input.anchor_signature.len(), 64);
    assert!(input.registry.is_empty());
}
