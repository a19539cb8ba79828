//! Non-membership check: a hashed entity is absent from a watchlist.

use vstd::prelude::*;
use vstd::string::StringSliceAdditionalSpecFns;
use crate::digest::{hash_watchlist, laid_end_to_end, list_contains, sha256, sha256_str, snapshot_of};
use crate::membership::{digest_views, hashes_of, lemma_listed_string_hash_is_listed};

verus! {

broadcast use vstd::string::to_string_from_display_ensures_for_str;

/// Input to the non-membership check.
pub struct NonMembershipInput {
    /// Hash of the entity being checked.
    pub entity_hash: [u8; 32],
    /// The watchlist: hashes of flagged entities (bankruptcy filings,
    /// dispute registers, sanctions lists, defaulter lists).
    pub watchlist: Vec<[u8; 32]>,
    /// What watchlist is being checked.
    pub label: String,
}

/// Public result of the non-membership check.
pub struct NonMembershipOutput {
    /// True when the entity is NOT on the watchlist.
    pub is_clean: bool,
    /// SHA-256 over the watchlist's entries: shows which list was checked.
    pub watchlist_snapshot_hash: [u8; 32],
    /// What was checked.
    pub label: String,
}

/// Builds the input of a non-membership check: the entity and each flagged
/// entity are hashed with SHA-256.
pub fn build_nonmembership_input(label: &str, entity: &str, watchlist: Vec<&str>) -> (input: NonMembershipInput)
    ensures
        input.entity_hash@ == sha256(entity.spec_bytes()),
        digest_views(input.watchlist@) == hashes_of(watchlist@),
        input.label@ == label@,
{
    let entity_hash = sha256_str(entity);
    let mut hashed: Vec<[u8; 32]> = Vec::new();
    let mut i: usize = 0;
    while i < watchlist.len()
        invariant
            i <= watchlist@.len(),
            hashed@.len() == i,
            forall|k: int| 0 <= k < i ==> #[trigger] hashed@[k]@ == sha256(watchlist@[k].spec_bytes()),
        decreases watchlist@.len() - i,
    {
        let h = sha256_str(watchlist[i]);
        hashed.push(h);
        i = i + 1;
    }
    proof {
        assert(digest_views(hashed@) =~= hashes_of(watchlist@));
    }
    NonMembershipInput { entity_hash, watchlist: hashed, label: label.to_string() }
}

/// Runs the non-membership check: the watchlist's contents stay private, the
/// verdict and the snapshot of the list are public.
pub fn evaluate_nonmembership(input: NonMembershipInput) -> (output: NonMembershipOutput)
    ensures
        output.is_clean == !input.watchlist@.contains(input.entity_hash),
        output.watchlist_snapshot_hash@ == snapshot_of(input.watchlist@),
        forall|bytes: Seq<u8>|
            laid_end_to_end(bytes, input.watchlist@) ==> output.watchlist_snapshot_hash@ == sha256(bytes),
        output.label@ == input.label@,
{
    let is_clean = !list_contains(input.watchlist.as_slice(), &input.entity_hash);
    let watchlist_snapshot_hash = hash_watchlist(input.watchlist.as_slice());
    NonMembershipOutput { is_clean, watchlist_snapshot_hash, label: input.label }
}

impl NonMembershipOutput {
    /// The verdict line shown for this result.
    pub fn verdict(&self) -> (text: &'static str)
        ensures
            text@ == (if self.is_clean {
                "✓ PASS — entity is clean"@
            } else {
                "✗ FAIL — entity found on watchlist"@
            }),
    {
        if self.is_clean {
            "✓ PASS — entity is clean"
        } else {
            "✗ FAIL — entity found on watchlist"
        }
    }
}

/// Checking one entity against one list for membership and for
/// non-membership gives opposite verdicts and the same snapshot hash.
pub proof fn lemma_membership_and_nonmembership_agree(
    entity_hash: [u8; 32],
    list: Seq<[u8; 32]>,
    is_member: bool,
    member_snapshot: Seq<u8>,
    is_clean: bool,
    clean_snapshot: Seq<u8>,
)
    requires
        is_member == list.contains(entity_hash),
        member_snapshot == snapshot_of(list),
        is_clean == !list.contains(entity_hash),
        clean_snapshot == snapshot_of(list),
    ensures
        is_clean == !is_member,
        member_snapshot == clean_snapshot,
{
}

/// An entity whose identifier appears on the watchlist's identifiers is
/// flagged by the check built from them.
pub proof fn lemma_listed_entity_is_flagged(
    entity: &str,
    watchlist: Seq<&str>,
    input: NonMembershipInput,
    output: NonMembershipOutput,
)
    requires
        input.entity_hash@ == sha256(entity.spec_bytes()),
        digest_views(input.watchlist@) == hashes_of(watchlist),
        exists|i: int| 0 <= i < watchlist.len() && watchlist[i]@ == entity@,
        output.is_clean == !input.watchlist@.contains(input.entity_hash),
    ensures
        !output.is_clean,
{
    lemma_listed_string_hash_is_listed(entity, watchlist, input.entity_hash, input.watchlist@);
}

} // verus!
