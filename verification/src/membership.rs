//! Membership check: a hashed entity belongs to a verified set.

use vstd::prelude::*;
use vstd::string::StringSliceAdditionalSpecFns;
use crate::digest::{hash_set, laid_end_to_end, list_contains, sha256, sha256_str, snapshot_of};

verus! {

broadcast use vstd::string::to_string_from_display_ensures_for_str;

/// Input to the membership check.
pub struct MembershipInput {
    /// Hash of the entity being checked (a hashed EIN, wallet or DID).
    pub entity_hash: [u8; 32],
    /// The verified set: hashes of all approved entities.
    pub approved_set: Vec<[u8; 32]>,
    /// What set is being checked against.
    pub label: String,
}

/// Public result of the membership check.
pub struct MembershipOutput {
    /// True when the entity is in the approved set.
    pub is_member: bool,
    /// SHA-256 over the approved set's entries: shows which set was checked.
    pub set_snapshot_hash: [u8; 32],
    /// What was checked.
    pub label: String,
}

/// The SHA-256 digests of the UTF-8 encodings of `items`, in order.
pub open spec fn hashes_of(items: Seq<&str>) -> Seq<Seq<u8>> {
    items.map_values(|s: &str| sha256(s.spec_bytes()))
}

/// The views of a list of digests.
pub open spec fn digest_views(list: Seq<[u8; 32]>) -> Seq<Seq<u8>> {
    list.map_values(|d: [u8; 32]| d@)
}

/// Builds the input of a membership check: the entity and each approved
/// entity are hashed with SHA-256.
pub fn build_membership_input(label: &str, entity: &str, approved: Vec<&str>) -> (input: MembershipInput)
    ensures
        input.entity_hash@ == sha256(entity.spec_bytes()),
        digest_views(input.approved_set@) == hashes_of(approved@),
        input.label@ == label@,
{
    let entity_hash = sha256_str(entity);
    let mut approved_set: Vec<[u8; 32]> = Vec::new();
    let mut i: usize = 0;
    while i < approved.len()
        invariant
            i <= approved@.len(),
            approved_set@.len() == i,
            forall|k: int| 0 <= k < i ==> #[trigger] approved_set@[k]@ == sha256(approved@[k].spec_bytes()),
        decreases approved@.len() - i,
    {
        let h = sha256_str(approved[i]);
        approved_set.push(h);
        i = i + 1;
    }
    proof {
        assert(digest_views(approved_set@) =~= hashes_of(approved@));
    }
    MembershipInput { entity_hash, approved_set, label: label.to_string() }
}

/// Runs the membership check: the entity's identity stays private, its
/// membership and the snapshot of the set are public.
pub fn evaluate_membership(input: MembershipInput) -> (output: MembershipOutput)
    ensures
        output.is_member == input.approved_set@.contains(input.entity_hash),
        output.set_snapshot_hash@ == snapshot_of(input.approved_set@),
        forall|bytes: Seq<u8>|
            laid_end_to_end(bytes, input.approved_set@) ==> output.set_snapshot_hash@ == sha256(bytes),
        output.label@ == input.label@,
{
    let is_member = list_contains(input.approved_set.as_slice(), &input.entity_hash);
    let set_snapshot_hash = hash_set(input.approved_set.as_slice());
    MembershipOutput { is_member, set_snapshot_hash, label: input.label }
}

impl MembershipOutput {
    /// The verdict line shown for this result.
    pub fn verdict(&self) -> (text: &'static str)
        ensures
            text@ == (if self.is_member {
                "✓ PASS — entity is in approved set"@
            } else {
                "✗ FAIL — entity not found in approved set"@
            }),
    {
        if self.is_member {
            "✓ PASS — entity is in approved set"
        } else {
            "✗ FAIL — entity not found in approved set"
        }
    }
}

/// Two digests with the same bytes are the same digest.
pub proof fn lemma_digest_view_injective(a: [u8; 32], b: [u8; 32])
    requires
        a@ == b@,
    ensures
        a == b,
{
    assert forall|k: int| 0 <= k < 32 implies a[k] == b[k] by {
        assert(a@[k] == b@[k]);
    }
    assert(a =~= b);
}

/// A hashed list holds the hash of every string that the string list holds.
pub proof fn lemma_listed_string_hash_is_listed(
    entity: &str,
    items: Seq<&str>,
    entity_hash: [u8; 32],
    list: Seq<[u8; 32]>,
)
    requires
        entity_hash@ == sha256(entity.spec_bytes()),
        digest_views(list) == hashes_of(items),
        exists|i: int| 0 <= i < items.len() && items[i]@ == entity@,
    ensures
        list.contains(entity_hash),
{
    let i = choose|i: int| 0 <= i < items.len() && items[i]@ == entity@;
    assert(list.len() == items.len()) by {
        assert(digest_views(list).len() == list.len());
        assert(hashes_of(items).len() == items.len());
    }
    assert(list[i]@ == sha256(items[i].spec_bytes())) by {
        assert(digest_views(list)[i] == list[i]@);
        assert(hashes_of(items)[i] == sha256(items[i].spec_bytes()));
    }
    assert(items[i].spec_bytes() == entity.spec_bytes());
    lemma_digest_view_injective(list[i], entity_hash);
}

/// An entity whose identifier appears among the approved identifiers is
/// reported as a member of the set built from them.
pub proof fn lemma_approved_entity_is_member(
    entity: &str,
    approved: Seq<&str>,
    input: MembershipInput,
    output: MembershipOutput,
)
    requires
        input.entity_hash@ == sha256(entity.spec_bytes()),
        digest_views(input.approved_set@) == hashes_of(approved),
        exists|i: int| 0 <= i < approved.len() && approved[i]@ == entity@,
        output.is_member == input.approved_set@.contains(input.entity_hash),
    ensures
        output.is_member,
{
    lemma_listed_string_hash_is_listed(entity, approved, input.entity_hash, input.approved_set@);
}

} // verus!
