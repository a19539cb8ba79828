//! SHA-256 hashing of strings, byte strings and lists of 32-byte digests.

use vstd::prelude::*;
use sha2::Digest;
use vstd::string::StringSliceAdditionalSpecFns;

verus! {

/// The SHA-256 digest of `data`, as computed by the `sha2` crate.
pub uninterp spec fn sha256(data: Seq<u8>) -> Seq<u8>;

/// Calls `<sha2::Sha256 as Digest>::digest` (a fresh hasher, one `update` with
/// `data`, then `finalize`) and converts the 32-byte output to an array.
/// Claimed: the result is the SHA-256 digest of `data`.
#[verifier::external_body]
fn sha256_digest(data: &[u8]) -> (r: [u8; 32])
    ensures
        r@ == sha256(data@),
{
    sha2::Sha256::digest(data).into()
}

/// SHA-256 of a byte string.
pub fn sha256_bytes(data: &[u8]) -> (r: [u8; 32])
    ensures
        r@ == sha256(data@),
{
    sha256_digest(data)
}

/// SHA-256 of the UTF-8 encoding of a string.
pub fn sha256_str(s: &str) -> (r: [u8; 32])
    ensures
        r@ == sha256(s.spec_bytes()),
{
    sha256_digest(s.as_bytes())
}

/// The entries of a list of digests, laid end to end.
pub open spec fn concat_entries(entries: Seq<[u8; 32]>) -> Seq<u8>
    decreases entries.len(),
{
    if entries.len() == 0 {
        Seq::empty()
    } else {
        concat_entries(entries.drop_last()) + entries.last()@
    }
}

/// The snapshot hash of a list of digests: SHA-256 over its entries in order.
pub open spec fn snapshot_of(entries: Seq<[u8; 32]>) -> Seq<u8> {
    sha256(concat_entries(entries))
}

/// `bytes` holds the entries of `entries` laid end to end, in order: it is
/// `32 * n` bytes long for `n` entries, and byte `32 * k + j` is byte `j` of
/// entry `k`.
pub open spec fn laid_end_to_end(bytes: Seq<u8>, entries: Seq<[u8; 32]>) -> bool {
    &&& bytes.len() == 32 * entries.len()
    &&& forall|k: int, j: int|
        0 <= k < entries.len() && 0 <= j < 32 ==> #[trigger] bytes[32 * k + j] == entries[k]@[j]
}

/// The byte string hashed into a snapshot holds every entry of the list laid
/// end to end, in order, whatever the list's length.
pub proof fn lemma_concat_entries_layout(entries: Seq<[u8; 32]>)
    ensures
        laid_end_to_end(concat_entries(entries), entries),
    decreases entries.len(),
{
    if entries.len() > 0 {
        let init = entries.drop_last();
        lemma_concat_entries_layout(init);
        let c = concat_entries(entries);
        assert(c == concat_entries(init) + entries.last()@);
        assert forall|k: int, j: int|
            0 <= k < entries.len() && 0 <= j < 32 implies #[trigger] c[32 * k + j] == entries[k]@[j] by {
            if k < entries.len() - 1 {
                assert(init[k] == entries[k]);
                assert(concat_entries(init)[32 * k + j] == init[k]@[j]);
            } else {
                assert(k == entries.len() - 1);
            }
        }
    }
}

/// Only one byte string lays out a given list of entries end to end.
pub proof fn lemma_laid_end_to_end_unique(a: Seq<u8>, b: Seq<u8>, entries: Seq<[u8; 32]>)
    requires
        laid_end_to_end(a, entries),
        laid_end_to_end(b, entries),
    ensures
        a == b,
{
    assert forall|i: int| 0 <= i < a.len() implies a[i] == b[i] by {
        let k = i / 32;
        let j = i % 32;
        assert(i == 32 * k + j && 0 <= k < entries.len() && 0 <= j < 32) by (nonlinear_arith)
            requires
                0 <= i < a.len(),
                a.len() == 32 * entries.len(),
                k == i / 32,
                j == i % 32,
        ;
        assert(a[32 * k + j] == entries[k]@[j]);
        assert(b[32 * k + j] == entries[k]@[j]);
    }
    assert(a =~= b);
}

/// Appending one entry to a list appends exactly that entry's 32 bytes to the
/// byte string hashed into its snapshot.
pub proof fn lemma_concat_entries_push(entries: Seq<[u8; 32]>, e: [u8; 32])
    ensures
        concat_entries(entries.push(e)) == concat_entries(entries) + e@,
{
    let longer = entries.push(e);
    lemma_concat_entries_layout(longer);
    lemma_concat_entries_layout(entries);
    let joined = concat_entries(entries) + e@;
    assert(laid_end_to_end(joined, longer)) by {
        assert forall|k: int, j: int|
            0 <= k < longer.len() && 0 <= j < 32 implies #[trigger] joined[32 * k + j] == longer[k]@[j] by {
            if k < entries.len() {
                assert(longer[k] == entries[k]);
                assert(concat_entries(entries)[32 * k + j] == entries[k]@[j]);
            }
        }
    }
    lemma_laid_end_to_end_unique(concat_entries(longer), joined, longer);
}

/// The snapshot of any list, of any length, is SHA-256 of the byte string that
/// lays its entries end to end.
pub proof fn lemma_snapshot_hashes_layout(entries: Seq<[u8; 32]>, bytes: Seq<u8>)
    requires
        laid_end_to_end(bytes, entries),
    ensures
        snapshot_of(entries) == sha256(bytes),
{
    lemma_concat_entries_layout(entries);
    lemma_laid_end_to_end_unique(concat_entries(entries), bytes, entries);
}

/// The snapshot of a one-entry list is SHA-256 of that entry's 32 bytes.
pub proof fn lemma_snapshot_of_single_entry(e: [u8; 32])
    ensures
        snapshot_of(seq![e]) == sha256(e@),
{
    let entries = seq![e];
    assert(laid_end_to_end(e@, entries)) by {
        assert forall|k: int, j: int|
            0 <= k < entries.len() && 0 <= j < 32 implies #[trigger] e@[32 * k + j] == entries[k]@[j] by {
            assert(k == 0);
        }
    }
    lemma_snapshot_hashes_layout(entries, e@);
}

/// Lays the entries of `entries` end to end in one byte vector.
fn concatenate(entries: &[[u8; 32]]) -> (r: Vec<u8>)
    ensures
        r@ == concat_entries(entries@),
        laid_end_to_end(r@, entries@),
{
    let mut out: Vec<u8> = Vec::new();
    let mut i: usize = 0;
    while i < entries.len()
        invariant
            i <= entries@.len(),
            out@ == concat_entries(entries@.take(i as int)),
        decreases entries@.len() - i,
    {
        let entry: &[u8; 32] = &entries[i];
        let mut j: usize = 0;
        let ghost before = out@;
        while j < 32
            invariant
                j <= 32,
                out@ == before + entry@.take(j as int),
            decreases 32 - j,
        {
            out.push(entry[j]);
            proof {
                assert(entry@.take(j + 1) =~= entry@.take(j as int).push(entry@[j as int]));
            }
            j = j + 1;
        }
        proof {
            assert(entry@.take(32) =~= entry@);
            assert(entries@.take(i + 1).drop_last() =~= entries@.take(i as int));
        }
        i = i + 1;
    }
    proof {
        assert(entries@.take(entries@.len() as int) =~= entries@);
        lemma_concat_entries_layout(entries@);
    }
    out
}

/// Snapshot hash of an approved set: SHA-256 over its entries in order.
pub fn hash_set(set: &[[u8; 32]]) -> (r: [u8; 32])
    ensures
        r@ == snapshot_of(set@),
        r@ == sha256(concat_entries(set@)),
        forall|bytes: Seq<u8>| laid_end_to_end(bytes, set@) ==> r@ == sha256(bytes),
{
    let bytes = concatenate(set);
    let r = sha256_digest(bytes.as_slice());
    proof {
        assert forall|b: Seq<u8>| laid_end_to_end(b, set@) implies r@ == sha256(b) by {
            lemma_laid_end_to_end_unique(bytes@, b, set@);
        }
    }
    r
}

/// Snapshot hash of a watchlist: SHA-256 over its entries in order, computed
/// as for an approved set.
pub fn hash_watchlist(watchlist: &[[u8; 32]]) -> (r: [u8; 32])
    ensures
        r@ == snapshot_of(watchlist@),
        r@ == sha256(concat_entries(watchlist@)),
        forall|bytes: Seq<u8>| laid_end_to_end(bytes, watchlist@) ==> r@ == sha256(bytes),
{
    hash_set(watchlist)
}

/// Whether two digests are equal, byte for byte.
pub fn digests_equal(a: &[u8; 32], b: &[u8; 32]) -> (r: bool)
    ensures
        r == (*a == *b),
{
    let mut i: usize = 0;
    while i < 32
        invariant
            i <= 32,
            forall|k: int| 0 <= k < i ==> a@[k] == b@[k],
        decreases 32 - i,
    {
        if a[i] != b[i] {
            return false;
        }
        i = i + 1;
    }
    proof {
        assert(a@ =~= b@);
        assert(*a =~= *b);
    }
    true
}

/// Whether `list` holds the digest `x`.
pub fn list_contains(list: &[[u8; 32]], x: &[u8; 32]) -> (r: bool)
    ensures
        r == list@.contains(*x),
{
    let mut i: usize = 0;
    while i < list.len()
        invariant
            i <= list@.len(),
            forall|k: int| 0 <= k < i ==> list@[k] != *x,
        decreases list@.len() - i,
    {
        if digests_equal(&list[i], x) {
            return true;
        }
        i = i + 1;
    }
    false
}

} // verus!
