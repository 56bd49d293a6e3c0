//! Member identities: 32-byte keys handed in by the host, with the sentinel
//! empty identity that marks an unused registry slot, and the first-match
//! linear scan shared by the registry and the proposal snapshot.

use vstd::prelude::*;

verus! {

/// A member identity or record address: a 32-byte key supplied by the host.
pub type Pubkey = [u8; 32];

/// The sentinel identity (all zero bytes) that marks an unused member slot.
pub open spec fn empty_id_seq() -> Seq<u8> {
    Seq::new(32, |i: int| 0u8)
}

/// Whether `id` is the sentinel empty identity.
pub open spec fn is_empty_id(id: Seq<u8>) -> bool {
    id == empty_id_seq()
}

/// The sequence of byte views of a sequence of keys.
pub open spec fn ids_of(s: Seq<Pubkey>) -> Seq<Seq<u8>> {
    Seq::new(s.len(), |i: int| s[i]@)
}

/// Builds the sentinel empty identity.
pub fn empty_id() -> (r: Pubkey)
    ensures
        r@ == empty_id_seq(),
{
    let r = [0u8; 32];
    proof {
        assert(r@ =~= empty_id_seq());
    }
    r
}

/// Byte-wise equality of two identities.
pub fn id_eq(a: &Pubkey, b: &Pubkey) -> (r: bool)
    ensures
        r == (a@ == b@),
{
    let mut i: usize = 0;
    while i < 32
        invariant
            0 <= i <= 32,
            forall|j: int| 0 <= j < i ==> a@[j] == b@[j],
        decreases 32 - i,
    {
        if a[i] != b[i] {
            return false;
        }
        i += 1;
    }
    proof {
        assert(a@ =~= b@);
    }
    true
}

/// The index of the first entry equal to `id` in `s[i..n]`, or `n` if there
/// is none.
pub open spec fn find_from(s: Seq<Seq<u8>>, id: Seq<u8>, i: int, n: int) -> int
    decreases n - i,
{
    if i < 0 || i >= n {
        n
    } else if s[i] == id {
        i
    } else {
        find_from(s, id, i + 1, n)
    }
}

/// `find_from` returns an index in `[i, n]`; a result below `n` is the first
/// match, and everything before it differs from `id`.
pub proof fn lemma_find_from(s: Seq<Seq<u8>>, id: Seq<u8>, i: int, n: int)
    requires
        0 <= i <= n,
    ensures
        i <= find_from(s, id, i, n) <= n,
        find_from(s, id, i, n) < n ==> s[find_from(s, id, i, n)] == id,
        forall|j: int| i <= j < find_from(s, id, i, n) ==> s[j] != id,
    decreases n - i,
{
    if i < n && s[i] != id {
        lemma_find_from(s, id, i + 1, n);
    }
}

/// First-match linear scan over the first `count` slots of `members`.
pub fn find_member(members: &Vec<Pubkey>, count: usize, id: &Pubkey) -> (r: Option<usize>)
    requires
        count <= members@.len(),
    ensures
        ({
            let f = find_from(ids_of(members@), id@, 0, count as int);
            match r {
                Some(k) => k < count && f == k as int,
                None => f == count as int,
            }
        }),
{
    proof {
        lemma_find_from(ids_of(members@), id@, 0, count as int);
    }
    let mut i: usize = 0;
    while i < count
        invariant
            0 <= i <= count,
            count <= members@.len(),
            forall|j: int| 0 <= j < i ==> ids_of(members@)[j] != id@,
        decreases count - i,
    {
        if id_eq(&members[i], id) {
            proof {
                assert(ids_of(members@)[i as int] == id@);
                lemma_find_from(ids_of(members@), id@, 0, count as int);
            }
            return Some(i);
        }
        proof {
            assert(ids_of(members@)[i as int] == members@[i as int]@);
        }
        i += 1;
    }
    proof {
        lemma_find_from(ids_of(members@), id@, 0, count as int);
    }
    None
}

} // verus!
