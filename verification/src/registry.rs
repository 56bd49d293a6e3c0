//! The member registry: the bounded, duplicate-free list of authorized
//! members and the approval threshold, with the admin operations that mutate
//! it.  The registry always keeps `threshold <= member_count`, so a quorum
//! stays reachable after every successful mutation.

use vstd::prelude::*;

use crate::member::{empty_id, empty_id_seq, find_from, find_member, id_eq, ids_of, is_empty_id,
    lemma_find_from, Pubkey};
use crate::{GovError, MAX_MEMBERS};

verus! {

/// The mathematical model of a registry.
#[verifier::ext_equal]
pub struct RegView {
    pub creator: Seq<u8>,
    pub member_count: int,
    pub members: Seq<Seq<u8>>,
    pub threshold: int,
    pub proposal_expiry: int,
    pub total_proposals: int,
    pub treasury_wallet: Seq<u8>,
    pub config_bump: u8,
    pub treasury_bump: u8,
}

impl RegView {
    /// Well-formedness: the slot array is full-width, the logical length and
    /// the threshold are in range, the active slots hold no duplicate
    /// non-empty identity, and every unused slot holds the sentinel.
    pub open spec fn wf(self) -> bool {
        &&& self.creator.len() == 32
        &&& self.treasury_wallet.len() == 32
        &&& self.members.len() == MAX_MEMBERS as int
        &&& forall|i: int| 0 <= i < MAX_MEMBERS as int ==> (#[trigger] self.members[i]).len() == 32
        &&& 1 <= self.member_count <= MAX_MEMBERS as int
        &&& 1 <= self.threshold <= self.member_count
        &&& forall|i: int, j: int|
            0 <= i < j < self.member_count && !is_empty_id(#[trigger] self.members[i])
                ==> self.members[i] != #[trigger] self.members[j]
        &&& forall|i: int|
            self.member_count <= i < MAX_MEMBERS as int ==> is_empty_id(#[trigger] self.members[i])
    }

    /// Whether `id` occupies one of the active slots.
    pub open spec fn is_member(self, id: Seq<u8>) -> bool {
        exists|i: int| 0 <= i < self.member_count && #[trigger] self.members[i] == id
    }

    /// Registry initialization: validates the parameters and returns the
    /// fresh registry, whose member slots are all empty and whose proposal
    /// counter starts at zero.
    pub open spec fn spec_initialize(
        creator: Seq<u8>,
        member_count: int,
        threshold: int,
        proposal_expiry: int,
        treasury_wallet: Seq<u8>,
        config_bump: u8,
        treasury_bump: u8,
    ) -> Result<RegView, GovError> {
        if member_count == 0 || member_count > MAX_MEMBERS as int {
            Err(GovError::InvalidParameter)
        } else if threshold == 0 || threshold > member_count {
            Err(GovError::InvalidParameter)
        } else {
            Ok(RegView {
                creator,
                member_count,
                members: Seq::new(MAX_MEMBERS as nat, |i: int| empty_id_seq()),
                threshold,
                proposal_expiry,
                total_proposals: 0,
                treasury_wallet,
                config_bump,
                treasury_bump,
            })
        }
    }

    /// Adding a member: refused when the registry is full or the identity is
    /// already present; otherwise the identity is appended at the first
    /// unused slot.
    pub open spec fn spec_add_member(self, id: Seq<u8>) -> (RegView, Result<(), GovError>) {
        if self.member_count >= MAX_MEMBERS as int {
            (self, Err(GovError::CapacityExceeded))
        } else if self.is_member(id) {
            (self, Err(GovError::DuplicateMember))
        } else {
            (
                RegView {
                    members: self.members.update(self.member_count, id),
                    member_count: self.member_count + 1,
                    ..self
                },
                Ok(()),
            )
        }
    }

    /// Removing a member: refused when the member count already equals the
    /// threshold (a further removal would make quorum impossible) or when the
    /// identity is absent; otherwise the first matching slot is vacated, all
    /// later active slots shift left one place, and the freed tail slot is
    /// cleared.
    pub open spec fn spec_remove_member(self, id: Seq<u8>) -> (RegView, Result<(), GovError>) {
        if self.member_count <= self.threshold {
            (self, Err(GovError::ThresholdUnreachable))
        } else if !self.is_member(id) {
            (self, Err(GovError::MemberNotFound))
        } else {
            let k = find_from(self.members, id, 0, self.member_count);
            (
                RegView {
                    members: Seq::new(
                        self.members.len(),
                        |j: int|
                            if j < k {
                                self.members[j]
                            } else if j < self.member_count - 1 {
                                self.members[j + 1]
                            } else if j == self.member_count - 1 {
                                empty_id_seq()
                            } else {
                                self.members[j]
                            },
                    ),
                    member_count: self.member_count - 1,
                    ..self
                },
                Ok(()),
            )
        }
    }
}

/// A member registry.  The slot vector always holds exactly `MAX_MEMBERS`
/// entries; the first `member_count` of them are the active members.
#[derive(Debug)]
pub struct MemberRegistry {
    pub creator: Pubkey,
    pub member_count: u64,
    pub member_keys: Vec<Pubkey>,
    pub threshold: u64,
    pub proposal_expiry: u64,
    pub total_proposals: u64,
    pub treasury_wallet: Pubkey,
    pub config_bump: u8,
    pub treasury_bump: u8,
}

impl View for MemberRegistry {
    type V = RegView;

    open spec fn view(&self) -> RegView {
        RegView {
            creator: self.creator@,
            member_count: self.member_count as int,
            members: ids_of(self.member_keys@),
            threshold: self.threshold as int,
            proposal_expiry: self.proposal_expiry as int,
            total_proposals: self.total_proposals as int,
            treasury_wallet: self.treasury_wallet@,
            config_bump: self.config_bump,
            treasury_bump: self.treasury_bump,
        }
    }
}

/// Creates a registry for a new governance domain.  The member and threshold
/// parameters are validated here; the host has already derived and validated
/// the record addresses and allocated the backing storage.
pub fn initialize_multisig(
    creator: &Pubkey,
    member_count: u64,
    threshold: u64,
    proposal_expiry: u64,
    treasury_wallet: &Pubkey,
    config_bump: u8,
    treasury_bump: u8,
) -> (r: Result<MemberRegistry, GovError>)
    ensures
        ({
            let s = RegView::spec_initialize(
                creator@,
                member_count as int,
                threshold as int,
                proposal_expiry as int,
                treasury_wallet@,
                config_bump,
                treasury_bump,
            );
            &&& r is Ok <==> s is Ok
            &&& r is Ok ==> r->Ok_0@ == s->Ok_0 && r->Ok_0@.wf()
            &&& r is Err ==> r->Err_0 == s->Err_0
        }),
{
    if member_count == 0 || member_count > MAX_MEMBERS as u64 {
        return Err(GovError::InvalidParameter);
    }
    if threshold == 0 || threshold > member_count {
        return Err(GovError::InvalidParameter);
    }
    let mut member_keys: Vec<Pubkey> = Vec::new();
    let mut i: usize = 0;
    while i < MAX_MEMBERS
        invariant
            0 <= i <= MAX_MEMBERS,
            member_keys@.len() == i,
            forall|j: int| 0 <= j < i ==> #[trigger] member_keys@[j]@ == empty_id_seq(),
        decreases MAX_MEMBERS - i,
    {
        member_keys.push(empty_id());
        i += 1;
    }
    let reg = MemberRegistry {
        creator: *creator,
        member_count,
        member_keys,
        threshold,
        proposal_expiry,
        total_proposals: 0,
        treasury_wallet: *treasury_wallet,
        config_bump,
        treasury_bump,
    };
    proof {
        let s = RegView::spec_initialize(
            creator@,
            member_count as int,
            threshold as int,
            proposal_expiry as int,
            treasury_wallet@,
            config_bump,
            treasury_bump,
        );
        assert(reg@.members =~~= s->Ok_0.members);
        assert(reg@ =~~= s->Ok_0);
    }
    Ok(reg)
}

impl MemberRegistry {
    /// Whether `id` is an active member.
    pub fn is_member(&self, id: &Pubkey) -> (r: bool)
        requires
            self@.wf(),
        ensures
            r == self@.is_member(id@),
    {
        self.index_of(id).is_some()
    }

    /// The slot index of the first active member equal to `id`.
    pub fn index_of(&self, id: &Pubkey) -> (r: Option<usize>)
        requires
            self@.wf(),
        ensures
            ({
                let f = find_from(self@.members, id@, 0, self@.member_count);
                match r {
                    Some(k) => (k as int) < self@.member_count && f == k as int,
                    None => f == self@.member_count,
                }
            }),
            r is Some <==> self@.is_member(id@),
    {
        let count = self.member_count as usize;
        let r = find_member(&self.member_keys, count, id);
        proof {
            lemma_find_from(self@.members, id@, 0, self@.member_count);
        }
        r
    }

    /// Checks the registry invariant, for records decoded from untrusted
    /// storage bytes.
    pub fn is_well_formed(&self) -> (b: bool)
        ensures
            b == self@.wf(),
    {
        if self.member_keys.len() != MAX_MEMBERS {
            return false;
        }
        if self.member_count < 1 || self.member_count > MAX_MEMBERS as u64 {
            return false;
        }
        if self.threshold < 1 || self.threshold > self.member_count {
            return false;
        }
        let count = self.member_count as usize;
        let empty = empty_id();
        let mut i: usize = count;
        while i < MAX_MEMBERS
            invariant
                count <= i <= MAX_MEMBERS,
                count == self.member_count,
                1 <= count <= MAX_MEMBERS,
                self.member_keys@.len() == MAX_MEMBERS as int,
                empty@ == empty_id_seq(),
                forall|j: int| count <= j < i ==> is_empty_id(#[trigger] self@.members[j]),
            decreases MAX_MEMBERS - i,
        {
            if !id_eq(&self.member_keys[i], &empty) {
                proof {
                    assert(self@.members[i as int] == self.member_keys@[i as int]@);
                    assert(!is_empty_id(self@.members[i as int]));
                }
                return false;
            }
            proof {
                assert(self@.members[i as int] == self.member_keys@[i as int]@);
            }
            i += 1;
        }
        let mut a: usize = 0;
        while a < count
            invariant
                0 <= a <= count,
                count == self.member_count,
                1 <= count <= MAX_MEMBERS,
                self.member_keys@.len() == MAX_MEMBERS as int,
                empty@ == empty_id_seq(),
                forall|x: int, y: int|
                    0 <= x < a && x < y < count && !is_empty_id(#[trigger] self@.members[x])
                        ==> self@.members[x] != #[trigger] self@.members[y],
            decreases count - a,
        {
            if !id_eq(&self.member_keys[a], &empty) {
                let mut b: usize = a + 1;
                while b < count
                    invariant
                        0 <= a < b <= count,
                        count == self.member_count,
                        1 <= count <= MAX_MEMBERS,
                        self.member_keys@.len() == MAX_MEMBERS as int,
                        !is_empty_id(self@.members[a as int]),
                        forall|y: int|
                            a < y < b ==> self@.members[a as int] != #[trigger] self@.members[y],
                    decreases count - b,
                {
                    if id_eq(&self.member_keys[a], &self.member_keys[b]) {
                        proof {
                            assert(self@.members[a as int] == self@.members[b as int]);
                            assert(!is_empty_id(self@.members[a as int]));
                        }
                        return false;
                    }
                    proof {
                        assert(self@.members[a as int] == self.member_keys@[a as int]@);
                        assert(self@.members[b as int] == self.member_keys@[b as int]@);
                    }
                    b += 1;
                }
            }
            a += 1;
        }
        proof {
            assert forall|i: int| 0 <= i < MAX_MEMBERS as int implies
                (#[trigger] self@.members[i]).len() == 32 by {
                assert(self@.members[i] == self.member_keys@[i]@);
            }
        }
        true
    }

    /// Appends `new_member` to the registry.
    ///
    /// Fails with `CapacityExceeded` when the registry is full, and with
    /// `DuplicateMember` (leaving the registry unchanged) when the identity
    /// is already an active member.  On success `threshold <= member_count`
    /// still holds, as it does after every successful mutation.
    pub fn add_member(&mut self, new_member: &Pubkey) -> (r: Result<(), GovError>)
        requires
            old(self)@.wf(),
        ensures
            ({
                let (v2, res) = old(self)@.spec_add_member(new_member@);
                &&& final(self)@ == v2
                &&& r == res
            }),
            final(self)@.wf(),
    {
        proof {
            old(self)@.lemma_add_member_wf(new_member@);
        }
        if self.member_count >= MAX_MEMBERS as u64 {
            return Err(GovError::CapacityExceeded);
        }
        let count = self.member_count as usize;
        match find_member(&self.member_keys, count, new_member) {
            Some(_) => {
                proof {
                    lemma_find_from(ids_of(self.member_keys@), new_member@, 0, count as int);
                }
                Err(GovError::DuplicateMember)
            },
            None => {
                proof {
                    lemma_find_from(ids_of(self.member_keys@), new_member@, 0, count as int);
                    assert(!old(self)@.is_member(new_member@));
                }
                self.member_keys.set(count, *new_member);
                self.member_count = self.member_count + 1;
                proof {
                    let (v2, res) = old(self)@.spec_add_member(new_member@);
                    assert(self@.members =~~= v2.members);
                    assert(self@ =~~= v2);
                }
                Ok(())
            },
        }
    }

    /// Removes `member` from the registry.
    ///
    /// Fails with `ThresholdUnreachable` when the member count already equals
    /// the threshold — removal never succeeds then — and with
    /// `MemberNotFound` when the identity is absent; both leave the registry
    /// unchanged.  On success the later members shift left one slot,
    /// preserving their relative order, and `threshold <= member_count` still
    /// holds.
    pub fn remove_member(&mut self, member: &Pubkey) -> (r: Result<(), GovError>)
        requires
            old(self)@.wf(),
        ensures
            ({
                let (v2, res) = old(self)@.spec_remove_member(member@);
                &&& final(self)@ == v2
                &&& r == res
            }),
            final(self)@.wf(),
    {
        proof {
            old(self)@.lemma_remove_member_wf(member@);
        }
        if self.member_count <= self.threshold {
            return Err(GovError::ThresholdUnreachable);
        }
        let count = self.member_count as usize;
        let k = match find_member(&self.member_keys, count, member) {
            Some(k) => k,
            None => {
                proof {
                    lemma_find_from(ids_of(self.member_keys@), member@, 0, count as int);
                }
                return Err(GovError::MemberNotFound);
            },
        };
        proof {
            lemma_find_from(ids_of(self.member_keys@), member@, 0, count as int);
        }
        let ghost old_members = old(self)@.members;
        let mut i: usize = k;
        while i < count - 1
            invariant
                0 <= k <= i <= count - 1,
                count == old(self).member_count,
                count <= self.member_keys@.len(),
                self.member_keys@.len() == old(self).member_keys@.len(),
                self.member_count == old(self).member_count,
                self.creator == old(self).creator,
                self.threshold == old(self).threshold,
                self.proposal_expiry == old(self).proposal_expiry,
                self.total_proposals == old(self).total_proposals,
                self.treasury_wallet == old(self).treasury_wallet,
                self.config_bump == old(self).config_bump,
                self.treasury_bump == old(self).treasury_bump,
                forall|j: int| 0 <= j < k ==> self.member_keys@[j] == old(self).member_keys@[j],
                forall|j: int|
                    k <= j < i ==> #[trigger] self.member_keys@[j] == old(self).member_keys@[j + 1],
                forall|j: int|
                    i <= j < self.member_keys@.len()
                        ==> #[trigger] self.member_keys@[j] == old(self).member_keys@[j],
            decreases count - 1 - i,
        {
            let next = self.member_keys[i + 1];
            self.member_keys.set(i, next);
            i += 1;
        }
        self.member_keys.set(count - 1, empty_id());
        self.member_count = self.member_count - 1;
        proof {
            let (v2, res) = old(self)@.spec_remove_member(member@);
            assert(self@.members =~~= v2.members);
            assert(self@ =~~= v2);
        }
        Ok(())
    }
}

impl RegView {
    /// Adding a member preserves well-formedness; in particular
    /// `threshold <= member_count` holds after every successful addition.
    pub proof fn lemma_add_member_wf(self, id: Seq<u8>)
        requires
            self.wf(),
            id.len() == 32,
        ensures
            self.spec_add_member(id).1 is Ok ==> self.spec_add_member(id).0.wf(),
            self.spec_add_member(id).1 is Err ==> self.spec_add_member(id).0 == self,
    {
        let (v2, res) = self.spec_add_member(id);
        if res is Ok {
            assert forall|i: int, j: int|
                0 <= i < j < v2.member_count && !is_empty_id(#[trigger] v2.members[i])
                    implies v2.members[i] != #[trigger] v2.members[j] by {
                if j == self.member_count {
                    assert(v2.members[j] == id);
                    assert(v2.members[i] == self.members[i]);
                    assert(!self.is_member(id));
                }
            }
        }
    }

    /// Removing a member preserves well-formedness; in particular
    /// `threshold <= member_count` holds after every successful removal.
    pub proof fn lemma_remove_member_wf(self, id: Seq<u8>)
        requires
            self.wf(),
        ensures
            self.spec_remove_member(id).1 is Ok ==> self.spec_remove_member(id).0.wf(),
            self.spec_remove_member(id).1 is Err ==> self.spec_remove_member(id).0 == self,
    {
        let (v2, res) = self.spec_remove_member(id);
        if res is Ok {
            lemma_find_from(self.members, id, 0, self.member_count);
            assert forall|i: int, j: int|
                0 <= i < j < v2.member_count && !is_empty_id(#[trigger] v2.members[i])
                    implies v2.members[i] != #[trigger] v2.members[j] by {
                let k = find_from(self.members, id, 0, self.member_count);
                let i0: int = if i < k { i } else { i + 1 };
                let j0: int = if j < k { j } else { j + 1 };
                assert(v2.members[i] == self.members[i0]);
                assert(v2.members[j] == self.members[j0]);
            }
            assert forall|i: int|
                v2.member_count <= i < MAX_MEMBERS as int
                    implies is_empty_id(#[trigger] v2.members[i]) by {
                if i < v2.members.len() - 1 && i + 1 >= self.member_count {
                }
            }
        }
    }
}

} // verus!
