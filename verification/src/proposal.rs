//! The proposal ledger: one proposal's life from creation to resolution.
//!
//! A proposal freezes a snapshot of the registry's member list at creation
//! time; later registry changes never touch an in-flight proposal.  Votes are
//! cast against the snapshot, re-voting overwrites the prior choice, and the
//! tally is resolved after every vote in a fixed priority order.

use vstd::prelude::*;

use crate::member::{empty_id_seq, find_from, find_member, ids_of, is_empty_id, lemma_find_from,
    Pubkey};
use crate::registry::MemberRegistry;
use crate::{GovError, MAX_MEMBERS};

verus! {

/// Wire value of a vote slot that nobody has filled yet.
pub const VOTE_NOT_VOTED: u8 = 0;

/// Wire value of a vote in favour.
pub const VOTE_FOR: u8 = 1;

/// Wire value of a vote against.
pub const VOTE_AGAINST: u8 = 2;

/// Wire value of an abstention.
pub const VOTE_ABSTAIN: u8 = 3;

/// The state of one vote slot.
#[derive(Clone, Copy, PartialEq, Eq, Debug)]
pub enum VoteKind {
    NotVoted,
    For,
    Against,
    Abstain,
}

/// A proposal's resolution state.  `Active` can move to `Succeeded` or to
/// `Failed`; both are terminal.
#[derive(Clone, Copy, PartialEq, Eq, Debug)]
pub enum ProposalStatus {
    Active,
    Succeeded,
    Failed,
}

/// The vote kind named by a wire byte; bytes outside `1..=3` are not
/// castable and map to `NotVoted`.
pub open spec fn spec_vote_kind_of(b: u8) -> VoteKind {
    if b == VOTE_FOR {
        VoteKind::For
    } else if b == VOTE_AGAINST {
        VoteKind::Against
    } else if b == VOTE_ABSTAIN {
        VoteKind::Abstain
    } else {
        VoteKind::NotVoted
    }
}

/// Whether a wire byte names a castable vote kind.
pub open spec fn valid_vote_byte(b: u8) -> bool {
    b == VOTE_FOR || b == VOTE_AGAINST || b == VOTE_ABSTAIN
}

/// How many of the first `n` vote slots hold `k`.
pub open spec fn count_kind(votes: Seq<VoteKind>, n: int, k: VoteKind) -> int
    decreases n,
{
    if n <= 0 {
        0
    } else {
        count_kind(votes, n - 1, k) + if votes[n - 1] == k {
            1int
        } else {
            0int
        }
    }
}

/// Counts lie between 0 and `n`.
pub proof fn lemma_count_kind_bounds(votes: Seq<VoteKind>, n: int, k: VoteKind)
    requires
        n >= 0,
    ensures
        0 <= count_kind(votes, n, k) <= n,
    decreases n,
{
    if n > 0 {
        lemma_count_kind_bounds(votes, n - 1, k);
    }
}

/// The resolution of a tally over the first `n` snapshot slots, evaluated in
/// fixed priority order: enough votes in favour succeed; more votes against
/// than the snapshot can spare fail (quorum is mathematically unreachable);
/// a complete tally short of the threshold fails; anything else stays active.
pub open spec fn resolve(votes: Seq<VoteKind>, n: int, threshold: int) -> ProposalStatus {
    let f = count_kind(votes, n, VoteKind::For);
    let a = count_kind(votes, n, VoteKind::Against);
    let ab = count_kind(votes, n, VoteKind::Abstain);
    if f >= threshold {
        ProposalStatus::Succeeded
    } else if a > n - threshold {
        ProposalStatus::Failed
    } else if f + a + ab == n && f < threshold {
        ProposalStatus::Failed
    } else {
        ProposalStatus::Active
    }
}

/// The mathematical model of a proposal.
#[verifier::ext_equal]
pub struct PropView {
    pub proposal_id: int,
    pub expiry: int,
    pub status: ProposalStatus,
    pub bump: u8,
    pub active_members: Seq<Seq<u8>>,
    pub member_count: int,
    pub votes: Seq<VoteKind>,
    pub created_time: int,
}

impl PropView {
    /// Well-formedness: full-width snapshot and vote arrays, a snapshot count
    /// in range, and untouched slots beyond the snapshot.
    pub open spec fn wf(self) -> bool {
        &&& self.active_members.len() == MAX_MEMBERS as int
        &&& forall|i: int|
            0 <= i < MAX_MEMBERS as int ==> (#[trigger] self.active_members[i]).len() == 32
        &&& self.votes.len() == MAX_MEMBERS as int
        &&& 1 <= self.member_count <= MAX_MEMBERS as int
        &&& forall|i: int|
            self.member_count <= i < MAX_MEMBERS as int
                ==> #[trigger] self.votes[i] == VoteKind::NotVoted
        &&& forall|i: int|
            self.member_count <= i < MAX_MEMBERS as int
                ==> is_empty_id(#[trigger] self.active_members[i])
    }

    /// Whether `id` is in the frozen snapshot of eligible voters.
    pub open spec fn in_snapshot(self, id: Seq<u8>) -> bool {
        exists|i: int| 0 <= i < self.member_count && #[trigger] self.active_members[i] == id
    }

    /// Casting a vote, in the fixed validation order: the vote byte must be
    /// castable, the proposal must still be active, the expiry must not have
    /// passed (a late vote flips the proposal to `Failed` and the call itself
    /// fails), and the voter must be in the frozen snapshot.  A valid vote
    /// overwrites the voter's slot — last vote wins — and the tally is then
    /// resolved.
    pub open spec fn spec_process_vote(
        self,
        threshold: int,
        voter: Seq<u8>,
        vote_type: u8,
        now: int,
    ) -> (PropView, Result<(), GovError>) {
        if !valid_vote_byte(vote_type) {
            (self, Err(GovError::InvalidVoteKind))
        } else if !(self.status is Active) {
            (self, Err(GovError::ProposalNotActive))
        } else if now > self.expiry {
            (PropView { status: ProposalStatus::Failed, ..self }, Err(GovError::ProposalExpired))
        } else if !self.in_snapshot(voter) {
            (self, Err(GovError::VoterNotInSnapshot))
        } else {
            let k = find_from(self.active_members, voter, 0, self.member_count);
            let votes2 = self.votes.update(k, spec_vote_kind_of(vote_type));
            (
                PropView {
                    votes: votes2,
                    status: resolve(votes2, self.member_count, threshold),
                    ..self
                },
                Ok(()),
            )
        }
    }
}

/// Creating a proposal from a registry: the proposer must be a member; the
/// snapshot copies exactly the active slots, every vote starts as
/// `NotVoted`, the proposal takes the registry's proposal counter as its
/// identifier, and the counter increments.
pub open spec fn spec_init_proposal(
    v: crate::registry::RegView,
    proposer: Seq<u8>,
    duration: int,
    now: int,
    bump: u8,
) -> (crate::registry::RegView, Result<PropView, GovError>) {
    if !v.is_member(proposer) {
        (v, Err(GovError::NotAMember))
    } else {
        let p = PropView {
            proposal_id: v.total_proposals,
            expiry: now + duration,
            status: ProposalStatus::Active,
            bump,
            active_members: Seq::new(
                MAX_MEMBERS as nat,
                |i: int|
                    if i < v.member_count {
                        v.members[i]
                    } else {
                        empty_id_seq()
                    },
            ),
            member_count: v.member_count,
            votes: Seq::new(MAX_MEMBERS as nat, |i: int| VoteKind::NotVoted),
            created_time: now,
        };
        (
            crate::registry::RegView { total_proposals: v.total_proposals + 1, ..v },
            Ok(p),
        )
    }
}

/// One proposal record.  The snapshot vector always holds exactly
/// `MAX_MEMBERS` entries; the first `member_count` of them are the eligible
/// voters frozen at creation time, and `votes` is parallel to them.
#[derive(Debug)]
pub struct Proposal {
    pub proposal_id: u64,
    pub expiry: u64,
    pub status: ProposalStatus,
    pub bump: u8,
    pub active_members: Vec<Pubkey>,
    pub member_count: u64,
    pub votes: Vec<VoteKind>,
    pub created_time: u64,
}

impl View for Proposal {
    type V = PropView;

    open spec fn view(&self) -> PropView {
        PropView {
            proposal_id: self.proposal_id as int,
            expiry: self.expiry as int,
            status: self.status,
            bump: self.bump,
            active_members: ids_of(self.active_members@),
            member_count: self.member_count as int,
            votes: self.votes@,
            created_time: self.created_time as int,
        }
    }
}

/// Creates a proposal against `registry`.
///
/// Fails with `NotAMember` when the proposer is not an active member,
/// leaving the registry unchanged.  On success the proposal snapshots the
/// registry's current member list, takes the next proposal identifier, and
/// the registry's proposal counter increments; nothing else in the registry
/// changes.
pub fn init_proposal(
    registry: &mut MemberRegistry,
    proposer: &Pubkey,
    proposal_expiry_duration: u64,
    now: u64,
    bump: u8,
) -> (r: Result<Proposal, GovError>)
    requires
        old(registry)@.wf(),
        now + proposal_expiry_duration <= u64::MAX,
        old(registry)@.total_proposals < u64::MAX,
    ensures
        ({
            let (v2, res) = spec_init_proposal(
                old(registry)@,
                proposer@,
                proposal_expiry_duration as int,
                now as int,
                bump,
            );
            &&& final(registry)@ == v2
            &&& r is Ok <==> res is Ok
            &&& r is Ok ==> r->Ok_0@ == res->Ok_0 && r->Ok_0@.wf()
            &&& r is Err ==> r->Err_0 == res->Err_0
        }),
        final(registry)@.wf(),
{
    let count = registry.member_count as usize;
    if find_member(&registry.member_keys, count, proposer).is_none() {
        proof {
            lemma_find_from(ids_of(registry.member_keys@), proposer@, 0, count as int);
        }
        return Err(GovError::NotAMember);
    }
    proof {
        lemma_find_from(ids_of(registry.member_keys@), proposer@, 0, count as int);
    }
    let mut active_members: Vec<Pubkey> = Vec::new();
    let mut i: usize = 0;
    while i < MAX_MEMBERS
        invariant
            0 <= i <= MAX_MEMBERS,
            count == registry.member_count,
            count <= registry.member_keys@.len(),
            active_members@.len() == i,
            forall|j: int|
                0 <= j < i && j < count
                    ==> #[trigger] active_members@[j]@ == registry.member_keys@[j]@,
            forall|j: int|
                count <= j < i ==> #[trigger] active_members@[j]@ == empty_id_seq(),
        decreases MAX_MEMBERS - i,
    {
        if i < count {
            let key = registry.member_keys[i];
            active_members.push(key);
        } else {
            active_members.push(crate::member::empty_id());
        }
        i += 1;
    }
    let mut votes: Vec<VoteKind> = Vec::new();
    let mut j: usize = 0;
    while j < MAX_MEMBERS
        invariant
            0 <= j <= MAX_MEMBERS,
            votes@.len() == j,
            forall|t: int| 0 <= t < j ==> #[trigger] votes@[t] == VoteKind::NotVoted,
        decreases MAX_MEMBERS - j,
    {
        votes.push(VoteKind::NotVoted);
        j += 1;
    }
    let proposal = Proposal {
        proposal_id: registry.total_proposals,
        expiry: now + proposal_expiry_duration,
        status: ProposalStatus::Active,
        bump,
        active_members,
        member_count: registry.member_count,
        votes,
        created_time: now,
    };
    registry.total_proposals = registry.total_proposals + 1;
    proof {
        let (v2, res) = spec_init_proposal(
            old(registry)@,
            proposer@,
            proposal_expiry_duration as int,
            now as int,
            bump,
        );
        assert(registry@.members =~~= v2.members);
        assert(registry@ =~~= v2);
        assert(proposal@.active_members =~~= res->Ok_0.active_members);
        assert(proposal@.votes =~= res->Ok_0.votes);
        assert(proposal@ =~~= res->Ok_0);
    }
    Ok(proposal)
}

/// Tallies the first `n` vote slots.
fn tally(votes: &Vec<VoteKind>, n: usize) -> (t: (u64, u64, u64))
    requires
        n <= votes@.len(),
        n <= MAX_MEMBERS,
    ensures
        t.0 == count_kind(votes@, n as int, VoteKind::For),
        t.1 == count_kind(votes@, n as int, VoteKind::Against),
        t.2 == count_kind(votes@, n as int, VoteKind::Abstain),
{
    let mut votes_for: u64 = 0;
    let mut votes_against: u64 = 0;
    let mut votes_abstain: u64 = 0;
    let mut i: usize = 0;
    while i < n
        invariant
            0 <= i <= n,
            n <= votes@.len(),
            n <= MAX_MEMBERS,
            votes_for == count_kind(votes@, i as int, VoteKind::For),
            votes_against == count_kind(votes@, i as int, VoteKind::Against),
            votes_abstain == count_kind(votes@, i as int, VoteKind::Abstain),
        decreases n - i,
    {
        proof {
            lemma_count_kind_bounds(votes@, i as int, VoteKind::For);
            lemma_count_kind_bounds(votes@, i as int, VoteKind::Against);
            lemma_count_kind_bounds(votes@, i as int, VoteKind::Abstain);
        }
        match votes[i] {
            VoteKind::For => {
                votes_for = votes_for + 1;
            },
            VoteKind::Against => {
                votes_against = votes_against + 1;
            },
            VoteKind::Abstain => {
                votes_abstain = votes_abstain + 1;
            },
            VoteKind::NotVoted => {},
        }
        i += 1;
    }
    (votes_for, votes_against, votes_abstain)
}

impl Proposal {
    /// Checks the proposal invariant, for records decoded from untrusted
    /// storage bytes.
    pub fn is_well_formed(&self) -> (b: bool)
        ensures
            b == self@.wf(),
    {
        if self.active_members.len() != MAX_MEMBERS || self.votes.len() != MAX_MEMBERS {
            return false;
        }
        if self.member_count < 1 || self.member_count > MAX_MEMBERS as u64 {
            return false;
        }
        let count = self.member_count as usize;
        let empty = crate::member::empty_id();
        let mut i: usize = count;
        while i < MAX_MEMBERS
            invariant
                count <= i <= MAX_MEMBERS,
                count == self.member_count,
                1 <= count <= MAX_MEMBERS,
                self.active_members@.len() == MAX_MEMBERS as int,
                self.votes@.len() == MAX_MEMBERS as int,
                empty@ == empty_id_seq(),
                forall|j: int| count <= j < i ==> #[trigger] self@.votes[j] == VoteKind::NotVoted,
                forall|j: int| count <= j < i ==> is_empty_id(#[trigger] self@.active_members[j]),
            decreases MAX_MEMBERS - i,
        {
            match self.votes[i] {
                VoteKind::NotVoted => {},
                _ => {
                    return false;
                },
            }
            if !crate::member::id_eq(&self.active_members[i], &empty) {
                proof {
                    assert(self@.active_members[i as int] == self.active_members@[i as int]@);
                }
                return false;
            }
            proof {
                assert(self@.active_members[i as int] == self.active_members@[i as int]@);
            }
            i += 1;
        }
        proof {
            assert forall|i: int| 0 <= i < MAX_MEMBERS as int implies (#[trigger] self@
                .active_members[i]).len() == 32 by {
                assert(self@.active_members[i] == self.active_members@[i]@);
            }
        }
        true
    }

    /// Casts `voter`'s vote on this proposal and resolves the tally.
    ///
    /// The wire byte must name a castable vote kind (`InvalidVoteKind`
    /// otherwise); the proposal must still be active (`ProposalNotActive`); a
    /// vote after the expiry flips the proposal to `Failed` and fails with
    /// `ProposalExpired`; and the voter must be in the frozen snapshot taken
    /// at creation (`VoterNotInSnapshot`) — membership changes after creation
    /// do not affect who may vote.  A valid vote overwrites the voter's slot,
    /// so only the latest choice per voter counts, and the status becomes the
    /// resolution of the new tally against the registry's threshold.
    pub fn process_vote(
        &mut self,
        registry: &MemberRegistry,
        voter: &Pubkey,
        vote_type: u8,
        now: u64,
    ) -> (r: Result<(), GovError>)
        requires
            old(self)@.wf(),
            registry@.wf(),
        ensures
            ({
                let (p2, res) = old(self)@.spec_process_vote(
                    registry@.threshold,
                    voter@,
                    vote_type,
                    now as int,
                );
                &&& final(self)@ == p2
                &&& r == res
            }),
            final(self)@.wf(),
    {
        if vote_type != VOTE_FOR && vote_type != VOTE_AGAINST && vote_type != VOTE_ABSTAIN {
            return Err(GovError::InvalidVoteKind);
        }
        match self.status {
            ProposalStatus::Active => {},
            _ => {
                return Err(GovError::ProposalNotActive);
            },
        }
        if now > self.expiry {
            self.status = ProposalStatus::Failed;
            proof {
                let (p2, res) = old(self)@.spec_process_vote(
                    registry@.threshold,
                    voter@,
                    vote_type,
                    now as int,
                );
                assert(self@ =~~= p2);
            }
            return Err(GovError::ProposalExpired);
        }
        let count = self.member_count as usize;
        let k = match find_member(&self.active_members, count, voter) {
            Some(k) => k,
            None => {
                proof {
                    lemma_find_from(ids_of(self.active_members@), voter@, 0, count as int);
                }
                return Err(GovError::VoterNotInSnapshot);
            },
        };
        proof {
            lemma_find_from(ids_of(self.active_members@), voter@, 0, count as int);
        }
        let kind = if vote_type == VOTE_FOR {
            VoteKind::For
        } else if vote_type == VOTE_AGAINST {
            VoteKind::Against
        } else {
            VoteKind::Abstain
        };
        self.votes.set(k, kind);
        let (votes_for, votes_against, votes_abstain) = tally(&self.votes, count);
        proof {
            lemma_count_kind_bounds(self.votes@, count as int, VoteKind::For);
            lemma_count_kind_bounds(self.votes@, count as int, VoteKind::Against);
            lemma_count_kind_bounds(self.votes@, count as int, VoteKind::Abstain);
        }
        let threshold = registry.threshold;
        let total_votes = votes_for + votes_against + votes_abstain;
        if votes_for >= threshold {
            self.status = ProposalStatus::Succeeded;
        } else if votes_against + threshold > self.member_count {
            self.status = ProposalStatus::Failed;
        } else if total_votes == self.member_count && votes_for < threshold {
            self.status = ProposalStatus::Failed;
        } else {
            self.status = ProposalStatus::Active;
        }
        proof {
            let (p2, res) = old(self)@.spec_process_vote(
                registry@.threshold,
                voter@,
                vote_type,
                now as int,
            );
            assert(self@.votes =~= p2.votes);
            assert(self@ =~~= p2);
        }
        Ok(())
    }
}

/// The auxiliary per-voter audit record.  It is maintained best-effort and
/// never affects resolution.
#[derive(Debug)]
pub struct VoteRecord {
    pub has_permission: bool,
    pub vote_count: u64,
    pub bump: u8,
    pub votes: Vec<u8>,
}

impl VoteRecord {
    /// Notes that the holder cast a vote: the permission flag is set and the
    /// vote counter increments, saturating at its maximum — the record is an
    /// audit aid, so the counter never blocks a vote.
    pub fn record_vote(&mut self)
        ensures
            final(self).has_permission == true,
            final(self).vote_count == if old(self).vote_count == u64::MAX {
                u64::MAX
            } else {
                (old(self).vote_count + 1) as u64
            },
            final(self).bump == old(self).bump,
            final(self).votes@ == old(self).votes@,
    {
        self.has_permission = true;
        if self.vote_count < u64::MAX {
            self.vote_count = self.vote_count + 1;
        }
    }
}

} // verus!
