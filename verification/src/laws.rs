//! The laws the governance core guarantees, stated over the mathematical
//! models and proved once and for all inputs.

use vstd::prelude::*;

use crate::member::find_from;
use crate::proposal::{spec_init_proposal, valid_vote_byte, PropView};
use crate::registry::RegView;
use crate::{GovError, MAX_MEMBERS};

verus! {

/// For all registries, `threshold <= member_count` holds after every
/// successful add or remove — and the whole registry invariant with it.
pub proof fn lemma_threshold_reachable_after_mutation(v: RegView, id: Seq<u8>)
    requires
        v.wf(),
        id.len() == 32,
    ensures
        ({
            let (v2, res) = v.spec_add_member(id);
            res is Ok ==> v2.wf() && v2.threshold <= v2.member_count
        }),
        ({
            let (v2, res) = v.spec_remove_member(id);
            res is Ok ==> v2.wf() && v2.threshold <= v2.member_count
        }),
{
    v.lemma_add_member_wf(id);
    v.lemma_remove_member_wf(id);
}

/// Removing a member never succeeds when the member count equals the
/// threshold; the registry is left unchanged.
pub proof fn lemma_remove_refused_at_threshold(v: RegView, id: Seq<u8>)
    requires
        v.wf(),
        v.member_count == v.threshold,
    ensures
        v.spec_remove_member(id) == (v, Err::<(), GovError>(GovError::ThresholdUnreachable)),
{
}

/// Adding an identity that is already a member always fails and leaves the
/// registry unchanged; short of full capacity the error is
/// `DuplicateMember` (a full registry is refused as such first).
pub proof fn lemma_duplicate_add_rejected(v: RegView, id: Seq<u8>)
    requires
        v.wf(),
        v.is_member(id),
    ensures
        v.spec_add_member(id).0 == v,
        v.spec_add_member(id).1 is Err,
        v.member_count < MAX_MEMBERS as int ==> v.spec_add_member(id).1 == Err::<(), GovError>(
            GovError::DuplicateMember,
        ),
{
}

/// A proposal's eligible-voter snapshot is frozen at creation: it equals the
/// registry's member list at that moment, an identity added to the registry
/// afterwards is not in the snapshot, and an identity removed afterwards
/// still is.
pub proof fn lemma_snapshot_immutable(
    v: RegView,
    proposer: Seq<u8>,
    duration: int,
    now: int,
    bump: u8,
    id: Seq<u8>,
)
    requires
        v.wf(),
        v.is_member(proposer),
        id.len() == 32,
    ensures
        ({
            let (v1, res) = spec_init_proposal(v, proposer, duration, now, bump);
            let p = res->Ok_0;
            &&& res is Ok
            &&& p.member_count == v.member_count
            &&& forall|i: int| 0 <= i < v.member_count ==> p.active_members[i] == v.members[i]
            &&& v1.spec_add_member(id).1 is Ok ==> !p.in_snapshot(id)
            &&& v1.spec_remove_member(id).1 is Ok ==> p.in_snapshot(id)
        }),
{
    let (v1, res) = spec_init_proposal(v, proposer, duration, now, bump);
    let p = res->Ok_0;
    if v1.spec_add_member(id).1 is Ok {
        assert(!v1.is_member(id));
        assert forall|i: int| 0 <= i < p.member_count implies #[trigger] p.active_members[i]
            != id by {
            assert(p.active_members[i] == v.members[i]);
            assert(v1.members[i] == v.members[i]);
        }
    }
    if v1.spec_remove_member(id).1 is Ok {
        assert(v1.is_member(id));
        let w = choose|i: int| 0 <= i < v1.member_count && #[trigger] v1.members[i] == id;
        assert(p.active_members[w] == v.members[w]);
    }
}

/// Re-voting overwrites the prior vote: when a first vote leaves the
/// proposal active, a second vote by the same voter produces exactly the
/// proposal state that casting only the second vote would have produced, so
/// the tally reflects the latest choice alone.
pub proof fn lemma_revote_last_wins(
    p: PropView,
    threshold: int,
    voter: Seq<u8>,
    first_vote: u8,
    second_vote: u8,
    now: int,
)
    requires
        p.wf(),
        p.status is Active,
        now <= p.expiry,
        p.in_snapshot(voter),
        valid_vote_byte(first_vote),
        valid_vote_byte(second_vote),
        p.spec_process_vote(threshold, voter, first_vote, now).0.status is Active,
    ensures
        ({
            let p1 = p.spec_process_vote(threshold, voter, first_vote, now).0;
            let p2 = p1.spec_process_vote(threshold, voter, second_vote, now).0;
            let direct = p.spec_process_vote(threshold, voter, second_vote, now).0;
            &&& p1.spec_process_vote(threshold, voter, second_vote, now).1 is Ok
            &&& p2 == direct
        }),
{
    let p1 = p.spec_process_vote(threshold, voter, first_vote, now).0;
    let p2 = p1.spec_process_vote(threshold, voter, second_vote, now).0;
    let direct = p.spec_process_vote(threshold, voter, second_vote, now).0;
    assert(p1.active_members == p.active_members);
    assert(p1.member_count == p.member_count);
    crate::member::lemma_find_from(p.active_members, voter, 0, p.member_count);
    let k = find_from(p.active_members, voter, 0, p.member_count);
    assert(0 <= k < p.votes.len());
    assert(p1.votes.update(k, crate::proposal::spec_vote_kind_of(second_vote)) =~= p.votes.update(
        k,
        crate::proposal::spec_vote_kind_of(second_vote),
    ));
    assert(p2 =~~= direct);
}

/// A vote cast after the expiry flips an active proposal to `Failed`, leaves
/// the recorded votes untouched, and the call itself fails with
/// `ProposalExpired`.
pub proof fn lemma_expired_vote_fails(
    p: PropView,
    threshold: int,
    voter: Seq<u8>,
    vote_type: u8,
    now: int,
)
    requires
        p.status is Active,
        valid_vote_byte(vote_type),
        now > p.expiry,
    ensures
        ({
            let (p2, res) = p.spec_process_vote(threshold, voter, vote_type, now);
            &&& res == Err::<(), GovError>(GovError::ProposalExpired)
            &&& p2.status is Failed
            &&& p2.votes == p.votes
            &&& p2.active_members == p.active_members
        }),
{
}

/// Status transitions are monotonic: a vote call never moves a proposal out
/// of a terminal state, and an active proposal can only stay active or move
/// to `Succeeded` or `Failed`.
pub proof fn lemma_status_monotonic(
    p: PropView,
    threshold: int,
    voter: Seq<u8>,
    vote_type: u8,
    now: int,
)
    ensures
        ({
            let (p2, res) = p.spec_process_vote(threshold, voter, vote_type, now);
            &&& !(p.status is Active) ==> p2.status == p.status
            &&& !(p.status is Active) && valid_vote_byte(vote_type) ==> res == Err::<
                (),
                GovError,
            >(GovError::ProposalNotActive)
        }),
{
}

/// Initialization rejects a zero or over-capacity member count and a zero or
/// unreachable threshold with `InvalidParameter`.
pub proof fn lemma_initialize_rejects_bad_parameters(
    creator: Seq<u8>,
    member_count: int,
    threshold: int,
    proposal_expiry: int,
    treasury_wallet: Seq<u8>,
    config_bump: u8,
    treasury_bump: u8,
)
    requires
        member_count == 0 || member_count > MAX_MEMBERS as int || threshold == 0 || threshold
            > member_count,
    ensures
        RegView::spec_initialize(
            creator,
            member_count,
            threshold,
            proposal_expiry,
            treasury_wallet,
            config_bump,
            treasury_bump,
        ) == Err::<RegView, GovError>(GovError::InvalidParameter),
{
}

} // verus!
