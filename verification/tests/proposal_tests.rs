use multisig::proposal::{init_proposal, Proposal, ProposalStatus, VoteKind, VoteRecord,
    VOTE_ABSTAIN, VOTE_AGAINST, VOTE_FOR, VOTE_NOT_VOTED};
use multisig::registry::MemberRegistry;
use multisig::GovError;

const MEMBER_1: [u8; 32] = [10u8; 32];
const MEMBER_2: [u8; 32] = [20u8; 32];
const MEMBER_3: [u8; 32] = [30u8; 32];
const NOW: u64 = 1640995200;

fn registry_with(members: &[[u8; 32]], threshold: u64) -> MemberRegistry {
    let mut keys: Vec<[u8; 32]> = Vec::new();
    for i in 0..10 {
        if i < members.len() {
            keys.push(members[i]);
        } else {
            keys.push([0u8; 32]);
        }
    }
    MemberRegistry {
        creator: [1u8; 32],
        member_count: members.len() as u64,
        member_keys: keys,
        threshold,
        proposal_expiry: 86400,
        total_proposals: 0,
        treasury_wallet: [99u8; 32],
        config_bump: 255,
        treasury_bump: 254,
    }
}

fn three_member_proposal(threshold: u64) -> (MemberRegistry, Proposal) {
    let mut reg = registry_with(&[MEMBER_1, MEMBER_2, MEMBER_3], threshold);
    let p = init_proposal(&mut reg, &MEMBER_1, 86400, NOW, 255).unwrap();
    (reg, p)
}

#[test]
fn test_init_proposal() {
    let mut reg = registry_with(&[MEMBER_1, MEMBER_2, MEMBER_3], 2);
    let proposal = init_proposal(&mut reg, &MEMBER_1, 86400, NOW, 255).unwrap();
    assert_eq!(proposal.proposal_id, 0);
    assert_eq!(proposal.created_time, NOW);
    assert_eq!(proposal.expiry, NOW + 86400);
    assert_eq!(proposal.status, ProposalStatus::Active);
    assert_eq!(proposal.member_count, 3);
    assert_eq!(proposal.active_members[0], MEMBER_1);
    assert_eq!(proposal.active_members[1], MEMBER_2);
    assert_eq!(proposal.active_members[2], MEMBER_3);
    for i in 3..10 {
        assert_eq!(proposal.active_members[i], [0u8; 32]);
    }
    for i in 0..10 {
        assert_eq!(proposal.votes[i], VoteKind::NotVoted);
    }
    assert_eq!(reg.total_proposals, 1);
    assert!(proposal.is_well_formed());
}

#[test]
fn test_process_vote() {
    let (reg, mut proposal) = three_member_proposal(2);
    let r = proposal.process_vote(&reg, &MEMBER_1, VOTE_FOR, NOW);
    assert_eq!(r, Ok(()));
    assert_eq!(proposal.votes[0], VoteKind::For);
    // one vote in favour of two required: still active
    assert_eq!(proposal.status, ProposalStatus::Active);
}

#[test]
fn test_proposer_not_member() {
    let mut reg = registry_with(&[MEMBER_1, MEMBER_2, MEMBER_3], 2);
    let r = init_proposal(&mut reg, &[77u8; 32], 3600, NOW, 255);
    assert_eq!(r.unwrap_err(), GovError::NotAMember);
    assert_eq!(reg.total_proposals, 0);
}

#[test]
fn test_proposal_ids_are_dense() {
    let mut reg = registry_with(&[MEMBER_1, MEMBER_2, MEMBER_3], 2);
    let p0 = init_proposal(&mut reg, &MEMBER_1, 3600, NOW, 255).unwrap();
    let p1 = init_proposal(&mut reg, &MEMBER_2, 3600, NOW + 5, 255).unwrap();
    assert_eq!(p0.proposal_id, 0);
    assert_eq!(p1.proposal_id, 1);
    assert_eq!(reg.total_proposals, 2);
}

#[test]
fn test_snapshot_immutable_after_registry_mutation() {
    let (mut reg, mut proposal) = three_member_proposal(2);
    let snapshot_before: Vec<[u8; 32]> = proposal.active_members.clone();
    // mutate the registry after the proposal was created
    assert_eq!(reg.add_member(&[40u8; 32]), Ok(()));
    assert_eq!(reg.remove_member(&MEMBER_2), Ok(()));
    assert_eq!(proposal.active_members, snapshot_before);
    assert_eq!(proposal.member_count, 3);
    // a member added after creation is not in the snapshot and cannot vote
    let r = proposal.process_vote(&reg, &[40u8; 32], VOTE_FOR, NOW);
    assert_eq!(r, Err(GovError::VoterNotInSnapshot));
    // a member removed after creation is still in the snapshot and can vote
    let r = proposal.process_vote(&reg, &MEMBER_2, VOTE_FOR, NOW);
    assert_eq!(r, Ok(()));
}

#[test]
fn test_revote_overwrites() {
    let (reg, mut proposal) = three_member_proposal(2);
    assert_eq!(proposal.process_vote(&reg, &MEMBER_1, VOTE_AGAINST, NOW), Ok(()));
    assert_eq!(proposal.votes[0], VoteKind::Against);
    assert_eq!(proposal.status, ProposalStatus::Active);
    // the same voter votes again: the prior choice is overwritten
    assert_eq!(proposal.process_vote(&reg, &MEMBER_1, VOTE_FOR, NOW), Ok(()));
    assert_eq!(proposal.votes[0], VoteKind::For);
    assert_eq!(proposal.status, ProposalStatus::Active);
    // only the latest choice counts: one more vote in favour reaches the
    // threshold of two
    assert_eq!(proposal.process_vote(&reg, &MEMBER_2, VOTE_FOR, NOW), Ok(()));
    assert_eq!(proposal.status, ProposalStatus::Succeeded);
}

#[test]
fn test_resolution_two_for_succeeds() {
    let (reg, mut proposal) = three_member_proposal(2);
    assert_eq!(proposal.process_vote(&reg, &MEMBER_1, VOTE_FOR, NOW), Ok(()));
    assert_eq!(proposal.status, ProposalStatus::Active);
    assert_eq!(proposal.process_vote(&reg, &MEMBER_2, VOTE_FOR, NOW), Ok(()));
    assert_eq!(proposal.status, ProposalStatus::Succeeded);
}

#[test]
fn test_resolution_two_against_fails() {
    let (reg, mut proposal) = three_member_proposal(2);
    assert_eq!(proposal.process_vote(&reg, &MEMBER_1, VOTE_AGAINST, NOW), Ok(()));
    assert_eq!(proposal.status, ProposalStatus::Active);
    // two against of three members: 2 > 3 - 2, quorum unreachable
    assert_eq!(proposal.process_vote(&reg, &MEMBER_2, VOTE_AGAINST, NOW), Ok(()));
    assert_eq!(proposal.status, ProposalStatus::Failed);
}

#[test]
fn test_resolution_all_voted_threshold_unmet_fails() {
    let (reg, mut proposal) = three_member_proposal(2);
    assert_eq!(proposal.process_vote(&reg, &MEMBER_1, VOTE_FOR, NOW), Ok(()));
    assert_eq!(proposal.process_vote(&reg, &MEMBER_2, VOTE_AGAINST, NOW), Ok(()));
    assert_eq!(proposal.status, ProposalStatus::Active);
    // everyone voted and only one vote in favour of two required
    assert_eq!(proposal.process_vote(&reg, &MEMBER_3, VOTE_ABSTAIN, NOW), Ok(()));
    assert_eq!(proposal.status, ProposalStatus::Failed);
}

#[test]
fn test_resolution_single_for_stays_active() {
    let (reg, mut proposal) = three_member_proposal(2);
    assert_eq!(proposal.process_vote(&reg, &MEMBER_1, VOTE_FOR, NOW), Ok(()));
    assert_eq!(proposal.status, ProposalStatus::Active);
}

#[test]
fn test_expired_vote_flips_to_failed() {
    let (reg, mut proposal) = three_member_proposal(2);
    let late = proposal.expiry + 1;
    let r = proposal.process_vote(&reg, &MEMBER_1, VOTE_FOR, late);
    assert_eq!(r, Err(GovError::ProposalExpired));
    assert_eq!(proposal.status, ProposalStatus::Failed);
    // no vote was recorded by the failed call
    for i in 0..10 {
        assert_eq!(proposal.votes[i], VoteKind::NotVoted);
    }
}

#[test]
fn test_vote_at_expiry_still_counts() {
    let (reg, mut proposal) = three_member_proposal(2);
    let at_expiry = proposal.expiry;
    assert_eq!(proposal.process_vote(&reg, &MEMBER_1, VOTE_FOR, at_expiry), Ok(()));
    assert_eq!(proposal.status, ProposalStatus::Active);
}

#[test]
fn test_vote_invalid_kind_rejected() {
    let (reg, mut proposal) = three_member_proposal(2);
    let r = proposal.process_vote(&reg, &MEMBER_1, VOTE_NOT_VOTED, NOW);
    assert_eq!(r, Err(GovError::InvalidVoteKind));
    let r = proposal.process_vote(&reg, &MEMBER_1, 4, NOW);
    assert_eq!(r, Err(GovError::InvalidVoteKind));
    assert_eq!(proposal.status, ProposalStatus::Active);
}

#[test]
fn test_vote_on_resolved_proposal_rejected() {
    let (reg, mut proposal) = three_member_proposal(1);
    assert_eq!(proposal.process_vote(&reg, &MEMBER_1, VOTE_FOR, NOW), Ok(()));
    assert_eq!(proposal.status, ProposalStatus::Succeeded);
    let r = proposal.process_vote(&reg, &MEMBER_2, VOTE_FOR, NOW);
    assert_eq!(r, Err(GovError::ProposalNotActive));
    assert_eq!(proposal.status, ProposalStatus::Succeeded);
}

#[test]
fn test_voter_not_in_snapshot_rejected() {
    let (reg, mut proposal) = three_member_proposal(2);
    let r = proposal.process_vote(&reg, &[77u8; 32], VOTE_FOR, NOW);
    assert_eq!(r, Err(GovError::VoterNotInSnapshot));
    assert_eq!(proposal.status, ProposalStatus::Active);
}

#[test]
fn test_vote_record_counts_saturate() {
    let mut record = VoteRecord { has_permission: false, vote_count: 0, bump: 255, votes: vec![0u8; 10] };
    record.record_vote();
    assert!(record.has_permission);
    assert_eq!(record.vote_count, 1);
    record.record_vote();
    assert_eq!(record.vote_count, 2);
    let mut full = VoteRecord { has_permission: false, vote_count: u64::MAX, bump: 0, votes: vec![] };
    full.record_vote();
    assert_eq!(full.vote_count, u64::MAX);
}
