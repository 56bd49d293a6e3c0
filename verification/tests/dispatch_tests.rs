use multisig::codec::{decode_proposal, decode_registry, encode_proposal, encode_registry,
    read_pubkey, read_u64, PROPOSAL_RECORD_LEN, REGISTRY_RECORD_LEN};
use multisig::dispatch::{decode_instruction, error_code, process_instruction, validate_address,
    CallContext, Operation};
use multisig::proposal::{init_proposal, Proposal, ProposalStatus, VoteKind, VoteRecord, VOTE_FOR};
use multisig::registry::MemberRegistry;
use multisig::GovError;

const MEMBER_1: [u8; 32] = [10u8; 32];
const MEMBER_2: [u8; 32] = [20u8; 32];
const MEMBER_3: [u8; 32] = [30u8; 32];
const NOW: u64 = 1640995200;

fn registry_with(members: &[[u8; 32]], threshold: u64) -> MemberRegistry {
    let mut keys: Vec<[u8; 32]> = Vec::new();
    for i in 0..10 {
        if i < members.len() {
            keys.push(members[i]);
        } else {
            keys.push([0u8; 32]);
        }
    }
    MemberRegistry {
        creator: [1u8; 32],
        member_count: members.len() as u64,
        member_keys: keys,
        threshold,
        proposal_expiry: 86400,
        total_proposals: 0,
        treasury_wallet: [99u8; 32],
        config_bump: 255,
        treasury_bump: 254,
    }
}

fn context_for(actor: [u8; 32]) -> CallContext {
    CallContext {
        actor,
        now: NOW,
        treasury_wallet: [99u8; 32],
        config_bump: 255,
        treasury_bump: 254,
        proposal_bump: 253,
    }
}

#[test]
fn test_decode_empty_buffer() {
    assert_eq!(decode_instruction(&[]).unwrap_err(), GovError::MalformedPayload);
}

#[test]
fn test_decode_unknown_selector() {
    assert_eq!(decode_instruction(&[9u8, 0, 0]).unwrap_err(), GovError::UnsupportedOperation);
}

#[test]
fn test_decode_short_payloads() {
    assert_eq!(decode_instruction(&[0u8; 9]).unwrap_err(), GovError::MalformedPayload);
    assert_eq!(decode_instruction(&[1u8; 32]).unwrap_err(), GovError::MalformedPayload);
    assert_eq!(decode_instruction(&[2u8; 32]).unwrap_err(), GovError::MalformedPayload);
    assert_eq!(decode_instruction(&[3u8; 8]).unwrap_err(), GovError::MalformedPayload);
    assert_eq!(decode_instruction(&[4u8]).unwrap_err(), GovError::MalformedPayload);
}

#[test]
fn test_decode_init_multisig() {
    let mut data = vec![0u8; 10];
    data[1..9].copy_from_slice(&3u64.to_le_bytes());
    data[9] = 2;
    match decode_instruction(&data).unwrap() {
        Operation::InitMultisig { member_count, threshold, proposal_expiry } => {
            assert_eq!(member_count, 3);
            assert_eq!(threshold, 2);
            // no expiry bytes: the default of one day applies
            assert_eq!(proposal_expiry, 86400);
        },
        other => panic!("decoded {:?}", other),
    }
    // a single extra byte is a one-byte expiry
    let mut data = vec![0u8; 11];
    data[1..9].copy_from_slice(&3u64.to_le_bytes());
    data[9] = 2;
    data[10] = 60;
    match decode_instruction(&data).unwrap() {
        Operation::InitMultisig { proposal_expiry, .. } => assert_eq!(proposal_expiry, 60),
        other => panic!("decoded {:?}", other),
    }
    // eight extra bytes are a full little-endian expiry
    let mut data = vec![0u8; 18];
    data[1..9].copy_from_slice(&3u64.to_le_bytes());
    data[9] = 2;
    data[10..18].copy_from_slice(&604800u64.to_le_bytes());
    match decode_instruction(&data).unwrap() {
        Operation::InitMultisig { proposal_expiry, .. } => assert_eq!(proposal_expiry, 604800),
        other => panic!("decoded {:?}", other),
    }
}

#[test]
fn test_decode_add_and_remove_member() {
    let mut data = vec![1u8];
    data.extend_from_slice(&[42u8; 32]);
    match decode_instruction(&data).unwrap() {
        Operation::AddMember { member } => assert_eq!(member, [42u8; 32]),
        other => panic!("decoded {:?}", other),
    }
    data[0] = 2;
    match decode_instruction(&data).unwrap() {
        Operation::RemoveMember { member } => assert_eq!(member, [42u8; 32]),
        other => panic!("decoded {:?}", other),
    }
}

#[test]
fn test_decode_init_proposal_and_vote() {
    let mut data = vec![3u8];
    data.extend_from_slice(&3600u64.to_le_bytes());
    match decode_instruction(&data).unwrap() {
        Operation::InitProposal { duration } => assert_eq!(duration, 3600),
        other => panic!("decoded {:?}", other),
    }
    match decode_instruction(&[4u8, VOTE_FOR]).unwrap() {
        Operation::CastVote { vote_type } => assert_eq!(vote_type, VOTE_FOR),
        other => panic!("decoded {:?}", other),
    }
}

#[test]
fn test_process_instruction_full_flow() {
    let creator = [1u8; 32];
    let mut registry: Option<MemberRegistry> = None;
    let mut proposal: Option<Proposal> = None;
    let mut vote_record: Option<VoteRecord> = None;

    // initialize a registry: two members, threshold one
    let mut init = vec![0u8; 10];
    init[1..9].copy_from_slice(&2u64.to_le_bytes());
    init[9] = 1;
    let ctx = context_for(creator);
    let r = process_instruction(&mut registry, &mut proposal, &mut vote_record, &ctx, &init);
    assert_eq!(r, Ok(()));
    assert_eq!(registry.as_ref().unwrap().member_count, 2);
    assert_eq!(registry.as_ref().unwrap().threshold, 1);

    // a second initialization is refused
    let r = process_instruction(&mut registry, &mut proposal, &mut vote_record, &ctx, &init);
    assert_eq!(r, Err(GovError::AlreadyInitialized));

    // add a member at the first free slot
    let mut add = vec![1u8];
    add.extend_from_slice(&MEMBER_1);
    let r = process_instruction(&mut registry, &mut proposal, &mut vote_record, &ctx, &add);
    assert_eq!(r, Ok(()));
    assert_eq!(registry.as_ref().unwrap().member_count, 3);
    assert_eq!(registry.as_ref().unwrap().member_keys[2], MEMBER_1);

    // the new member raises a proposal
    let mut raise = vec![3u8];
    raise.extend_from_slice(&3600u64.to_le_bytes());
    let ctx1 = context_for(MEMBER_1);
    let r = process_instruction(&mut registry, &mut proposal, &mut vote_record, &ctx1, &raise);
    assert_eq!(r, Ok(()));
    assert_eq!(proposal.as_ref().unwrap().proposal_id, 0);
    assert_eq!(proposal.as_ref().unwrap().expiry, NOW + 3600);
    assert_eq!(registry.as_ref().unwrap().total_proposals, 1);

    // and votes in favour; threshold one resolves the proposal at once
    vote_record = Some(VoteRecord { has_permission: false, vote_count: 0, bump: 7, votes: vec![0u8; 10] });
    let vote = vec![4u8, VOTE_FOR];
    let r = process_instruction(&mut registry, &mut proposal, &mut vote_record, &ctx1, &vote);
    assert_eq!(r, Ok(()));
    assert_eq!(proposal.as_ref().unwrap().status, ProposalStatus::Succeeded);
    assert_eq!(proposal.as_ref().unwrap().votes[2], VoteKind::For);
    assert!(vote_record.as_ref().unwrap().has_permission);
    assert_eq!(vote_record.as_ref().unwrap().vote_count, 1);
}

#[test]
fn test_process_instruction_missing_records() {
    let mut registry: Option<MemberRegistry> = None;
    let mut proposal: Option<Proposal> = None;
    let mut vote_record: Option<VoteRecord> = None;
    let ctx = context_for(MEMBER_1);
    let mut add = vec![1u8];
    add.extend_from_slice(&MEMBER_1);
    let r = process_instruction(&mut registry, &mut proposal, &mut vote_record, &ctx, &add);
    assert_eq!(r, Err(GovError::InvalidAddress));
    let vote = vec![4u8, VOTE_FOR];
    let r = process_instruction(&mut registry, &mut proposal, &mut vote_record, &ctx, &vote);
    assert_eq!(r, Err(GovError::InvalidAddress));
    // domain errors pass through: an unknown selector
    let r = process_instruction(&mut registry, &mut proposal, &mut vote_record, &ctx, &[8u8]);
    assert_eq!(r, Err(GovError::UnsupportedOperation));
}

#[test]
fn test_validate_address() {
    assert_eq!(validate_address(&[5u8; 32], &[5u8; 32]), Ok(()));
    assert_eq!(validate_address(&[5u8; 32], &[6u8; 32]), Err(GovError::InvalidAddress));
}

#[test]
fn test_error_codes_are_distinct() {
    let errors = [
        GovError::InvalidParameter,
        GovError::AlreadyInitialized,
        GovError::CapacityExceeded,
        GovError::DuplicateMember,
        GovError::MemberNotFound,
        GovError::ThresholdUnreachable,
        GovError::NotAMember,
        GovError::VoterNotInSnapshot,
        GovError::ProposalNotActive,
        GovError::ProposalExpired,
        GovError::InvalidVoteKind,
        GovError::InvalidAddress,
        GovError::UnsupportedOperation,
        GovError::MalformedPayload,
    ];
    let codes: Vec<u64> = errors.iter().map(|e| error_code(*e)).collect();
    for (i, a) in codes.iter().enumerate() {
        assert!(*a >= 1);
        for b in codes[i + 1..].iter() {
            assert_ne!(a, b);
        }
    }
}

#[test]
fn test_read_u64_exact_value() {
    let mut data = [0u8; 8];
    data[0] = 1;
    data[1] = 2;
    assert_eq!(read_u64(&data), Ok(0x0201));
    assert_eq!(read_u64(&[0xffu8; 8]), Ok(u64::MAX));
    assert_eq!(read_u64(&[1u8; 7]).unwrap_err(), GovError::MalformedPayload);
}

#[test]
fn test_read_pubkey_exact_value() {
    let mut data = vec![7u8; 33];
    data[32] = 9;
    assert_eq!(read_pubkey(&data), Ok([7u8; 32]));
    assert_eq!(read_pubkey(&[7u8; 31]).unwrap_err(), GovError::MalformedPayload);
}

#[test]
fn test_registry_record_round_trip() {
    let reg = registry_with(&[MEMBER_1, MEMBER_2, MEMBER_3], 2);
    let bytes = encode_registry(&reg);
    assert_eq!(bytes.len(), REGISTRY_RECORD_LEN);
    // spot checks of the layout
    assert_eq!(&bytes[0..32], &[1u8; 32]);
    assert_eq!(bytes[32], 3); // member count, little-endian
    assert_eq!(&bytes[40..72], &MEMBER_1);
    assert_eq!(bytes[360], 2); // threshold
    assert_eq!(bytes[416], 255);
    assert_eq!(bytes[417], 254);
    let back = decode_registry(&bytes).unwrap();
    assert_eq!(back.creator, reg.creator);
    assert_eq!(back.member_count, reg.member_count);
    assert_eq!(back.member_keys, reg.member_keys);
    assert_eq!(back.threshold, reg.threshold);
    assert_eq!(back.proposal_expiry, reg.proposal_expiry);
    assert_eq!(back.total_proposals, reg.total_proposals);
    assert_eq!(back.treasury_wallet, reg.treasury_wallet);
    assert_eq!(back.config_bump, reg.config_bump);
    assert_eq!(back.treasury_bump, reg.treasury_bump);
    assert!(back.is_well_formed());
    // a buffer of the wrong size is refused
    assert!(decode_registry(&bytes[1..]).is_none());
}

#[test]
fn test_proposal_record_round_trip() {
    let mut reg = registry_with(&[MEMBER_1, MEMBER_2, MEMBER_3], 2);
    let mut p = init_proposal(&mut reg, &MEMBER_1, 3600, NOW, 253).unwrap();
    assert_eq!(p.process_vote(&reg, &MEMBER_2, VOTE_FOR, NOW), Ok(()));
    let bytes = encode_proposal(&p);
    assert_eq!(bytes.len(), PROPOSAL_RECORD_LEN);
    assert_eq!(bytes[16], 0); // status byte: active
    assert_eq!(bytes[17], 253);
    assert_eq!(&bytes[18..50], &MEMBER_1);
    assert_eq!(bytes[338], 0); // the proposer has not voted
    assert_eq!(bytes[339], 1); // the second member voted in favour
    let back = decode_proposal(&bytes, reg.member_count).unwrap();
    assert_eq!(back.proposal_id, p.proposal_id);
    assert_eq!(back.expiry, p.expiry);
    assert_eq!(back.status, p.status);
    assert_eq!(back.bump, p.bump);
    assert_eq!(back.active_members, p.active_members);
    assert_eq!(back.member_count, p.member_count);
    assert_eq!(back.votes, p.votes);
    assert_eq!(back.created_time, p.created_time);
    assert!(back.is_well_formed());
    // out-of-range status or vote bytes are refused
    let mut bad = bytes.clone();
    bad[16] = 3;
    assert!(decode_proposal(&bad, reg.member_count).is_none());
    let mut bad = bytes.clone();
    bad[338] = 4;
    assert!(decode_proposal(&bad, reg.member_count).is_none());
}
