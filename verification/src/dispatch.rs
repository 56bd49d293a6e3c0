//! The dispatcher: decodes a tagged instruction buffer into an operation and
//! routes it to the registry or the proposal ledger, mapping domain errors to
//! the failure codes the host surfaces.  All business rules live in the
//! registry and proposal modules; dispatch itself only decodes and routes.
//!
//! An instruction is one selector byte followed by the operation's payload:
//!   0 — initialize registry: member count (8 bytes LE), threshold (1 byte),
//!       then optionally the default proposal expiry (8 bytes LE, or 1 byte;
//!       86400 seconds when absent);
//!   1 — add member: the 32-byte identity;
//!   2 — remove member: the 32-byte identity;
//!   3 — create proposal: the requested duration in seconds (8 bytes LE);
//!   4 — cast vote: the vote kind (1 byte).

use vstd::prelude::*;

use crate::codec::{le_u64, read_key_at, read_u64_at};
use crate::member::{id_eq, Pubkey};
use crate::proposal::{spec_init_proposal, Proposal, VoteRecord};
use crate::registry::{initialize_multisig, MemberRegistry, RegView};
use crate::GovError;

verus! {

/// The mathematical reading of a decoded instruction.
pub enum SpecOp {
    InitMultisig { member_count: int, threshold: int, proposal_expiry: int },
    AddMember { member: Seq<u8> },
    RemoveMember { member: Seq<u8> },
    InitProposal { duration: int },
    CastVote { vote_type: u8 },
}

/// A decoded instruction.
#[derive(Clone, Copy, Debug)]
pub enum Operation {
    InitMultisig { member_count: u64, threshold: u64, proposal_expiry: u64 },
    AddMember { member: Pubkey },
    RemoveMember { member: Pubkey },
    InitProposal { duration: u64 },
    CastVote { vote_type: u8 },
}

impl View for Operation {
    type V = SpecOp;

    open spec fn view(&self) -> SpecOp {
        match *self {
            Operation::InitMultisig { member_count, threshold, proposal_expiry } => {
                SpecOp::InitMultisig {
                    member_count: member_count as int,
                    threshold: threshold as int,
                    proposal_expiry: proposal_expiry as int,
                }
            },
            Operation::AddMember { member } => SpecOp::AddMember { member: member@ },
            Operation::RemoveMember { member } => SpecOp::RemoveMember { member: member@ },
            Operation::InitProposal { duration } => {
                SpecOp::InitProposal { duration: duration as int }
            },
            Operation::CastVote { vote_type } => SpecOp::CastVote { vote_type },
        }
    }
}

/// What an instruction buffer decodes to: an empty buffer or one too short
/// for its operation is malformed, and an unknown selector names no
/// operation.
pub open spec fn spec_decode(data: Seq<u8>) -> Result<SpecOp, GovError> {
    if data.len() == 0 {
        Err(GovError::MalformedPayload)
    } else if data[0] == 0 {
        if data.len() < 10 {
            Err(GovError::MalformedPayload)
        } else {
            Ok(SpecOp::InitMultisig {
                member_count: le_u64(data.subrange(1, 9)),
                threshold: data[9] as int,
                proposal_expiry: if data.len() >= 18 {
                    le_u64(data.subrange(10, 18))
                } else if data.len() > 10 {
                    data[10] as int
                } else {
                    86400
                },
            })
        }
    } else if data[0] == 1 {
        if data.len() < 33 {
            Err(GovError::MalformedPayload)
        } else {
            Ok(SpecOp::AddMember { member: data.subrange(1, 33) })
        }
    } else if data[0] == 2 {
        if data.len() < 33 {
            Err(GovError::MalformedPayload)
        } else {
            Ok(SpecOp::RemoveMember { member: data.subrange(1, 33) })
        }
    } else if data[0] == 3 {
        if data.len() < 9 {
            Err(GovError::MalformedPayload)
        } else {
            Ok(SpecOp::InitProposal { duration: le_u64(data.subrange(1, 9)) })
        }
    } else if data[0] == 4 {
        if data.len() < 2 {
            Err(GovError::MalformedPayload)
        } else {
            Ok(SpecOp::CastVote { vote_type: data[1] })
        }
    } else {
        Err(GovError::UnsupportedOperation)
    }
}

/// Decodes an instruction buffer.
pub fn decode_instruction(data: &[u8]) -> (r: Result<Operation, GovError>)
    ensures
        ({
            let s = spec_decode(data@);
            &&& r is Ok <==> s is Ok
            &&& r is Ok ==> r->Ok_0@ == s->Ok_0
            &&& r is Err ==> r->Err_0 == s->Err_0
        }),
{
    if data.len() == 0 {
        return Err(GovError::MalformedPayload);
    }
    let sel = data[0];
    if sel == 0 {
        if data.len() < 10 {
            return Err(GovError::MalformedPayload);
        }
        let member_count = read_u64_at(data, 1);
        let threshold = data[9] as u64;
        let proposal_expiry: u64 = if data.len() >= 18 {
            read_u64_at(data, 10)
        } else if data.len() > 10 {
            data[10] as u64
        } else {
            86400
        };
        Ok(Operation::InitMultisig { member_count, threshold, proposal_expiry })
    } else if sel == 1 {
        if data.len() < 33 {
            return Err(GovError::MalformedPayload);
        }
        let member = read_key_at(data, 1);
        Ok(Operation::AddMember { member })
    } else if sel == 2 {
        if data.len() < 33 {
            return Err(GovError::MalformedPayload);
        }
        let member = read_key_at(data, 1);
        Ok(Operation::RemoveMember { member })
    } else if sel == 3 {
        if data.len() < 9 {
            return Err(GovError::MalformedPayload);
        }
        let duration = read_u64_at(data, 1);
        Ok(Operation::InitProposal { duration })
    } else if sel == 4 {
        if data.len() < 2 {
            return Err(GovError::MalformedPayload);
        }
        Ok(Operation::CastVote { vote_type: data[1] })
    } else {
        Err(GovError::UnsupportedOperation)
    }
}

/// Checks that a record address handed in by the host matches the expected
/// canonical derived address; a mismatch is fatal.
pub fn validate_address(provided: &Pubkey, expected: &Pubkey) -> (r: Result<(), GovError>)
    ensures
        r is Ok <==> provided@ == expected@,
        r is Err ==> r->Err_0 == GovError::InvalidAddress,
{
    if id_eq(provided, expected) {
        Ok(())
    } else {
        Err(GovError::InvalidAddress)
    }
}

/// The failure code a domain error maps to.
pub open spec fn spec_error_code(e: GovError) -> u64 {
    match e {
        GovError::InvalidParameter => 1,
        GovError::AlreadyInitialized => 2,
        GovError::CapacityExceeded => 3,
        GovError::DuplicateMember => 4,
        GovError::MemberNotFound => 5,
        GovError::ThresholdUnreachable => 6,
        GovError::NotAMember => 7,
        GovError::VoterNotInSnapshot => 8,
        GovError::ProposalNotActive => 9,
        GovError::ProposalExpired => 10,
        GovError::InvalidVoteKind => 11,
        GovError::InvalidAddress => 12,
        GovError::UnsupportedOperation => 13,
        GovError::MalformedPayload => 14,
    }
}

/// Maps a domain error to the failure code the host surfaces to callers.
pub fn error_code(e: GovError) -> (c: u64)
    ensures
        c == spec_error_code(e),
{
    match e {
        GovError::InvalidParameter => 1,
        GovError::AlreadyInitialized => 2,
        GovError::CapacityExceeded => 3,
        GovError::DuplicateMember => 4,
        GovError::MemberNotFound => 5,
        GovError::ThresholdUnreachable => 6,
        GovError::NotAMember => 7,
        GovError::VoterNotInSnapshot => 8,
        GovError::ProposalNotActive => 9,
        GovError::ProposalExpired => 10,
        GovError::InvalidVoteKind => 11,
        GovError::InvalidAddress => 12,
        GovError::UnsupportedOperation => 13,
        GovError::MalformedPayload => 14,
    }
}

/// The host-provided call context: the authenticated signer identity the
/// call presents, the clock reading, and the derived addresses and bumps a
/// registry initialization records.
pub struct CallContext {
    pub actor: Pubkey,
    pub now: u64,
    pub treasury_wallet: Pubkey,
    pub config_bump: u8,
    pub treasury_bump: u8,
    pub proposal_bump: u8,
}

/// Decodes `instruction_data` and applies the operation to the in-memory
/// records.  The host loads the records, presents the authenticated actor
/// identity and the clock, and persists whatever this function leaves in the
/// records — including the expiry-triggered status flip of a failed vote
/// call.  An operation that needs a record the host did not supply fails
/// with `InvalidAddress`; initializing over an existing record fails with
/// `AlreadyInitialized`.
pub fn process_instruction(
    registry: &mut Option<MemberRegistry>,
    proposal: &mut Option<Proposal>,
    vote_record: &mut Option<VoteRecord>,
    ctx: &CallContext,
    instruction_data: &[u8],
) -> (r: Result<(), GovError>)
    requires
        (*old(registry)) matches Some(reg) ==> reg@.wf(),
        (*old(proposal)) matches Some(p) ==> p@.wf(),
        spec_decode(instruction_data@) matches Ok(SpecOp::InitProposal { duration }) ==> ((*old(registry)) matches Some(reg) ==> reg@.total_proposals < u64::MAX && ctx.now + duration
            <= u64::MAX),
    ensures
        (*final(registry)) matches Some(reg2) ==> reg2@.wf(),
        (*final(proposal)) matches Some(p2) ==> p2@.wf(),
        ({
            let s = spec_decode(instruction_data@);
            &&& s matches Err(e) ==> r == Err::<(), GovError>(e) && (*final(registry)) == (*old(registry)) && (*final(proposal)) == (*old(proposal)) && (*final(vote_record)) == (*old(vote_record))
            &&& s matches Ok(
                SpecOp::InitMultisig { member_count, threshold, proposal_expiry },
            ) ==> {
                &&& (*final(proposal)) == (*old(proposal))
                &&& (*final(vote_record)) == (*old(vote_record))
                &&& (*old(registry)) is Some ==> r == Err::<(), GovError>(
                    GovError::AlreadyInitialized,
                ) && (*final(registry)) == (*old(registry))
                &&& (*old(registry)) is None ==> ({
                    let init = RegView::spec_initialize(
                        ctx.actor@,
                        member_count,
                        threshold,
                        proposal_expiry,
                        ctx.treasury_wallet@,
                        ctx.config_bump,
                        ctx.treasury_bump,
                    );
                    &&& init matches Ok(v) ==> r == Ok::<(), GovError>(()) && ((*final(registry)) matches Some(reg2) && reg2@ == v)
                    &&& init matches Err(e) ==> r == Err::<(), GovError>(e) && (*final(registry))
                        is None
                })
            }
            &&& s matches Ok(SpecOp::AddMember { member }) ==> {
                &&& (*final(proposal)) == (*old(proposal))
                &&& (*final(vote_record)) == (*old(vote_record))
                &&& (*old(registry)) is None ==> r == Err::<(), GovError>(GovError::InvalidAddress)
                    && (*final(registry)) is None
                &&& (*old(registry)) matches Some(reg) ==> ({
                    let (v2, res) = reg@.spec_add_member(member);
                    &&& r == res
                    &&& (*final(registry)) matches Some(reg2) && reg2@ == v2
                })
            }
            &&& s matches Ok(SpecOp::RemoveMember { member }) ==> {
                &&& (*final(proposal)) == (*old(proposal))
                &&& (*final(vote_record)) == (*old(vote_record))
                &&& (*old(registry)) is None ==> r == Err::<(), GovError>(GovError::InvalidAddress)
                    && (*final(registry)) is None
                &&& (*old(registry)) matches Some(reg) ==> ({
                    let (v2, res) = reg@.spec_remove_member(member);
                    &&& r == res
                    &&& (*final(registry)) matches Some(reg2) && reg2@ == v2
                })
            }
            &&& s matches Ok(SpecOp::InitProposal { duration }) ==> {
                &&& (*final(vote_record)) == (*old(vote_record))
                &&& (*old(registry)) is None ==> r == Err::<(), GovError>(GovError::InvalidAddress)
                    && (*final(registry)) is None && (*final(proposal)) == (*old(proposal))
                &&& (*old(registry)) matches Some(reg) ==> {
                    &&& (*old(proposal)) is Some ==> r == Err::<(), GovError>(
                        GovError::AlreadyInitialized,
                    ) && (*final(registry)) == (*old(registry)) && (*final(proposal)) == (*old(proposal))
                    &&& (*old(proposal)) is None ==> ({
                        let (v2, res) = spec_init_proposal(
                            reg@,
                            ctx.actor@,
                            duration,
                            ctx.now as int,
                            ctx.proposal_bump,
                        );
                        &&& (*final(registry)) matches Some(reg2) && reg2@ == v2
                        &&& res matches Ok(pv) ==> r == Ok::<(), GovError>(()) && ((*final(proposal)) matches Some(p2) && p2@ == pv)
                        &&& res matches Err(e) ==> r == Err::<(), GovError>(e) && (*final(proposal)) is None
                    })
                }
            }
            &&& s matches Ok(SpecOp::CastVote { vote_type }) ==> {
                &&& (*old(registry)) is None || (*old(proposal)) is None ==> r == Err::<(), GovError>(
                    GovError::InvalidAddress,
                ) && (*final(registry)) == (*old(registry)) && (*final(proposal)) == (*old(proposal))
                    && (*final(vote_record)) == (*old(vote_record))
                &&& (*old(registry)) matches Some(reg) ==> ((*old(proposal)) matches Some(p) ==> ({
                    let (p2, res) = p@.spec_process_vote(
                        reg@.threshold,
                        ctx.actor@,
                        vote_type,
                        ctx.now as int,
                    );
                    &&& r == res
                    &&& (*final(registry)) == (*old(registry))
                    &&& (*final(proposal)) matches Some(pp) && pp@ == p2
                    &&& (*old(vote_record)) matches Some(vr) ==> (res is Ok ==> ((*final(vote_record)) matches Some(vr2) && vr2.has_permission == true && vr2.vote_count == (
                    if vr.vote_count == u64::MAX {
                        u64::MAX
                    } else {
                        (vr.vote_count + 1) as u64
                    }) && vr2.bump == vr.bump && vr2.votes@ == vr.votes@))
                    &&& res is Err ==> (*final(vote_record)) == (*old(vote_record))
                    &&& (*old(vote_record)) is None ==> (*final(vote_record)) is None
                }))
            }
        }),
{
    let op = match decode_instruction(instruction_data) {
        Ok(op) => op,
        Err(e) => {
            return Err(e);
        },
    };
    match op {
        Operation::InitMultisig { member_count, threshold, proposal_expiry } => {
            if registry.is_some() {
                return Err(GovError::AlreadyInitialized);
            }
            match initialize_multisig(
                &ctx.actor,
                member_count,
                threshold,
                proposal_expiry,
                &ctx.treasury_wallet,
                ctx.config_bump,
                ctx.treasury_bump,
            ) {
                Ok(reg) => {
                    *registry = Some(reg);
                    Ok(())
                },
                Err(e) => Err(e),
            }
        },
        Operation::AddMember { member } => {
            match registry {
                Some(reg) => reg.add_member(&member),
                None => Err(GovError::InvalidAddress),
            }
        },
        Operation::RemoveMember { member } => {
            match registry {
                Some(reg) => reg.remove_member(&member),
                None => Err(GovError::InvalidAddress),
            }
        },
        Operation::InitProposal { duration } => {
            match registry {
                Some(reg) => {
                    if proposal.is_some() {
                        return Err(GovError::AlreadyInitialized);
                    }
                    match crate::proposal::init_proposal(
                        reg,
                        &ctx.actor,
                        duration,
                        ctx.now,
                        ctx.proposal_bump,
                    ) {
                        Ok(p) => {
                            *proposal = Some(p);
                            Ok(())
                        },
                        Err(e) => Err(e),
                    }
                },
                None => Err(GovError::InvalidAddress),
            }
        },
        Operation::CastVote { vote_type } => {
            match registry {
                Some(reg) => {
                    match proposal {
                        Some(p) => {
                            let res = p.process_vote(reg, &ctx.actor, vote_type, ctx.now);
                            if res.is_ok() {
                                match vote_record {
                                    Some(vr) => {
                                        vr.record_vote();
                                    },
                                    None => {},
                                }
                            }
                            res
                        },
                        None => Err(GovError::InvalidAddress),
                    }
                },
                None => Err(GovError::InvalidAddress),
            }
        },
    }
}

} // verus!
