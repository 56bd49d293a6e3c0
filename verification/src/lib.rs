//! An M-of-N approval (multisig) governance core.
//!
//! A bounded registry of members collectively authorizes actions by raising
//! proposals and voting on them until the approval threshold is reached or
//! becomes unreachable.  The host ledger owns storage, clocks, address
//! derivation and signer authentication; this crate holds the authorization
//! state machine itself: the member registry and its mutation invariants, the
//! proposal lifecycle, and the vote-tally resolution algorithm, together with
//! the byte-exact record layouts and the instruction decoder.

use vstd::prelude::*;

pub mod codec;
pub mod dispatch;
pub mod laws;
pub mod member;
pub mod proposal;
pub mod registry;

verus! {

/// Hard cap on the number of members a registry can hold.
pub const MAX_MEMBERS: usize = 10;

/// Every way a governance call can fail.  Each error is terminal for the
/// triggering call; the host surfaces it to the caller.
#[derive(Clone, Copy, PartialEq, Eq, Debug)]
pub enum GovError {
    /// A numeric parameter of registry initialization is out of range.
    InvalidParameter,
    /// The backing record already bears this domain's data.
    AlreadyInitialized,
    /// The registry already holds `MAX_MEMBERS` members.
    CapacityExceeded,
    /// The identity to add is already an active member.
    DuplicateMember,
    /// The identity to remove is not an active member.
    MemberNotFound,
    /// Removing a member would make the approval threshold unreachable.
    ThresholdUnreachable,
    /// The proposer is not a member of the registry.
    NotAMember,
    /// The voter is not in the proposal's frozen member snapshot.
    VoterNotInSnapshot,
    /// The proposal has already been resolved.
    ProposalNotActive,
    /// The proposal's expiry time has passed.
    ProposalExpired,
    /// The vote byte does not name a castable vote kind.
    InvalidVoteKind,
    /// A provided record address does not match the expected derived address.
    InvalidAddress,
    /// The instruction selector names no operation.
    UnsupportedOperation,
    /// The instruction payload is too short for the selected operation.
    MalformedPayload,
}

} // verus!
