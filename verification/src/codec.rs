//! Byte-exact record layouts and primitive readers.
//!
//! The host stores a registry and a proposal as fixed-size binary records;
//! these encoders and decoders reproduce those layouts exactly, field by
//! field, with all multi-byte integers little-endian.

use vstd::arithmetic::div_mod::{lemma_div_denominator, lemma_fundamental_div_mod};
use vstd::prelude::*;

use crate::member::{ids_of, Pubkey};
use crate::proposal::{Proposal, ProposalStatus, VoteKind};
use crate::registry::MemberRegistry;
use crate::{GovError, MAX_MEMBERS};

verus! {

/// Size in bytes of a registry record.
pub const REGISTRY_RECORD_LEN: usize = 418;

/// Size in bytes of a proposal record.
pub const PROPOSAL_RECORD_LEN: usize = 356;

/// The value of eight little-endian bytes.
pub open spec fn le_u64(s: Seq<u8>) -> int
    recommends
        s.len() == 8,
{
    s[0] + s[1] * 0x100 + s[2] * 0x1_0000 + s[3] * 0x100_0000 + s[4] * 0x1_0000_0000 + s[5]
        * 0x100_0000_0000 + s[6] * 0x1_0000_0000_0000 + s[7] * 0x100_0000_0000_0000
}

/// The eight little-endian bytes of a 64-bit value.
pub open spec fn le_bytes_of(x: u64) -> Seq<u8> {
    seq![
        (x % 0x100) as u8,
        ((x / 0x100) % 0x100) as u8,
        ((x / 0x1_0000) % 0x100) as u8,
        ((x / 0x100_0000) % 0x100) as u8,
        ((x / 0x1_0000_0000) % 0x100) as u8,
        ((x / 0x100_0000_0000) % 0x100) as u8,
        ((x / 0x1_0000_0000_0000) % 0x100) as u8,
        ((x / 0x100_0000_0000_0000) % 0x100) as u8,
    ]
}

/// Reading back the little-endian bytes of `x` yields `x`.
pub proof fn lemma_le_round_trip(x: u64)
    ensures
        le_u64(le_bytes_of(x)) == x,
{
    let x0 = x as int;
    let q1 = x0 / 0x100;
    let q2 = x0 / 0x1_0000;
    let q3 = x0 / 0x100_0000;
    let q4 = x0 / 0x1_0000_0000;
    let q5 = x0 / 0x100_0000_0000;
    let q6 = x0 / 0x1_0000_0000_0000;
    let q7 = x0 / 0x100_0000_0000_0000;
    lemma_div_denominator(x0, 0x100, 0x100);
    lemma_div_denominator(x0, 0x1_0000, 0x100);
    lemma_div_denominator(x0, 0x100_0000, 0x100);
    lemma_div_denominator(x0, 0x1_0000_0000, 0x100);
    lemma_div_denominator(x0, 0x100_0000_0000, 0x100);
    lemma_div_denominator(x0, 0x1_0000_0000_0000, 0x100);
    assert(q2 == q1 / 0x100);
    assert(q3 == q2 / 0x100);
    assert(q4 == q3 / 0x100);
    assert(q5 == q4 / 0x100);
    assert(q6 == q5 / 0x100);
    assert(q7 == q6 / 0x100);
    lemma_fundamental_div_mod(x0, 0x100);
    lemma_fundamental_div_mod(q1, 0x100);
    lemma_fundamental_div_mod(q2, 0x100);
    lemma_fundamental_div_mod(q3, 0x100);
    lemma_fundamental_div_mod(q4, 0x100);
    lemma_fundamental_div_mod(q5, 0x100);
    lemma_fundamental_div_mod(q6, 0x100);
    assert(q7 < 0x100) by {
        assert(x0 < 0x100_0000_0000_0000 * 0x100);
    }
    assert(q7 % 0x100 == q7) by {
        assert(0 <= q7 < 0x100);
    }
}

/// Reads a 64-bit little-endian value at `off`.
pub fn read_u64_at(data: &[u8], off: usize) -> (r: u64)
    requires
        off + 8 <= data@.len(),
    ensures
        r == le_u64(data@.subrange(off as int, off as int + 8)),
{
    let v = data[off] as u64 + (data[off + 1] as u64) * 0x100 + (data[off + 2] as u64) * 0x1_0000
        + (data[off + 3] as u64) * 0x100_0000 + (data[off + 4] as u64) * 0x1_0000_0000 + (data[off
        + 5] as u64) * 0x100_0000_0000 + (data[off + 6] as u64) * 0x1_0000_0000_0000 + (data[off
        + 7] as u64) * 0x100_0000_0000_0000;
    proof {
        let s = data@.subrange(off as int, off as int + 8);
        assert(s[0] == data@[off as int]);
        assert(s[1] == data@[off as int + 1]);
        assert(s[2] == data@[off as int + 2]);
        assert(s[3] == data@[off as int + 3]);
        assert(s[4] == data@[off as int + 4]);
        assert(s[5] == data@[off as int + 5]);
        assert(s[6] == data@[off as int + 6]);
        assert(s[7] == data@[off as int + 7]);
    }
    v
}

/// Reads a 32-byte key at `off`.
pub fn read_key_at(data: &[u8], off: usize) -> (r: Pubkey)
    requires
        off + 32 <= data@.len(),
    ensures
        r@ == data@.subrange(off as int, off as int + 32),
{
    let n = data.len();
    let mut key = [0u8; 32];
    let mut i: usize = 0;
    while i < 32
        invariant
            0 <= i <= 32,
            off + 32 <= n,
            n == data@.len(),
            forall|j: int| 0 <= j < i ==> key@[j] == data@[off + j],
        decreases 32 - i,
    {
        key[i] = data[off + i];
        i += 1;
    }
    proof {
        assert(key@ =~= data@.subrange(off as int, off as int + 32));
    }
    key
}

/// Reads a 64-bit little-endian value from the front of `data`.
pub fn read_u64(data: &[u8]) -> (r: Result<u64, GovError>)
    ensures
        data@.len() >= 8 ==> r is Ok && r->Ok_0 == le_u64(data@.subrange(0, 8)),
        data@.len() < 8 ==> r is Err && r->Err_0 == GovError::MalformedPayload,
{
    if data.len() < 8 {
        return Err(GovError::MalformedPayload);
    }
    Ok(read_u64_at(data, 0))
}

/// Reads a 32-byte key from the front of `data`.
pub fn read_pubkey(data: &[u8]) -> (r: Result<Pubkey, GovError>)
    ensures
        data@.len() >= 32 ==> r is Ok && r->Ok_0@ == data@.subrange(0, 32),
        data@.len() < 32 ==> r is Err && r->Err_0 == GovError::MalformedPayload,
{
    if data.len() < 32 {
        return Err(GovError::MalformedPayload);
    }
    Ok(read_key_at(data, 0))
}

/// Appends the little-endian bytes of `x`.
fn push_u64_le(out: &mut Vec<u8>, x: u64)
    ensures
        final(out)@ == old(out)@ + le_bytes_of(x),
{
    out.push((x % 0x100) as u8);
    out.push(((x / 0x100) % 0x100) as u8);
    out.push(((x / 0x1_0000) % 0x100) as u8);
    out.push(((x / 0x100_0000) % 0x100) as u8);
    out.push(((x / 0x1_0000_0000) % 0x100) as u8);
    out.push(((x / 0x100_0000_0000) % 0x100) as u8);
    out.push(((x / 0x1_0000_0000_0000) % 0x100) as u8);
    out.push(((x / 0x100_0000_0000_0000) % 0x100) as u8);
    proof {
        assert(out@ =~= old(out)@ + le_bytes_of(x));
    }
}

/// Appends the 32 bytes of `key`.
fn push_key(out: &mut Vec<u8>, key: &Pubkey)
    ensures
        final(out)@ == old(out)@ + key@,
{
    let mut i: usize = 0;
    while i < 32
        invariant
            0 <= i <= 32,
            out@.len() == old(out)@.len() + i,
            forall|j: int| 0 <= j < old(out)@.len() ==> out@[j] == old(out)@[j],
            forall|j: int| 0 <= j < i ==> out@[old(out)@.len() + j] == key@[j],
        decreases 32 - i,
    {
        out.push(key[i]);
        i += 1;
    }
    proof {
        assert(out@ =~= old(out)@ + key@);
    }
}

/// The wire byte of a proposal status.
pub open spec fn status_byte(s: ProposalStatus) -> u8 {
    match s {
        ProposalStatus::Active => 0,
        ProposalStatus::Succeeded => 1,
        ProposalStatus::Failed => 2,
    }
}

/// The wire byte of a vote slot.
pub open spec fn vote_byte(k: VoteKind) -> u8 {
    match k {
        VoteKind::NotVoted => 0,
        VoteKind::For => 1,
        VoteKind::Against => 2,
        VoteKind::Abstain => 3,
    }
}

/// Encodes a registry record: creator, member count, the ten member slots,
/// threshold, default proposal expiry, proposal counter, treasury reference,
/// and the two derivation bumps.
pub fn encode_registry(reg: &MemberRegistry) -> (r: Vec<u8>)
    requires
        reg@.wf(),
    ensures
        r@.len() == REGISTRY_RECORD_LEN as int,
        r@.subrange(0, 32) == reg@.creator,
        le_u64(r@.subrange(32, 40)) == reg@.member_count,
        forall|i: int|
            0 <= i < MAX_MEMBERS as int ==> r@.subrange(40 + 32 * i, 72 + 32 * i)
                == #[trigger] reg@.members[i],
        le_u64(r@.subrange(360, 368)) == reg@.threshold,
        le_u64(r@.subrange(368, 376)) == reg@.proposal_expiry,
        le_u64(r@.subrange(376, 384)) == reg@.total_proposals,
        r@.subrange(384, 416) == reg@.treasury_wallet,
        r@[416] == reg@.config_bump,
        r@[417] == reg@.treasury_bump,
{
    let mut out: Vec<u8> = Vec::new();
    push_key(&mut out, &reg.creator);
    push_u64_le(&mut out, reg.member_count);
    proof {
        assert(out@.subrange(0, 32) =~= reg@.creator);
        assert(out@.subrange(32, 40) =~= le_bytes_of(reg.member_count));
    }
    let mut i: usize = 0;
    while i < MAX_MEMBERS
        invariant
            0 <= i <= MAX_MEMBERS,
            reg.member_keys@.len() == MAX_MEMBERS as int,
            out@.len() == 40 + 32 * i,
            out@.subrange(0, 32) == reg@.creator,
            out@.subrange(32, 40) == le_bytes_of(reg.member_count),
            forall|j: int|
                0 <= j < i ==> out@.subrange(40 + 32 * j, 72 + 32 * j)
                    == #[trigger] reg@.members[j],
        decreases MAX_MEMBERS - i,
    {
        let ghost prev = out@;
        push_key(&mut out, &reg.member_keys[i]);
        proof {
            assert(out@.subrange(0, 32) =~= prev.subrange(0, 32));
            assert(out@.subrange(32, 40) =~= prev.subrange(32, 40));
            assert forall|j: int| 0 <= j < i + 1 implies out@.subrange(40 + 32 * j, 72 + 32 * j)
                == #[trigger] reg@.members[j] by {
                if j < i {
                    assert(out@.subrange(40 + 32 * j, 72 + 32 * j) =~= prev.subrange(
                        40 + 32 * j,
                        72 + 32 * j,
                    ));
                } else {
                    assert(out@.subrange(40 + 32 * j, 72 + 32 * j) =~= reg.member_keys@[j]@);
                    assert(reg@.members[j] == ids_of(reg.member_keys@)[j]);
                }
            }
        }
        i += 1;
    }
    let ghost mid = out@;
    push_u64_le(&mut out, reg.threshold);
    push_u64_le(&mut out, reg.proposal_expiry);
    push_u64_le(&mut out, reg.total_proposals);
    push_key(&mut out, &reg.treasury_wallet);
    out.push(reg.config_bump);
    out.push(reg.treasury_bump);
    proof {
        assert(out@.len() == REGISTRY_RECORD_LEN as int);
        assert(out@.subrange(0, 32) =~= mid.subrange(0, 32));
        assert(out@.subrange(32, 40) =~= mid.subrange(32, 40));
        assert forall|j: int| 0 <= j < MAX_MEMBERS as int implies out@.subrange(
            40 + 32 * j,
            72 + 32 * j,
        ) == #[trigger] reg@.members[j] by {
            assert(out@.subrange(40 + 32 * j, 72 + 32 * j) =~= mid.subrange(
                40 + 32 * j,
                72 + 32 * j,
            ));
        }
        assert(out@.subrange(360, 368) =~= le_bytes_of(reg.threshold));
        assert(out@.subrange(368, 376) =~= le_bytes_of(reg.proposal_expiry));
        assert(out@.subrange(376, 384) =~= le_bytes_of(reg.total_proposals));
        assert(out@.subrange(384, 416) =~= reg@.treasury_wallet);
        lemma_le_round_trip(reg.member_count);
        lemma_le_round_trip(reg.threshold);
        lemma_le_round_trip(reg.proposal_expiry);
        lemma_le_round_trip(reg.total_proposals);
    }
    out
}

/// Decodes a registry record.  Succeeds exactly on a buffer of the record
/// size; the decoded fields are read back from the same regions the encoder
/// writes.
pub fn decode_registry(data: &[u8]) -> (r: Option<MemberRegistry>)
    ensures
        r is Some <==> data@.len() == REGISTRY_RECORD_LEN as int,
        r is Some ==> ({
            let v = r->Some_0@;
            &&& v.creator == data@.subrange(0, 32)
            &&& v.member_count == le_u64(data@.subrange(32, 40))
            &&& forall|i: int|
                0 <= i < MAX_MEMBERS as int ==> #[trigger] v.members[i] == data@.subrange(
                    40 + 32 * i,
                    72 + 32 * i,
                )
            &&& v.threshold == le_u64(data@.subrange(360, 368))
            &&& v.proposal_expiry == le_u64(data@.subrange(368, 376))
            &&& v.total_proposals == le_u64(data@.subrange(376, 384))
            &&& v.treasury_wallet == data@.subrange(384, 416)
            &&& v.config_bump == data@[416]
            &&& v.treasury_bump == data@[417]
        }),
{
    if data.len() != REGISTRY_RECORD_LEN {
        return None;
    }
    let creator = read_key_at(data, 0);
    let member_count = read_u64_at(data, 32);
    let mut member_keys: Vec<Pubkey> = Vec::new();
    let mut i: usize = 0;
    while i < MAX_MEMBERS
        invariant
            0 <= i <= MAX_MEMBERS,
            data@.len() == REGISTRY_RECORD_LEN as int,
            member_keys@.len() == i,
            forall|j: int|
                0 <= j < i ==> #[trigger] member_keys@[j]@ == data@.subrange(
                    40 + 32 * j,
                    72 + 32 * j,
                ),
        decreases MAX_MEMBERS - i,
    {
        let key = read_key_at(data, 40 + 32 * i);
        member_keys.push(key);
        i += 1;
    }
    let threshold = read_u64_at(data, 360);
    let proposal_expiry = read_u64_at(data, 368);
    let total_proposals = read_u64_at(data, 376);
    let treasury_wallet = read_key_at(data, 384);
    let config_bump = data[416];
    let treasury_bump = data[417];
    Some(
        MemberRegistry {
            creator,
            member_count,
            member_keys,
            threshold,
            proposal_expiry,
            total_proposals,
            treasury_wallet,
            config_bump,
            treasury_bump,
        },
    )
}

/// Encodes a proposal record: identifier, expiry, status byte, derivation
/// bump, the ten snapshot slots, the ten vote bytes, and the creation time.
/// The snapshot count is not persisted; the host recovers it from the
/// registry when it reads the record back.
pub fn encode_proposal(p: &Proposal) -> (r: Vec<u8>)
    requires
        p@.wf(),
    ensures
        r@.len() == PROPOSAL_RECORD_LEN as int,
        le_u64(r@.subrange(0, 8)) == p@.proposal_id,
        le_u64(r@.subrange(8, 16)) == p@.expiry,
        r@[16] == status_byte(p@.status),
        r@[17] == p@.bump,
        forall|i: int|
            0 <= i < MAX_MEMBERS as int ==> r@.subrange(18 + 32 * i, 50 + 32 * i)
                == #[trigger] p@.active_members[i],
        forall|i: int|
            0 <= i < MAX_MEMBERS as int ==> r@[338 + i] == vote_byte(#[trigger] p@.votes[i]),
        le_u64(r@.subrange(348, 356)) == p@.created_time,
{
    let mut out: Vec<u8> = Vec::new();
    push_u64_le(&mut out, p.proposal_id);
    push_u64_le(&mut out, p.expiry);
    let sb: u8 = match p.status {
        ProposalStatus::Active => 0,
        ProposalStatus::Succeeded => 1,
        ProposalStatus::Failed => 2,
    };
    out.push(sb);
    out.push(p.bump);
    proof {
        assert(out@.subrange(0, 8) =~= le_bytes_of(p.proposal_id));
        assert(out@.subrange(8, 16) =~= le_bytes_of(p.expiry));
    }
    let mut i: usize = 0;
    while i < MAX_MEMBERS
        invariant
            0 <= i <= MAX_MEMBERS,
            p.active_members@.len() == MAX_MEMBERS as int,
            out@.len() == 18 + 32 * i,
            out@.subrange(0, 8) == le_bytes_of(p.proposal_id),
            out@.subrange(8, 16) == le_bytes_of(p.expiry),
            out@[16] == status_byte(p@.status),
            out@[17] == p@.bump,
            forall|j: int|
                0 <= j < i ==> out@.subrange(18 + 32 * j, 50 + 32 * j)
                    == #[trigger] p@.active_members[j],
        decreases MAX_MEMBERS - i,
    {
        let ghost prev = out@;
        push_key(&mut out, &p.active_members[i]);
        proof {
            assert(out@.subrange(0, 8) =~= prev.subrange(0, 8));
            assert(out@.subrange(8, 16) =~= prev.subrange(8, 16));
            assert forall|j: int| 0 <= j < i + 1 implies out@.subrange(18 + 32 * j, 50 + 32 * j)
                == #[trigger] p@.active_members[j] by {
                if j < i {
                    assert(out@.subrange(18 + 32 * j, 50 + 32 * j) =~= prev.subrange(
                        18 + 32 * j,
                        50 + 32 * j,
                    ));
                } else {
                    assert(out@.subrange(18 + 32 * j, 50 + 32 * j) =~= p.active_members@[j]@);
                    assert(p@.active_members[j] == ids_of(p.active_members@)[j]);
                }
            }
        }
        i += 1;
    }
    let ghost mid = out@;
    let mut k: usize = 0;
    while k < MAX_MEMBERS
        invariant
            0 <= k <= MAX_MEMBERS,
            p.votes@.len() == MAX_MEMBERS as int,
            out@.len() == 338 + k,
            forall|j: int| 0 <= j < 338 ==> out@[j] == mid[j],
            mid.len() == 338,
            forall|j: int| 0 <= j < k ==> out@[338 + j] == vote_byte(#[trigger] p@.votes[j]),
        decreases MAX_MEMBERS - k,
    {
        let vb: u8 = match p.votes[k] {
            VoteKind::NotVoted => 0,
            VoteKind::For => 1,
            VoteKind::Against => 2,
            VoteKind::Abstain => 3,
        };
        out.push(vb);
        k += 1;
    }
    let ghost mid2 = out@;
    push_u64_le(&mut out, p.created_time);
    proof {
        assert(out@.len() == PROPOSAL_RECORD_LEN as int);
        assert(out@.subrange(0, 8) =~= mid.subrange(0, 8));
        assert(out@.subrange(8, 16) =~= mid.subrange(8, 16));
        assert forall|j: int| 0 <= j < MAX_MEMBERS as int implies out@.subrange(
            18 + 32 * j,
            50 + 32 * j,
        ) == #[trigger] p@.active_members[j] by {
            assert(out@.subrange(18 + 32 * j, 50 + 32 * j) =~= mid.subrange(
                18 + 32 * j,
                50 + 32 * j,
            ));
        }
        assert(out@.subrange(348, 356) =~= le_bytes_of(p.created_time));
        lemma_le_round_trip(p.proposal_id);
        lemma_le_round_trip(p.expiry);
        lemma_le_round_trip(p.created_time);
    }
    out
}

/// Decodes a proposal record.  The snapshot member count is not part of the
/// record; the caller supplies it from the proposal's registry.  Succeeds
/// exactly on a buffer of the record size whose status and vote bytes are in
/// range.
pub fn decode_proposal(data: &[u8], member_count: u64) -> (r: Option<Proposal>)
    ensures
        r is Some <==> ({
            &&& data@.len() == PROPOSAL_RECORD_LEN as int
            &&& data@[16] <= 2
            &&& forall|i: int| 0 <= i < MAX_MEMBERS as int ==> #[trigger] data@[338 + i] <= 3
        }),
        r is Some ==> ({
            let v = r->Some_0@;
            &&& v.proposal_id == le_u64(data@.subrange(0, 8))
            &&& v.expiry == le_u64(data@.subrange(8, 16))
            &&& status_byte(v.status) == data@[16]
            &&& v.bump == data@[17]
            &&& forall|i: int|
                0 <= i < MAX_MEMBERS as int ==> #[trigger] v.active_members[i] == data@.subrange(
                    18 + 32 * i,
                    50 + 32 * i,
                )
            &&& v.member_count == member_count
            &&& forall|i: int|
                0 <= i < MAX_MEMBERS as int ==> vote_byte(#[trigger] v.votes[i]) == data@[338 + i]
            &&& v.created_time == le_u64(data@.subrange(348, 356))
        }),
{
    if data.len() != PROPOSAL_RECORD_LEN {
        return None;
    }
    let proposal_id = read_u64_at(data, 0);
    let expiry = read_u64_at(data, 8);
    let sbyte = data[16];
    let status = match sbyte {
        0 => ProposalStatus::Active,
        1 => ProposalStatus::Succeeded,
        2 => ProposalStatus::Failed,
        _ => {
            return None;
        },
    };
    proof {
        assert(sbyte <= 2);
        assert(status_byte(status) == sbyte);
    }
    let bump = data[17];
    let mut active_members: Vec<Pubkey> = Vec::new();
    let mut i: usize = 0;
    while i < MAX_MEMBERS
        invariant
            0 <= i <= MAX_MEMBERS,
            data@.len() == PROPOSAL_RECORD_LEN as int,
            active_members@.len() == i,
            forall|j: int|
                0 <= j < i ==> #[trigger] active_members@[j]@ == data@.subrange(
                    18 + 32 * j,
                    50 + 32 * j,
                ),
        decreases MAX_MEMBERS - i,
    {
        let key = read_key_at(data, 18 + 32 * i);
        active_members.push(key);
        i += 1;
    }
    let mut votes: Vec<VoteKind> = Vec::new();
    let mut k: usize = 0;
    while k < MAX_MEMBERS
        invariant
            0 <= k <= MAX_MEMBERS,
            data@.len() == PROPOSAL_RECORD_LEN as int,
            votes@.len() == k,
            forall|j: int| 0 <= j < k ==> vote_byte(#[trigger] votes@[j]) == data@[338 + j],
        decreases MAX_MEMBERS - k,
    {
        let kind = match data[338 + k] {
            0 => VoteKind::NotVoted,
            1 => VoteKind::For,
            2 => VoteKind::Against,
            3 => VoteKind::Abstain,
            _ => {
                return None;
            },
        };
        votes.push(kind);
        k += 1;
    }
    let created_time = read_u64_at(data, 348);
    proof {
        assert forall|i: int| 0 <= i < MAX_MEMBERS as int implies #[trigger] data@[338 + i]
            <= 3 by {
            assert(vote_byte(votes@[i]) == data@[338 + i]);
            assert(vote_byte(votes@[i]) <= 3);
        }
    }
    Some(
        Proposal {
            proposal_id,
            expiry,
            status,
            bump,
            active_members,
            member_count,
            votes,
            created_time,
        },
    )
}

} // verus!
