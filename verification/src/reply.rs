//! Reply identifiers. The host hands a failed sub-dispatch back with the one
//! integer that was attached to it; the three lowest bits of that integer say
//! what failed, the rest carries a proposal id or a subscriber index.

use vstd::prelude::*;

verus! {

pub const FAILED_PROPOSAL_EXECUTION_MASK: u64 = 0;

pub const FAILED_PROPOSAL_HOOK_MASK: u64 = 1;

pub const FAILED_VOTE_HOOK_MASK: u64 = 3;

/// The number of distinct tags: two to the power of the reserved bits.
pub const REPLY_TYPE_SPAN: u64 = 8;

/// The payloads from this bound on lose their highest bits when tagged.
pub const REPLY_PAYLOAD_LIMIT: u64 = 0x2000_0000_0000_0000;

/// What a reply reports.
#[derive(Clone, Copy, Debug, PartialEq, Eq, Structural)]
pub enum TaggedReplyId {
    /// The messages of the proposal with this id failed in the DAO.
    FailedProposalExecution(u64),
    /// The proposal hook subscriber at this index failed.
    FailedProposalHook(u64),
    /// The vote hook subscriber at this index failed.
    FailedVoteHook(u64),
}

#[derive(Clone, Copy, Debug, PartialEq, Eq, Structural)]
pub enum TagError {
    /// The identifier carries a tag that this module never attaches.
    UnknownReplyId { id: u64 },
}

/// The identifier that carries `payload` under `tag`.
pub open spec fn tagged(tag: u64, payload: u64) -> u64 {
    ((payload * REPLY_TYPE_SPAN) % 0x1_0000_0000_0000_0000 + tag) as u64
}

/// What an identifier stands for: its tag is the remainder by eight, its
/// payload the quotient.
pub open spec fn decoded(id: u64) -> Result<TaggedReplyId, TagError> {
    let tag = id % REPLY_TYPE_SPAN;
    let payload = id / REPLY_TYPE_SPAN;
    if tag == FAILED_PROPOSAL_EXECUTION_MASK {
        Ok(TaggedReplyId::FailedProposalExecution(payload))
    } else if tag == FAILED_PROPOSAL_HOOK_MASK {
        Ok(TaggedReplyId::FailedProposalHook(payload))
    } else if tag == FAILED_VOTE_HOOK_MASK {
        Ok(TaggedReplyId::FailedVoteHook(payload))
    } else {
        Err(TagError::UnknownReplyId { id })
    }
}

impl TaggedReplyId {
    /// Decodes the identifier of a reply.
    pub fn new(id: u64) -> (r: Result<TaggedReplyId, TagError>)
        ensures
            r == decoded(id),
    {
        let reply_type = id & 7;
        let id_after_shift = id >> 3;
        assert(id & 7 == id % 8) by (bit_vector);
        assert(id >> 3 == id / 8) by (bit_vector);
        if reply_type == FAILED_PROPOSAL_EXECUTION_MASK {
            Ok(TaggedReplyId::FailedProposalExecution(id_after_shift))
        } else if reply_type == FAILED_PROPOSAL_HOOK_MASK {
            Ok(TaggedReplyId::FailedProposalHook(id_after_shift))
        } else if reply_type == FAILED_VOTE_HOOK_MASK {
            Ok(TaggedReplyId::FailedVoteHook(id_after_shift))
        } else {
            Err(TagError::UnknownReplyId { id })
        }
    }
}

proof fn lemma_shift_or(x: u64, tag: u64)
    requires
        tag < 8,
    ensures
        (tag | (x << 3)) == tagged(tag, x),
{
    assert((tag | (x << 3)) == (x * 8) % 0x1_0000_0000_0000_0000 + tag) by (bit_vector)
        requires
            tag < 8,
    ;
}

/// The reply identifier for the execution of the proposal `proposal_id`.
pub fn mask_proposal_execution_proposal_id(proposal_id: u64) -> (r: u64)
    ensures
        r == tagged(FAILED_PROPOSAL_EXECUTION_MASK, proposal_id),
{
    proof {
        lemma_shift_or(proposal_id, 0);
    }
    FAILED_PROPOSAL_EXECUTION_MASK | (proposal_id << 3)
}

/// The reply identifier for the proposal hook subscriber at `index`.
pub fn mask_proposal_hook_index(index: u64) -> (r: u64)
    ensures
        r == tagged(FAILED_PROPOSAL_HOOK_MASK, index),
{
    proof {
        lemma_shift_or(index, 1);
    }
    FAILED_PROPOSAL_HOOK_MASK | (index << 3)
}

/// The reply identifier for the vote hook subscriber at `index`.
pub fn mask_vote_hook_index(index: u64) -> (r: u64)
    ensures
        r == tagged(FAILED_VOTE_HOOK_MASK, index),
{
    proof {
        lemma_shift_or(index, 3);
    }
    FAILED_VOTE_HOOK_MASK | (index << 3)
}

/// Tagging is undone by decoding: each of the three kinds of identifier
/// decodes to its own kind and to the payload it was made from, so no two
/// kinds share an identifier. This holds of every payload below two to the
/// power 61; a larger one does not fit beside the tag.
pub proof fn lemma_reply_ids_round_trip(payload: u64)
    requires
        payload < REPLY_PAYLOAD_LIMIT,
    ensures
        decoded(tagged(FAILED_PROPOSAL_EXECUTION_MASK, payload)) == Ok::<TaggedReplyId, TagError>(
            TaggedReplyId::FailedProposalExecution(payload),
        ),
        decoded(tagged(FAILED_PROPOSAL_HOOK_MASK, payload)) == Ok::<TaggedReplyId, TagError>(
            TaggedReplyId::FailedProposalHook(payload),
        ),
        decoded(tagged(FAILED_VOTE_HOOK_MASK, payload)) == Ok::<TaggedReplyId, TagError>(
            TaggedReplyId::FailedVoteHook(payload),
        ),
{
}

/// Every identifier that decodes at all was made by tagging the payload it
/// decodes to.
pub proof fn lemma_decoded_is_tagged(id: u64)
    ensures
        match decoded(id) {
            Ok(TaggedReplyId::FailedProposalExecution(p)) => id == tagged(
                FAILED_PROPOSAL_EXECUTION_MASK,
                p,
            ) && p < REPLY_PAYLOAD_LIMIT,
            Ok(TaggedReplyId::FailedProposalHook(p)) => id == tagged(FAILED_PROPOSAL_HOOK_MASK, p)
                && p < REPLY_PAYLOAD_LIMIT,
            Ok(TaggedReplyId::FailedVoteHook(p)) => id == tagged(FAILED_VOTE_HOOK_MASK, p) && p
                < REPLY_PAYLOAD_LIMIT,
            Err(_) => true,
        },
{
}

} // verus!
