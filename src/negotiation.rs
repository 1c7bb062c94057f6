//! Turning a published demand into one confirmed agreement: proposals are
//! taken in arrival order, answers to our own offer are turned into
//! agreements, fresh offers get our demand back unchanged.

use vstd::prelude::*;

verus! {

/// A candidate match received from the market.
pub struct Proposal {
    pub id: String,
    pub issuer_id: String,
    /// The proposal answers the requestor's own offer, so an agreement can be
    /// made from it; otherwise it is a fresh offer that still needs a reply.
    pub is_counter_offer: bool,
}

/// A contract with one provider, valid until `deadline_ms`.
pub struct Agreement {
    pub id: String,
    pub proposal_id: String,
    pub deadline_ms: i64,
    pub confirmed: bool,
}

pub enum NegotiationError {
    /// The proposal stream ended without a confirmed agreement.
    NoMatchFound,
    /// The deadline passed before any provider confirmed.
    ConfirmationTimeout,
}

/// What the negotiator asks the market to do.
pub enum NegotiationAction {
    /// Reply to this proposal with our demand, unchanged.
    CounterProposal { proposal_id: String },
    /// Make an agreement from this proposal, valid until `valid_to_ms`, and
    /// ask for its confirmation.
    CreateAgreement { proposal_id: String, valid_to_ms: i64 },
}

pub enum NegotiationState {
    /// Waiting for the next proposal.
    Listening,
    /// Waiting for the confirmation of an agreement made from this proposal.
    Confirming { proposal_id: String },
    Agreed(Agreement),
    Failed(NegotiationError),
}

/// One negotiation, driven by the proposals and confirmations that arrive.
pub struct Negotiator {
    pub deadline_ms: i64,
    pub state: NegotiationState,
}

impl Negotiator {
    pub fn new(deadline_ms: i64) -> (r: Negotiator)
        ensures
            r.deadline_ms == deadline_ms,
            r.state is Listening,
    {
        Negotiator { deadline_ms, state: NegotiationState::Listening }
    }

    /// A proposal arrived at `now_ms`.
    pub fn on_proposal(&mut self, proposal: Proposal, now_ms: i64) -> (r: Option<NegotiationAction>)
        requires
            old(self).state is Listening,
        ensures
            final(self).deadline_ms == old(self).deadline_ms,
            now_ms >= old(self).deadline_ms ==> {
                &&& r is None
                &&& final(self).state == NegotiationState::Failed(
                    NegotiationError::ConfirmationTimeout,
                )
            },
            now_ms < old(self).deadline_ms && proposal.is_counter_offer ==> {
                &&& r == Some(
                    NegotiationAction::CreateAgreement {
                        proposal_id: proposal.id,
                        valid_to_ms: old(self).deadline_ms,
                    },
                )
                &&& final(self).state == NegotiationState::Confirming { proposal_id: proposal.id }
            },
            now_ms < old(self).deadline_ms && !proposal.is_counter_offer ==> {
                &&& r == Some(NegotiationAction::CounterProposal { proposal_id: proposal.id })
                &&& final(self).state is Listening
            },
    {
        if now_ms >= self.deadline_ms {
            self.state = NegotiationState::Failed(NegotiationError::ConfirmationTimeout);
            None
        } else if proposal.is_counter_offer {
            let proposal_id = proposal.id.clone();
            self.state = NegotiationState::Confirming { proposal_id };
            Some(NegotiationAction::CreateAgreement { proposal_id: proposal.id, valid_to_ms: self.deadline_ms })
        } else {
            Some(NegotiationAction::CounterProposal { proposal_id: proposal.id })
        }
    }

    /// The market answered the confirmation request at `now_ms`: with the id
    /// of the confirmed agreement, or `None` when it was not confirmed. A
    /// confirmation that comes at or after the deadline is too late. A failed
    /// confirmation before the deadline is not fatal: negotiation goes on.
    pub fn on_confirmation(&mut self, agreement_id: Option<String>, now_ms: i64)
        requires
            old(self).state is Confirming,
        ensures
            final(self).deadline_ms == old(self).deadline_ms,
            now_ms >= old(self).deadline_ms ==> final(self).state == NegotiationState::Failed(
                NegotiationError::ConfirmationTimeout,
            ),
            now_ms < old(self).deadline_ms ==> match agreement_id {
                Some(id) => final(self).state == NegotiationState::Agreed(
                    Agreement {
                        id,
                        proposal_id: old(self).state->proposal_id,
                        deadline_ms: old(self).deadline_ms,
                        confirmed: true,
                    },
                ),
                None => final(self).state is Listening,
            },
    {
        if now_ms >= self.deadline_ms {
            self.state = NegotiationState::Failed(NegotiationError::ConfirmationTimeout);
            return;
        }
        let proposal_id = match &self.state {
            NegotiationState::Confirming { proposal_id } => proposal_id.clone(),
            _ => {
                proof {
                    assert(false);
                }
                String::new()
            },
        };
        match agreement_id {
            Some(id) => {
                self.state = NegotiationState::Agreed(
                    Agreement { id, proposal_id, deadline_ms: self.deadline_ms, confirmed: true },
                );
            },
            None => {
                self.state = NegotiationState::Listening;
            },
        }
    }

    /// The proposal stream ended at `now_ms` while waiting for a proposal.
    pub fn on_stream_end(&mut self, now_ms: i64)
        requires
            old(self).state is Listening,
        ensures
            final(self).deadline_ms == old(self).deadline_ms,
            final(self).state == NegotiationState::Failed(
                if now_ms >= old(self).deadline_ms {
                    NegotiationError::ConfirmationTimeout
                } else {
                    NegotiationError::NoMatchFound
                },
            ),
    {
        if now_ms >= self.deadline_ms {
            self.state = NegotiationState::Failed(NegotiationError::ConfirmationTimeout);
        } else {
            self.state = NegotiationState::Failed(NegotiationError::NoMatchFound);
        }
    }
}

/// A proposal as it arrived, with the id of the agreement confirmed from it,
/// if an agreement was made and confirmed.
pub struct ProposalReply {
    pub proposal: Proposal,
    pub arrived_ms: i64,
    pub confirmation: Option<String>,
}

/// The reply yields a confirmed agreement before the deadline.
pub open spec fn acceptable(reply: ProposalReply, deadline_ms: i64) -> bool {
    &&& reply.arrived_ms < deadline_ms
    &&& reply.proposal.is_counter_offer
    &&& reply.confirmation is Some
}

/// The outcome of a negotiation over a finite stream of replies that ends at
/// `end_ms`: the first acceptable reply gives the agreement, a reply past the
/// deadline ends it with a timeout, and running out of replies finds no match.
pub open spec fn negotiation_outcome(deadline_ms: i64, replies: Seq<ProposalReply>, end_ms: i64) -> Result<
    Agreement,
    NegotiationError,
>
    decreases replies.len(),
{
    if replies.len() == 0 {
        if end_ms >= deadline_ms {
            Err(NegotiationError::ConfirmationTimeout)
        } else {
            Err(NegotiationError::NoMatchFound)
        }
    } else {
        let reply = replies[0];
        if reply.arrived_ms >= deadline_ms {
            Err(NegotiationError::ConfirmationTimeout)
        } else if acceptable(reply, deadline_ms) {
            Ok(
                Agreement {
                    id: reply.confirmation->0,
                    proposal_id: reply.proposal.id,
                    deadline_ms,
                    confirmed: true,
                },
            )
        } else {
            negotiation_outcome(deadline_ms, replies.drop_first(), end_ms)
        }
    }
}

/// Negotiates over a finite stream of replies that ended at `end_ms`.
pub fn negotiate(deadline_ms: i64, replies: Vec<ProposalReply>, end_ms: i64) -> (r: Result<
    Agreement,
    NegotiationError,
>)
    ensures
        r == negotiation_outcome(deadline_ms, replies@, end_ms),
{
    let mut negotiator = Negotiator::new(deadline_ms);
    let mut pending = replies;
    while pending.len() > 0
        invariant
            negotiator.state is Listening,
            negotiator.deadline_ms == deadline_ms,
            negotiation_outcome(deadline_ms, replies@, end_ms) == negotiation_outcome(
                deadline_ms,
                pending@,
                end_ms,
            ),
        decreases pending.len(),
    {
        let ghost rest = pending@;
        let reply = pending.remove(0);
        assert(rest.drop_first() =~= pending@);
        let ProposalReply { proposal, arrived_ms, confirmation } = reply;
        match negotiator.on_proposal(proposal, arrived_ms) {
            None => {
                return Err(NegotiationError::ConfirmationTimeout);
            },
            Some(NegotiationAction::CounterProposal { .. }) => {},
            Some(NegotiationAction::CreateAgreement { .. }) => {
                negotiator.on_confirmation(confirmation, arrived_ms);
                let Negotiator { deadline_ms: d, state } = negotiator;
                match state {
                    NegotiationState::Agreed(agreement) => {
                        return Ok(agreement);
                    },
                    other => {
                        negotiator = Negotiator { deadline_ms: d, state: other };
                    },
                }
            },
        }
    }
    negotiator.on_stream_end(end_ms);
    if end_ms >= deadline_ms {
        Err(NegotiationError::ConfirmationTimeout)
    } else {
        Err(NegotiationError::NoMatchFound)
    }
}

pub open spec fn arrivals_ordered(replies: Seq<ProposalReply>) -> bool {
    forall|i: int, j: int|
        0 <= i <= j < replies.len() ==> #[trigger] replies[i].arrived_ms
            <= #[trigger] replies[j].arrived_ms
}

/// Some reply is acceptable, and every reply before it came in time.
pub open spec fn acceptable_in_time(replies: Seq<ProposalReply>, deadline_ms: i64) -> bool {
    exists|i: int|
        0 <= i < replies.len() && acceptable(#[trigger] replies[i], deadline_ms) && forall|j: int|
            0 <= j < i ==> #[trigger] replies[j].arrived_ms < deadline_ms
}

/// A stream in which some reply is acceptable, with no reply past the
/// deadline before it, yields a confirmed agreement made from the first
/// acceptable reply; whatever follows it is not looked at.
pub proof fn lemma_acceptable_reply_gives_agreement(
    deadline_ms: i64,
    replies: Seq<ProposalReply>,
    end_ms: i64,
)
    requires
        acceptable_in_time(replies, deadline_ms),
    ensures
        negotiation_outcome(deadline_ms, replies, end_ms) is Ok,
        negotiation_outcome(deadline_ms, replies, end_ms)->Ok_0.confirmed,
        negotiation_outcome(deadline_ms, replies, end_ms)->Ok_0.deadline_ms == deadline_ms,
    decreases replies.len(),
{
    let i = choose|i: int|
        0 <= i < replies.len() && acceptable(#[trigger] replies[i], deadline_ms) && forall|j: int|
            0 <= j < i ==> #[trigger] replies[j].arrived_ms < deadline_ms;
    if !acceptable(replies[0], deadline_ms) {
        assert(i > 0);
        let rest = replies.drop_first();
        assert(replies[0].arrived_ms < deadline_ms);
        assert(acceptable(rest[i - 1], deadline_ms));
        assert(forall|j: int| 0 <= j < i - 1 ==> #[trigger] rest[j].arrived_ms < deadline_ms) by {
            assert forall|j: int| 0 <= j < i - 1 implies #[trigger] rest[j].arrived_ms < deadline_ms by {
                assert(rest[j] == replies[j + 1]);
            }
        }
        assert(acceptable_in_time(rest, deadline_ms));
        lemma_acceptable_reply_gives_agreement(deadline_ms, rest, end_ms);
    }
}

/// Negotiation terminates with the right answer: a stream, in arrival
/// order, with at least one acceptable reply yields a confirmed agreement;
/// a stream with none, all before the deadline, finds no match.
pub proof fn lemma_negotiation_termination(
    deadline_ms: i64,
    replies: Seq<ProposalReply>,
    end_ms: i64,
)
    ensures
        arrivals_ordered(replies) && (exists|i: int|
            0 <= i < replies.len() && acceptable(#[trigger] replies[i], deadline_ms)) ==> {
            &&& negotiation_outcome(deadline_ms, replies, end_ms) is Ok
            &&& negotiation_outcome(deadline_ms, replies, end_ms)->Ok_0.confirmed
        },
        (forall|i: int|
            0 <= i < replies.len() ==> !acceptable(#[trigger] replies[i], deadline_ms)
                && replies[i].arrived_ms < deadline_ms) && end_ms < deadline_ms
            ==> negotiation_outcome(deadline_ms, replies, end_ms) == Err::<
            Agreement,
            NegotiationError,
        >(NegotiationError::NoMatchFound),
    decreases replies.len(),
{
    if replies.len() > 0 {
        let rest = replies.drop_first();
        lemma_negotiation_termination(deadline_ms, rest, end_ms);
        if arrivals_ordered(replies) && (exists|i: int|
            0 <= i < replies.len() && acceptable(#[trigger] replies[i], deadline_ms)) {
            let i = choose|i: int| 0 <= i < replies.len() && acceptable(#[trigger] replies[i], deadline_ms);
            assert(replies[0].arrived_ms <= replies[i].arrived_ms);
            if !acceptable(replies[0], deadline_ms) {
                assert(i > 0);
                assert(acceptable(rest[i - 1], deadline_ms));
                assert(arrivals_ordered(rest)) by {
                    assert forall|a: int, b: int| 0 <= a <= b < rest.len() implies #[trigger] rest[a].arrived_ms
                        <= #[trigger] rest[b].arrived_ms by {
                        assert(rest[a] == replies[a + 1]);
                        assert(rest[b] == replies[b + 1]);
                    }
                }
            }
        }
        if (forall|i: int|
            0 <= i < replies.len() ==> !acceptable(#[trigger] replies[i], deadline_ms)
                && replies[i].arrived_ms < deadline_ms) {
            assert(forall|i: int|
                0 <= i < rest.len() ==> #[trigger] rest[i] == replies[i + 1]);
        }
    }
}

} // verus!
