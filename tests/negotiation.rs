use yagna_zksync::negotiation::{
    negotiate, NegotiationAction, NegotiationError, NegotiationState, Negotiator, Proposal,
    ProposalReply,
};

fn proposal(id: &str, is_counter_offer: bool) -> Proposal {
    Proposal { id: id.to_string(), issuer_id: format!("node-{}", id), is_counter_offer }
}

fn reply(id: &str, is_counter_offer: bool, arrived_ms: i64, confirmation: Option<&str>) -> ProposalReply {
    ProposalReply {
        proposal: proposal(id, is_counter_offer),
        arrived_ms,
        confirmation: confirmation.map(|c| c.to_string()),
    }
}

#[test]
fn empty_stream_finds_no_match() {
    assert!(matches!(negotiate(1000, vec![], 500), Err(NegotiationError::NoMatchFound)));
}

#[test]
fn all_rejected_stream_finds_no_match() {
    let replies = vec![
        reply("a", false, 10, None),
        reply("b", true, 20, None),
        reply("c", false, 30, Some("ignored")),
    ];
    assert!(matches!(negotiate(1000, replies, 40), Err(NegotiationError::NoMatchFound)));
}

#[test]
fn first_confirmed_answer_wins() {
    let replies = vec![
        reply("a", false, 10, None),
        reply("b", true, 20, None),
        reply("c", true, 30, Some("agreement-1")),
        reply("d", true, 40, Some("agreement-2")),
    ];
    let agreement = negotiate(1000, replies, 50).ok().unwrap();
    assert_eq!(agreement.id, "agreement-1");
    assert_eq!(agreement.proposal_id, "c");
    assert_eq!(agreement.deadline_ms, 1000);
    assert!(agreement.confirmed);
}

#[test]
fn deadline_passing_is_a_timeout() {
    let replies = vec![reply("a", false, 10, None), reply("b", true, 1000, Some("late"))];
    assert!(matches!(negotiate(1000, replies, 1100), Err(NegotiationError::ConfirmationTimeout)));
    assert!(matches!(negotiate(1000, vec![], 1000), Err(NegotiationError::ConfirmationTimeout)));
}

#[test]
fn negotiator_counters_fresh_offers_and_agrees_on_answers() {
    let mut n = Negotiator::new(500);
    match n.on_proposal(proposal("p1", false), 1) {
        Some(NegotiationAction::CounterProposal { proposal_id }) => assert_eq!(proposal_id, "p1"),
        _ => panic!("expected a counter-proposal"),
    }
    assert!(matches!(n.state, NegotiationState::Listening));
    match n.on_proposal(proposal("p2", true), 2) {
        Some(NegotiationAction::CreateAgreement { proposal_id, valid_to_ms }) => {
            assert_eq!(proposal_id, "p2");
            assert_eq!(valid_to_ms, 500);
        }
        _ => panic!("expected an agreement"),
    }
    n.on_confirmation(None, 3);
    assert!(matches!(n.state, NegotiationState::Listening));
    let _ = n.on_proposal(proposal("p3", true), 4);
    n.on_confirmation(Some("ag".to_string()), 5);
    match &n.state {
        NegotiationState::Agreed(a) => {
            assert_eq!(a.id, "ag");
            assert_eq!(a.proposal_id, "p3");
        }
        _ => panic!("expected an agreement"),
    }
}

#[test]
fn negotiator_stream_end() {
    let mut n = Negotiator::new(500);
    n.on_stream_end(100);
    assert!(matches!(n.state, NegotiationState::Failed(NegotiationError::NoMatchFound)));
    let mut late = Negotiator::new(500);
    assert!(late.on_proposal(proposal("x", true), 600).is_none());
    assert!(matches!(late.state, NegotiationState::Failed(NegotiationError::ConfirmationTimeout)));
}

#[test]
fn confirmation_after_the_deadline_is_a_timeout() {
    let mut n = Negotiator::new(500);
    let _ = n.on_proposal(proposal("p", true), 100);
    n.on_confirmation(Some("late-agreement".to_string()), 500);
    assert!(matches!(n.state, NegotiationState::Failed(NegotiationError::ConfirmationTimeout)));
    let mut m = Negotiator::new(500);
    let _ = m.on_proposal(proposal("q", true), 100);
    m.on_confirmation(None, 600);
    assert!(matches!(m.state, NegotiationState::Failed(NegotiationError::ConfirmationTimeout)));
}
