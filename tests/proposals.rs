use std::collections::HashSet;

use ed25519_dalek::{Signature, Verifier, VerifyingKey};
use file_exchange::{
    encode_approval, encode_proposal, generate_proposal_id, proposal_id_from_seed, sign_proposal, CreateProposalRequest,
    Event, Message, MutateRequest, Param, ParamValue, ProposalAction, ProposalError, ProposalId, SigningIdentity,
    FileExchangeState,
};

fn signer(seed: u8) -> SigningIdentity {
    SigningIdentity::from_secret([seed; 32])
}

fn envelope_id(env: &file_exchange::SignedEnvelope) -> ProposalId {
    match &env.request {
        MutateRequest::Propose { proposal } => proposal.id,
        MutateRequest::Approve { approval } => approval.proposal_id,
    }
}

fn message(text: &str) -> Message {
    Message::new("m1".to_string(), "p".to_string(), "alice".to_string(), text.to_string(), "2024-01-01".to_string())
}

#[test]
fn identifiers_do_not_collide() {
    let mut seen = HashSet::new();
    for _ in 0..10_000 {
        let id = generate_proposal_id().unwrap();
        assert!(seen.insert(id.0));
    }
}

#[test]
fn identifier_needs_32_random_bytes() {
    assert_eq!(proposal_id_from_seed(&[7u8; 31]), Err(ProposalError::InsufficientEntropy));
    assert_eq!(proposal_id_from_seed(&[]), Err(ProposalError::InsufficientEntropy));
    let mut seed = [0u8; 40];
    for (i, b) in seed.iter_mut().enumerate() {
        *b = i as u8;
    }
    let mut expected = [0u8; 32];
    for (i, b) in expected.iter_mut().enumerate() {
        *b = i as u8;
    }
    assert_eq!(proposal_id_from_seed(&seed), Ok(ProposalId(expected)));
}

#[test]
fn signing_same_action_twice_gives_distinct_envelopes() {
    let st = FileExchangeState::init();
    let key = signer(1);
    let action = ProposalAction::Transfer { receiver_id: "bob".to_string(), amount: 1000 };
    let e1 = st.sign_and_send_proposal(action.clone(), &key).unwrap();
    let e2 = st.sign_and_send_proposal(action, &key).unwrap();
    assert_ne!(envelope_id(&e1), envelope_id(&e2));
    assert_ne!(e1.payload, e2.payload);
    assert_ne!(e1.signature, e2.signature);
}

#[test]
fn envelope_signature_covers_payload() {
    let key = signer(9);
    let action = ProposalAction::SetNumApprovals { num_approvals: 3 };
    let id = ProposalId([5u8; 32]);
    let env = sign_proposal(id, action.clone(), &key).unwrap();
    let public = key.public_identity();
    let expected_public = ed25519_dalek::SigningKey::from_bytes(&[9u8; 32]).verifying_key().to_bytes();
    assert_eq!(public, expected_public);
    let mut payload = vec![0u8];
    payload.extend_from_slice(&[5u8; 32]);
    payload.extend_from_slice(&public);
    payload.extend_from_slice(&1u64.to_le_bytes());
    payload.push(3);
    payload.extend_from_slice(&3u32.to_le_bytes());
    assert_eq!(env.payload, payload);
    match &env.request {
        MutateRequest::Propose { proposal } => {
            assert_eq!(proposal.id, id);
            assert_eq!(proposal.author_id, public);
            assert_eq!(proposal.actions, vec![action]);
            assert_eq!(encode_proposal(proposal), payload);
        }
        MutateRequest::Approve { .. } => panic!("expected a proposal"),
    }
    let vk = VerifyingKey::from_bytes(&public).unwrap();
    let sig = Signature::from_slice(&env.signature).unwrap();
    assert!(vk.verify(&env.payload, &sig).is_ok());
    let mut tampered = env.payload.clone();
    tampered[1] ^= 1;
    assert!(vk.verify(&tampered, &sig).is_err());
}

#[test]
fn transfer_payload_encodes_text_and_amount() {
    let key = signer(2);
    let action = ProposalAction::Transfer { receiver_id: "bob".to_string(), amount: 1000 };
    let env = sign_proposal(ProposalId([0u8; 32]), action, &key).unwrap();
    let tail = &env.payload[1 + 32 + 32 + 8..];
    let mut expected = vec![1u8];
    expected.extend_from_slice(&3u64.to_le_bytes());
    expected.extend_from_slice(b"bob");
    expected.extend_from_slice(&1000u128.to_le_bytes());
    assert_eq!(tail, &expected[..]);
}

#[test]
fn approval_envelope_is_signed() {
    let st = FileExchangeState::init();
    let key = signer(3);
    let id = ProposalId([8u8; 32]);
    let env = st.approve_proposal(id, &key).unwrap();
    let public = key.public_identity();
    let mut payload = vec![1u8];
    payload.extend_from_slice(&[8u8; 32]);
    payload.extend_from_slice(&public);
    assert_eq!(env.payload, payload);
    match &env.request {
        MutateRequest::Approve { approval } => assert_eq!(encode_approval(approval), payload),
        MutateRequest::Propose { .. } => panic!("expected an approval"),
    }
    let vk = VerifyingKey::from_bytes(&public).unwrap();
    let sig = Signature::from_slice(&env.signature).unwrap();
    assert!(vk.verify(&env.payload, &sig).is_ok());
}

#[test]
fn proposal_lifecycle_end_to_end() {
    let mut st = FileExchangeState::init();
    let key = signer(4);
    let request = CreateProposalRequest {
        action_type: "SetNumApprovals".to_string(),
        params: vec![Param { key: "num_approvals".to_string(), value: ParamValue::Number(3) }],
    };
    let env = st.create_new_proposal(&request, &key).unwrap();
    match &env.request {
        MutateRequest::Propose { proposal } => {
            assert_eq!(proposal.actions, vec![ProposalAction::SetNumApprovals { num_approvals: 3 }])
        }
        MutateRequest::Approve { .. } => panic!("expected a proposal"),
    }
    let id = envelope_id(&env);
    assert_eq!(st.record_proposal_reply(Ok(Some(id))), Ok(id));
    assert_eq!(st.get_proposal_messages(id), Ok(vec![]));
    let msg = message("first");
    assert_eq!(st.send_proposal_messages(id, msg.clone()), Ok(()));
    assert_eq!(st.get_proposal_messages(id), Ok(vec![msg.clone()]));
    let second = message("second");
    st.send_proposal_messages(id, second.clone()).unwrap();
    assert_eq!(st.get_proposal_messages(id), Ok(vec![msg, second]));
    assert_eq!(st.take_events(), vec![Event::ProposalCreated { id }]);
    assert_eq!(st.record_approval_reply(id, Ok(())), Ok(()));
    assert_eq!(st.take_events(), vec![Event::ApprovedProposal { id }]);
}

#[test]
fn create_proposal_reports_builder_errors() {
    let st = FileExchangeState::init();
    let request = CreateProposalRequest { action_type: "Transfer".to_string(), params: vec![] };
    assert_eq!(
        st.create_new_proposal(&request, &signer(5)).err(),
        Some(ProposalError::MissingField(file_exchange::Field::ReceiverId))
    );
}

#[test]
fn duplicate_or_rejected_submission_opens_no_thread() {
    let mut st = FileExchangeState::init();
    let id = ProposalId([1u8; 32]);
    assert_eq!(
        st.record_proposal_reply(Err("quorum exceeded".to_string())),
        Err(ProposalError::SubmissionRejected("quorum exceeded".to_string()))
    );
    assert!(matches!(st.record_proposal_reply(Ok(None)), Err(ProposalError::SubmissionRejected(_))));
    assert_eq!(st.send_proposal_messages(id, message("x")), Err(ProposalError::NotFound));
    assert_eq!(st.record_proposal_reply(Ok(Some(id))), Ok(id));
    assert_eq!(st.record_proposal_reply(Ok(Some(id))), Err(ProposalError::DuplicateProposal));
    assert_eq!(st.take_events(), vec![Event::ProposalCreated { id }]);
    assert_eq!(
        st.record_approval_reply(id, Err("not found".to_string())),
        Err(ProposalError::SubmissionRejected("not found".to_string()))
    );
    assert!(st.take_events().is_empty());
}

#[test]
fn append_to_unknown_proposal_changes_nothing() {
    let mut st = FileExchangeState::init();
    let known = ProposalId([2u8; 32]);
    let unknown = ProposalId([3u8; 32]);
    st.record_proposal_reply(Ok(Some(known))).unwrap();
    st.send_proposal_messages(known, message("kept")).unwrap();
    assert_eq!(st.send_proposal_messages(unknown, message("lost")), Err(ProposalError::NotFound));
    assert_eq!(st.get_proposal_messages(unknown), Ok(vec![]));
    assert_eq!(st.get_proposal_messages(known), Ok(vec![message("kept")]));
}

#[test]
fn seal_keeps_signature_or_reports_failure() {
    let request = MutateRequest::Approve {
        approval: file_exchange::ProposalApproval { proposal_id: ProposalId([4u8; 32]), signer_id: [6u8; 32] },
    };
    let env = file_exchange::seal(request, vec![1, 2, 3], Some(vec![9; 64])).unwrap();
    assert_eq!(env.payload, vec![1, 2, 3]);
    assert_eq!(env.signature, vec![9; 64]);
    let request = MutateRequest::Approve {
        approval: file_exchange::ProposalApproval { proposal_id: ProposalId([4u8; 32]), signer_id: [6u8; 32] },
    };
    assert!(matches!(file_exchange::seal(request, vec![], None), Err(ProposalError::SigningError)));
}

#[test]
fn empty_reply_is_rejected_with_reason() {
    let mut st = FileExchangeState::init();
    assert_eq!(
        st.record_proposal_reply(Ok(None)),
        Err(ProposalError::SubmissionRejected("no proposal was created".to_string()))
    );
}
