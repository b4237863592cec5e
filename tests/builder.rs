use file_exchange::{CreateProposalRequest, Field, Param, ParamValue, ProposalAction, ProposalError, ProposalId};

fn text(k: &str, v: &str) -> Param {
    Param { key: k.to_string(), value: ParamValue::Text(v.to_string()) }
}

fn number(k: &str, v: u64) -> Param {
    Param { key: k.to_string(), value: ParamValue::Number(v) }
}

fn other(k: &str) -> Param {
    Param { key: k.to_string(), value: ParamValue::Other }
}

fn request(at: &str, params: Vec<Param>) -> CreateProposalRequest {
    CreateProposalRequest { action_type: at.to_string(), params }
}

#[test]
fn transfer_is_built_from_text_fields() {
    let r = request("Transfer", vec![text("receiver_id", "bob"), text("amount", "1000")]);
    assert_eq!(
        r.build_action(),
        Ok(ProposalAction::Transfer { receiver_id: "bob".to_string(), amount: 1000 })
    );
}

#[test]
fn transfer_without_params_misses_receiver() {
    let r = request("Transfer", vec![]);
    let e = r.build_action().unwrap_err();
    assert_eq!(e, ProposalError::MissingField(Field::ReceiverId));
    assert_eq!(Field::ReceiverId.name(), "receiver_id");
}

#[test]
fn transfer_amount_must_be_decimal() {
    let r = request("Transfer", vec![text("receiver_id", "bob"), text("amount", "12x")]);
    assert_eq!(r.build_action(), Err(ProposalError::MalformedField(Field::Amount)));
    let r = request("Transfer", vec![text("receiver_id", "bob"), number("amount", 5)]);
    assert_eq!(r.build_action(), Err(ProposalError::MalformedField(Field::Amount)));
    let r = request("Transfer", vec![text("receiver_id", "bob")]);
    assert_eq!(r.build_action(), Err(ProposalError::MissingField(Field::Amount)));
}

#[test]
fn largest_amount_is_accepted_and_one_more_is_not() {
    let max = "340282366920938463463374607431768211455";
    let r = request("Transfer", vec![text("receiver_id", "b"), text("amount", max)]);
    assert_eq!(r.build_action(), Ok(ProposalAction::Transfer { receiver_id: "b".to_string(), amount: u128::MAX }));
    let over = "340282366920938463463374607431768211456";
    let r = request("Transfer", vec![text("receiver_id", "b"), text("amount", over)]);
    assert_eq!(r.build_action(), Err(ProposalError::MalformedField(Field::Amount)));
}

#[test]
fn external_function_call_reads_four_fields() {
    let r = request(
        "ExternalFunctionCall",
        vec![text("receiver_id", "c"), text("method_name", "m"), text("args", "{}"), text("deposit", "+7")],
    );
    assert_eq!(
        r.build_action(),
        Ok(ProposalAction::ExternalFunctionCall {
            receiver_id: "c".to_string(),
            method_name: "m".to_string(),
            args: "{}".to_string(),
            deposit: 7,
        })
    );
    let r = request("ExternalFunctionCall", vec![text("receiver_id", "c"), text("method_name", "m")]);
    assert_eq!(r.build_action(), Err(ProposalError::MissingField(Field::Args)));
}

#[test]
fn set_context_value_keeps_utf8_bytes() {
    let r = request("SetContextValue", vec![text("key", "k\u{e9}"), text("value", "v")]);
    assert_eq!(
        r.build_action(),
        Ok(ProposalAction::SetContextValue { key: vec![b'k', 0xc3, 0xa9], value: vec![b'v'] })
    );
    let r = request("SetContextValue", vec![text("key", "k")]);
    assert_eq!(r.build_action(), Err(ProposalError::MissingField(Field::Value)));
}

#[test]
fn counts_must_fit_in_32_bits() {
    let r = request("SetNumApprovals", vec![number("num_approvals", 3)]);
    assert_eq!(r.build_action(), Ok(ProposalAction::SetNumApprovals { num_approvals: 3 }));
    let r = request("SetNumApprovals", vec![number("num_approvals", 1u64 << 32)]);
    assert_eq!(r.build_action(), Err(ProposalError::MalformedField(Field::NumApprovals)));
    let r = request("SetNumApprovals", vec![text("num_approvals", "3")]);
    assert_eq!(r.build_action(), Err(ProposalError::MalformedField(Field::NumApprovals)));
    let r = request("SetActiveProposalsLimit", vec![number("active_proposals_limit", 10)]);
    assert_eq!(r.build_action(), Ok(ProposalAction::SetActiveProposalsLimit { active_proposals_limit: 10 }));
    let r = request("SetActiveProposalsLimit", vec![other("active_proposals_limit")]);
    assert_eq!(r.build_action(), Err(ProposalError::MalformedField(Field::ActiveProposalsLimit)));
}

#[test]
fn delete_proposal_needs_32_hex_bytes() {
    let hex = "00112233445566778899aabbccddeeff00112233445566778899AABBCCDDEEFF";
    let r = request("DeleteProposal", vec![text("proposal_id", hex)]);
    let mut expected = [0u8; 32];
    for i in 0..16 {
        expected[i] = (i as u8) * 0x11;
        expected[i + 16] = (i as u8) * 0x11;
    }
    assert_eq!(r.build_action(), Ok(ProposalAction::DeleteProposal { proposal_id: ProposalId(expected) }));
    let r = request("DeleteProposal", vec![text("proposal_id", "0011")]);
    assert_eq!(r.build_action(), Err(ProposalError::MalformedField(Field::ProposalId)));
    let r = request("DeleteProposal", vec![text("proposal_id", "zz")]);
    assert_eq!(r.build_action(), Err(ProposalError::MalformedField(Field::ProposalId)));
    let r = request("DeleteProposal", vec![text("proposal_id", "abc")]);
    assert_eq!(r.build_action(), Err(ProposalError::MalformedField(Field::ProposalId)));
}

#[test]
fn unknown_action_type_is_rejected() {
    let r = request("transfer", vec![text("receiver_id", "bob"), text("amount", "1")]);
    assert_eq!(r.build_action(), Err(ProposalError::UnknownActionType));
    let r = request("", vec![]);
    assert_eq!(r.build_action(), Err(ProposalError::UnknownActionType));
}

#[test]
fn first_of_repeated_keys_counts() {
    let r = request("Transfer", vec![text("receiver_id", "a"), text("receiver_id", "b"), text("amount", "1")]);
    assert_eq!(r.build_action(), Ok(ProposalAction::Transfer { receiver_id: "a".to_string(), amount: 1 }));
}
