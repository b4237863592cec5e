use vstd::prelude::*;
use vstd::string::*;
use vstd::utf8::encode_utf8;

use crate::error::{Field, ProposalError};
use crate::ids::{ProposalId, PROPOSAL_ID_LEN};
use crate::numeric::{parse_u128, u128_of_decimal};

verus! {

/// One value of a request's untyped parameters, as far as the builder reads it.
#[derive(Clone, Debug, PartialEq, Eq)]
pub enum ParamValue {
    /// A string.
    Text(String),
    /// A non-negative integer that fits in 64 bits.
    Number(u64),
    /// Anything else (a negative or fractional number, a list, an object, null).
    Other,
}

/// One key of a request's parameters with its value.
#[derive(Clone, Debug, PartialEq, Eq)]
pub struct Param {
    pub key: String,
    pub value: ParamValue,
}

/// A loosely typed request for a governance action.
#[derive(Clone, Debug, PartialEq, Eq)]
pub struct CreateProposalRequest {
    pub action_type: String,
    pub params: Vec<Param>,
}

/// A strongly typed governance action.
#[derive(Clone, Debug, PartialEq, Eq)]
pub enum ProposalAction {
    ExternalFunctionCall { receiver_id: String, method_name: String, args: String, deposit: u128 },
    Transfer { receiver_id: String, amount: u128 },
    SetContextValue { key: Vec<u8>, value: Vec<u8> },
    SetNumApprovals { num_approvals: u32 },
    SetActiveProposalsLimit { active_proposals_limit: u32 },
    DeleteProposal { proposal_id: ProposalId },
}

/// The mathematical value of a [`ProposalAction`].
pub enum ActionView {
    ExternalFunctionCall { receiver_id: Seq<char>, method_name: Seq<char>, args: Seq<char>, deposit: u128 },
    Transfer { receiver_id: Seq<char>, amount: u128 },
    SetContextValue { key: Seq<u8>, value: Seq<u8> },
    SetNumApprovals { num_approvals: u32 },
    SetActiveProposalsLimit { active_proposals_limit: u32 },
    DeleteProposal { proposal_id: Seq<u8> },
}

impl View for ProposalAction {
    type V = ActionView;

    open spec fn view(&self) -> ActionView {
        match self {
            ProposalAction::ExternalFunctionCall { receiver_id, method_name, args, deposit } =>
                ActionView::ExternalFunctionCall {
                    receiver_id: receiver_id@,
                    method_name: method_name@,
                    args: args@,
                    deposit: *deposit,
                },
            ProposalAction::Transfer { receiver_id, amount } =>
                ActionView::Transfer { receiver_id: receiver_id@, amount: *amount },
            ProposalAction::SetContextValue { key, value } =>
                ActionView::SetContextValue { key: key@, value: value@ },
            ProposalAction::SetNumApprovals { num_approvals } =>
                ActionView::SetNumApprovals { num_approvals: *num_approvals },
            ProposalAction::SetActiveProposalsLimit { active_proposals_limit } =>
                ActionView::SetActiveProposalsLimit { active_proposals_limit: *active_proposals_limit },
            ProposalAction::DeleteProposal { proposal_id } =>
                ActionView::DeleteProposal { proposal_id: proposal_id@ },
        }
    }
}

/// The value stored under `key`: the first parameter with that key.
pub open spec fn param_value(ps: Seq<Param>, key: Seq<char>) -> Option<ParamValue>
    decreases ps.len(),
{
    if ps.len() == 0 {
        None
    } else if ps[0].key@ == key {
        Some(ps[0].value)
    } else {
        param_value(ps.drop_first(), key)
    }
}

/// A field that must hold a string.
pub open spec fn text_field(ps: Seq<Param>, f: Field) -> Result<Seq<char>, ProposalError> {
    match param_value(ps, f.key()) {
        None => Err(ProposalError::MissingField(f)),
        Some(ParamValue::Text(s)) => Ok(s@),
        Some(_) => Err(ProposalError::MalformedField(f)),
    }
}

/// A field that must hold a decimal string of an unsigned 128-bit integer.
pub open spec fn amount_field(ps: Seq<Param>, f: Field) -> Result<u128, ProposalError> {
    match text_field(ps, f) {
        Err(e) => Err(e),
        Ok(t) => match u128_of_decimal(t) {
            Some(v) => Ok(v),
            None => Err(ProposalError::MalformedField(f)),
        },
    }
}

/// A field that must hold a non-negative integer that fits in 32 bits.
pub open spec fn count_field(ps: Seq<Param>, f: Field) -> Result<u32, ProposalError> {
    match param_value(ps, f.key()) {
        None => Err(ProposalError::MissingField(f)),
        Some(ParamValue::Number(n)) => if n <= u32::MAX {
            Ok(n as u32)
        } else {
            Err(ProposalError::MalformedField(f))
        },
        Some(_) => Err(ProposalError::MalformedField(f)),
    }
}

/// `b` is the UTF-8 code of a hexadecimal digit, of either case.
pub open spec fn is_hex_byte(b: u8) -> bool {
    (48 <= b <= 57) || (97 <= b <= 102) || (65 <= b <= 70)
}

/// The value of the hexadecimal digit whose code is `b`.
pub open spec fn hex_nibble(b: u8) -> int {
    if 48 <= b <= 57 {
        b - 48
    } else if 97 <= b <= 102 {
        b - 87
    } else {
        b - 55
    }
}

/// The bytes that the hexadecimal text `t` (given as UTF-8 bytes) stands for:
/// an even number of hex digits, two for each byte, high digit first.
pub open spec fn hex_decoded(t: Seq<u8>) -> Option<Seq<u8>> {
    if t.len() % 2 == 0 && forall|i: int| 0 <= i < t.len() ==> is_hex_byte(#[trigger] t[i]) {
        Some(Seq::new((t.len() / 2) as nat, |i: int| (hex_nibble(t[2 * i]) * 16 + hex_nibble(t[2 * i + 1])) as u8))
    } else {
        None
    }
}

/// A field that must hold the hex text of exactly 32 bytes.
pub open spec fn id_field(ps: Seq<Param>, f: Field) -> Result<Seq<u8>, ProposalError> {
    match text_field(ps, f) {
        Err(e) => Err(e),
        Ok(t) => match hex_decoded(encode_utf8(t)) {
            Some(b) => if b.len() == PROPOSAL_ID_LEN {
                Ok(b)
            } else {
                Err(ProposalError::MalformedField(f))
            },
            None => Err(ProposalError::MalformedField(f)),
        },
    }
}

/// The action that a request with type `at` and parameters `ps` stands for,
/// or the first failure met, fields being read in the order listed.
pub open spec fn action_of(at: Seq<char>, ps: Seq<Param>) -> Result<ActionView, ProposalError> {
    if at == "ExternalFunctionCall"@ {
        match text_field(ps, Field::ReceiverId) {
            Err(e) => Err(e),
            Ok(receiver_id) => match text_field(ps, Field::MethodName) {
                Err(e) => Err(e),
                Ok(method_name) => match text_field(ps, Field::Args) {
                    Err(e) => Err(e),
                    Ok(args) => match amount_field(ps, Field::Deposit) {
                        Err(e) => Err(e),
                        Ok(deposit) => Ok(
                            ActionView::ExternalFunctionCall { receiver_id, method_name, args, deposit },
                        ),
                    },
                },
            },
        }
    } else if at == "Transfer"@ {
        match text_field(ps, Field::ReceiverId) {
            Err(e) => Err(e),
            Ok(receiver_id) => match amount_field(ps, Field::Amount) {
                Err(e) => Err(e),
                Ok(amount) => Ok(ActionView::Transfer { receiver_id, amount }),
            },
        }
    } else if at == "SetContextValue"@ {
        match text_field(ps, Field::Key) {
            Err(e) => Err(e),
            Ok(key) => match text_field(ps, Field::Value) {
                Err(e) => Err(e),
                Ok(value) => Ok(
                    ActionView::SetContextValue { key: encode_utf8(key), value: encode_utf8(value) },
                ),
            },
        }
    } else if at == "SetNumApprovals"@ {
        match count_field(ps, Field::NumApprovals) {
            Err(e) => Err(e),
            Ok(n) => Ok(ActionView::SetNumApprovals { num_approvals: n }),
        }
    } else if at == "SetActiveProposalsLimit"@ {
        match count_field(ps, Field::ActiveProposalsLimit) {
            Err(e) => Err(e),
            Ok(n) => Ok(ActionView::SetActiveProposalsLimit { active_proposals_limit: n }),
        }
    } else if at == "DeleteProposal"@ {
        match id_field(ps, Field::ProposalId) {
            Err(e) => Err(e),
            Ok(b) => Ok(ActionView::DeleteProposal { proposal_id: b }),
        }
    } else {
        Err(ProposalError::UnknownActionType)
    }
}

/// `r` is what `action_of` gives, on values.
pub open spec fn built_as<T: View>(r: Result<T, ProposalError>, s: Result<T::V, ProposalError>) -> bool {
    match (r, s) {
        (Ok(a), Ok(b)) => a@ == b,
        (Err(e), Err(f)) => e == f,
        _ => false,
    }
}

fn find_param<'a>(ps: &'a Vec<Param>, f: Field) -> (r: Option<&'a ParamValue>)
    ensures
        match (r, param_value(ps@, f.key())) {
            (Some(v), Some(w)) => *v == w,
            (None, None) => true,
            _ => false,
        },
{
    let key = f.name();
    let mut i: usize = 0;
    assert(ps@.subrange(0, ps@.len() as int) =~= ps@);
    while i < ps.len()
        invariant
            i <= ps@.len(),
            key@ == f.key(),
            param_value(ps@, f.key()) == param_value(ps@.subrange(i as int, ps@.len() as int), f.key()),
        decreases ps.len() - i,
    {
        let ghost rest = ps@.subrange(i as int, ps@.len() as int);
        assert(rest[0] == ps@[i as int]);
        if ps[i].key == key {
            return Some(&ps[i].value);
        }
        assert(rest.drop_first() =~= ps@.subrange(i + 1, ps@.len() as int));
        i = i + 1;
    }
    None
}

fn read_text(ps: &Vec<Param>, f: Field) -> (r: Result<String, ProposalError>)
    ensures
        built_as(r, text_field(ps@, f)),
{
    match find_param(ps, f) {
        None => Err(ProposalError::MissingField(f)),
        Some(ParamValue::Text(s)) => Ok(s.clone()),
        Some(_) => Err(ProposalError::MalformedField(f)),
    }
}

fn read_amount(ps: &Vec<Param>, f: Field) -> (r: Result<u128, ProposalError>)
    ensures
        match (r, amount_field(ps@, f)) {
            (Ok(a), Ok(b)) => a == b,
            (Err(e), Err(g)) => e == g,
            _ => false,
        },
{
    let t = read_text(ps, f)?;
    match parse_u128(t.as_str()) {
        Some(v) => Ok(v),
        None => Err(ProposalError::MalformedField(f)),
    }
}

fn read_count(ps: &Vec<Param>, f: Field) -> (r: Result<u32, ProposalError>)
    ensures
        match (r, count_field(ps@, f)) {
            (Ok(a), Ok(b)) => a == b,
            (Err(e), Err(g)) => e == g,
            _ => false,
        },
{
    match find_param(ps, f) {
        None => Err(ProposalError::MissingField(f)),
        Some(ParamValue::Number(n)) => {
            if *n <= u32::MAX as u64 {
                Ok(*n as u32)
            } else {
                Err(ProposalError::MalformedField(f))
            }
        },
        Some(_) => Err(ProposalError::MalformedField(f)),
    }
}

/// Relies on hex::decode: an even number of hex digits of either case, two for
/// each byte, high digit first; any other text is an error.
#[verifier::external_body]
fn decode_hex(t: &str) -> (r: Option<Vec<u8>>)
    ensures
        r.is_some() == hex_decoded(t.spec_bytes()).is_some(),
        r.is_some() ==> r.unwrap()@ == hex_decoded(t.spec_bytes()).unwrap(),
{
    hex::decode(t).ok()
}

fn read_id(ps: &Vec<Param>, f: Field) -> (r: Result<ProposalId, ProposalError>)
    ensures
        built_as(r, id_field(ps@, f)),
{
    let t = read_text(ps, f)?;
    match decode_hex(t.as_str()) {
        Some(b) => {
            if b.len() == PROPOSAL_ID_LEN {
                Ok(ProposalId::from_bytes(b.as_slice()))
            } else {
                Err(ProposalError::MalformedField(f))
            }
        },
        None => Err(ProposalError::MalformedField(f)),
    }
}

impl CreateProposalRequest {
    /// Validates the request and builds the one action it stands for. Pure: no
    /// I/O and no side effects.
    pub fn build_action(&self) -> (r: Result<ProposalAction, ProposalError>)
        ensures
            built_as(r, action_of(self.action_type@, self.params@)),
    {
        let ps = &self.params;
        let at = &self.action_type;
        if *at == String::from_str("ExternalFunctionCall") {
            let receiver_id = read_text(ps, Field::ReceiverId)?;
            let method_name = read_text(ps, Field::MethodName)?;
            let args = read_text(ps, Field::Args)?;
            let deposit = read_amount(ps, Field::Deposit)?;
            Ok(ProposalAction::ExternalFunctionCall { receiver_id, method_name, args, deposit })
        } else if *at == String::from_str("Transfer") {
            let receiver_id = read_text(ps, Field::ReceiverId)?;
            let amount = read_amount(ps, Field::Amount)?;
            Ok(ProposalAction::Transfer { receiver_id, amount })
        } else if *at == String::from_str("SetContextValue") {
            let key = read_text(ps, Field::Key)?;
            let value = read_text(ps, Field::Value)?;
            Ok(ProposalAction::SetContextValue {
                key: key.as_str().as_bytes_vec(),
                value: value.as_str().as_bytes_vec(),
            })
        } else if *at == String::from_str("SetNumApprovals") {
            let n = read_count(ps, Field::NumApprovals)?;
            Ok(ProposalAction::SetNumApprovals { num_approvals: n })
        } else if *at == String::from_str("SetActiveProposalsLimit") {
            let n = read_count(ps, Field::ActiveProposalsLimit)?;
            Ok(ProposalAction::SetActiveProposalsLimit { active_proposals_limit: n })
        } else if *at == String::from_str("DeleteProposal") {
            let id = read_id(ps, Field::ProposalId)?;
            Ok(ProposalAction::DeleteProposal { proposal_id: id })
        } else {
            Err(ProposalError::UnknownActionType)
        }
    }
}

} // verus!
