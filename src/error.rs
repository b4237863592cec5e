use vstd::prelude::*;

verus! {

/// The parameter keys that the action builder reads.
#[derive(Clone, Copy, Debug, PartialEq, Eq, Structural)]
pub enum Field {
    ReceiverId,
    MethodName,
    Args,
    Deposit,
    Amount,
    Key,
    Value,
    NumApprovals,
    ActiveProposalsLimit,
    ProposalId,
}

impl Field {
    /// The key under which the field stands in a request's parameters.
    pub open spec fn key(self) -> Seq<char> {
        match self {
            Field::ReceiverId => "receiver_id"@,
            Field::MethodName => "method_name"@,
            Field::Args => "args"@,
            Field::Deposit => "deposit"@,
            Field::Amount => "amount"@,
            Field::Key => "key"@,
            Field::Value => "value"@,
            Field::NumApprovals => "num_approvals"@,
            Field::ActiveProposalsLimit => "active_proposals_limit"@,
            Field::ProposalId => "proposal_id"@,
        }
    }

    pub fn name(&self) -> (r: String)
        ensures
            r@ == self.key(),
    {
        match self {
            Field::ReceiverId => String::from_str("receiver_id"),
            Field::MethodName => String::from_str("method_name"),
            Field::Args => String::from_str("args"),
            Field::Deposit => String::from_str("deposit"),
            Field::Amount => String::from_str("amount"),
            Field::Key => String::from_str("key"),
            Field::Value => String::from_str("value"),
            Field::NumApprovals => String::from_str("num_approvals"),
            Field::ActiveProposalsLimit => String::from_str("active_proposals_limit"),
            Field::ProposalId => String::from_str("proposal_id"),
        }
    }
}

/// Failures of the file registry.
#[derive(Clone, Debug, PartialEq, Eq)]
pub enum FileExchangeError {
    FileNotFound,
    AlreadyExists,
    ProposalError(String),
    StorageError(String),
    InvalidOperation,
    Unauthorized,
}

/// Failures of the proposal lifecycle.
#[derive(Clone, Debug, PartialEq, Eq)]
pub enum ProposalError {
    MissingField(Field),
    MalformedField(Field),
    UnknownActionType,
    InsufficientEntropy,
    SigningError,
    SubmissionRejected(String),
    DuplicateProposal,
    NotFound,
    StorageError(String),
}

} // verus!
