use ed25519_dalek::Signer;
use vstd::prelude::*;
use vstd::string::*;
use vstd::utf8::encode_utf8;

use crate::action::{ActionView, ProposalAction};
use crate::error::ProposalError;
use crate::ids::ProposalId;

verus! {

/// What Ed25519 derives as the public key of the 32-byte secret key `secret`.
pub uninterp spec fn ed25519_public_key(secret: Seq<u8>) -> Seq<u8>;

/// The Ed25519 signature (RFC 8032, deterministic) of `message` under the
/// 32-byte secret key `secret`.
pub uninterp spec fn ed25519_signature(secret: Seq<u8>, message: Seq<u8>) -> Seq<u8>;

/// Relies on ed25519_dalek::SigningKey::from_bytes and verifying_key().to_bytes():
/// the compressed public key, which depends on the secret key alone.
#[verifier::external_body]
fn derive_public_key(secret: &[u8; 32]) -> (r: [u8; 32])
    ensures
        r@ == ed25519_public_key(secret@),
{
    ed25519_dalek::SigningKey::from_bytes(secret).verifying_key().to_bytes()
}

/// Relies on <ed25519_dalek::SigningKey as Signer>::try_sign: it always
/// succeeds, with the 64-byte deterministic signature of `message`.
#[verifier::external_body]
fn sign_message(secret: &[u8; 32], message: &[u8]) -> (r: Option<Vec<u8>>)
    ensures
        r is Some,
        r is Some ==> r->Some_0@ == ed25519_signature(secret@, message@),
{
    match ed25519_dalek::SigningKey::from_bytes(secret).try_sign(message) {
        Ok(signature) => Some(signature.to_bytes().to_vec()),
        Err(_) => None,
    }
}

/// A signing identity: an Ed25519 secret key.
pub struct SigningIdentity {
    secret: [u8; 32],
}

impl SigningIdentity {
    pub closed spec fn secret_view(&self) -> Seq<u8> {
        self.secret@
    }

    pub fn from_secret(secret: [u8; 32]) -> (r: SigningIdentity)
        ensures
            r.secret_view() == secret@,
    {
        SigningIdentity { secret }
    }

    /// The 32 bytes of the public identity that signatures are checked against.
    pub fn public_identity(&self) -> (r: [u8; 32])
        ensures
            r@ == ed25519_public_key(self.secret_view()),
    {
        derive_public_key(&self.secret)
    }

    /// Signs `message`.
    pub fn sign(&self, message: &[u8]) -> (r: Option<Vec<u8>>)
        ensures
            r is Some,
            r is Some ==> r->Some_0@ == ed25519_signature(self.secret_view(), message@),
    {
        sign_message(&self.secret, message)
    }
}

/// A proposal: a fresh identifier, its author's public key and its actions.
pub struct Proposal {
    pub id: ProposalId,
    pub author_id: [u8; 32],
    pub actions: Vec<ProposalAction>,
}

/// An approval of a proposal by a signer.
pub struct ProposalApproval {
    pub proposal_id: ProposalId,
    pub signer_id: [u8; 32],
}

/// A request to the execution layer.
pub enum MutateRequest {
    Propose { proposal: Proposal },
    Approve { approval: ProposalApproval },
}

/// A serialized request with its signature over exactly the payload bytes.
pub struct SignedEnvelope {
    pub request: MutateRequest,
    pub payload: Vec<u8>,
    pub signature: Vec<u8>,
}

/// The `n` low bytes of `v`, least significant first.
pub open spec fn le_bytes(v: nat, n: nat) -> Seq<u8>
    decreases n,
{
    if n == 0 {
        Seq::empty()
    } else {
        seq![(v % 256) as u8] + le_bytes(v / 256, (n - 1) as nat)
    }
}

/// A byte string: its length in eight bytes, then the bytes.
pub open spec fn enc_bytes(b: Seq<u8>) -> Seq<u8> {
    le_bytes(b.len(), 8) + b
}

/// A text: its UTF-8 bytes as a byte string.
pub open spec fn enc_text(s: Seq<char>) -> Seq<u8> {
    enc_bytes(encode_utf8(s))
}

/// The wire form of one action: a tag byte, then the fields in order.
pub open spec fn enc_action(a: ActionView) -> Seq<u8> {
    match a {
        ActionView::ExternalFunctionCall { receiver_id, method_name, args, deposit } =>
            seq![0u8] + enc_text(receiver_id) + enc_text(method_name) + enc_text(args) + le_bytes(deposit as nat, 16),
        ActionView::Transfer { receiver_id, amount } =>
            seq![1u8] + enc_text(receiver_id) + le_bytes(amount as nat, 16),
        ActionView::SetContextValue { key, value } =>
            seq![2u8] + enc_bytes(key) + enc_bytes(value),
        ActionView::SetNumApprovals { num_approvals } =>
            seq![3u8] + le_bytes(num_approvals as nat, 4),
        ActionView::SetActiveProposalsLimit { active_proposals_limit } =>
            seq![4u8] + le_bytes(active_proposals_limit as nat, 4),
        ActionView::DeleteProposal { proposal_id } =>
            seq![5u8] + proposal_id,
    }
}

/// The wire form of a list of actions, one after the other.
pub open spec fn enc_actions(s: Seq<ActionView>) -> Seq<u8>
    decreases s.len(),
{
    if s.len() == 0 {
        Seq::empty()
    } else {
        enc_actions(s.drop_last()) + enc_action(s.last())
    }
}

/// The payload of a `Propose` request.
pub open spec fn propose_payload(id: Seq<u8>, author: Seq<u8>, actions: Seq<ActionView>) -> Seq<u8> {
    seq![0u8] + id + author + le_bytes(actions.len(), 8) + enc_actions(actions)
}

/// The payload of an `Approve` request.
pub open spec fn approve_payload(id: Seq<u8>, signer: Seq<u8>) -> Seq<u8> {
    seq![1u8] + id + signer
}

/// The values of a list of actions.
pub open spec fn action_views(s: Seq<ProposalAction>) -> Seq<ActionView> {
    s.map_values(|a: ProposalAction| a@)
}

/// `env` proposes the single action `action` under identifier `id`, authored and
/// signed by the holder of `secret`.
pub open spec fn is_proposal_envelope(env: SignedEnvelope, id: Seq<u8>, action: ActionView, secret: Seq<u8>) -> bool {
    let author = ed25519_public_key(secret);
    &&& env.request matches MutateRequest::Propose { proposal }
    &&& proposal.id@ == id
    &&& proposal.author_id@ == author
    &&& action_views(proposal.actions@) == seq![action]
    &&& env.payload@ == propose_payload(id, author, seq![action])
    &&& env.signature@ == ed25519_signature(secret, env.payload@)
}

/// `env` approves proposal `id` on behalf of the holder of `secret`.
pub open spec fn is_approval_envelope(env: SignedEnvelope, id: Seq<u8>, secret: Seq<u8>) -> bool {
    let signer = ed25519_public_key(secret);
    &&& env.request matches MutateRequest::Approve { approval }
    &&& approval.proposal_id@ == id
    &&& approval.signer_id@ == signer
    &&& env.payload@ == approve_payload(id, signer)
    &&& env.signature@ == ed25519_signature(secret, env.payload@)
}

fn write_le(out: &mut Vec<u8>, v: u128, n: usize)
    ensures
        final(out)@ == old(out)@ + le_bytes(v as nat, n as nat),
{
    let mut x: u128 = v;
    let mut i: usize = 0;
    while i < n
        invariant
            i <= n,
            out@ + le_bytes(x as nat, (n - i) as nat) == old(out)@ + le_bytes(v as nat, n as nat),
        decreases n - i,
    {
        let ghost before = out@;
        out.push((x % 256) as u8);
        proof {
            let k = (n - i) as nat;
            assert(le_bytes(x as nat, k) == seq![(x % 256) as u8] + le_bytes((x / 256) as nat, (k - 1) as nat));
            assert(before + le_bytes(x as nat, k) =~= out@ + le_bytes((x / 256) as nat, (k - 1) as nat));
        }
        x = x / 256;
        i = i + 1;
    }
    assert(le_bytes(x as nat, 0) =~= Seq::<u8>::empty());
    assert(out@ =~= out@ + le_bytes(x as nat, 0));
}

fn write_raw(out: &mut Vec<u8>, b: &[u8])
    ensures
        final(out)@ == old(out)@ + b@,
{
    let mut i: usize = 0;
    while i < b.len()
        invariant
            i <= b@.len(),
            out@ == old(out)@ + b@.subrange(0, i as int),
        decreases b.len() - i,
    {
        out.push(b[i]);
        assert(b@.subrange(0, i + 1) =~= b@.subrange(0, i as int).push(b@[i as int]));
        i = i + 1;
    }
    assert(b@.subrange(0, b@.len() as int) =~= b@);
}

fn write_bytes(out: &mut Vec<u8>, b: &[u8])
    ensures
        final(out)@ == old(out)@ + enc_bytes(b@),
{
    write_le(out, b.len() as u128, 8);
    write_raw(out, b);
    assert(old(out)@ + le_bytes(b@.len(), 8) + b@ =~= old(out)@ + enc_bytes(b@));
}

fn write_text(out: &mut Vec<u8>, s: &String)
    ensures
        final(out)@ == old(out)@ + enc_text(s@),
{
    write_bytes(out, s.as_str().as_bytes());
}

fn write_action(out: &mut Vec<u8>, a: &ProposalAction)
    ensures
        final(out)@ == old(out)@ + enc_action(a@),
{
    let ghost o = out@;
    match a {
        ProposalAction::ExternalFunctionCall { receiver_id, method_name, args, deposit } => {
            out.push(0u8);
            write_text(out, receiver_id);
            write_text(out, method_name);
            write_text(out, args);
            write_le(out, *deposit, 16);
        },
        ProposalAction::Transfer { receiver_id, amount } => {
            out.push(1u8);
            write_text(out, receiver_id);
            write_le(out, *amount, 16);
        },
        ProposalAction::SetContextValue { key, value } => {
            out.push(2u8);
            write_bytes(out, key.as_slice());
            write_bytes(out, value.as_slice());
        },
        ProposalAction::SetNumApprovals { num_approvals } => {
            out.push(3u8);
            write_le(out, *num_approvals as u128, 4);
        },
        ProposalAction::SetActiveProposalsLimit { active_proposals_limit } => {
            out.push(4u8);
            write_le(out, *active_proposals_limit as u128, 4);
        },
        ProposalAction::DeleteProposal { proposal_id } => {
            out.push(5u8);
            write_raw(out, proposal_id.0.as_slice());
        },
    }
    assert(out@ =~= o + enc_action(a@));
}

/// The payload bytes of a `Propose` request for `proposal`, in this library's
/// own wire format (tag bytes, little-endian integers, length-prefixed byte
/// strings), which the signature covers exactly.
pub fn encode_proposal(proposal: &Proposal) -> (r: Vec<u8>)
    ensures
        r@ == propose_payload(proposal.id@, proposal.author_id@, action_views(proposal.actions@)),
{
    let mut out: Vec<u8> = Vec::new();
    out.push(0u8);
    write_raw(&mut out, proposal.id.0.as_slice());
    write_raw(&mut out, proposal.author_id.as_slice());
    write_le(&mut out, proposal.actions.len() as u128, 8);
    let ghost head = out@;
    let ghost views = action_views(proposal.actions@);
    let mut i: usize = 0;
    while i < proposal.actions.len()
        invariant
            i <= proposal.actions@.len(),
            views == action_views(proposal.actions@),
            out@ == head + enc_actions(views.subrange(0, i as int)),
        decreases proposal.actions.len() - i,
    {
        write_action(&mut out, &proposal.actions[i]);
        assert(views.subrange(0, i + 1).drop_last() =~= views.subrange(0, i as int));
        assert(out@ =~= head + enc_actions(views.subrange(0, i + 1)));
        i = i + 1;
    }
    assert(views.subrange(0, views.len() as int) =~= views);
    assert(out@ =~= propose_payload(proposal.id@, proposal.author_id@, views));
    out
}

/// The payload bytes of an `Approve` request for `approval`, in the same wire
/// format as `encode_proposal`.
pub fn encode_approval(approval: &ProposalApproval) -> (r: Vec<u8>)
    ensures
        r@ == approve_payload(approval.proposal_id@, approval.signer_id@),
{
    let mut out: Vec<u8> = Vec::new();
    out.push(1u8);
    write_raw(&mut out, approval.proposal_id.0.as_slice());
    write_raw(&mut out, approval.signer_id.as_slice());
    assert(out@ =~= approve_payload(approval.proposal_id@, approval.signer_id@));
    out
}

/// The envelope of `request` and its `payload` with the outcome of signing the
/// payload: `SigningError` where signing failed.
pub fn seal(request: MutateRequest, payload: Vec<u8>, signature: Option<Vec<u8>>) -> (r: Result<SignedEnvelope, ProposalError>)
    ensures
        match signature {
            Some(s) => r == Ok::<SignedEnvelope, ProposalError>(SignedEnvelope { request, payload, signature: s }),
            None => r == Err::<SignedEnvelope, ProposalError>(ProposalError::SigningError),
        },
{
    match signature {
        Some(signature) => Ok(SignedEnvelope { request, payload, signature }),
        None => Err(ProposalError::SigningError),
    }
}

/// Assembles the proposal of the single `action` under identifier `id`, authored
/// by `signer`'s public identity, serializes it into a `Propose` request and
/// signs exactly those payload bytes.
pub fn sign_proposal(id: ProposalId, action: ProposalAction, signer: &SigningIdentity) -> (r: Result<SignedEnvelope, ProposalError>)
    ensures
        r is Ok,
        r is Ok ==> is_proposal_envelope(r->Ok_0, id@, action@, signer.secret_view()),
{
    let ghost a = action@;
    let author_id = signer.public_identity();
    let mut actions: Vec<ProposalAction> = Vec::new();
    actions.push(action);
    assert(action_views(actions@) =~= seq![a]);
    let proposal = Proposal { id, author_id, actions };
    let payload = encode_proposal(&proposal);
    let signature = signer.sign(payload.as_slice());
    seal(MutateRequest::Propose { proposal }, payload, signature)
}

/// Assembles an `Approve` request for `proposal_id` on behalf of `signer` and
/// signs its payload bytes.
pub fn sign_approval(proposal_id: ProposalId, signer: &SigningIdentity) -> (r: Result<SignedEnvelope, ProposalError>)
    ensures
        r is Ok,
        r is Ok ==> is_approval_envelope(r->Ok_0, proposal_id@, signer.secret_view()),
{
    let signer_id = signer.public_identity();
    let approval = ProposalApproval { proposal_id, signer_id };
    let payload = encode_approval(&approval);
    let signature = signer.sign(payload.as_slice());
    seal(MutateRequest::Approve { approval }, payload, signature)
}

} // verus!
