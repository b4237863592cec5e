//! State-transition logic of a replicated file-exchange application with a
//! multi-action governance (proposal) mechanism.
pub mod action;
pub mod easy;
pub mod embedding;
pub mod envelope;
pub mod error;
pub mod exchange;
pub mod hello;
pub mod ids;
pub mod laws;
pub mod numeric;
pub mod registry;
pub mod repr;
pub mod state;
pub mod thread;

pub use action::{ActionView, CreateProposalRequest, Param, ParamValue, ProposalAction};
pub use embedding::{EmbeddingError, ModelConfig};
pub use envelope::{
    encode_approval, encode_proposal, seal, sign_approval, sign_proposal, MutateRequest, Proposal, ProposalApproval,
    SignedEnvelope, SigningIdentity,
};
pub use error::{Field, FileExchangeError, ProposalError};
pub use exchange::{verify_signature, File, FileError, FileEvent, FileExchangeApp, User};
pub use hello::{FileData, HelloApp};
pub use ids::{generate_proposal_id, proposal_id_from_seed, ProposalId, PROPOSAL_ID_LEN};
pub use numeric::parse_u128;
pub use registry::{FileEntry, FileRegistry};
pub use repr::{Bs58, Raw, Repr, ReprBytes, ReprFormat, Sealed};
pub use state::{Event, FileExchangeState};
pub use thread::{Message, ThreadStore};
