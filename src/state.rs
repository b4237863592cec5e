use vstd::prelude::*;

use crate::action::{action_of, ActionView, CreateProposalRequest, ProposalAction};
use crate::envelope::{is_approval_envelope, is_proposal_envelope, sign_approval, sign_proposal, MutateRequest, SignedEnvelope, SigningIdentity};
use crate::error::{FileExchangeError, ProposalError};
use crate::ids::{generate_proposal_id, ProposalId};
use crate::registry::{FileEntry, FileRegistry};
use crate::thread::{Message, ThreadStore};

verus! {

/// Notifications of state changes for outside observers.
#[derive(Clone, Debug, PartialEq, Eq)]
pub enum Event {
    FileUploaded { name: String, owner: String },
    FileDownloaded { name: String, downloader: String },
    FileDeleted { name: String },
    ProposalCreated { id: ProposalId },
    ApprovedProposal { id: ProposalId },
}

/// The application state: the file registry, the proposal threads and the
/// events emitted and not yet delivered.
pub struct FileExchangeState {
    files: FileRegistry,
    proposal_messages: ThreadStore,
    events: Vec<Event>,
}

/// `env` proposes `action`, under the identifier it carries, signed by the holder
/// of `secret`.
pub open spec fn proposes(env: SignedEnvelope, action: ActionView, secret: Seq<u8>) -> bool {
    &&& env.request matches MutateRequest::Propose { proposal }
    &&& is_proposal_envelope(env, proposal.id@, action, secret)
}

impl FileExchangeState {
    pub closed spec fn wf(&self) -> bool {
        self.files.wf() && self.proposal_messages.wf()
    }

    /// The stored files, keyed by name.
    pub closed spec fn files_view(&self) -> Map<Seq<char>, FileEntry> {
        self.files@
    }

    /// The message threads, keyed by proposal identifier.
    pub closed spec fn threads_view(&self) -> Map<Seq<u8>, Seq<Message>> {
        self.proposal_messages@
    }

    /// The events emitted and not yet taken, oldest first.
    pub closed spec fn emitted(&self) -> Seq<Event> {
        self.events@
    }

    pub fn init() -> (r: FileExchangeState)
        ensures
            r.wf(),
            r.files_view() == Map::<Seq<char>, FileEntry>::empty(),
            r.threads_view() == Map::<Seq<u8>, Seq<Message>>::empty(),
            r.emitted() == Seq::<Event>::empty(),
    {
        FileExchangeState { files: FileRegistry::new(), proposal_messages: ThreadStore::new(), events: Vec::new() }
    }

    /// Stores a new file named `name`, owned by `owner`. A name that is taken
    /// is refused with `AlreadyExists` and nothing changes.
    pub fn upload_file(&mut self, name: String, content: String, owner: String) -> (r: Result<(), FileExchangeError>)
        requires
            old(self).wf(),
        ensures
            upload_post(*old(self), name, content, owner, r, *final(self)),
    {
        if self.files.get(&name).is_some() {
            return Err(FileExchangeError::AlreadyExists);
        }
        let entry = FileEntry { name: name.clone(), content, owner: owner.clone() };
        self.files.insert(entry);
        self.events.push(Event::FileUploaded { name, owner });
        Ok(())
    }

    /// The content of the file named `name`. A successful read is recorded as a
    /// `FileDownloaded` event for auditing; it changes no file.
    pub fn download_file(&mut self, name: String, downloader: String) -> (r: Result<String, FileExchangeError>)
        requires
            old(self).wf(),
        ensures
            download_post(*old(self), name, downloader, r, *final(self)),
    {
        let content = match self.files.get(&name) {
            Some(file) => file.content.clone(),
            None => {
                return Err(FileExchangeError::FileNotFound);
            },
        };
        self.events.push(Event::FileDownloaded { name, downloader });
        Ok(content)
    }

    /// Removes the file named `name` on behalf of `requester`, who must be its
    /// owner.
    pub fn delete_file(&mut self, name: String, requester: String) -> (r: Result<(), FileExchangeError>)
        requires
            old(self).wf(),
        ensures
            delete_post(*old(self), name, requester, r, *final(self)),
    {
        let authorized = match self.files.get(&name) {
            Some(file) => file.owner == requester,
            None => {
                return Err(FileExchangeError::FileNotFound);
            },
        };
        if !authorized {
            return Err(FileExchangeError::Unauthorized);
        }
        self.files.remove(&name);
        self.events.push(Event::FileDeleted { name });
        Ok(())
    }

    /// The names of all stored files, each once.
    pub fn list_files(&self) -> (r: Result<Vec<String>, FileExchangeError>)
        requires
            self.wf(),
        ensures
            r is Ok,
            r is Ok ==> names_listed(r->Ok_0@, self.files_view()),
    {
        Ok(self.files.names())
    }

    /// Builds the action that `request` stands for and a signed `Propose`
    /// envelope for it under a fresh identifier. The envelope is then handed to
    /// the execution layer, whose reply goes to `record_proposal_reply`.
    pub fn create_new_proposal(&self, request: &CreateProposalRequest, signer: &SigningIdentity) -> (r: Result<SignedEnvelope, ProposalError>)
        ensures
            match action_of(request.action_type@, request.params@) {
                Err(e) => r == Err::<SignedEnvelope, ProposalError>(e),
                Ok(a) => (r is Ok && proposes(r->Ok_0, a, signer.secret_view()))
                    || r == Err::<SignedEnvelope, ProposalError>(ProposalError::InsufficientEntropy),
            },
    {
        let action = request.build_action()?;
        self.sign_and_send_proposal(action, signer)
    }

    /// A signed `Propose` envelope for the single `proposal` action under a
    /// fresh identifier, authored by `signer`'s public identity.
    pub fn sign_and_send_proposal(&self, proposal: ProposalAction, signer: &SigningIdentity) -> (r: Result<SignedEnvelope, ProposalError>)
        ensures
            r is Ok ==> proposes(r->Ok_0, proposal@, signer.secret_view()),
            r is Err ==> r == Err::<SignedEnvelope, ProposalError>(ProposalError::InsufficientEntropy),
    {
        let id = generate_proposal_id()?;
        sign_proposal(id, proposal, signer)
    }

    /// Interprets the execution layer's reply to a `Propose` envelope: on
    /// acceptance, opens an empty thread for the proposal and emits
    /// `ProposalCreated`.
    pub fn record_proposal_reply(&mut self, reply: Result<Option<ProposalId>, String>) -> (r: Result<ProposalId, ProposalError>)
        requires
            old(self).wf(),
        ensures
            proposal_reply_post(*old(self), reply, r, *final(self)),
    {
        let id = match reply {
            Ok(Some(id)) => id,
            Ok(None) => {
                return Err(ProposalError::SubmissionRejected(String::from_str("no proposal was created")));
            },
            Err(reason) => {
                return Err(ProposalError::SubmissionRejected(reason));
            },
        };
        self.proposal_messages.create_thread(id)?;
        self.events.push(Event::ProposalCreated { id });
        Ok(id)
    }

    /// A signed `Approve` envelope for `proposal_id` on behalf of `signer`. The
    /// execution layer's reply goes to `record_approval_reply`.
    pub fn approve_proposal(&self, proposal_id: ProposalId, signer: &SigningIdentity) -> (r: Result<SignedEnvelope, ProposalError>)
        ensures
            r is Ok,
            r is Ok ==> is_approval_envelope(r->Ok_0, proposal_id@, signer.secret_view()),
    {
        sign_approval(proposal_id, signer)
    }

    /// Interprets the execution layer's reply to an `Approve` envelope: on
    /// acceptance, emits `ApprovedProposal`; a rejection is passed on verbatim.
    pub fn record_approval_reply(&mut self, proposal_id: ProposalId, reply: Result<(), String>) -> (r: Result<(), ProposalError>)
        requires
            old(self).wf(),
        ensures
            final(self).wf(),
            final(self).files_view() == old(self).files_view(),
            final(self).threads_view() == old(self).threads_view(),
            match reply {
                Ok(()) => r is Ok && final(self).emitted() == old(self).emitted().push(
                    Event::ApprovedProposal { id: proposal_id },
                ),
                Err(reason) => r == Err::<(), ProposalError>(ProposalError::SubmissionRejected(reason))
                    && final(self).emitted() == old(self).emitted(),
            },
    {
        match reply {
            Ok(()) => {
                self.events.push(Event::ApprovedProposal { id: proposal_id });
                Ok(())
            },
            Err(reason) => Err(ProposalError::SubmissionRejected(reason)),
        }
    }

    /// The messages of the thread of `proposal_id` in insertion order; an empty
    /// list where the thread has none or does not exist.
    pub fn get_proposal_messages(&self, proposal_id: ProposalId) -> (r: Result<Vec<Message>, ProposalError>)
        requires
            self.wf(),
        ensures
            r is Ok,
            r is Ok ==> r->Ok_0@ == thread_of(self.threads_view(), proposal_id@),
    {
        Ok(self.proposal_messages.messages(&proposal_id))
    }

    /// Appends `message` to the thread of `proposal_id`.
    pub fn send_proposal_messages(&mut self, proposal_id: ProposalId, message: Message) -> (r: Result<(), ProposalError>)
        requires
            old(self).wf(),
        ensures
            send_post(*old(self), proposal_id@, message, r, *final(self)),
    {
        self.proposal_messages.append(&proposal_id, message)
    }

    /// Hands out the emitted events, oldest first, and forgets them.
    pub fn take_events(&mut self) -> (r: Vec<Event>)
        requires
            old(self).wf(),
        ensures
            final(self).wf(),
            r@ == old(self).emitted(),
            final(self).emitted() == Seq::<Event>::empty(),
            final(self).files_view() == old(self).files_view(),
            final(self).threads_view() == old(self).threads_view(),
    {
        let mut taken: Vec<Event> = Vec::new();
        std::mem::swap(&mut taken, &mut self.events);
        taken
    }
}

/// `names` lists every key of `files` exactly once.
pub open spec fn names_listed(names: Seq<String>, files: Map<Seq<char>, FileEntry>) -> bool {
    &&& forall|i: int, j: int| 0 <= i < names.len() && 0 <= j < names.len() && i != j ==> (#[trigger] names[i])@ != (#[trigger] names[j])@
    &&& forall|i: int| 0 <= i < names.len() ==> files.contains_key((#[trigger] names[i])@)
    &&& forall|n: Seq<char>| #[trigger] files.contains_key(n) ==> exists|i: int| 0 <= i < names.len() && (#[trigger] names[i])@ == n
}

/// The messages of thread `id`: none where it does not exist.
pub open spec fn thread_of(threads: Map<Seq<u8>, Seq<Message>>, id: Seq<u8>) -> Seq<Message> {
    if threads.contains_key(id) {
        threads[id]
    } else {
        Seq::empty()
    }
}

/// What an upload of `name` leaves behind.
pub open spec fn upload_post(
    s0: FileExchangeState,
    name: String,
    content: String,
    owner: String,
    r: Result<(), FileExchangeError>,
    s1: FileExchangeState,
) -> bool {
    &&& s1.wf()
    &&& s1.threads_view() == s0.threads_view()
    &&& if s0.files_view().contains_key(name@) {
        &&& r == Err::<(), FileExchangeError>(FileExchangeError::AlreadyExists)
        &&& s1.files_view() == s0.files_view()
        &&& s1.emitted() == s0.emitted()
    } else {
        &&& r is Ok
        &&& s1.files_view() == s0.files_view().insert(name@, FileEntry { name, content, owner })
        &&& s1.emitted() == s0.emitted().push(Event::FileUploaded { name, owner })
    }
}

/// What a download of `name` leaves behind.
pub open spec fn download_post(
    s0: FileExchangeState,
    name: String,
    downloader: String,
    r: Result<String, FileExchangeError>,
    s1: FileExchangeState,
) -> bool {
    &&& s1.wf()
    &&& s1.files_view() == s0.files_view()
    &&& s1.threads_view() == s0.threads_view()
    &&& if s0.files_view().contains_key(name@) {
        &&& r is Ok
        &&& r->Ok_0@ == s0.files_view()[name@].content@
        &&& s1.emitted() == s0.emitted().push(Event::FileDownloaded { name, downloader })
    } else {
        &&& r == Err::<String, FileExchangeError>(FileExchangeError::FileNotFound)
        &&& s1.emitted() == s0.emitted()
    }
}

/// What a deletion of `name` by `requester` leaves behind.
pub open spec fn delete_post(
    s0: FileExchangeState,
    name: String,
    requester: String,
    r: Result<(), FileExchangeError>,
    s1: FileExchangeState,
) -> bool {
    &&& s1.wf()
    &&& s1.threads_view() == s0.threads_view()
    &&& if !s0.files_view().contains_key(name@) {
        &&& r == Err::<(), FileExchangeError>(FileExchangeError::FileNotFound)
        &&& s1.files_view() == s0.files_view()
        &&& s1.emitted() == s0.emitted()
    } else if s0.files_view()[name@].owner@ != requester@ {
        &&& r == Err::<(), FileExchangeError>(FileExchangeError::Unauthorized)
        &&& s1.files_view() == s0.files_view()
        &&& s1.emitted() == s0.emitted()
    } else {
        &&& r is Ok
        &&& s1.files_view() == s0.files_view().remove(name@)
        &&& s1.emitted() == s0.emitted().push(Event::FileDeleted { name })
    }
}

/// What recording the execution layer's reply to a proposal leaves behind.
pub open spec fn proposal_reply_post(
    s0: FileExchangeState,
    reply: Result<Option<ProposalId>, String>,
    r: Result<ProposalId, ProposalError>,
    s1: FileExchangeState,
) -> bool {
    &&& s1.wf()
    &&& s1.files_view() == s0.files_view()
    &&& match reply {
        Ok(Some(id)) => if s0.threads_view().contains_key(id@) {
            &&& r == Err::<ProposalId, ProposalError>(ProposalError::DuplicateProposal)
            &&& s1.threads_view() == s0.threads_view()
            &&& s1.emitted() == s0.emitted()
        } else {
            &&& r == Ok::<ProposalId, ProposalError>(id)
            &&& s1.threads_view() == s0.threads_view().insert(id@, Seq::empty())
            &&& s1.emitted() == s0.emitted().push(Event::ProposalCreated { id })
        },
        Ok(None) => {
            &&& r is Err && r->Err_0 is SubmissionRejected
            &&& r->Err_0->SubmissionRejected_0@ == "no proposal was created"@
            &&& s1.threads_view() == s0.threads_view()
            &&& s1.emitted() == s0.emitted()
        },
        Err(reason) => {
            &&& r == Err::<ProposalId, ProposalError>(ProposalError::SubmissionRejected(reason))
            &&& s1.threads_view() == s0.threads_view()
            &&& s1.emitted() == s0.emitted()
        },
    }
}

/// What appending `message` to the thread of `id` leaves behind.
pub open spec fn send_post(
    s0: FileExchangeState,
    id: Seq<u8>,
    message: Message,
    r: Result<(), ProposalError>,
    s1: FileExchangeState,
) -> bool {
    &&& s1.wf()
    &&& s1.files_view() == s0.files_view()
    &&& s1.emitted() == s0.emitted()
    &&& if s0.threads_view().contains_key(id) {
        &&& r is Ok
        &&& s1.threads_view() == s0.threads_view().insert(id, s0.threads_view()[id].push(message))
    } else {
        &&& r == Err::<(), ProposalError>(ProposalError::NotFound)
        &&& s1.threads_view() == s0.threads_view()
    }
}

} // verus!
