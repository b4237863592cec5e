use ed25519_dalek::Verifier;
use vstd::prelude::*;
use vstd::slice::slice_to_vec;

use crate::repr::{Raw, Repr};

verus! {

/// Whether `signature` is a valid Ed25519 signature of `message` under the
/// public key `public_key`.
pub uninterp spec fn ed25519_verifies(public_key: Seq<u8>, message: Seq<u8>, signature: Seq<u8>) -> bool;

/// Relies on ed25519_dalek::VerifyingKey::from_bytes and its Verifier::verify:
/// the outcome depends on the key, message and signature bytes alone, and bytes
/// that are no valid public key verify nothing.
#[verifier::external_body]
fn signature_is_valid(public_key: &[u8; 32], message: &[u8], signature: &[u8; 64]) -> (r: bool)
    ensures
        r == ed25519_verifies(public_key@, message@, signature@),
{
    match ed25519_dalek::VerifyingKey::from_bytes(public_key) {
        Ok(key) => key.verify(message, &ed25519_dalek::Signature::from_bytes(signature)).is_ok(),
        Err(_) => false,
    }
}

/// Failures of the file exchange.
#[derive(Clone, Copy, Debug, PartialEq, Eq, Structural)]
pub enum FileError {
    NotFound,
    InvalidSignature,
    NotAuthorized,
    UnauthorizedTransfer,
    InvalidRecipient,
}

/// Notifications of uploads and ownership changes.
#[derive(Clone, Debug, PartialEq, Eq)]
pub enum FileEvent {
    FileUploaded { file_id: u64, owner: String, filename: String },
    FileExchanged { file_id: u64, from: String, to: String },
}

/// A participant: its network peer id, its Ed25519 public key and an optional
/// display name.
#[derive(Debug)]
pub struct User {
    pub peer_id: String,
    pub public_key: Repr<[u8; 32], Raw>,
    pub name: Option<String>,
}

/// A stored file with its identifier and current owner.
#[derive(Debug)]
pub struct File {
    pub id: u64,
    pub owner: User,
    pub filename: String,
    pub content: Vec<u8>,
}

impl User {
    /// A field-for-field copy.
    pub fn duplicate(&self) -> (r: User)
        ensures
            r.peer_id == self.peer_id,
            r.public_key.inner() == self.public_key.inner(),
            r.name == self.name,
    {
        let name = match &self.name {
            Some(n) => Some(n.clone()),
            None => None,
        };
        User { peer_id: self.peer_id.clone(), public_key: Repr::raw(*self.public_key.get()), name }
    }
}

impl File {
    /// A field-for-field copy.
    pub fn duplicate(&self) -> (r: File)
        ensures
            r.id == self.id,
            r.owner.peer_id == self.owner.peer_id,
            r.owner.public_key.inner() == self.owner.public_key.inner(),
            r.owner.name == self.owner.name,
            r.filename == self.filename,
            r.content@ == self.content@,
    {
        File {
            id: self.id,
            owner: self.owner.duplicate(),
            filename: self.filename.clone(),
            content: slice_to_vec(self.content.as_slice()),
        }
    }
}

/// Whether `signature` signs `content` under `public_key`.
pub fn verify_signature(public_key: &Repr<[u8; 32], Raw>, content: &[u8], signature: &[u8; 64]) -> (r: bool)
    ensures
        r == ed25519_verifies(public_key.inner()@, content@, signature@),
{
    signature_is_valid(public_key.get(), content, signature)
}

/// Files under sequential identifiers, each owned by one user.
pub struct FileExchangeApp {
    files: Vec<File>,
    next_file_id: u64,
    events: Vec<FileEvent>,
}

impl FileExchangeApp {
    /// File `i` carries identifier `i`, and the next identifier is the count.
    pub closed spec fn wf(&self) -> bool {
        &&& self.files@.len() == self.next_file_id
        &&& forall|i: int| 0 <= i < self.files@.len() ==> (#[trigger] self.files@[i]).id == i
    }

    /// The stored files, in order of identifier.
    pub closed spec fn files_view(&self) -> Seq<File> {
        self.files@
    }

    /// The events emitted so far, oldest first.
    pub closed spec fn emitted(&self) -> Seq<FileEvent> {
        self.events@
    }

    pub fn init() -> (r: Self)
        ensures
            r.wf(),
            r.files_view() == Seq::<File>::empty(),
            r.emitted() == Seq::<FileEvent>::empty(),
    {
        FileExchangeApp { files: Vec::new(), next_file_id: 0, events: Vec::new() }
    }

    /// Stores `content` under the next identifier, owned by the user `peer_id`
    /// with key `public_key`, where `signature` signs `content` under that key.
    pub fn upload_file(
        &mut self,
        filename: String,
        content: Vec<u8>,
        peer_id: String,
        public_key: Repr<[u8; 32], Raw>,
        signature: [u8; 64],
    ) -> (r: Result<u64, FileError>)
        requires
            old(self).wf(),
            old(self).files_view().len() < u64::MAX,
        ensures
            final(self).wf(),
            !ed25519_verifies(public_key.inner()@, content@, signature@) ==> r == Err::<u64, FileError>(FileError::InvalidSignature)
                && final(self).files_view() == old(self).files_view()
                && final(self).emitted() == old(self).emitted(),
            ed25519_verifies(public_key.inner()@, content@, signature@) ==> {
                let id = old(self).files_view().len() as u64;
                let f = final(self).files_view().last();
                &&& r == Ok::<u64, FileError>(id)
                &&& final(self).files_view().drop_last() == old(self).files_view()
                &&& final(self).files_view().len() == id + 1
                &&& f.id == id && f.filename == filename && f.content == content
                &&& f.owner.peer_id == peer_id && f.owner.public_key == public_key && f.owner.name is None
                &&& final(self).emitted() == old(self).emitted().push(
                    FileEvent::FileUploaded { file_id: id, owner: peer_id, filename },
                )
            },
    {
        if !verify_signature(&public_key, content.as_slice(), &signature) {
            return Err(FileError::InvalidSignature);
        }
        let file_id = self.next_file_id;
        let event = FileEvent::FileUploaded { file_id, owner: peer_id.clone(), filename: filename.clone() };
        let user = User { peer_id, public_key, name: None };
        let file = File { id: file_id, owner: user, filename, content };
        let ghost before = self.files@;
        self.files.push(file);
        assert(self.files@.drop_last() =~= before);
        self.next_file_id = self.next_file_id + 1;
        self.events.push(event);
        Ok(file_id)
    }

    /// Hands file `file_id` over to `recipient`, who keeps the previous owner's
    /// key; the event names the previous owner and the new one.
    pub fn exchange_file(&mut self, file_id: u64, recipient: String) -> (r: Result<(), FileError>)
        requires
            old(self).wf(),
        ensures
            final(self).wf(),
            file_id >= old(self).files_view().len() ==> r == Err::<(), FileError>(FileError::NotFound)
                && final(self).files_view() == old(self).files_view()
                && final(self).emitted() == old(self).emitted(),
            file_id < old(self).files_view().len() ==> {
                let before = old(self).files_view()[file_id as int];
                let after = final(self).files_view()[file_id as int];
                &&& r is Ok
                &&& final(self).files_view().len() == old(self).files_view().len()
                &&& forall|i: int| 0 <= i < old(self).files_view().len() && i != file_id ==>
                    #[trigger] final(self).files_view()[i] == old(self).files_view()[i]
                &&& after.id == before.id && after.filename == before.filename && after.content == before.content
                &&& after.owner.peer_id == recipient && after.owner.name is None
                &&& after.owner.public_key.inner() == before.owner.public_key.inner()
                &&& final(self).emitted() == old(self).emitted().push(
                    FileEvent::FileExchanged { file_id, from: before.owner.peer_id, to: recipient },
                )
            },
    {
        if file_id >= self.next_file_id {
            return Err(FileError::NotFound);
        }
        let n = self.files.len();
        assert(file_id < n);
        let idx = file_id as usize;
        let ghost old_files = self.files@;
        let mut file = self.files.remove(idx);
        let previous = file.owner.peer_id.clone();
        let key = *file.owner.public_key.get();
        file.owner = User { peer_id: recipient.clone(), public_key: Repr::raw(key), name: None };
        self.files.insert(idx, file);
        assert forall|i: int| 0 <= i < old_files.len() && i != file_id implies #[trigger] self.files@[i] == old_files[i] by {}
        self.events.push(FileEvent::FileExchanged { file_id, from: previous, to: recipient });
        Ok(())
    }

    /// A copy of file `file_id`, if it exists.
    pub fn get_file(&self, file_id: u64) -> (r: Option<File>)
        requires
            self.wf(),
        ensures
            file_id >= self.files_view().len() ==> r is None,
            file_id < self.files_view().len() ==> {
                let f = self.files_view()[file_id as int];
                &&& r is Some
                &&& r->Some_0.id == f.id && r->Some_0.filename == f.filename && r->Some_0.content@ == f.content@
                &&& r->Some_0.owner.peer_id == f.owner.peer_id && r->Some_0.owner.name == f.owner.name
                &&& r->Some_0.owner.public_key.inner() == f.owner.public_key.inner()
            },
    {
        if file_id >= self.next_file_id {
            return None;
        }
        let n = self.files.len();
        assert(file_id < n);
        let idx = file_id as usize;
        Some(self.files[idx].duplicate())
    }

    /// Hands out the emitted events, oldest first, and forgets them.
    pub fn take_events(&mut self) -> (r: Vec<FileEvent>)
        requires
            old(self).wf(),
        ensures
            final(self).wf(),
            r@ == old(self).emitted(),
            final(self).emitted() == Seq::<FileEvent>::empty(),
            final(self).files_view() == old(self).files_view(),
    {
        let mut taken: Vec<FileEvent> = Vec::new();
        std::mem::swap(&mut taken, &mut self.events);
        taken
    }
}

} // verus!
