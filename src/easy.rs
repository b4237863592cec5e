use vstd::prelude::*;
use vstd::slice::slice_to_vec;

use crate::exchange::FileEvent;

verus! {

/// A stored file with its identifier and the name of its owner.
#[derive(Debug)]
pub struct File {
    pub id: u64,
    pub owner: String,
    pub filename: String,
    pub content: Vec<u8>,
}

impl File {
    /// A field-for-field copy.
    pub fn duplicate(&self) -> (r: File)
        ensures
            r.id == self.id,
            r.owner == self.owner,
            r.filename == self.filename,
            r.content@ == self.content@,
    {
        File {
            id: self.id,
            owner: self.owner.clone(),
            filename: self.filename.clone(),
            content: slice_to_vec(self.content.as_slice()),
        }
    }
}

/// The owner given to every uploaded file.
pub open spec fn default_owner() -> Seq<char> {
    "test-owner"@
}

/// Files under sequential identifiers; every upload is owned by the default
/// owner until it is handed on.
pub struct FileExchangeApp {
    files: Vec<File>,
    next_file_id: u64,
    events: Vec<FileEvent>,
}

impl FileExchangeApp {
    /// File `i` carries identifier `i`, and the next identifier is the count.
    pub closed spec fn wf(&self) -> bool {
        &&& self.files@.len() == self.next_file_id
        &&& forall|i: int| 0 <= i < self.files@.len() ==> (#[trigger] self.files@[i]).id == i
    }

    /// The stored files, in order of identifier.
    pub closed spec fn files_view(&self) -> Seq<File> {
        self.files@
    }

    /// The events emitted so far, oldest first.
    pub closed spec fn emitted(&self) -> Seq<FileEvent> {
        self.events@
    }

    pub fn init() -> (r: Self)
        ensures
            r.wf(),
            r.files_view() == Seq::<File>::empty(),
            r.emitted() == Seq::<FileEvent>::empty(),
    {
        FileExchangeApp { files: Vec::new(), next_file_id: 0, events: Vec::new() }
    }

    /// Stores `content` under the next identifier, owned by the default owner.
    pub fn upload_file(&mut self, filename: String, content: Vec<u8>) -> (r: u64)
        requires
            old(self).wf(),
            old(self).files_view().len() < u64::MAX,
        ensures
            final(self).wf(),
            r == old(self).files_view().len(),
            final(self).files_view().drop_last() == old(self).files_view(),
            final(self).files_view().len() == r + 1,
            final(self).files_view().last().id == r,
            final(self).files_view().last().owner@ == default_owner(),
            final(self).files_view().last().filename == filename,
            final(self).files_view().last().content == content,
            final(self).emitted().drop_last() == old(self).emitted(),
            final(self).emitted().last() matches FileEvent::FileUploaded { file_id, owner, filename: f }
                && file_id == r && owner@ == default_owner() && f == filename,
    {
        let file_id = self.next_file_id;
        let owner = String::from_str("test-owner");
        let event = FileEvent::FileUploaded { file_id, owner: owner.clone(), filename: filename.clone() };
        let ghost before = self.files@;
        let ghost before_events = self.events@;
        self.files.push(File { id: file_id, owner, filename, content });
        assert(self.files@.drop_last() =~= before);
        self.next_file_id = self.next_file_id + 1;
        self.events.push(event);
        assert(self.events@.drop_last() =~= before_events);
        file_id
    }

    /// Hands file `file_id` over to `new_owner`; `false` where there is no such
    /// file. The event names the previous owner and the new one.
    pub fn exchange_file(&mut self, file_id: u64, new_owner: String) -> (r: bool)
        requires
            old(self).wf(),
        ensures
            final(self).wf(),
            r == (file_id < old(self).files_view().len()),
            !r ==> final(self).files_view() == old(self).files_view() && final(self).emitted() == old(self).emitted(),
            r ==> {
                let before = old(self).files_view()[file_id as int];
                let after = final(self).files_view()[file_id as int];
                &&& final(self).files_view().len() == old(self).files_view().len()
                &&& forall|i: int| 0 <= i < old(self).files_view().len() && i != file_id ==>
                    #[trigger] final(self).files_view()[i] == old(self).files_view()[i]
                &&& after.id == before.id && after.filename == before.filename && after.content == before.content
                &&& after.owner == new_owner
                &&& final(self).emitted() == old(self).emitted().push(
                    FileEvent::FileExchanged { file_id, from: before.owner, to: new_owner },
                )
            },
    {
        if file_id >= self.next_file_id {
            return false;
        }
        let n = self.files.len();
        assert(file_id < n);
        let idx = file_id as usize;
        let ghost old_files = self.files@;
        let mut file = self.files.remove(idx);
        let old_owner = file.owner.clone();
        file.owner = new_owner.clone();
        self.files.insert(idx, file);
        assert forall|i: int| 0 <= i < old_files.len() && i != file_id implies #[trigger] self.files@[i] == old_files[i] by {}
        self.events.push(FileEvent::FileExchanged { file_id, from: old_owner, to: new_owner });
        true
    }

    /// A copy of file `file_id`, if it exists.
    pub fn get_file(&self, file_id: u64) -> (r: Option<File>)
        requires
            self.wf(),
        ensures
            file_id >= self.files_view().len() ==> r is None,
            file_id < self.files_view().len() ==> {
                let f = self.files_view()[file_id as int];
                &&& r is Some
                &&& r->Some_0.id == f.id && r->Some_0.owner == f.owner
                &&& r->Some_0.filename == f.filename && r->Some_0.content@ == f.content@
            },
    {
        if file_id >= self.next_file_id {
            return None;
        }
        let n = self.files.len();
        assert(file_id < n);
        let idx = file_id as usize;
        Some(self.files[idx].duplicate())
    }

    /// Hands out the emitted events, oldest first, and forgets them.
    pub fn take_events(&mut self) -> (r: Vec<FileEvent>)
        requires
            old(self).wf(),
        ensures
            final(self).wf(),
            r@ == old(self).emitted(),
            final(self).emitted() == Seq::<FileEvent>::empty(),
            final(self).files_view() == old(self).files_view(),
    {
        let mut taken: Vec<FileEvent> = Vec::new();
        std::mem::swap(&mut taken, &mut self.events);
        taken
    }
}

} // verus!
