use vstd::prelude::*;
use vstd::string::*;

verus! {

/// An uploaded file: its name and bytes.
pub struct FileData {
    pub name: String,
    pub content: Vec<u8>,
}

/// A minimal application that greets and keeps uploaded files in order.
pub struct HelloApp {
    files: Vec<FileData>,
}

/// The confirmation of an upload of `name`.
pub open spec fn upload_confirmation(name: Seq<char>) -> Seq<char> {
    "File '"@ + name + "' uploaded successfully"@
}

impl HelloApp {
    /// The uploaded files, oldest first.
    pub closed spec fn files_view(&self) -> Seq<FileData> {
        self.files@
    }

    pub fn init() -> (r: Self)
        ensures
            r.files_view() == Seq::<FileData>::empty(),
    {
        HelloApp { files: Vec::new() }
    }

    pub fn say_hello(&self) -> (r: String)
        ensures
            r@ == "Hello from Calimero Node!"@,
    {
        String::from_str("Hello from Calimero Node!")
    }

    /// Keeps the file after the earlier ones and confirms the upload.
    pub fn upload_file(&mut self, name: String, content: Vec<u8>) -> (r: Result<String, String>)
        ensures
            r is Ok,
            r is Ok ==> r->Ok_0@ == upload_confirmation(name@),
            final(self).files_view() == old(self).files_view().push(FileData { name, content }),
    {
        let mut msg = String::from_str("File '");
        msg.append(name.as_str());
        msg.append("' uploaded successfully");
        self.files.push(FileData { name, content });
        Ok(msg)
    }

    /// The names of the uploaded files, oldest first.
    pub fn get_file_names(&self) -> (r: Vec<String>)
        ensures
            r@.len() == self.files_view().len(),
            forall|i: int| 0 <= i < r@.len() ==> #[trigger] r@[i] == self.files_view()[i].name,
    {
        let mut r: Vec<String> = Vec::new();
        let mut i: usize = 0;
        while i < self.files.len()
            invariant
                i <= self.files@.len(),
                r@.len() == i,
                forall|k: int| 0 <= k < i ==> #[trigger] r@[k] == self.files@[k].name,
            decreases self.files.len() - i,
        {
            r.push(self.files[i].name.clone());
            i = i + 1;
        }
        r
    }
}

} // verus!
