use vstd::prelude::*;

use crate::action::ActionView;
use crate::envelope::{is_proposal_envelope, SignedEnvelope};
use crate::error::{FileExchangeError, ProposalError};
use crate::ids::ProposalId;
use crate::state::{delete_post, download_post, proposal_reply_post, send_post, thread_of, upload_post, FileExchangeState};
use crate::thread::Message;

verus! {

/// Once a file is uploaded, uploading the same name again fails with
/// `AlreadyExists`, and reading the name still gives the first content.
pub proof fn upload_same_name_twice(
    s0: FileExchangeState,
    s1: FileExchangeState,
    s2: FileExchangeState,
    s3: FileExchangeState,
    name: String,
    first: String,
    owner: String,
    second: String,
    second_owner: String,
    downloader: String,
    r1: Result<(), FileExchangeError>,
    r2: Result<(), FileExchangeError>,
    r3: Result<String, FileExchangeError>,
)
    requires
        upload_post(s0, name, first, owner, r1, s1),
        r1 is Ok,
        upload_post(s1, name, second, second_owner, r2, s2),
        download_post(s2, name, downloader, r3, s3),
    ensures
        r2 == Err::<(), FileExchangeError>(FileExchangeError::AlreadyExists),
        r3 is Ok && r3->Ok_0@ == first@,
{
}

/// Reading a name that no upload stored fails with `FileNotFound`.
pub proof fn download_of_absent_name(
    s0: FileExchangeState,
    s1: FileExchangeState,
    name: String,
    downloader: String,
    r: Result<String, FileExchangeError>,
)
    requires
        !s0.files_view().contains_key(name@),
        download_post(s0, name, downloader, r, s1),
    ensures
        r == Err::<String, FileExchangeError>(FileExchangeError::FileNotFound),
{
}

/// Deleting a stored file succeeds exactly when the requester is its owner, and
/// after a successful deletion reading the name fails with `FileNotFound`.
pub proof fn delete_only_by_owner(
    s0: FileExchangeState,
    s1: FileExchangeState,
    s2: FileExchangeState,
    name: String,
    requester: String,
    downloader: String,
    r: Result<(), FileExchangeError>,
    r2: Result<String, FileExchangeError>,
)
    requires
        s0.files_view().contains_key(name@),
        delete_post(s0, name, requester, r, s1),
        download_post(s1, name, downloader, r2, s2),
    ensures
        r is Ok <==> s0.files_view()[name@].owner@ == requester@,
        r is Ok ==> r2 == Err::<String, FileExchangeError>(FileExchangeError::FileNotFound),
{
}

/// Two envelopes of the same action by the same key under different
/// identifiers sign different payloads.
pub proof fn distinct_ids_give_distinct_payloads(
    e1: SignedEnvelope,
    e2: SignedEnvelope,
    id1: Seq<u8>,
    id2: Seq<u8>,
    action: ActionView,
    secret: Seq<u8>,
)
    requires
        is_proposal_envelope(e1, id1, action, secret),
        is_proposal_envelope(e2, id2, action, secret),
        id1.len() == 32,
        id2.len() == 32,
        id1 != id2,
    ensures
        e1.payload@ != e2.payload@,
{
    if e1.payload@ == e2.payload@ {
        assert(id1 =~= e1.payload@.subrange(1, 33));
        assert(id2 =~= e2.payload@.subrange(1, 33));
    }
}

/// After the execution layer accepts a new proposal, its thread exists and is
/// empty; a message appended to it is then the thread's only message.
pub proof fn accepted_proposal_thread(
    s0: FileExchangeState,
    s1: FileExchangeState,
    s2: FileExchangeState,
    id: ProposalId,
    message: Message,
    r1: Result<ProposalId, ProposalError>,
    r2: Result<(), ProposalError>,
)
    requires
        !s0.threads_view().contains_key(id@),
        proposal_reply_post(s0, Ok(Some(id)), r1, s1),
        send_post(s1, id@, message, r2, s2),
    ensures
        r1 == Ok::<ProposalId, ProposalError>(id),
        s1.threads_view().contains_key(id@),
        thread_of(s1.threads_view(), id@) == Seq::<Message>::empty(),
        r2 is Ok,
        thread_of(s2.threads_view(), id@) == seq![message],
{
    assert(Seq::<Message>::empty().push(message) =~= seq![message]);
}

/// A rejected submission opens no thread.
pub proof fn rejected_proposal_opens_no_thread(
    s0: FileExchangeState,
    s1: FileExchangeState,
    reason: String,
    r: Result<ProposalId, ProposalError>,
)
    requires
        proposal_reply_post(s0, Err(reason), r, s1),
    ensures
        r is Err,
        s1.threads_view() == s0.threads_view(),
{
}

/// Appending to a proposal that has no thread fails with `NotFound` and leaves
/// every thread as it was.
pub proof fn append_to_absent_thread(
    s0: FileExchangeState,
    s1: FileExchangeState,
    id: Seq<u8>,
    message: Message,
    r: Result<(), ProposalError>,
)
    requires
        !s0.threads_view().contains_key(id),
        send_post(s0, id, message, r, s1),
    ensures
        r == Err::<(), ProposalError>(ProposalError::NotFound),
        s1.threads_view() == s0.threads_view(),
{
}

} // verus!
