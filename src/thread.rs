use vstd::prelude::*;

use crate::error::ProposalError;
use crate::ids::ProposalId;

verus! {

/// One discussion message of a proposal's thread.
#[derive(Clone, Debug, PartialEq, Eq)]
pub struct Message {
    pub id: String,
    pub proposal_id: String,
    pub author: String,
    pub text: String,
    pub created_at: String,
}

impl Message {
    pub fn new(id: String, proposal_id: String, author: String, text: String, created_at: String) -> (r: Message)
        ensures
            r == (Message { id, proposal_id, author, text, created_at }),
    {
        Message { id, proposal_id, author, text, created_at }
    }

    /// A field-for-field copy.
    pub fn duplicate(&self) -> (r: Message)
        ensures
            r == *self,
    {
        Message {
            id: self.id.clone(),
            proposal_id: self.proposal_id.clone(),
            author: self.author.clone(),
            text: self.text.clone(),
            created_at: self.created_at.clone(),
        }
    }
}

/// Some identifier of `ids` is `k`.
pub open spec fn has_id(ids: Seq<ProposalId>, k: Seq<u8>) -> bool {
    exists|i: int| 0 <= i < ids.len() && (#[trigger] ids[i])@ == k
}

/// No identifier occurs twice in `ids`.
pub open spec fn ids_unique(ids: Seq<ProposalId>) -> bool {
    forall|i: int, j: int| 0 <= i < ids.len() && 0 <= j < ids.len() && i != j ==> (#[trigger] ids[i])@ != (#[trigger] ids[j])@
}

/// The position of identifier `k` in `ids`.
pub open spec fn id_position(ids: Seq<ProposalId>, k: Seq<u8>) -> int {
    choose|i: int| 0 <= i < ids.len() && (#[trigger] ids[i])@ == k
}

proof fn lemma_id_position(ids: Seq<ProposalId>, i: int)
    requires
        ids_unique(ids),
        0 <= i < ids.len(),
    ensures
        has_id(ids, ids[i]@),
        id_position(ids, ids[i]@) == i,
{
    assert(has_id(ids, ids[i]@));
}

/// Append-only message threads keyed by proposal identifier.
pub struct ThreadStore {
    ids: Vec<ProposalId>,
    threads: Vec<Vec<Message>>,
}

impl View for ThreadStore {
    type V = Map<Seq<u8>, Seq<Message>>;

    closed spec fn view(&self) -> Map<Seq<u8>, Seq<Message>> {
        Map::new(
            |k: Seq<u8>| has_id(self.ids@, k),
            |k: Seq<u8>| self.threads@[id_position(self.ids@, k)]@,
        )
    }
}

impl ThreadStore {
    /// One thread for each identifier, and no identifier twice.
    pub closed spec fn wf(&self) -> bool {
        &&& self.ids@.len() == self.threads@.len()
        &&& ids_unique(self.ids@)
    }

    pub fn new() -> (r: ThreadStore)
        ensures
            r.wf(),
            r@ == Map::<Seq<u8>, Seq<Message>>::empty(),
    {
        let r = ThreadStore { ids: Vec::new(), threads: Vec::new() };
        assert(r@ =~= Map::<Seq<u8>, Seq<Message>>::empty());
        r
    }

    fn position(&self, id: &ProposalId) -> (r: Option<usize>)
        requires
            self.wf(),
        ensures
            match r {
                Some(i) => i < self.ids@.len() && self.ids@[i as int]@ == id@,
                None => !has_id(self.ids@, id@),
            },
    {
        let mut i: usize = 0;
        while i < self.ids.len()
            invariant
                i <= self.ids@.len(),
                forall|k: int| 0 <= k < i ==> (#[trigger] self.ids@[k])@ != id@,
            decreases self.ids.len() - i,
        {
            if self.ids[i].same_as(id) {
                return Some(i);
            }
            i = i + 1;
        }
        None
    }

    /// Whether a thread exists for `id`.
    pub fn contains(&self, id: &ProposalId) -> (r: bool)
        requires
            self.wf(),
        ensures
            r == self@.contains_key(id@),
    {
        self.position(id).is_some()
    }

    /// Starts an empty thread for `id`; fails where one exists already.
    pub fn create_thread(&mut self, id: ProposalId) -> (r: Result<(), ProposalError>)
        requires
            old(self).wf(),
        ensures
            final(self).wf(),
            old(self)@.contains_key(id@) ==> r == Err::<(), ProposalError>(ProposalError::DuplicateProposal)
                && final(self)@ == old(self)@,
            !old(self)@.contains_key(id@) ==> r is Ok && final(self)@ == old(self)@.insert(id@, Seq::empty()),
    {
        if self.position(&id).is_some() {
            return Err(ProposalError::DuplicateProposal);
        }
        let ghost s = self.ids@;
        let ghost th = self.threads@;
        let ghost old_view = self@;
        self.ids.push(id);
        self.threads.push(Vec::new());
        let ghost t = self.ids@;
        assert(ids_unique(t)) by {
            assert forall|i: int, j: int| 0 <= i < t.len() && 0 <= j < t.len() && i != j implies (#[trigger] t[i])@ != (#[trigger] t[j])@ by {
                if i < s.len() {
                    assert(t[i] == s[i]);
                }
                if j < s.len() {
                    assert(t[j] == s[j]);
                }
            }
        }
        assert(self@ =~= old_view.insert(id@, Seq::empty())) by {
            assert forall|k: Seq<u8>| has_id(t, k) <==> (has_id(s, k) || k == id@) by {
                if has_id(t, k) {
                    let i = choose|i: int| 0 <= i < t.len() && (#[trigger] t[i])@ == k;
                    if i < s.len() {
                        assert(s[i] == t[i]);
                    }
                }
                if has_id(s, k) {
                    let i = choose|i: int| 0 <= i < s.len() && (#[trigger] s[i])@ == k;
                    assert(t[i] == s[i]);
                }
                if k == id@ {
                    assert(t[s.len() as int] == id);
                }
            }
            assert forall|k: Seq<u8>| #[trigger] has_id(t, k) implies self.threads@[id_position(t, k)]@ == (
            if k == id@ {
                Seq::<Message>::empty()
            } else {
                th[id_position(s, k)]@
            }) by {
                let i = id_position(t, k);
                lemma_id_position(t, i);
                if i < s.len() {
                    assert(s[i] == t[i]);
                    lemma_id_position(s, i);
                }
            }
        }
        Ok(())
    }

    /// Appends `message` at the end of the thread of `id`; fails with `NotFound`,
    /// changing nothing, where there is no such thread.
    pub fn append(&mut self, id: &ProposalId, message: Message) -> (r: Result<(), ProposalError>)
        requires
            old(self).wf(),
        ensures
            final(self).wf(),
            !old(self)@.contains_key(id@) ==> r == Err::<(), ProposalError>(ProposalError::NotFound)
                && final(self)@ == old(self)@,
            old(self)@.contains_key(id@) ==> r is Ok
                && final(self)@ == old(self)@.insert(id@, old(self)@[id@].push(message)),
    {
        let pos = self.position(id);
        let k = match pos {
            Some(k) => k,
            None => {
                return Err(ProposalError::NotFound);
            },
        };
        let ghost old_view = self@;
        let ghost th = self.threads@;
        let ghost m = message;
        proof {
            lemma_id_position(self.ids@, k as int);
        }
        let mut thread = self.threads.remove(k);
        thread.push(message);
        self.threads.insert(k, thread);
        assert forall|i: int| 0 <= i < th.len() && i != k implies #[trigger] self.threads@[i] == th[i] by {}
        assert(self@ =~= old_view.insert(id@, old_view[id@].push(m))) by {
            assert forall|q: Seq<u8>| #[trigger] has_id(self.ids@, q) implies self.threads@[id_position(self.ids@, q)]@ == (
            if q == id@ {
                th[k as int]@.push(m)
            } else {
                th[id_position(self.ids@, q)]@
            }) by {
                let i = id_position(self.ids@, q);
                lemma_id_position(self.ids@, i);
            }
        }
        Ok(())
    }

    /// The messages of the thread of `id` in insertion order; an empty list where
    /// there is no such thread.
    pub fn messages(&self, id: &ProposalId) -> (r: Vec<Message>)
        requires
            self.wf(),
        ensures
            self@.contains_key(id@) ==> r@ == self@[id@],
            !self@.contains_key(id@) ==> r@ == Seq::<Message>::empty(),
    {
        match self.position(id) {
            None => Vec::new(),
            Some(k) => {
                proof {
                    lemma_id_position(self.ids@, k as int);
                }
                let src = &self.threads[k];
                let mut r: Vec<Message> = Vec::new();
                let mut i: usize = 0;
                while i < src.len()
                    invariant
                        i <= src@.len(),
                        r@ == src@.subrange(0, i as int),
                    decreases src.len() - i,
                {
                    r.push(src[i].duplicate());
                    assert(src@.subrange(0, i + 1) =~= src@.subrange(0, i as int).push(src@[i as int]));
                    i = i + 1;
                }
                assert(src@.subrange(0, src@.len() as int) =~= src@);
                r
            },
        }
    }
}

} // verus!
