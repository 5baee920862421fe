//! The registry of transfers that wait for the user's decision.
//!
//! Each waiting transfer owns a single-use response slot, stored under the
//! transfer's identifier.  Claiming a slot takes it out of the registry, so
//! a transfer can be answered at most once.

use vstd::prelude::*;
use vstd::string::*;

verus! {

/// A slot under the identifier of its transfer.
pub struct PendingEntry<S> {
    pub id: String,
    pub slot: S,
}

/// Whether some entry carries the identifier.
pub open spec fn has_id<S>(entries: Seq<PendingEntry<S>>, id: Seq<char>) -> bool {
    exists|i: int| 0 <= i < entries.len() && (#[trigger] entries[i]).id@ == id
}

/// The position of an entry with the identifier, where there is one.
pub open spec fn index_of_id<S>(entries: Seq<PendingEntry<S>>, id: Seq<char>) -> int {
    choose|i: int| 0 <= i < entries.len() && (#[trigger] entries[i]).id@ == id
}

/// No identifier occurs twice.
pub open spec fn ids_distinct<S>(entries: Seq<PendingEntry<S>>) -> bool {
    forall|i: int, j: int|
        0 <= i < j < entries.len() ==> (#[trigger] entries[i]).id@ != (#[trigger] entries[j]).id@
}

/// The entries as a map from identifier to slot.
pub open spec fn as_map<S>(entries: Seq<PendingEntry<S>>) -> Map<Seq<char>, S> {
    Map::new(
        |id: Seq<char>| has_id(entries, id),
        |id: Seq<char>| entries[index_of_id(entries, id)].slot,
    )
}

proof fn lemma_lookup<S>(entries: Seq<PendingEntry<S>>, i: int)
    requires
        ids_distinct(entries),
        0 <= i < entries.len(),
    ensures
        has_id(entries, entries[i].id@),
        index_of_id(entries, entries[i].id@) == i,
        as_map(entries)[entries[i].id@] == entries[i].slot,
{
    let id = entries[i].id@;
    let j = index_of_id(entries, id);
    assert(entries[j].id@ == id);
    if j < i {
        assert(entries[j].id@ != entries[i].id@);
    } else if i < j {
        assert(entries[i].id@ != entries[j].id@);
    }
}

proof fn lemma_remove<S>(entries: Seq<PendingEntry<S>>, i: int)
    requires
        ids_distinct(entries),
        0 <= i < entries.len(),
    ensures
        ids_distinct(entries.remove(i)),
        as_map(entries.remove(i)) == as_map(entries).remove(entries[i].id@),
{
    let rest = entries.remove(i);
    let gone = entries[i].id@;
    assert forall|a: int, b: int| 0 <= a < b < rest.len() implies (#[trigger] rest[a]).id@ != (
    #[trigger] rest[b]).id@ by {
        let x = if a < i { a } else { a + 1 };
        let y = if b < i { b } else { b + 1 };
        assert(rest[a] == entries[x] && rest[b] == entries[y]);
        assert(entries[x].id@ != entries[y].id@);
    }
    assert forall|id: Seq<char>| has_id(rest, id) <==> (has_id(entries, id) && id != gone) by {
        if has_id(rest, id) {
            let a = index_of_id(rest, id);
            let x = if a < i { a } else { a + 1 };
            assert(rest[a] == entries[x]);
            assert(entries[x].id@ == id);
            if x < i {
                assert(entries[x].id@ != entries[i].id@);
            } else {
                assert(entries[i].id@ != entries[x].id@);
            }
        }
        if has_id(entries, id) && id != gone {
            let x = index_of_id(entries, id);
            let a = if x < i { x } else { x - 1 };
            assert(rest[a] == entries[x]);
            assert(rest[a].id@ == id);
        }
    }
    assert forall|id: Seq<char>| has_id(rest, id) implies as_map(rest)[id] == as_map(entries)[id] by {
        let a = index_of_id(rest, id);
        let x = if a < i { a } else { a + 1 };
        assert(rest[a] == entries[x]);
        lemma_lookup(entries, x);
    }
    assert(as_map(rest) =~= as_map(entries).remove(gone));
}

proof fn lemma_push<S>(entries: Seq<PendingEntry<S>>, e: PendingEntry<S>)
    requires
        ids_distinct(entries),
        !has_id(entries, e.id@),
    ensures
        ids_distinct(entries.push(e)),
        as_map(entries.push(e)) == as_map(entries).insert(e.id@, e.slot),
{
    let more = entries.push(e);
    assert forall|a: int, b: int| 0 <= a < b < more.len() implies (#[trigger] more[a]).id@ != (
    #[trigger] more[b]).id@ by {
        if b == entries.len() {
            assert(more[a] == entries[a]);
        } else {
            assert(more[a] == entries[a] && more[b] == entries[b]);
        }
    }
    assert forall|id: Seq<char>| has_id(more, id) <==> (has_id(entries, id) || id == e.id@) by {
        if has_id(more, id) {
            let a = index_of_id(more, id);
            if a < entries.len() {
                assert(more[a] == entries[a]);
            }
        }
        if has_id(entries, id) {
            let a = index_of_id(entries, id);
            assert(more[a] == entries[a]);
        }
        if id == e.id@ {
            assert(more[entries.len() as int].id@ == id);
        }
    }
    assert forall|id: Seq<char>| has_id(more, id) implies as_map(more)[id] == as_map(
        entries,
    ).insert(e.id@, e.slot)[id] by {
        let a = index_of_id(more, id);
        lemma_lookup(more, a);
        if a < entries.len() {
            assert(more[a] == entries[a]);
            lemma_lookup(entries, a);
        }
    }
    assert(as_map(more) =~= as_map(entries).insert(e.id@, e.slot));
}

/// Transfers that wait for an answer, each with its response slot.
pub struct PendingTransfers<S> {
    entries: Vec<PendingEntry<S>>,
}

impl<S> View for PendingTransfers<S> {
    type V = Map<Seq<char>, S>;

    closed spec fn view(&self) -> Map<Seq<char>, S> {
        as_map(self.entries@)
    }
}

impl<S> PendingTransfers<S> {
    /// The registry's invariant: no identifier is stored twice.
    #[verifier::type_invariant]
    spec fn ids_are_distinct(self) -> bool {
        ids_distinct(self.entries@)
    }

    /// An empty registry.
    pub fn new() -> (r: PendingTransfers<S>)
        ensures
            r@ == Map::<Seq<char>, S>::empty(),
    {
        let r = PendingTransfers { entries: Vec::new() };
        r
    }

    fn position(&self, id: &String) -> (at: Option<usize>)
        ensures
            match at {
                Some(i) => i < self.entries@.len() && self.entries@[i as int].id@ == id@,
                None => !has_id(self.entries@, id@),
            },
    {
        let n = self.entries.len();
        let mut i: usize = 0;
        while i < n
            invariant
                i <= n,
                n == self.entries@.len(),
                forall|j: int| 0 <= j < i ==> (#[trigger] self.entries@[j]).id@ != id@,
            decreases n - i,
        {
            if self.entries[i].id == *id {
                return Some(i);
            }
            i += 1;
        }
        None
    }

    /// Whether a transfer of this identifier is waiting.
    pub fn contains(&self, id: &str) -> (b: bool)
        ensures
            b == self@.contains_key(id@),
    {
        proof {
            use_type_invariant(&*self);
        }
        let id = id.to_owned();
        self.position(&id).is_some()
    }

    /// Takes the slot of the transfer out of the registry.  Hands back the
    /// slot where the transfer was waiting, and nothing where it was not.
    pub fn claim(&mut self, id: &str) -> (slot: Option<S>)
        ensures
            final(self)@ == old(self)@.remove(id@),
            match slot {
                Some(s) => old(self)@.contains_key(id@) && old(self)@[id@] == s,
                None => !old(self)@.contains_key(id@),
            },
    {
        proof {
            use_type_invariant(&*self);
        }
        let id = id.to_owned();
        match self.position(&id) {
            Some(i) => {
                proof {
                    lemma_lookup(self.entries@, i as int);
                    lemma_remove(self.entries@, i as int);
                }
                let mut entries: Vec<PendingEntry<S>> = Vec::new();
                std::mem::swap(&mut entries, &mut self.entries);
                let entry = entries.remove(i);
                self.entries = entries;
                Some(entry.slot)
            },
            None => {
                None
            },
        }
    }

    /// Stores the slot under the identifier.  A slot already stored under
    /// it gives way and is handed back.
    pub fn register(&mut self, id: String, slot: S) -> (replaced: Option<S>)
        ensures
            final(self)@ == old(self)@.insert(id@, slot),
            match replaced {
                Some(s) => old(self)@.contains_key(id@) && old(self)@[id@] == s,
                None => !old(self)@.contains_key(id@),
            },
    {
        let replaced = self.claim(id.as_str());
        proof {
            use_type_invariant(&*self);
            assert(!self@.contains_key(id@));
            lemma_push(self.entries@, PendingEntry { id, slot });
        }
        let mut entries: Vec<PendingEntry<S>> = Vec::new();
        std::mem::swap(&mut entries, &mut self.entries);
        entries.push(PendingEntry { id, slot });
        self.entries = entries;
        replaced
    }
}

/// Why an answer to a transfer request came to nothing.
#[derive(Debug, PartialEq, Eq)]
pub enum RespondError {
    /// No transfer of this identifier is waiting.
    NotFound(String),
    /// The transfer was waiting, but nobody listens for the answer any more.
    NotDelivered,
}

/// The text of a respond error.
pub open spec fn respond_error_text(e: RespondError) -> Seq<char> {
    match e {
        RespondError::NotFound(id) => "Transfer "@ + id@ + " not found"@,
        RespondError::NotDelivered => "Failed to send response"@,
    }
}

impl RespondError {
    /// The error as the text that the caller is shown.
    pub fn message(&self) -> (text: String)
        ensures
            text@ == respond_error_text(*self),
    {
        match self {
            RespondError::NotFound(id) => "Transfer ".to_owned().concat(id.as_str()).concat(
                " not found",
            ),
            RespondError::NotDelivered => "Failed to send response".to_owned(),
        }
    }
}

/// Takes the slot of a waiting transfer for the answer to be put in.  A
/// transfer that is not waiting, or no longer, is reported as not found.
pub fn respond<S>(pending: &mut PendingTransfers<S>, transfer_id: &str) -> (r: Result<
    S,
    RespondError,
>)
    ensures
        final(pending)@ == old(pending)@.remove(transfer_id@),
        match r {
            Ok(slot) => old(pending)@.contains_key(transfer_id@) && old(pending)@[transfer_id@]
                == slot,
            Err(RespondError::NotFound(id)) => !old(pending)@.contains_key(transfer_id@) && id@
                == transfer_id@,
            Err(RespondError::NotDelivered) => false,
        },
{
    match pending.claim(transfer_id) {
        Some(slot) => Ok(slot),
        None => Err(RespondError::NotFound(transfer_id.to_owned())),
    }
}

/// Reads the outcome of putting the answer into the slot.
pub fn delivery_outcome(delivered: bool) -> (r: Result<(), RespondError>)
    ensures
        delivered ==> r is Ok,
        !delivered ==> r == Err::<(), RespondError>(RespondError::NotDelivered),
{
    if delivered {
        Ok(())
    } else {
        Err(RespondError::NotDelivered)
    }
}

/// Once a transfer has been claimed it is no longer waiting: a second claim
/// finds nothing.
pub proof fn claimed_transfer_is_gone<S>(before: Map<Seq<char>, S>, id: Seq<char>)
    ensures
        !before.remove(id).contains_key(id),
        before.remove(id).remove(id) == before.remove(id),
{
}

} // verus!
