//! The table of discovered peers.
//!
//! Entries are keyed by the full name under which a peer advertises itself.
//! The table is modelled as the sequence of its entries in order of first
//! insertion; its well-formedness says that no key occurs twice and that no
//! two entries share an address.

use vstd::prelude::*;
use vstd::string::*;

verus! {

/// A device found on the local network.
#[derive(Debug, PartialEq, Eq)]
pub struct Peer {
    pub ip: String,
    pub port: u16,
    pub alias: String,
    pub hostname: String,
}

/// A peer as plain mathematical values.
pub struct PeerView {
    pub ip: Seq<char>,
    pub port: u16,
    pub alias: Seq<char>,
    pub hostname: Seq<char>,
}

impl View for Peer {
    type V = PeerView;

    open spec fn view(&self) -> PeerView {
        PeerView { ip: self.ip@, port: self.port, alias: self.alias@, hostname: self.hostname@ }
    }
}

impl Clone for Peer {
    fn clone(&self) -> (copy: Peer)
        ensures
            copy@ == self@,
    {
        Peer {
            ip: self.ip.clone(),
            port: self.port,
            alias: self.alias.clone(),
            hostname: self.hostname.clone(),
        }
    }
}

/// One row of the table: a peer under the full name that announced it.
pub struct EntryView {
    pub key: Seq<char>,
    pub peer: PeerView,
}

/// An entry that a new resolution displaces: it sits on the same address
/// under another full name, whatever its alias.
pub open spec fn is_displaced(e: EntryView, ip: Seq<char>, key: Seq<char>) -> bool {
    e.peer.ip == ip && e.key != key
}

/// No key occurs twice.
pub open spec fn keys_distinct(t: Seq<EntryView>) -> bool {
    forall|i: int, j: int| 0 <= i < j < t.len() ==> t[i].key != t[j].key
}

/// No entry carries the given alias.
pub open spec fn excludes_alias(t: Seq<EntryView>, alias: Seq<char>) -> bool {
    forall|i: int| 0 <= i < t.len() ==> (#[trigger] t[i]).peer.alias != alias
}

/// No two entries share an address.
pub open spec fn one_entry_per_ip(t: Seq<EntryView>) -> bool {
    forall|i: int, j: int|
        0 <= i < j < t.len() ==> (#[trigger] t[i]).peer.ip != (#[trigger] t[j]).peer.ip
}

/// Whether some entry has the key.
pub open spec fn has_key(t: Seq<EntryView>, key: Seq<char>) -> bool {
    exists|i: int| 0 <= i < t.len() && (#[trigger] t[i]).key == key
}

/// The position of an entry with the key, where there is one.
pub open spec fn slot_of(t: Seq<EntryView>, key: Seq<char>) -> int {
    choose|i: int| 0 <= i < t.len() && (#[trigger] t[i]).key == key
}

/// The table without the entries that a resolution under `key` at `ip`
/// displaces.
pub open spec fn without_displaced(t: Seq<EntryView>, ip: Seq<char>, key: Seq<char>) -> Seq<
    EntryView,
> {
    t.filter(|e: EntryView| !is_displaced(e, ip, key))
}

/// The table without the entry of the given key.
pub open spec fn without_key(t: Seq<EntryView>, key: Seq<char>) -> Seq<EntryView> {
    t.filter(|e: EntryView| e.key != key)
}

/// The table with the entry put in the place of the one with its key, or at
/// the end where the key is new.
pub open spec fn upserted(t: Seq<EntryView>, e: EntryView) -> Seq<EntryView> {
    if has_key(t, e.key) {
        t.update(slot_of(t, e.key), e)
    } else {
        t.push(e)
    }
}

/// The table after a peer was resolved under `key`: every other entry on
/// the peer's address leaves, then the peer is inserted or updated.
pub open spec fn resolved(t: Seq<EntryView>, key: Seq<char>, peer: PeerView) -> Seq<EntryView> {
    upserted(without_displaced(t, peer.ip, key), EntryView { key, peer })
}

/// The invariant of a table: no key occurs twice and no two entries share
/// an address.
pub open spec fn table_wf(t: Seq<EntryView>) -> bool {
    keys_distinct(t) && one_entry_per_ip(t)
}

/// Every element of a filtered sequence comes from the sequence and meets
/// the predicate.
pub proof fn filter_origin<A>(s: Seq<A>, pred: spec_fn(A) -> bool, i: int) -> (a: int)
    requires
        0 <= i < s.filter(pred).len(),
    ensures
        0 <= a < s.len(),
        s[a] == s.filter(pred)[i],
        pred(s[a]),
    decreases s.len(),
{
    reveal(Seq::filter);
    let sub = s.drop_last().filter(pred);
    if pred(s.last()) && i == sub.len() {
        s.len() - 1
    } else {
        filter_origin(s.drop_last(), pred, i)
    }
}

/// Filtering keeps the order: two elements of the filtered sequence come
/// from two positions of the sequence in the same order.
pub proof fn filter_pair_origin<A>(s: Seq<A>, pred: spec_fn(A) -> bool, i: int, j: int) -> (r: (
    int,
    int,
))
    requires
        0 <= i < j < s.filter(pred).len(),
    ensures
        0 <= r.0 < r.1 < s.len(),
        s[r.0] == s.filter(pred)[i],
        s[r.1] == s.filter(pred)[j],
    decreases s.len(),
{
    reveal(Seq::filter);
    let sub = s.drop_last().filter(pred);
    if pred(s.last()) && j == sub.len() {
        let a = filter_origin(s.drop_last(), pred, i);
        (a, s.len() - 1)
    } else {
        filter_pair_origin(s.drop_last(), pred, i, j)
    }
}

/// Filtering keeps keys distinct, keeps an alias excluded and keeps the
/// addresses apart.
pub proof fn filter_preserves(t: Seq<EntryView>, pred: spec_fn(EntryView) -> bool, alias: Seq<char>)
    ensures
        keys_distinct(t) ==> keys_distinct(t.filter(pred)),
        excludes_alias(t, alias) ==> excludes_alias(t.filter(pred), alias),
        one_entry_per_ip(t) ==> one_entry_per_ip(t.filter(pred)),
{
    let f = t.filter(pred);
    if keys_distinct(t) {
        assert forall|i: int, j: int| 0 <= i < j < f.len() implies f[i].key != f[j].key by {
            let r = filter_pair_origin(t, pred, i, j);
        }
    }
    if excludes_alias(t, alias) {
        assert forall|i: int| 0 <= i < f.len() implies (#[trigger] f[i]).peer.alias != alias by {
            let a = filter_origin(t, pred, i);
        }
    }
    if one_entry_per_ip(t) {
        assert forall|i: int, j: int| 0 <= i < j < f.len() implies (#[trigger] f[i]).peer.ip != (
        #[trigger] f[j]).peer.ip by {
            let r = filter_pair_origin(t, pred, i, j);
        }
    }
}

/// Removing a key keeps the table invariant.
pub proof fn without_key_preserves(t: Seq<EntryView>, key: Seq<char>)
    requires
        table_wf(t),
    ensures
        table_wf(without_key(t, key)),
{
    filter_preserves(t, |e: EntryView| e.key != key, key);
}

/// Resolving a peer keeps the table invariant: afterwards no key occurs
/// twice and the peer's address, like every other, is held by one entry
/// only, which is the peer's own.  An alias other than the peer's stays
/// excluded.
pub proof fn resolved_preserves(t: Seq<EntryView>, key: Seq<char>, peer: PeerView, own: Seq<char>)
    requires
        table_wf(t),
    ensures
        table_wf(resolved(t, key, peer)),
        excludes_alias(t, own) && peer.alias != own ==> excludes_alias(resolved(t, key, peer), own),
        forall|i: int|
            0 <= i < resolved(t, key, peer).len() && (#[trigger] resolved(t, key, peer)[i]).peer.ip
                == peer.ip ==> resolved(t, key, peer)[i] == (EntryView { key, peer }),
        resolved(t, key, peer).contains(EntryView { key, peer }),
{
    let pred = |e: EntryView| !is_displaced(e, peer.ip, key);
    let f = without_displaced(t, peer.ip, key);
    filter_preserves(t, pred, own);
    assert forall|i: int| 0 <= i < f.len() implies !is_displaced(#[trigger] f[i], peer.ip, key) by {
        let a = filter_origin(t, pred, i);
    }
    let r = resolved(t, key, peer);
    let at = if has_key(f, key) {
        slot_of(f, key)
    } else {
        f.len() as int
    };
    assert(r[at] == (EntryView { key, peer }));
}

/// One row of the table.
pub struct PeerEntry {
    pub key: String,
    pub peer: Peer,
}

impl View for PeerEntry {
    type V = EntryView;

    open spec fn view(&self) -> EntryView {
        EntryView { key: self.key@, peer: self.peer@ }
    }
}

/// The entries of a vector as plain values.
pub open spec fn entry_views(v: Seq<PeerEntry>) -> Seq<EntryView> {
    v.map_values(|e: PeerEntry| e@)
}

/// The peers found so far, each under the full name that announced it.
pub struct PeerTable {
    entries: Vec<PeerEntry>,
}

impl View for PeerTable {
    type V = Seq<EntryView>;

    closed spec fn view(&self) -> Seq<EntryView> {
        entry_views(self.entries@)
    }
}

fn retain_others(entries: &Vec<PeerEntry>, ip: &String, key: &String) -> (kept: Vec<PeerEntry>)
    ensures
        entry_views(kept@) == without_displaced(entry_views(entries@), ip@, key@),
{
    let ghost pred = |e: EntryView| !is_displaced(e, ip@, key@);
    let ghost all = entry_views(entries@);
    let mut kept: Vec<PeerEntry> = Vec::new();
    let n = entries.len();
    let mut i: usize = 0;
    assert(all.subrange(0, 0).filter(pred) =~= Seq::<EntryView>::empty()) by {
        reveal(Seq::filter);
    }
    while i < n
        invariant
            i <= n,
            n == entries@.len(),
            all == entry_views(entries@),
            pred == |e: EntryView| !is_displaced(e, ip@, key@),
            entry_views(kept@) == all.subrange(0, i as int).filter(pred),
        decreases n - i,
    {
        let e = &entries[i];
        let displaced = e.peer.ip == *ip && e.key != *key;
        proof {
            reveal(Seq::filter);
            let next = all.subrange(0, i + 1);
            assert(next.drop_last() =~= all.subrange(0, i as int));
        }
        if !displaced {
            kept.push(PeerEntry { key: e.key.clone(), peer: e.peer.clone() });
        }
        i += 1;
    }
    assert(all.subrange(0, n as int) =~= all);
    kept
}

fn retain_other_keys(entries: &Vec<PeerEntry>, key: &String) -> (kept: Vec<PeerEntry>)
    ensures
        entry_views(kept@) == without_key(entry_views(entries@), key@),
{
    let ghost pred = |e: EntryView| e.key != key@;
    let ghost all = entry_views(entries@);
    let mut kept: Vec<PeerEntry> = Vec::new();
    let n = entries.len();
    let mut i: usize = 0;
    assert(all.subrange(0, 0).filter(pred) =~= Seq::<EntryView>::empty()) by {
        reveal(Seq::filter);
    }
    while i < n
        invariant
            i <= n,
            n == entries@.len(),
            all == entry_views(entries@),
            pred == |e: EntryView| e.key != key@,
            entry_views(kept@) == all.subrange(0, i as int).filter(pred),
        decreases n - i,
    {
        let e = &entries[i];
        let same = e.key == *key;
        proof {
            reveal(Seq::filter);
            let next = all.subrange(0, i + 1);
            assert(next.drop_last() =~= all.subrange(0, i as int));
        }
        if !same {
            kept.push(PeerEntry { key: e.key.clone(), peer: e.peer.clone() });
        }
        i += 1;
    }
    assert(all.subrange(0, n as int) =~= all);
    kept
}

fn position_of(entries: &Vec<PeerEntry>, key: &String) -> (at: Option<usize>)
    ensures
        match at {
            Some(i) => i < entries@.len() && entry_views(entries@)[i as int].key == key@,
            None => !has_key(entry_views(entries@), key@),
        },
{
    let n = entries.len();
    let mut i: usize = 0;
    while i < n
        invariant
            i <= n,
            n == entries@.len(),
            forall|j: int| 0 <= j < i ==> (#[trigger] entry_views(entries@)[j]).key != key@,
        decreases n - i,
    {
        if entries[i].key == *key {
            return Some(i);
        }
        i += 1;
    }
    None
}

impl PeerTable {
    #[verifier::type_invariant]
    spec fn entries_are_apart(self) -> bool {
        table_wf(entry_views(self.entries@))
    }

    /// A table is well formed when no key occurs twice and no two entries
    /// share an address.  Every table is.
    pub open spec fn wf(&self) -> bool {
        table_wf(self@)
    }

    /// An empty table.
    pub fn new() -> (t: PeerTable)
        ensures
            t@ == Seq::<EntryView>::empty(),
            t.wf(),
    {
        let t = PeerTable { entries: Vec::new() };
        t
    }

    /// The number of entries.
    pub fn len(&self) -> (n: usize)
        ensures
            n == self@.len(),
            self.wf(),
    {
        proof {
            use_type_invariant(&*self);
        }
        self.entries.len()
    }

    /// Forgets every peer.
    pub fn clear(&mut self)
        ensures
            final(self)@ == Seq::<EntryView>::empty(),
            final(self).wf(),
    {
        self.entries = Vec::new();
    }

    /// Removes the entry announced under `key`, if there is one.
    pub fn remove(&mut self, key: &str)
        ensures
            final(self)@ == without_key(old(self)@, key@),
            final(self).wf(),
    {
        proof {
            use_type_invariant(&*self);
        }
        let key = key.to_owned();
        let kept = retain_other_keys(&self.entries, &key);
        proof {
            without_key_preserves(old(self)@, key@);
        }
        self.entries = kept;
    }

    /// Records a resolved peer: every other entry on the peer's address
    /// leaves, and the peer takes the place of the entry with its key or,
    /// where the key is new, the last place.
    pub fn resolve(&mut self, key: String, peer: Peer)
        ensures
            final(self)@ == resolved(old(self)@, key@, peer@),
            final(self).wf(),
    {
        proof {
            use_type_invariant(&*self);
            filter_preserves(self@, |e: EntryView| !is_displaced(e, peer.ip@, key@), key@);
        }
        let mut kept = retain_others(&self.entries, &peer.ip, &key);
        let ghost fresh = entry_views(kept@);
        let ghost entry = EntryView { key: key@, peer: peer@ };
        proof {
            resolved_preserves(self@, key@, peer@, key@);
        }
        match position_of(&kept, &key) {
            Some(i) => {
                assert(slot_of(fresh, key@) == i as int);
                kept.set(i, PeerEntry { key, peer });
                assert(entry_views(kept@) =~= fresh.update(i as int, entry));
            },
            None => {
                kept.push(PeerEntry { key, peer });
                assert(entry_views(kept@) =~= fresh.push(entry));
            },
        }
        self.entries = kept;
    }

    /// The peers of the table, in the table's order.
    pub fn snapshot(&self) -> (peers: Vec<Peer>)
        ensures
            peers@.len() == self@.len(),
            forall|i: int| 0 <= i < peers@.len() ==> (#[trigger] peers@[i])@ == self@[i].peer,
            self.wf(),
    {
        proof {
            use_type_invariant(&*self);
        }
        let n = self.entries.len();
        let mut peers: Vec<Peer> = Vec::new();
        let mut i: usize = 0;
        while i < n
            invariant
                i <= n,
                n == self.entries@.len(),
                peers@.len() == i,
                forall|j: int| 0 <= j < i ==> (#[trigger] peers@[j])@ == self@[j].peer,
            decreases n - i,
        {
            peers.push(self.entries[i].peer.clone());
            i += 1;
        }
        peers
    }
}

} // verus!
