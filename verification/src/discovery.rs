//! The browse state machine of peer discovery.
//!
//! The engine owns the local alias, the peer table and the phase of the
//! browse session.  Its caller runs the network side: it asks the engine
//! what to do next, does it, and reports what happened.  Every transition
//! keeps the table free of the local device and of two entries on one address.

use vstd::prelude::*;
use vstd::string::*;
use crate::peers::{
    excludes_alias, filter_preserves, one_entry_per_ip, resolved, resolved_preserves, table_wf,
    without_key, EntryView, Peer, PeerTable, PeerView,
};

verus! {

/// How long one wait for a browse event may last, in milliseconds.
pub const POLL_INTERVAL_MS: u64 = 500;

/// How long a torn-down browse session is left to settle, in milliseconds.
pub const RESTART_SETTLE_MS: u64 = 500;

/// How long the engine waits after a failed start, in milliseconds.
pub const RETRY_BACKOFF_MS: u64 = 5000;

/// The service type under which devices advertise themselves.
pub fn service_type() -> (s: &'static str)
    ensures
        s@ == "_myshare_app._tcp.local."@,
{
    "_myshare_app._tcp.local."
}

/// Where the browse session stands.
#[derive(Clone, Copy, Debug, PartialEq, Eq, Structural)]
pub enum Phase {
    /// A browse session is about to be started.
    Starting,
    /// A browse session is running and its events are processed.
    Browsing,
    /// The running session is being torn down to start afresh.
    Restarting,
    /// The last start failed; the engine waits before it tries again.
    Degraded,
}

/// What the caller is to do next.
#[derive(Clone, Copy, Debug, PartialEq, Eq, Structural)]
pub enum Action {
    /// Create the browse session and report with `browse_started`.
    StartBrowse,
    /// Look for a command, then wait for one event for at most the given
    /// time.
    Poll { timeout_ms: u64 },
    /// Tear the session down, wait the given time and report with
    /// `browse_stopped`.
    Restart { settle_ms: u64 },
    /// Wait the given time and report with `backoff_elapsed`.
    Backoff { delay_ms: u64 },
}

/// A request from outside the discovery loop.
pub enum Command {
    /// Forget all peers and browse afresh.
    Refresh,
    /// Take a new local alias, forget all peers and browse afresh.
    UpdateAlias(String),
}

/// The alias property of a resolved service record.
pub enum AliasProperty {
    /// The record has no such property.
    Missing,
    /// The record has the property, without a value.
    PresentEmpty,
    /// The record has the property with this value.
    Present(String),
}

/// A resolved service record, reduced to what the engine reads.
pub struct ServiceRecord {
    pub fullname: String,
    pub alias: AliasProperty,
    pub addresses: Vec<String>,
    pub port: u16,
}

/// An event of the browse session.
pub enum BrowseEvent {
    /// A service was resolved.
    Resolved(ServiceRecord),
    /// The service with this full name went away.
    Removed(String),
    /// Any other event.
    Other,
}

/// The view of what a lookup of the alias property found.
pub open spec fn lookup_view(found: Option<Option<String>>) -> Option<Option<Seq<char>>> {
    match found {
        None => None,
        Some(None) => Some(None),
        Some(Some(s)) => Some(Some(s@)),
    }
}

/// The view of an alias property.
pub open spec fn property_view(p: AliasProperty) -> Option<Option<Seq<char>>> {
    match p {
        AliasProperty::Missing => None,
        AliasProperty::PresentEmpty => Some(None),
        AliasProperty::Present(s) => Some(Some(s@)),
    }
}

impl AliasProperty {
    /// Reads what a lookup of the alias property found: nothing, the
    /// property without a value, or the property with its value.
    pub fn from_lookup(found: Option<Option<String>>) -> (p: AliasProperty)
        ensures
            property_view(p) == lookup_view(found),
    {
        match found {
            None => AliasProperty::Missing,
            Some(None) => AliasProperty::PresentEmpty,
            Some(Some(value)) => AliasProperty::Present(value),
        }
    }
}

/// The alias a record stands for: a missing or valueless property reads as
/// `Unknown`.
pub open spec fn alias_text(p: AliasProperty) -> Seq<char> {
    match p {
        AliasProperty::Present(s) => s@,
        _ => "Unknown"@,
    }
}

/// The first address at or after `from` that is not empty.
pub open spec fn first_nonempty(addrs: Seq<String>, from: int) -> Option<Seq<char>>
    decreases addrs.len() - from,
{
    if from < 0 || from >= addrs.len() {
        None
    } else if addrs[from]@.len() > 0 {
        Some(addrs[from]@)
    } else {
        first_nonempty(addrs, from + 1)
    }
}

/// The peer that a record contributes: none where the record carries the
/// local alias or no usable address.
pub open spec fn accepted_peer(svc: ServiceRecord, own: Seq<char>) -> Option<PeerView> {
    let alias = alias_text(svc.alias);
    if alias == own {
        None
    } else {
        match first_nonempty(svc.addresses@, 0) {
            Some(ip) => Some(PeerView { ip, port: svc.port, alias, hostname: svc.fullname@ }),
            None => None,
        }
    }
}

/// The table after an event.  Outside the browsing phase events change
/// nothing.
pub open spec fn peers_after(
    phase: Phase,
    t: Seq<EntryView>,
    own: Seq<char>,
    event: BrowseEvent,
) -> Seq<EntryView> {
    if phase != Phase::Browsing {
        t
    } else {
        match event {
            BrowseEvent::Resolved(svc) => match accepted_peer(svc, own) {
                Some(p) => resolved(t, svc.fullname@, p),
                None => t,
            },
            BrowseEvent::Removed(name) => without_key(t, name@),
            BrowseEvent::Other => t,
        }
    }
}

/// Whether an event makes the engine publish the table.
pub open spec fn publishes(phase: Phase, own: Seq<char>, event: BrowseEvent) -> bool {
    phase == Phase::Browsing && match event {
        BrowseEvent::Resolved(svc) => accepted_peer(svc, own) is Some,
        BrowseEvent::Removed(_) => true,
        BrowseEvent::Other => false,
    }
}

/// Whether `list` holds the peers of `t`, in order.
pub open spec fn is_snapshot(list: Seq<Peer>, t: Seq<EntryView>) -> bool {
    list.len() == t.len() && forall|i: int| 0 <= i < list.len() ==> (#[trigger] list[i])@ == t[i].peer
}

/// The invariant of the peer table under a local alias: keys are distinct,
/// no two entries share an address, and no entry carries the local alias.
pub open spec fn table_ok(t: Seq<EntryView>, own: Seq<char>) -> bool {
    table_wf(t) && excludes_alias(t, own)
}

/// Every event keeps the table invariant: in particular a record that
/// carries the local alias never enters the table, and no address is ever
/// held by two entries.
pub proof fn event_keeps_table_ok(phase: Phase, t: Seq<EntryView>, own: Seq<char>, event: BrowseEvent)
    requires
        table_ok(t, own),
    ensures
        table_ok(peers_after(phase, t, own, event), own),
{
    if phase == Phase::Browsing {
        match event {
            BrowseEvent::Resolved(svc) => {
                match accepted_peer(svc, own) {
                    Some(p) => {
                        resolved_preserves(t, svc.fullname@, p, own);
                    },
                    None => {},
                }
            },
            BrowseEvent::Removed(name) => {
                filter_preserves(t, |e: EntryView| e.key != name@, own);
            },
            BrowseEvent::Other => {},
        }
    }
}

/// A record that carries the local alias changes nothing and is not
/// published, whatever else it holds.
pub proof fn own_record_is_dropped(phase: Phase, t: Seq<EntryView>, own: Seq<char>, svc: ServiceRecord)
    requires
        alias_text(svc.alias) == own,
    ensures
        peers_after(phase, t, own, BrowseEvent::Resolved(svc)) == t,
        !publishes(phase, own, BrowseEvent::Resolved(svc)),
{
}

/// A table with at most one entry per address stays so under every event.
pub proof fn event_keeps_one_entry_per_ip(
    phase: Phase,
    t: Seq<EntryView>,
    own: Seq<char>,
    event: BrowseEvent,
)
    requires
        table_wf(t),
    ensures
        one_entry_per_ip(peers_after(phase, t, own, event)),
{
    if phase == Phase::Browsing {
        match event {
            BrowseEvent::Resolved(svc) => {
                match accepted_peer(svc, own) {
                    Some(p) => {
                        resolved_preserves(t, svc.fullname@, p, own);
                    },
                    None => {},
                }
            },
            BrowseEvent::Removed(name) => {
                filter_preserves(t, |e: EntryView| e.key != name@, own);
            },
            BrowseEvent::Other => {},
        }
    }
}

/// Until a browse session runs again, no event brings a peer back into an
/// emptied table, and none is published.
pub proof fn no_peer_before_restart(phase: Phase, own: Seq<char>, event: BrowseEvent)
    requires
        phase != Phase::Browsing,
    ensures
        peers_after(phase, Seq::<EntryView>::empty(), own, event) == Seq::<EntryView>::empty(),
        !publishes(phase, own, event),
{
}

fn pick_address(addrs: &Vec<String>) -> (ip: Option<String>)
    ensures
        match ip {
            Some(s) => first_nonempty(addrs@, 0) == Some(s@),
            None => first_nonempty(addrs@, 0) is None,
        },
{
    let n = addrs.len();
    let mut i: usize = 0;
    while i < n
        invariant
            i <= n,
            n == addrs@.len(),
            first_nonempty(addrs@, 0) == first_nonempty(addrs@, i as int),
        decreases n - i,
    {
        if !addrs[i].as_str().is_empty() {
            return Some(addrs[i].clone());
        }
        i += 1;
    }
    None
}

/// Reads a record against the local alias and hands back the peer it
/// contributes, if any, with the key under which it is stored.
pub fn accept(svc: ServiceRecord, own: &String) -> (r: Option<(String, Peer)>)
    ensures
        match r {
            Some((key, peer)) => key@ == svc.fullname@ && accepted_peer(svc, own@) == Some(peer@),
            None => accepted_peer(svc, own@) is None,
        },
{
    let ServiceRecord { fullname, alias, addresses, port } = svc;
    let alias = match alias {
        AliasProperty::Present(s) => s,
        _ => "Unknown".to_owned(),
    };
    if alias == *own {
        return None;
    }
    match pick_address(&addresses) {
        Some(ip) => {
            let hostname = fullname.clone();
            Some((fullname, Peer { ip, port, alias, hostname }))
        },
        None => None,
    }
}

/// The discovery engine: local alias, peer table and browse phase.
pub struct DiscoveryEngine {
    alias: String,
    table: PeerTable,
    phase: Phase,
}

impl DiscoveryEngine {
    /// The local alias, against which records are filtered.
    pub closed spec fn alias(&self) -> Seq<char> {
        self.alias@
    }

    /// The entries of the peer table.
    pub closed spec fn peers(&self) -> Seq<EntryView> {
        self.table@
    }

    /// The phase of the browse session.
    pub closed spec fn phase(&self) -> Phase {
        self.phase
    }

    #[verifier::type_invariant]
    spec fn table_is_ok(self) -> bool {
        table_ok(self.table@, self.alias@)
    }

    /// The engine's invariant, which every engine meets: keys are distinct,
    /// no two entries share an address, and no entry carries the local
    /// alias.
    pub open spec fn wf(&self) -> bool {
        table_ok(self.peers(), self.alias())
    }

    /// An engine for a device of the given alias: no peers yet, a browse
    /// session about to start.
    pub fn start(alias: String) -> (e: DiscoveryEngine)
        ensures
            e.wf(),
            e.alias() == alias@,
            e.peers() == Seq::<EntryView>::empty(),
            e.phase() == Phase::Starting,
    {
        DiscoveryEngine { alias, table: PeerTable::new(), phase: Phase::Starting }
    }

    /// The current phase.
    pub fn current_phase(&self) -> (p: Phase)
        ensures
            p == self.phase(),
    {
        self.phase
    }

    /// The current local alias.
    pub fn current_alias(&self) -> (a: &String)
        ensures
            a@ == self.alias(),
    {
        &self.alias
    }

    /// The peers of the table, in the table's order.
    pub fn snapshot(&self) -> (list: Vec<Peer>)
        ensures
            is_snapshot(list@, self.peers()),
            self.wf(),
    {
        proof {
            use_type_invariant(&*self);
        }
        self.table.snapshot()
    }

    /// What the caller is to do in the current phase.
    pub fn next_action(&self) -> (a: Action)
        ensures
            a == match self.phase() {
                Phase::Starting => Action::StartBrowse,
                Phase::Browsing => (Action::Poll { timeout_ms: POLL_INTERVAL_MS }),
                Phase::Restarting => (Action::Restart { settle_ms: RESTART_SETTLE_MS }),
                Phase::Degraded => (Action::Backoff { delay_ms: RETRY_BACKOFF_MS }),
            },
    {
        match self.phase {
            Phase::Starting => Action::StartBrowse,
            Phase::Browsing => Action::Poll { timeout_ms: POLL_INTERVAL_MS },
            Phase::Restarting => Action::Restart { settle_ms: RESTART_SETTLE_MS },
            Phase::Degraded => Action::Backoff { delay_ms: RETRY_BACKOFF_MS },
        }
    }

    /// Reports how the start of a browse session went.  From `Starting`
    /// the engine goes on to `Browsing`, or to `Degraded` after a failure;
    /// in any other phase the report is ignored.
    pub fn browse_started(&mut self, ok: bool)
        ensures
            final(self).wf(),
            final(self).alias() == old(self).alias(),
            final(self).peers() == old(self).peers(),
            final(self).phase() == if old(self).phase() == Phase::Starting {
                if ok {
                    Phase::Browsing
                } else {
                    Phase::Degraded
                }
            } else {
                old(self).phase()
            },
    {
        proof {
            use_type_invariant(&*self);
        }
        if self.phase == Phase::Starting {
            self.phase = if ok {
                Phase::Browsing
            } else {
                Phase::Degraded
            };
        }
    }

    /// Reports that the back-off delay has passed: a degraded engine starts
    /// again.
    pub fn backoff_elapsed(&mut self)
        ensures
            final(self).wf(),
            final(self).alias() == old(self).alias(),
            final(self).peers() == old(self).peers(),
            final(self).phase() == if old(self).phase() == Phase::Degraded {
                Phase::Starting
            } else {
                old(self).phase()
            },
    {
        proof {
            use_type_invariant(&*self);
        }
        if self.phase == Phase::Degraded {
            self.phase = Phase::Starting;
        }
    }

    /// Reports that the old browse session is gone: a restarting engine
    /// starts again.
    pub fn browse_stopped(&mut self)
        ensures
            final(self).wf(),
            final(self).alias() == old(self).alias(),
            final(self).peers() == old(self).peers(),
            final(self).phase() == if old(self).phase() == Phase::Restarting {
                Phase::Starting
            } else {
                old(self).phase()
            },
    {
        proof {
            use_type_invariant(&*self);
        }
        if self.phase == Phase::Restarting {
            self.phase = Phase::Starting;
        }
    }

    /// Carries out a command.  Both commands empty the table and hand back
    /// the emptied table for publishing; a running browse session is marked
    /// for restart.  `UpdateAlias` also replaces the local alias.
    pub fn handle_command(&mut self, command: Command) -> (publish: Vec<Peer>)
        ensures
            final(self).wf(),
            final(self).peers() == Seq::<EntryView>::empty(),
            publish@.len() == 0,
            final(self).alias() == match command {
                Command::Refresh => old(self).alias(),
                Command::UpdateAlias(a) => a@,
            },
            final(self).phase() == if old(self).phase() == Phase::Browsing {
                Phase::Restarting
            } else {
                old(self).phase()
            },
    {
        self.table = PeerTable::new();
        match command {
            Command::Refresh => {},
            Command::UpdateAlias(a) => {
                self.alias = a;
            },
        }
        if self.phase == Phase::Browsing {
            self.phase = Phase::Restarting;
        }
        self.table.snapshot()
    }

    /// Processes one event of the browse session.  While browsing, a
    /// resolved record of another device enters the table, a removal takes
    /// its entry out, and in both cases the new table is handed back for
    /// publishing.  Records of the local device, records without address,
    /// other events, and all events outside the browsing phase change
    /// nothing and publish nothing.
    pub fn handle_event(&mut self, event: BrowseEvent) -> (publish: Option<Vec<Peer>>)
        ensures
            final(self).wf(),
            final(self).alias() == old(self).alias(),
            final(self).phase() == old(self).phase(),
            final(self).peers() == peers_after(
                old(self).phase(),
                old(self).peers(),
                old(self).alias(),
                event,
            ),
            match publish {
                Some(list) => publishes(old(self).phase(), old(self).alias(), event) && is_snapshot(
                    list@,
                    final(self).peers(),
                ),
                None => !publishes(old(self).phase(), old(self).alias(), event),
            },
    {
        proof {
            use_type_invariant(&*self);
            event_keeps_table_ok(self.phase(), self.peers(), self.alias(), event);
        }
        if self.phase != Phase::Browsing {
            return None;
        }
        match event {
            BrowseEvent::Resolved(svc) => {
                match accept(svc, &self.alias) {
                    Some((key, peer)) => {
                        let mut table = PeerTable::new();
                        std::mem::swap(&mut table, &mut self.table);
                        table.resolve(key, peer);
                        self.table = table;
                        Some(self.table.snapshot())
                    },
                    None => None,
                }
            },
            BrowseEvent::Removed(name) => {
                let mut table = PeerTable::new();
                std::mem::swap(&mut table, &mut self.table);
                table.remove(name.as_str());
                self.table = table;
                Some(self.table.snapshot())
            },
            BrowseEvent::Other => None,
        }
    }
}

} // verus!
