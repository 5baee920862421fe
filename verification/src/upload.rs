//! The receiving side of a transfer: one session per upload request.
//!
//! A request may carry several parts.  For each file part the session
//! registers a pending transfer, waits for the user's decision, gathers the
//! bytes and sees them stored.  The caller reads the request, keeps the
//! time, publishes the events and writes the file; the session decides.

use vstd::prelude::*;
use vstd::string::*;
use crate::events::{event_views, UiEvent, UiEventView};
use crate::pending::PendingTransfers;
use crate::sniff::{choose_stored_name, classified, stored_name};
use crate::text::{
    decimal, has_char, parse_u64, parsed_u64, push_decimal, same_text, sanitize_file_name,
    sanitized,
};

verus! {

/// How long a transfer waits for the user's decision, in seconds.
pub const CONFIRMATION_TIMEOUT_SECS: u64 = 60;

/// The least distance between two progress events, in milliseconds.
pub const PROGRESS_INTERVAL_MS: u64 = 100;

/// What `urlencoding::decode` yields for a text: the text with each
/// percent escape replaced by the byte it denotes, where the result is valid
/// UTF-8, and nothing where it is not.
pub uninterp spec fn percent_decoded(raw: Seq<char>) -> Option<Seq<char>>;

/// Runs `urlencoding::decode` on the text.  Trusted: the result depends on
/// the text alone, an undecodable text gives `None`, and a text without a
/// percent sign comes back as it is.
#[verifier::external_body]
pub(crate) fn percent_decode(raw: &str) -> (out: Option<String>)
    ensures
        match out {
            Some(s) => percent_decoded(raw@) == Some(s@),
            None => percent_decoded(raw@) is None,
        },
        !has_char(raw@, '%') ==> text_view(out) == Some(raw@),
{
    urlencoding::decode(raw).ok().map(|s| s.into_owned())
}

/// The name under which an incoming file is announced: the decoded name,
/// or the raw one where decoding fails, with path-unsafe characters
/// replaced.
pub open spec fn received_name(raw: Seq<char>, decoded: Option<Seq<char>>) -> Seq<char> {
    sanitized(
        match decoded {
            Some(d) => d,
            None => raw,
        },
    )
}

/// The view of an optional string.
pub open spec fn text_view(s: Option<String>) -> Option<Seq<char>> {
    match s {
        Some(t) => Some(t@),
        None => None,
    }
}

/// Builds the announced name from the raw name and the outcome of decoding
/// it.
pub fn received_name_for(raw: &str, decoded: Option<String>) -> (name: String)
    ensures
        name@ == received_name(raw@, text_view(decoded)),
{
    match decoded {
        Some(d) => sanitize_file_name(d.as_str()),
        None => sanitize_file_name(raw),
    }
}

/// Decodes and sanitizes the file name of an incoming part.  A name
/// without a percent sign is sanitized as it stands.
pub fn receive_name(raw: &str) -> (name: String)
    ensures
        name@ == received_name(raw@, percent_decoded(raw@)),
        !has_char(raw@, '%') ==> name@ == sanitized(raw@),
{
    let decoded = percent_decode(raw);
    received_name_for(raw, decoded)
}

/// The identifier of a transfer: the announced name, an underscore and the
/// time of arrival in milliseconds.
pub open spec fn transfer_id_of(name: Seq<char>, millis: nat) -> Seq<char> {
    name + seq!['_'] + decimal(millis)
}

/// Builds the identifier of a transfer.
pub fn make_transfer_id(name: &str, millis: u128) -> (id: String)
    ensures
        id@ == transfer_id_of(name@, millis as nat),
{
    let mut id = name.to_owned();
    id.push('_');
    push_decimal(&mut id, millis);
    id
}

/// Tests whether a field of the request is the one that announces the size
/// of the file: the field named `size`.
pub fn is_size_field(field_name: &str) -> (b: bool)
    ensures
        b == (field_name@ == "size"@),
{
    same_text(field_name, "size")
}

/// How the wait for the user's decision ended.
#[derive(Clone, Copy, Debug, PartialEq, Eq, Structural)]
pub enum Confirmation {
    /// The user accepted the file.
    Accepted,
    /// The user turned the file down.
    Rejected,
    /// The time ran out without an answer.
    TimedOut,
    /// The response slot was dropped without an answer.
    ChannelClosed,
}

/// Reads the outcome of a wait: `None` where the time ran out, `Some(None)`
/// where the slot was dropped, else the user's answer.
pub fn confirmation_of(waited: Option<Option<bool>>) -> (c: Confirmation)
    ensures
        c == match waited {
            None => Confirmation::TimedOut,
            Some(None) => Confirmation::ChannelClosed,
            Some(Some(true)) => Confirmation::Accepted,
            Some(Some(false)) => Confirmation::Rejected,
        },
{
    match waited {
        None => Confirmation::TimedOut,
        Some(None) => Confirmation::ChannelClosed,
        Some(Some(true)) => Confirmation::Accepted,
        Some(Some(false)) => Confirmation::Rejected,
    }
}

/// Where a session stands.
#[derive(Clone, Copy, Debug, PartialEq, Eq, Structural)]
pub enum Stage {
    /// Between parts: the next field is awaited.
    Idle,
    /// A transfer is registered and its request is being published and
    /// answered.
    Confirming,
    /// The accepted file's bytes arrive.
    Receiving,
    /// The gathered bytes are being stored.
    Writing,
    /// A rejection ended the request; no further part is read.
    Closed,
}

/// The state of one upload request.
pub struct UploadSession {
    declared_size: Option<u64>,
    stage: Stage,
    transfer_id: String,
    file_name: String,
    received: u64,
    last_progress_ms: u64,
    first_chunk: bool,
    data: Vec<u8>,
}

/// A session as plain values.
pub struct SessionView {
    /// The size announced by the sender for the next file, if any.
    pub declared_size: Option<u64>,
    pub stage: Stage,
    /// The identifier of the current transfer.
    pub transfer_id: Seq<char>,
    /// The name of the current file.
    pub file_name: Seq<char>,
    /// How many bytes of the current file have arrived.
    pub received: u64,
    /// When progress was last published.
    pub last_progress_ms: u64,
    /// Whether the next chunk is the first of the current file.
    pub first_chunk: bool,
    /// The bytes gathered of the current file.
    pub data: Seq<u8>,
}

impl View for UploadSession {
    type V = SessionView;

    closed spec fn view(&self) -> SessionView {
        SessionView {
            declared_size: self.declared_size,
            stage: self.stage,
            transfer_id: self.transfer_id@,
            file_name: self.file_name@,
            received: self.received,
            last_progress_ms: self.last_progress_ms,
            first_chunk: self.first_chunk,
            data: self.data@,
        }
    }
}

/// Whether enough time has passed since the last progress event.
pub open spec fn progress_due(last_ms: u64, now_ms: u64) -> bool {
    now_ms - last_ms > PROGRESS_INTERVAL_MS
}

/// Tests whether a progress event is due.
pub fn is_progress_due(last_ms: u64, now_ms: u64) -> (due: bool)
    ensures
        due == progress_due(last_ms, now_ms),
{
    now_ms > last_ms && now_ms - last_ms > PROGRESS_INTERVAL_MS
}

/// The session after the decision on its transfer arrived at `now_ms`.
pub open spec fn after_confirmation(s: SessionView, outcome: Confirmation, now_ms: u64) -> SessionView {
    if s.stage != Stage::Confirming {
        s
    } else if outcome == Confirmation::Accepted {
        SessionView {
            stage: Stage::Receiving,
            received: 0,
            last_progress_ms: now_ms,
            first_chunk: true,
            data: Seq::<u8>::empty(),
            ..s
        }
    } else {
        SessionView { stage: Stage::Closed, ..s }
    }
}

/// The events published when the decision arrives.
pub open spec fn confirmation_events(s: SessionView, outcome: Confirmation) -> Seq<UiEventView> {
    if s.stage != Stage::Confirming {
        Seq::<UiEventView>::empty()
    } else {
        match outcome {
            Confirmation::Accepted => seq![
                UiEventView::ReceiveStart { transfer_id: s.transfer_id, file_name: s.file_name },
            ],
            Confirmation::TimedOut => seq![
                UiEventView::Timeout { transfer_id: s.transfer_id },
                UiEventView::Rejected { file_name: s.file_name },
            ],
            _ => seq![UiEventView::Rejected { file_name: s.file_name }],
        }
    }
}

/// The waiting transfers after the decision arrived: a transfer that timed
/// out is no longer waiting.
pub open spec fn pending_after_confirmation<S>(
    pending: Map<Seq<char>, S>,
    s: SessionView,
    outcome: Confirmation,
) -> Map<Seq<char>, S> {
    if s.stage == Stage::Confirming && outcome == Confirmation::TimedOut {
        pending.remove(s.transfer_id)
    } else {
        pending
    }
}

/// The session after a chunk arrived at `now_ms`.
pub open spec fn after_chunk(s: SessionView, chunk: Seq<u8>, now_ms: u64) -> SessionView {
    if s.stage != Stage::Receiving {
        s
    } else {
        SessionView {
            file_name: if s.first_chunk {
                stored_name(s.file_name, chunk, classified(chunk))
            } else {
                s.file_name
            },
            first_chunk: false,
            data: s.data + chunk,
            received: (s.received + chunk.len()) as u64,
            last_progress_ms: if progress_due(s.last_progress_ms, now_ms) {
                now_ms
            } else {
                s.last_progress_ms
            },
            ..s
        }
    }
}

/// The progress event that a chunk gives rise to, if one is due.
pub open spec fn chunk_progress(s: SessionView, chunk: Seq<u8>, now_ms: u64) -> Option<UiEventView> {
    if s.stage == Stage::Receiving && progress_due(s.last_progress_ms, now_ms) {
        Some(
            UiEventView::Progress {
                transfer_id: s.transfer_id,
                current_bytes: (s.received + chunk.len()) as u64,
                total_bytes: s.declared_size,
            },
        )
    } else {
        None
    }
}

/// The session after the attempt to store the file ended.
pub open spec fn after_write(s: SessionView, ok: bool) -> SessionView {
    if s.stage != Stage::Writing {
        s
    } else if ok {
        SessionView { stage: Stage::Idle, declared_size: None, ..s }
    } else {
        SessionView { stage: Stage::Idle, ..s }
    }
}

/// The events published when the attempt to store the file ended.
pub open spec fn write_events(s: SessionView, ok: bool) -> Seq<UiEventView> {
    if s.stage != Stage::Writing {
        Seq::<UiEventView>::empty()
    } else if ok {
        seq![
            UiEventView::Progress {
                transfer_id: s.transfer_id,
                current_bytes: s.received,
                total_bytes: Some(s.received),
            },
            UiEventView::ReceiveComplete { transfer_id: s.transfer_id, file_name: s.file_name },
        ]
    } else {
        seq![UiEventView::ReceiveError { file_name: s.file_name }]
    }
}

/// The view of an optional event.
pub open spec fn event_view(e: Option<UiEvent>) -> Option<UiEventView> {
    match e {
        Some(x) => Some(x@),
        None => None,
    }
}

/// The view of an optional raw file name.
pub open spec fn raw_view(raw: Option<&str>) -> Option<Seq<char>> {
    match raw {
        Some(r) => Some(r@),
        None => None,
    }
}

impl UploadSession {
    /// A session for a fresh request: idle, with no size announced, no
    /// transfer named and nothing received.
    pub fn new() -> (s: UploadSession)
        ensures
            s@ == (SessionView {
                declared_size: None,
                stage: Stage::Idle,
                transfer_id: Seq::<char>::empty(),
                file_name: Seq::<char>::empty(),
                received: 0,
                last_progress_ms: 0,
                first_chunk: true,
                data: Seq::<u8>::empty(),
            }),
    {
        UploadSession {
            declared_size: None,
            stage: Stage::Idle,
            transfer_id: String::new(),
            file_name: String::new(),
            received: 0,
            last_progress_ms: 0,
            first_chunk: true,
            data: Vec::new(),
        }
    }

    /// The stage of the session.
    pub fn stage(&self) -> (s: Stage)
        ensures
            s == self@.stage,
    {
        self.stage
    }

    /// The size announced for the next file.
    pub fn declared_size(&self) -> (s: Option<u64>)
        ensures
            s == self@.declared_size,
    {
        self.declared_size
    }

    /// The identifier of the current transfer.
    pub fn transfer_id(&self) -> (id: &String)
        ensures
            id@ == self@.transfer_id,
    {
        &self.transfer_id
    }

    /// The name of the current file.
    pub fn file_name(&self) -> (name: &String)
        ensures
            name@ == self@.file_name,
    {
        &self.file_name
    }

    /// How many bytes of the current file have arrived.
    pub fn received(&self) -> (n: u64)
        ensures
            n == self@.received,
    {
        self.received
    }

    /// The bytes gathered of the current file.
    pub fn data(&self) -> (d: &Vec<u8>)
        ensures
            d@ == self@.data,
    {
        &self.data
    }

    /// Takes note of the `size` field of the request.  While idle, the text
    /// replaces the announced size by the number it writes, or by none where
    /// it writes no number; in any other stage it is ignored.
    pub fn declare_size(&mut self, text: &str)
        ensures
            final(self)@ == if old(self)@.stage == Stage::Idle {
                (SessionView { declared_size: parsed_u64(text@), ..old(self)@ })
            } else {
                old(self)@
            },
    {
        if self.stage == Stage::Idle {
            self.declared_size = parse_u64(text);
        }
    }

    /// Begins a file part that arrived at `now_millis`.  While idle, a part
    /// with a file name is announced: its name is decoded and sanitized, its
    /// transfer gets an identifier and is registered with the given slot,
    /// and the request to publish is handed back.  A part without file name
    /// is skipped, and outside the idle stage nothing happens.
    pub fn begin_part<S>(
        &mut self,
        pending: &mut PendingTransfers<S>,
        slot: S,
        raw_file_name: Option<&str>,
        now_millis: u128,
    ) -> (request: Option<UiEvent>)
        ensures
            match raw_view(raw_file_name) {
                Some(raw) if old(self)@.stage == Stage::Idle => {
                    let name = received_name(raw, percent_decoded(raw));
                    let id = transfer_id_of(name, now_millis as nat);
                    &&& final(self)@ == (SessionView {
                        stage: Stage::Confirming,
                        transfer_id: id,
                        file_name: name,
                        ..old(self)@
                    })
                    &&& final(pending)@ == old(pending)@.insert(id, slot)
                    &&& event_view(request) == Some(
                        UiEventView::TransferRequest {
                            transfer_id: id,
                            file_name: name,
                            file_size: old(self)@.declared_size,
                        },
                    )
                },
                _ => {
                    &&& final(self)@ == old(self)@
                    &&& final(pending)@ == old(pending)@
                    &&& request is None
                },
            },
            match raw_view(raw_file_name) {
                Some(raw) => old(self)@.stage == Stage::Idle && !has_char(raw, '%')
                    ==> final(self)@.file_name == sanitized(raw),
                None => true,
            },
    {
        if self.stage != Stage::Idle {
            return None;
        }
        match raw_file_name {
            None => None,
            Some(raw) => {
                let name = receive_name(raw);
                let id = make_transfer_id(name.as_str(), now_millis);
                let _ = pending.register(id.clone(), slot);
                let request = UiEvent::TransferRequest {
                    transfer_id: id.clone(),
                    file_name: name.clone(),
                    file_size: self.declared_size,
                };
                self.transfer_id = id;
                self.file_name = name;
                self.stage = Stage::Confirming;
                Some(request)
            },
        }
    }

    /// Reports that the request could not be published.  The transfer is
    /// taken out of the registry and the session goes on with the next part.
    pub fn request_failed<S>(&mut self, pending: &mut PendingTransfers<S>)
        ensures
            final(self)@ == if old(self)@.stage == Stage::Confirming {
                (SessionView { stage: Stage::Idle, ..old(self)@ })
            } else {
                old(self)@
            },
            final(pending)@ == if old(self)@.stage == Stage::Confirming {
                old(pending)@.remove(old(self)@.transfer_id)
            } else {
                old(pending)@
            },
    {
        if self.stage == Stage::Confirming {
            let _ = pending.claim(self.transfer_id.as_str());
            self.stage = Stage::Idle;
        }
    }

    /// Reports the decision on the transfer, arrived at `now_ms`.  An
    /// accepted file begins to be received.  Any other outcome closes the
    /// session with a rejection event; a timeout also publishes a timeout
    /// event first and takes the transfer out of the registry.
    pub fn confirm<S>(
        &mut self,
        pending: &mut PendingTransfers<S>,
        outcome: Confirmation,
        now_ms: u64,
    ) -> (events: Vec<UiEvent>)
        ensures
            final(self)@ == after_confirmation(old(self)@, outcome, now_ms),
            final(pending)@ == pending_after_confirmation(old(pending)@, old(self)@, outcome),
            event_views(events@) == confirmation_events(old(self)@, outcome),
    {
        let mut events: Vec<UiEvent> = Vec::new();
        if self.stage != Stage::Confirming {
            return events;
        }
        match outcome {
            Confirmation::Accepted => {
                events.push(
                    UiEvent::ReceiveStart {
                        transfer_id: self.transfer_id.clone(),
                        file_name: self.file_name.clone(),
                    },
                );
                self.stage = Stage::Receiving;
                self.received = 0;
                self.last_progress_ms = now_ms;
                self.first_chunk = true;
                self.data = Vec::new();
            },
            Confirmation::TimedOut => {
                let _ = pending.claim(self.transfer_id.as_str());
                events.push(UiEvent::Timeout { transfer_id: self.transfer_id.clone() });
                events.push(UiEvent::Rejected { file_name: self.file_name.clone() });
                self.stage = Stage::Closed;
            },
            _ => {
                events.push(UiEvent::Rejected { file_name: self.file_name.clone() });
                self.stage = Stage::Closed;
            },
        }
        events
    }

    /// Takes in a chunk that arrived at `now_ms`.  The first chunk of a file
    /// settles the name under which the file is stored.  Every chunk is
    /// added to the gathered bytes, and a progress event is handed back
    /// where the last one is long enough ago.  The count of received bytes
    /// must stay within 64 bits.
    pub fn on_chunk(&mut self, chunk: &[u8], now_ms: u64) -> (progress: Option<UiEvent>)
        requires
            old(self)@.stage == Stage::Receiving ==> old(self)@.received + chunk@.len() <= u64::MAX,
        ensures
            final(self)@ == after_chunk(old(self)@, chunk@, now_ms),
            event_view(progress) == chunk_progress(old(self)@, chunk@, now_ms),
    {
        if self.stage != Stage::Receiving {
            return None;
        }
        if self.first_chunk {
            let name = self.file_name.clone();
            self.file_name = choose_stored_name(name, chunk);
            self.first_chunk = false;
        }
        let n = chunk.len();
        let mut i: usize = 0;
        while i < n
            invariant
                i <= n,
                n == chunk@.len(),
                self.data@ == old(self).data@ + chunk@.subrange(0, i as int),
                self.declared_size == old(self).declared_size,
                self.stage == old(self).stage,
                self.transfer_id == old(self).transfer_id,
                self.received == old(self).received,
                self.last_progress_ms == old(self).last_progress_ms,
                self.first_chunk == false,
                self.file_name@ == after_chunk(old(self)@, chunk@, now_ms).file_name,
            decreases n - i,
        {
            self.data.push(chunk[i]);
            i += 1;
        }
        assert(chunk@.subrange(0, n as int) =~= chunk@);
        self.received = self.received + n as u64;
        if is_progress_due(self.last_progress_ms, now_ms) {
            self.last_progress_ms = now_ms;
            Some(
                UiEvent::Progress {
                    transfer_id: self.transfer_id.clone(),
                    current_bytes: self.received,
                    total_bytes: self.declared_size,
                },
            )
        } else {
            None
        }
    }

    /// Reports that reading the file failed.  The part is given up with an
    /// error event and the session goes on with the next part.
    pub fn read_failed(&mut self) -> (error: Option<UiEvent>)
        ensures
            final(self)@ == if old(self)@.stage == Stage::Receiving {
                (SessionView { stage: Stage::Idle, ..old(self)@ })
            } else {
                old(self)@
            },
            event_view(error) == if old(self)@.stage == Stage::Receiving {
                Some(UiEventView::ReceiveError { file_name: old(self)@.file_name })
            } else {
                None
            },
    {
        if self.stage == Stage::Receiving {
            self.stage = Stage::Idle;
            Some(UiEvent::ReceiveError { file_name: self.file_name.clone() })
        } else {
            None
        }
    }

    /// Reports the end of the file: the gathered bytes are ready to be
    /// stored under the session's file name.  Tells whether they are.
    pub fn end_of_part(&mut self) -> (ready: bool)
        ensures
            ready == (old(self)@.stage == Stage::Receiving),
            final(self)@ == if ready {
                (SessionView { stage: Stage::Writing, ..old(self)@ })
            } else {
                old(self)@
            },
    {
        if self.stage == Stage::Receiving {
            self.stage = Stage::Writing;
            true
        } else {
            false
        }
    }

    /// Reports how storing the file went.  Success publishes full progress
    /// and then completion, and forgets the announced size; failure
    /// publishes an error.  Either way the session goes on with the next
    /// part.
    pub fn written(&mut self, ok: bool) -> (events: Vec<UiEvent>)
        ensures
            final(self)@ == after_write(old(self)@, ok),
            event_views(events@) == write_events(old(self)@, ok),
    {
        let mut events: Vec<UiEvent> = Vec::new();
        if self.stage != Stage::Writing {
            return events;
        }
        if ok {
            events.push(
                UiEvent::Progress {
                    transfer_id: self.transfer_id.clone(),
                    current_bytes: self.received,
                    total_bytes: Some(self.received),
                },
            );
            events.push(
                UiEvent::ReceiveComplete {
                    transfer_id: self.transfer_id.clone(),
                    file_name: self.file_name.clone(),
                },
            );
            self.declared_size = None;
        } else {
            events.push(UiEvent::ReceiveError { file_name: self.file_name.clone() });
        }
        self.stage = Stage::Idle;
        events
    }
}

/// The count of received bytes never goes back while chunks arrive.
pub proof fn received_never_decreases(s: SessionView, chunk: Seq<u8>, now_ms: u64)
    requires
        s.received + chunk.len() <= u64::MAX,
    ensures
        after_chunk(s, chunk, now_ms).received >= s.received,
        chunk_progress(s, chunk, now_ms) matches Some(UiEventView::Progress { current_bytes, .. })
            ==> current_bytes >= s.received,
{
}

/// A transfer that nobody answered in time is rejected: the session closes,
/// a timeout event and then a rejection are published, and the transfer is
/// no longer waiting.
pub proof fn timeout_rejects<S>(s: SessionView, pending: Map<Seq<char>, S>, now_ms: u64)
    requires
        s.stage == Stage::Confirming,
    ensures
        after_confirmation(s, Confirmation::TimedOut, now_ms).stage == Stage::Closed,
        confirmation_events(s, Confirmation::TimedOut) == seq![
            UiEventView::Timeout { transfer_id: s.transfer_id },
            UiEventView::Rejected { file_name: s.file_name },
        ],
        !pending_after_confirmation(pending, s, Confirmation::TimedOut).contains_key(s.transfer_id),
{
}

} // verus!
