//! The events that the engine publishes to the user interface.

use vstd::prelude::*;
use vstd::string::*;

verus! {

/// The names under which events are published.
#[derive(Clone, Copy, Debug, PartialEq, Eq, Structural)]
pub enum EventName {
    PeersUpdate,
    AliasChanged,
    FileTransferRequest,
    TransferProgress,
    FileReceiveStart,
    FileReceiveComplete,
    FileReceiveError,
    FileTransferRejected,
    FileTransferTimeout,
    MessageReceived,
}

/// The text of an event name as it goes over the wire.
pub open spec fn wire_name(name: EventName) -> Seq<char> {
    match name {
        EventName::PeersUpdate => "peers-update"@,
        EventName::AliasChanged => "alias-changed"@,
        EventName::FileTransferRequest => "file-transfer-request"@,
        EventName::TransferProgress => "transfer-progress"@,
        EventName::FileReceiveStart => "file-receive-start"@,
        EventName::FileReceiveComplete => "file-receive-complete"@,
        EventName::FileReceiveError => "file-receive-error"@,
        EventName::FileTransferRejected => "file-transfer-rejected"@,
        EventName::FileTransferTimeout => "file-transfer-timeout"@,
        EventName::MessageReceived => "message-received"@,
    }
}

impl EventName {
    /// The name as it goes over the wire.
    pub fn as_str(&self) -> (s: &'static str)
        ensures
            s@ == wire_name(*self),
    {
        match self {
            EventName::PeersUpdate => "peers-update",
            EventName::AliasChanged => "alias-changed",
            EventName::FileTransferRequest => "file-transfer-request",
            EventName::TransferProgress => "transfer-progress",
            EventName::FileReceiveStart => "file-receive-start",
            EventName::FileReceiveComplete => "file-receive-complete",
            EventName::FileReceiveError => "file-receive-error",
            EventName::FileTransferRejected => "file-transfer-rejected",
            EventName::FileTransferTimeout => "file-transfer-timeout",
            EventName::MessageReceived => "message-received",
        }
    }
}

/// An event in the life of a transfer, with what it carries.
#[derive(Debug, PartialEq, Eq)]
pub enum UiEvent {
    /// The user is asked whether to accept a file.
    TransferRequest { transfer_id: String, file_name: String, file_size: Option<u64> },
    /// So many bytes of the transfer have passed.
    Progress { transfer_id: String, current_bytes: u64, total_bytes: Option<u64> },
    /// An accepted file begins to arrive.
    ReceiveStart { transfer_id: String, file_name: String },
    /// A file has been stored.
    ReceiveComplete { transfer_id: String, file_name: String },
    /// A file could not be read or stored.
    ReceiveError { file_name: String },
    /// A file was turned down, by the user or for want of an answer.
    Rejected { file_name: String },
    /// Nobody answered the request in time.
    Timeout { transfer_id: String },
}

/// A transfer event as plain values.
pub enum UiEventView {
    TransferRequest { transfer_id: Seq<char>, file_name: Seq<char>, file_size: Option<u64> },
    Progress { transfer_id: Seq<char>, current_bytes: u64, total_bytes: Option<u64> },
    ReceiveStart { transfer_id: Seq<char>, file_name: Seq<char> },
    ReceiveComplete { transfer_id: Seq<char>, file_name: Seq<char> },
    ReceiveError { file_name: Seq<char> },
    Rejected { file_name: Seq<char> },
    Timeout { transfer_id: Seq<char> },
}

impl View for UiEvent {
    type V = UiEventView;

    open spec fn view(&self) -> UiEventView {
        match self {
            UiEvent::TransferRequest { transfer_id, file_name, file_size } => {
                UiEventView::TransferRequest {
                    transfer_id: transfer_id@,
                    file_name: file_name@,
                    file_size: *file_size,
                }
            },
            UiEvent::Progress { transfer_id, current_bytes, total_bytes } => UiEventView::Progress {
                transfer_id: transfer_id@,
                current_bytes: *current_bytes,
                total_bytes: *total_bytes,
            },
            UiEvent::ReceiveStart { transfer_id, file_name } => UiEventView::ReceiveStart {
                transfer_id: transfer_id@,
                file_name: file_name@,
            },
            UiEvent::ReceiveComplete { transfer_id, file_name } => UiEventView::ReceiveComplete {
                transfer_id: transfer_id@,
                file_name: file_name@,
            },
            UiEvent::ReceiveError { file_name } => UiEventView::ReceiveError {
                file_name: file_name@,
            },
            UiEvent::Rejected { file_name } => UiEventView::Rejected { file_name: file_name@ },
            UiEvent::Timeout { transfer_id } => UiEventView::Timeout { transfer_id: transfer_id@ },
        }
    }
}

/// The name under which a transfer event is published.
pub open spec fn name_of(event: UiEventView) -> EventName {
    match event {
        UiEventView::TransferRequest { .. } => EventName::FileTransferRequest,
        UiEventView::Progress { .. } => EventName::TransferProgress,
        UiEventView::ReceiveStart { .. } => EventName::FileReceiveStart,
        UiEventView::ReceiveComplete { .. } => EventName::FileReceiveComplete,
        UiEventView::ReceiveError { .. } => EventName::FileReceiveError,
        UiEventView::Rejected { .. } => EventName::FileTransferRejected,
        UiEventView::Timeout { .. } => EventName::FileTransferTimeout,
    }
}

impl UiEvent {
    /// The name under which the event is published.
    pub fn name(&self) -> (n: EventName)
        ensures
            n == name_of(self@),
    {
        match self {
            UiEvent::TransferRequest { .. } => EventName::FileTransferRequest,
            UiEvent::Progress { .. } => EventName::TransferProgress,
            UiEvent::ReceiveStart { .. } => EventName::FileReceiveStart,
            UiEvent::ReceiveComplete { .. } => EventName::FileReceiveComplete,
            UiEvent::ReceiveError { .. } => EventName::FileReceiveError,
            UiEvent::Rejected { .. } => EventName::FileTransferRejected,
            UiEvent::Timeout { .. } => EventName::FileTransferTimeout,
        }
    }
}

/// The events of a list as plain values.
pub open spec fn event_views(events: Seq<UiEvent>) -> Seq<UiEventView> {
    events.map_values(|e: UiEvent| e@)
}

} // verus!
