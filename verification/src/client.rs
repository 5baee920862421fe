//! The sending side of a transfer: where requests go, what they carry and
//! how their outcome reads.

use vstd::prelude::*;
use vstd::string::*;
use crate::events::{EventName, UiEvent, UiEventView};
use crate::text::{decimal, has_prefix, push_decimal, starts_with};
use crate::upload::{event_view, is_progress_due, progress_due, text_view};

verus! {

/// How long a request may take before it is given up, in seconds.
pub const REQUEST_TIMEOUT_SECS: u64 = 300;

/// The path that files are posted to.
pub fn upload_path() -> (p: &'static str)
    ensures
        p@ == "/upload"@,
{
    "/upload"
}

/// The path that text messages are posted to.
pub fn message_path() -> (p: &'static str)
    ensures
        p@ == "/message"@,
{
    "/message"
}

/// The path of the liveness probe.
pub fn ping_path() -> (p: &'static str)
    ensures
        p@ == "/ping"@,
{
    "/ping"
}

/// The answer to the liveness probe.
pub fn ping_reply() -> (r: &'static str)
    ensures
        r@ == "pong"@,
{
    "pong"
}

/// The name of the field of an upload that announces the file's size.
pub fn size_field_name() -> (n: &'static str)
    ensures
        n@ == "size"@,
{
    "size"
}

/// The name of the field of an upload that carries the file.
pub fn file_field_name() -> (n: &'static str)
    ensures
        n@ == "file"@,
{
    "file"
}

/// The address of an endpoint of a peer.
pub open spec fn endpoint_url(ip: Seq<char>, port: u16, path: Seq<char>) -> Seq<char> {
    "http://"@ + ip + seq![':'] + decimal(port as nat) + path
}

fn endpoint(ip: &str, port: u16, path: &str) -> (url: String)
    ensures
        url@ == endpoint_url(ip@, port, path@),
{
    let mut url = "http://".to_owned();
    url.append(ip);
    url.push(':');
    push_decimal(&mut url, port as u128);
    url.append(path);
    url
}

/// The address that files are posted to.
pub fn upload_url(ip: &str, port: u16) -> (url: String)
    ensures
        url@ == endpoint_url(ip@, port, "/upload"@),
{
    endpoint(ip, port, upload_path())
}

/// The address that text messages are posted to.
pub fn message_url(ip: &str, port: u16) -> (url: String)
    ensures
        url@ == endpoint_url(ip@, port, "/message"@),
{
    endpoint(ip, port, message_path())
}

/// The `size` field of an upload request: the size in decimal.
pub fn size_field(size: u64) -> (text: String)
    ensures
        text@ == decimal(size as nat),
{
    let mut text = String::new();
    push_decimal(&mut text, size as u128);
    text
}

/// A text message as it is posted to a peer and republished by it.
#[derive(Debug, PartialEq, Eq)]
pub struct MessagePayload {
    pub sender_alias: String,
    pub content: String,
}

/// A message as plain values.
pub struct MessagePayloadView {
    pub sender_alias: Seq<char>,
    pub content: Seq<char>,
}

impl View for MessagePayload {
    type V = MessagePayloadView;

    open spec fn view(&self) -> MessagePayloadView {
        MessagePayloadView { sender_alias: self.sender_alias@, content: self.content@ }
    }
}

/// Builds the message that carries `text` from the device of the given
/// alias.
pub fn outgoing_message(text: String, sender_alias: String) -> (m: MessagePayload)
    ensures
        m@ == (MessagePayloadView { sender_alias: sender_alias@, content: text@ }),
{
    MessagePayload { sender_alias, content: text }
}

/// Republishes a received message: it goes to the user interface as it
/// came, under the name of received messages.
pub fn republish(message: MessagePayload) -> (r: (EventName, MessagePayload))
    ensures
        r.0 == EventName::MessageReceived,
        r.1@ == message@,
{
    (EventName::MessageReceived, message)
}

/// Why a file or a message could not be sent.
#[derive(Debug, PartialEq, Eq)]
pub enum SendError {
    /// The HTTP client could not be set up.
    Client(String),
    /// The path names no file.
    InvalidFileName,
    /// The file could not be opened.
    Open(String),
    /// The request did not go through.
    Request(String),
    /// The peer answered the upload with a status other than success.
    UploadStatus(String),
    /// The peer answered the message with a status other than success.
    MessageStatus(String),
}

/// The text of a send error.
pub open spec fn send_error_text(e: SendError) -> Seq<char> {
    match e {
        SendError::Client(d) => "Failed to create client: "@ + d@,
        SendError::InvalidFileName => "Invalid file name"@,
        SendError::Open(d) => "Failed to open file: "@ + d@,
        SendError::Request(d) => "Request failed: "@ + d@,
        SendError::UploadStatus(s) => "Upload failed with status: "@ + s@,
        SendError::MessageStatus(s) => "Message failed with status: "@ + s@,
    }
}

impl SendError {
    /// The error as the text that the caller is shown.
    pub fn message(&self) -> (text: String)
        ensures
            text@ == send_error_text(*self),
    {
        match self {
            SendError::Client(d) => "Failed to create client: ".to_owned().concat(d.as_str()),
            SendError::InvalidFileName => "Invalid file name".to_owned(),
            SendError::Open(d) => "Failed to open file: ".to_owned().concat(d.as_str()),
            SendError::Request(d) => "Request failed: ".to_owned().concat(d.as_str()),
            SendError::UploadStatus(s) => "Upload failed with status: ".to_owned().concat(
                s.as_str(),
            ),
            SendError::MessageStatus(s) => "Message failed with status: ".to_owned().concat(
                s.as_str(),
            ),
        }
    }
}

/// Reads the answer to an upload: success where the status says so, else an
/// error that carries the status.
pub fn upload_outcome(success: bool, status: String) -> (r: Result<(), SendError>)
    ensures
        success ==> r is Ok,
        !success ==> r == Err::<(), SendError>(SendError::UploadStatus(status)),
{
    if success {
        Ok(())
    } else {
        Err(SendError::UploadStatus(status))
    }
}

/// Reads the answer to a message: success where the status says so, else an
/// error that carries the status.
pub fn message_outcome(success: bool, status: String) -> (r: Result<(), SendError>)
    ensures
        success ==> r is Ok,
        !success ==> r == Err::<(), SendError>(SendError::MessageStatus(status)),
{
    if success {
        Ok(())
    } else {
        Err(SendError::MessageStatus(status))
    }
}

/// The name of the file that a path leads to, given the last component of
/// the path as the platform reads it.  Content addresses have no such name.
pub open spec fn file_name_result(path: Seq<char>, last: Option<Seq<char>>) -> Result<
    Seq<char>,
    Seq<char>,
> {
    if starts_with(path, "content://"@) {
        Err("Content URIs are only supported on Android"@)
    } else {
        match last {
            Some(name) => Ok(name),
            None => Err("Invalid file path"@),
        }
    }
}

/// The view of a name or the error in its place.
pub open spec fn result_view(r: Result<String, String>) -> Result<Seq<char>, Seq<char>> {
    match r {
        Ok(s) => Ok(s@),
        Err(e) => Err(e@),
    }
}

/// Names the file that a path leads to, given the path's last component.
pub fn file_name_from(file_path: &str, last: Option<String>) -> (r: Result<String, String>)
    ensures
        result_view(r) == file_name_result(file_path@, text_view(last)),
{
    if has_prefix(file_path, "content://") {
        return Err("Content URIs are only supported on Android".to_owned());
    }
    match last {
        Some(name) => Ok(name),
        None => Err("Invalid file path".to_owned()),
    }
}

/// The progress of an outgoing file.
pub struct SendProgress {
    transfer_id: String,
    total: u64,
    sent: u64,
    last_progress_ms: u64,
}

/// The progress of an outgoing file as plain values.
pub struct SendProgressView {
    /// The name of the file, which identifies the transfer to the sender.
    pub transfer_id: Seq<char>,
    /// The size of the file.
    pub total: u64,
    /// How many bytes have been handed to the connection.
    pub sent: u64,
    /// When progress was last published.
    pub last_progress_ms: u64,
}

impl View for SendProgress {
    type V = SendProgressView;

    closed spec fn view(&self) -> SendProgressView {
        SendProgressView {
            transfer_id: self.transfer_id@,
            total: self.total,
            sent: self.sent,
            last_progress_ms: self.last_progress_ms,
        }
    }
}

impl SendProgress {
    /// Progress of a file of the given name and size whose sending begins at
    /// `now_ms`.
    pub fn new(file_name: String, total: u64, now_ms: u64) -> (p: SendProgress)
        ensures
            p@ == (SendProgressView {
                transfer_id: file_name@,
                total,
                sent: 0,
                last_progress_ms: now_ms,
            }),
    {
        SendProgress { transfer_id: file_name, total, sent: 0, last_progress_ms: now_ms }
    }

    /// How many bytes have been handed to the connection.
    pub fn sent(&self) -> (n: u64)
        ensures
            n == self@.sent,
    {
        self.sent
    }

    /// Counts a chunk handed to the connection at `now_ms` and hands back a
    /// progress event where the last one is long enough ago.  The count of
    /// sent bytes must stay within 64 bits.
    pub fn on_chunk(&mut self, len: usize, now_ms: u64) -> (progress: Option<UiEvent>)
        requires
            old(self)@.sent + len <= u64::MAX,
        ensures
            final(self)@ == (SendProgressView {
                sent: (old(self)@.sent + len) as u64,
                last_progress_ms: if progress_due(old(self)@.last_progress_ms, now_ms) {
                    now_ms
                } else {
                    old(self)@.last_progress_ms
                },
                ..old(self)@
            }),
            event_view(progress) == if progress_due(old(self)@.last_progress_ms, now_ms) {
                Some(
                    UiEventView::Progress {
                        transfer_id: old(self)@.transfer_id,
                        current_bytes: (old(self)@.sent + len) as u64,
                        total_bytes: Some(old(self)@.total),
                    },
                )
            } else {
                None
            },
    {
        self.sent = self.sent + len as u64;
        if is_progress_due(self.last_progress_ms, now_ms) {
            self.last_progress_ms = now_ms;
            Some(
                UiEvent::Progress {
                    transfer_id: self.transfer_id.clone(),
                    current_bytes: self.sent,
                    total_bytes: Some(self.total),
                },
            )
        } else {
            None
        }
    }

    /// The event that closes a successful upload: all of the file has
    /// passed.
    pub fn finished(&self) -> (progress: UiEvent)
        ensures
            progress@ == (UiEventView::Progress {
                transfer_id: self@.transfer_id,
                current_bytes: self@.total,
                total_bytes: Some(self@.total),
            }),
    {
        UiEvent::Progress {
            transfer_id: self.transfer_id.clone(),
            current_bytes: self.total,
            total_bytes: Some(self.total),
        }
    }
}

} // verus!
