//! One delivery attempt: the request to make, and what follows from its outcome.

use vstd::prelude::*;
use vstd::string::*;
use crate::logging::{Level, LogEntry, LogEntryView};
use crate::queue::{Message, MessageQueue, MessageView, Stored};

verus! {

/// Certificates of the server are not validated: a self-hosted server with a
/// self-signed certificate is accepted, and so is anyone who poses as it.
pub const ACCEPT_INVALID_CERTS: bool = true;

/// User name and password for HTTP Basic authentication.
#[derive(Debug, PartialEq, Eq)]
pub struct Credentials {
    pub username: String,
    pub password: String,
}

/// The HTTP POST that delivers a message.
#[derive(Debug, PartialEq, Eq)]
pub struct Request {
    pub url: String,
    /// The payload, sent as it is.
    pub body: String,
    /// Sent as HTTP Basic authentication where present.
    pub basic_auth: Option<Credentials>,
    pub accept_invalid_certs: bool,
}

/// What a [`Request`] says, as mathematical values; `basic_auth` holds the
/// user name and the password.
pub ghost struct RequestView {
    pub url: Seq<char>,
    pub body: Seq<char>,
    pub basic_auth: Option<(Seq<char>, Seq<char>)>,
    pub accept_invalid_certs: bool,
}

impl View for Request {
    type V = RequestView;

    open spec fn view(&self) -> RequestView {
        RequestView {
            url: self.url@,
            body: self.body@,
            basic_auth: match self.basic_auth {
                Some(credentials) => Some((credentials.username@, credentials.password@)),
                None => None,
            },
            accept_invalid_certs: self.accept_invalid_certs,
        }
    }
}

/// Where a message is posted to: `{server}/{topic}`.
pub open spec fn target_url(server: Seq<char>, topic: Seq<char>) -> Seq<char> {
    server + seq!['/'] + topic
}

/// The request that delivers `message`. Credentials are sent only where both
/// the user name and the password are given.
pub open spec fn request_for(message: MessageView) -> RequestView {
    RequestView {
        url: target_url(message.server, message.topic),
        body: message.message,
        basic_auth: match (message.username, message.password) {
            (Some(username), Some(password)) => Some((username, password)),
            _ => None,
        },
        accept_invalid_certs: true,
    }
}

/// Status code of an HTTP response, between 100 and 999.
#[derive(Clone, Copy, Debug, PartialEq, Eq)]
pub struct Status {
    code: u16,
}

impl View for Status {
    type V = u16;

    closed spec fn view(&self) -> u16 {
        self.code
    }
}

/// What `reqwest::StatusCode` prints for the status with this code: the code,
/// a space, and the reason phrase that the `http` crate lists for it.
pub uninterp spec fn status_line(code: u16) -> Seq<char>;

/// `reqwest::StatusCode::is_success` for the status with this code: whether
/// the code lies in 200..=299. A number that is no status code is no success.
#[verifier::external_body]
fn code_is_success(code: u16) -> (success: bool)
    ensures
        success == (200 <= code <= 299),
{
    match reqwest::StatusCode::from_u16(code) {
        Ok(status) => status.is_success(),
        Err(_) => false,
    }
}

/// `Display` of `reqwest::StatusCode` for the status with this code, which
/// `reqwest::StatusCode::from_u16` makes of a number from 100 to 999 and of
/// no other.
#[verifier::external_body]
fn code_to_text(code: u16) -> (text: Option<String>)
    ensures
        text is Some <==> 100 <= code <= 999,
        text matches Some(t) ==> t@ == status_line(code),
{
    match reqwest::StatusCode::from_u16(code) {
        Ok(status) => Some(status.to_string()),
        Err(_) => None,
    }
}

impl Status {
    #[verifier::type_invariant]
    spec fn in_range(self) -> bool {
        100 <= self.code <= 999
    }

    /// The status with this code, where there is one.
    pub fn from_u16(code: u16) -> (status: Option<Status>)
        ensures
            status is Some <==> 100 <= code <= 999,
            status matches Some(s) ==> s@ == code,
    {
        if 100 <= code && code <= 999 {
            Some(Status { code })
        } else {
            None
        }
    }

    /// The code of the status.
    pub fn as_u16(&self) -> (code: u16)
        ensures
            code == self@,
            100 <= code <= 999,
    {
        proof {
            use_type_invariant(self);
        }
        self.code
    }

    /// Whether the status says that the request was accepted: 200 to 299.
    pub fn is_success(&self) -> (success: bool)
        ensures
            success == (200 <= self@ <= 299),
    {
        code_is_success(self.code)
    }

    /// The status as it is shown to a reader, such as `404 Not Found`.
    pub fn to_text(&self) -> (text: String)
        ensures
            text@ == status_line(self@),
    {
        proof {
            use_type_invariant(self);
        }
        match code_to_text(self.code) {
            Some(text) => text,
            None => vstd::pervasive::unreached(),
        }
    }
}

/// How a delivery attempt ended.
#[derive(Debug, PartialEq, Eq)]
pub enum Delivery {
    /// The server answered with this status.
    Response { status: Status },
    /// There was no answer; `detail` says what went wrong on the way.
    Failed { detail: String },
}

/// What a [`Delivery`] says, as mathematical values.
pub ghost enum DeliveryView {
    Response { status: u16 },
    Failed { detail: Seq<char> },
}

impl View for Delivery {
    type V = DeliveryView;

    open spec fn view(&self) -> DeliveryView {
        match self {
            Delivery::Response { status } => DeliveryView::Response { status: status@ },
            Delivery::Failed { detail } => DeliveryView::Failed { detail: detail@ },
        }
    }
}

impl DeliveryView {
    /// The message has arrived: the server answered, with a status from 200 to
    /// 299. Every other outcome is a failure, whatever its kind.
    pub open spec fn delivered(self) -> bool {
        self matches DeliveryView::Response { status } && 200 <= status <= 299
    }

    /// What the log says of a failure: the status of the answer, or what went
    /// wrong on the way.
    pub open spec fn failure_detail(self) -> Seq<char> {
        match self {
            DeliveryView::Response { status } => status_line(status),
            DeliveryView::Failed { detail } => detail,
        }
    }
}

impl Delivery {
    /// Whether the message has arrived.
    pub fn delivered(&self) -> (delivered: bool)
        ensures
            delivered == self@.delivered(),
    {
        match self {
            Delivery::Response { status } => status.is_success(),
            Delivery::Failed { .. } => false,
        }
    }
}

/// A message on its way: what is sent, and what is kept to queue it again.
#[derive(Debug, PartialEq, Eq)]
pub struct Attempt {
    pub message: Message,
    pub request: Request,
}

/// What an [`Attempt`] says, as mathematical values.
pub ghost struct AttemptView {
    pub message: MessageView,
    pub request: RequestView,
}

impl View for Attempt {
    type V = AttemptView;

    open spec fn view(&self) -> AttemptView {
        AttemptView { message: self.message@, request: self.request@ }
    }
}

impl DeepView for Attempt {
    type V = AttemptView;

    open spec fn deep_view(&self) -> AttemptView {
        self.view()
    }
}

/// The attempt to deliver `message`.
pub open spec fn attempt_for(message: MessageView) -> AttemptView {
    AttemptView { message, request: request_for(message) }
}

/// What to do once a delivery attempt has ended.
#[derive(Debug, PartialEq, Eq)]
pub struct Resolution {
    /// Records to write to the log, in this order.
    pub entries: Vec<LogEntry>,
    /// The message to add to the stored queue, where it was not delivered.
    pub requeue: Option<Message>,
}

/// What a [`Resolution`] says, as mathematical values.
pub ghost struct ResolutionView {
    pub entries: Seq<LogEntryView>,
    pub requeue: Option<MessageView>,
}

impl View for Resolution {
    type V = ResolutionView;

    open spec fn view(&self) -> ResolutionView {
        ResolutionView { entries: self.entries.deep_view(), requeue: self.requeue.deep_view() }
    }
}

/// The record that announces an attempt.
pub open spec fn announcement_for(message: MessageView) -> LogEntryView {
    LogEntryView {
        level: Level::Info,
        message: "Attempting to send message to "@ + message.server + " on topic "@
            + message.topic,
    }
}

/// What follows from `outcome` for `message`. Delivered: one informational
/// record, nothing to queue. Not delivered: an error record with the detail,
/// an informational one that the message is queued, and the message itself,
/// unchanged, to be queued.
pub open spec fn resolution_for(message: MessageView, outcome: DeliveryView) -> ResolutionView {
    if outcome.delivered() {
        ResolutionView {
            entries: seq![
                LogEntryView { level: Level::Info, message: "Message sent successfully"@ },
            ],
            requeue: None,
        }
    } else {
        ResolutionView {
            entries: seq![
                LogEntryView {
                    level: Level::Error,
                    message: "Failed to send message: "@ + outcome.failure_detail(),
                },
                LogEntryView {
                    level: Level::Info,
                    message: "Queueing message for later delivery"@,
                },
            ],
            requeue: Some(message),
        }
    }
}

impl Attempt {
    /// The attempt to deliver `message`.
    pub fn new(message: Message) -> (attempt: Attempt)
        ensures
            attempt@ == attempt_for(message@),
    {
        let mut url = String::from_str(message.server.as_str());
        url.append("/");
        url.append(message.topic.as_str());
        proof {
            reveal_strlit("/");
            assert("/"@ =~= seq!['/']);
        }
        let body = message.message.clone();
        let basic_auth = match &message.username {
            Some(username) => match &message.password {
                Some(password) => Some(
                    Credentials { username: username.clone(), password: password.clone() },
                ),
                None => None,
            },
            None => None,
        };
        let request = Request { url, body, basic_auth, accept_invalid_certs: ACCEPT_INVALID_CERTS };
        Attempt { message, request }
    }

    /// The record to write to the log before the request is made.
    pub fn announcement(&self) -> (entry: LogEntry)
        ensures
            entry@ == announcement_for(self.message@),
    {
        let mut text = String::from_str("Attempting to send message to ");
        text.append(self.message.server.as_str());
        text.append(" on topic ");
        text.append(self.message.topic.as_str());
        LogEntry { level: Level::Info, message: text }
    }

    /// Closes the attempt with its outcome.
    pub fn conclude(self, outcome: &Delivery) -> (resolution: Resolution)
        ensures
            resolution@ == resolution_for(self.message@, outcome@),
    {
        let mut entries: Vec<LogEntry> = Vec::new();
        let requeue = match outcome {
            Delivery::Response { status } => {
                if status.is_success() {
                    entries.push(
                        LogEntry {
                            level: Level::Info,
                            message: String::from_str("Message sent successfully"),
                        },
                    );
                    None
                } else {
                    let detail = status.to_text();
                    entries.push(failure_entry(detail.as_str()));
                    entries.push(queueing_entry());
                    Some(self.message)
                }
            },
            Delivery::Failed { detail } => {
                entries.push(failure_entry(detail.as_str()));
                entries.push(queueing_entry());
                Some(self.message)
            },
        };
        let resolution = Resolution { entries, requeue };
        assert(resolution@.entries =~= resolution_for(self.message@, outcome@).entries);
        resolution
    }
}

fn failure_entry(detail: &str) -> (entry: LogEntry)
    ensures
        entry@ == (LogEntryView {
            level: Level::Error,
            message: "Failed to send message: "@ + detail@,
        }),
{
    let mut text = String::from_str("Failed to send message: ");
    text.append(detail);
    LogEntry { level: Level::Error, message: text }
}

fn queueing_entry() -> (entry: LogEntry)
    ensures
        entry@ == (LogEntryView {
            level: Level::Info,
            message: "Queueing message for later delivery"@,
        }),
{
    LogEntry { level: Level::Info, message: String::from_str("Queueing message for later delivery") }
}

/// Starts the delivery of a notification: the attempt whose request is to be
/// made.
pub fn send_message(
    server: &str,
    topic: &str,
    message: &str,
    username: Option<String>,
    password: Option<String>,
) -> (attempt: Attempt)
    ensures
        attempt@ == attempt_for(
            MessageView {
                server: server@,
                topic: topic@,
                message: message@,
                username: username.deep_view(),
                password: password.deep_view(),
            },
        ),
{
    Attempt::new(
        Message {
            server: String::from_str(server),
            topic: String::from_str(topic),
            message: String::from_str(message),
            username,
            password,
        },
    )
}

/// Queues `message` for a later attempt: the queue to store is the stored one
/// with `message` behind it.
pub fn queue_message(stored: Stored, message: Message) -> (queue: MessageQueue)
    ensures
        queue@ == stored.messages().push(message@),
{
    let mut queue = MessageQueue::load(stored);
    queue.add(message);
    queue
}

/// Empties the stored queue for a retry: the queue to store, which holds
/// nothing, and one attempt for each message that was stored, oldest first.
pub fn clear_queue(stored: Stored) -> (drained: (MessageQueue, Vec<Attempt>))
    ensures
        drained.0@ == Seq::<MessageView>::empty(),
        drained.1.deep_view() == stored.messages().map_values(|m: MessageView| attempt_for(m)),
{
    let mut queue = MessageQueue::load(stored);
    let messages = queue.take_all();
    let ghost all = messages.deep_view();
    let mut attempts: Vec<Attempt> = Vec::new();
    for message in it: messages
        invariant
            it.seq().len() == all.len(),
            forall|i: int| 0 <= i < all.len() ==> (#[trigger] it.seq()[i])@ == all[i],
            attempts.len() == it.index(),
            forall|i: int|
                0 <= i < attempts.len() ==> (#[trigger] attempts[i])@ == attempt_for(all[i]),
    {
        attempts.push(Attempt::new(message));
    }
    assert(attempts.deep_view() =~= all.map_values(|m: MessageView| attempt_for(m)));
    (queue, attempts)
}

/// A message that was not delivered is queued once and unchanged: the
/// resolution hands it back as it was, and the queue to store is the stored
/// one with that message as its one new, last entry.
pub proof fn lemma_undelivered_is_queued_once(
    stored: Stored,
    message: MessageView,
    outcome: DeliveryView,
)
    requires
        !outcome.delivered(),
    ensures
        resolution_for(message, outcome).requeue == Some(message),
        stored.messages().push(message).len() == stored.messages().len() + 1,
        stored.messages().push(message).last() == message,
        stored.messages().push(message).drop_last() == stored.messages(),
{
    assert(stored.messages().push(message).drop_last() =~= stored.messages());
}

/// An answer with a status outside 200..=299 is a failure, and every failure
/// is treated alike: whether the server refused or could not be reached, the
/// same message is queued, and the log gets records of the same levels.
pub proof fn lemma_failure_is_binary(message: MessageView, status: u16, detail: Seq<char>)
    requires
        !(200 <= status <= 299),
    ensures
        !(DeliveryView::Response { status }).delivered(),
        !(DeliveryView::Failed { detail }).delivered(),
        resolution_for(message, DeliveryView::Response { status }).requeue == resolution_for(
            message,
            DeliveryView::Failed { detail },
        ).requeue,
        resolution_for(message, DeliveryView::Response { status }).entries.map_values(
            |e: LogEntryView| e.level,
        ) == resolution_for(message, DeliveryView::Failed { detail }).entries.map_values(
            |e: LogEntryView| e.level,
        ),
{
    assert(resolution_for(message, DeliveryView::Response { status }).entries.map_values(
        |e: LogEntryView| e.level,
    ) =~= resolution_for(message, DeliveryView::Failed { detail }).entries.map_values(
        |e: LogEntryView| e.level,
    ));
}

} // verus!
