//! The queue of notifications that are waiting for another delivery attempt.

use vstd::prelude::*;

verus! {

/// Directory that holds the queue file.
pub const QUEUE_DIR: &'static str = "/var/lib/ntfy-send";

/// Name of the queue file inside [`QUEUE_DIR`].
pub const QUEUE_FILE: &'static str = "unsent-messages-queue.json";

/// One notification that has not been delivered yet.
#[derive(Debug, PartialEq, Eq)]
pub struct Message {
    /// Base URL of the server.
    pub server: String,
    pub topic: String,
    /// The notification text.
    pub message: String,
    pub username: Option<String>,
    pub password: Option<String>,
}

/// What a [`Message`] says, as mathematical values.
pub ghost struct MessageView {
    pub server: Seq<char>,
    pub topic: Seq<char>,
    pub message: Seq<char>,
    pub username: Option<Seq<char>>,
    pub password: Option<Seq<char>>,
}

impl View for Message {
    type V = MessageView;

    open spec fn view(&self) -> MessageView {
        MessageView {
            server: self.server@,
            topic: self.topic@,
            message: self.message@,
            username: self.username.deep_view(),
            password: self.password.deep_view(),
        }
    }
}

impl DeepView for Message {
    type V = MessageView;

    open spec fn deep_view(&self) -> MessageView {
        self.view()
    }
}

/// What the caller found where the queue file is kept.
#[derive(Debug, PartialEq, Eq)]
pub enum Stored {
    /// There is no queue file.
    Missing,
    /// There is a queue file, and it does not hold a list of messages.
    Malformed,
    /// The messages that the queue file holds, oldest first.
    Messages(Vec<Message>),
}

impl Stored {
    /// The messages that a queue starts with: those of the file, and none
    /// where the file is missing or cannot be read as a list of messages.
    pub open spec fn messages(self) -> Seq<MessageView> {
        match self {
            Stored::Messages(messages) => messages.deep_view(),
            _ => Seq::empty(),
        }
    }
}

/// The pending messages, oldest first.
pub struct MessageQueue {
    messages: Vec<Message>,
}

impl View for MessageQueue {
    type V = Seq<MessageView>;

    closed spec fn view(&self) -> Seq<MessageView> {
        self.messages.deep_view()
    }
}

impl MessageQueue {
    /// The queue as it was stored. A missing file and a malformed one both
    /// give the empty queue.
    pub fn load(stored: Stored) -> (queue: MessageQueue)
        ensures
            queue@ == stored.messages(),
    {
        match stored {
            Stored::Messages(messages) => MessageQueue { messages },
            _ => {
                let queue = MessageQueue { messages: Vec::new() };
                assert(queue.messages.deep_view() =~= Seq::<MessageView>::empty());
                queue
            },
        }
    }

    /// The messages to store so that a later [`MessageQueue::load`] gives this
    /// queue again: all of them, oldest first.
    pub fn save(&self) -> (messages: &Vec<Message>)
        ensures
            messages.deep_view() == self@,
    {
        &self.messages
    }

    /// Appends `message` behind every message already held.
    pub fn add(&mut self, message: Message)
        ensures
            final(self)@ == old(self)@.push(message@),
    {
        self.messages.push(message);
        assert(self.messages.deep_view() =~= old(self).messages.deep_view().push(message@));
    }

    /// Removes every message and hands them out, oldest first.
    pub fn take_all(&mut self) -> (messages: Vec<Message>)
        ensures
            messages.deep_view() == old(self)@,
            final(self)@ == Seq::<MessageView>::empty(),
    {
        let mut messages: Vec<Message> = Vec::new();
        std::mem::swap(&mut self.messages, &mut messages);
        assert(self.messages.deep_view() =~= Seq::<MessageView>::empty());
        messages
    }
}

/// The queue after each of `messages` has been added to `queue`, first to last.
pub open spec fn added_all(queue: Seq<MessageView>, messages: Seq<MessageView>) -> Seq<MessageView>
    decreases messages.len(),
{
    if messages.len() == 0 {
        queue
    } else {
        added_all(queue, messages.drop_last()).push(messages.last())
    }
}

/// Messages that are added one by one stand behind what the queue held, each
/// once and in the order in which they were added.
pub proof fn lemma_added_all_appends(queue: Seq<MessageView>, messages: Seq<MessageView>)
    ensures
        added_all(queue, messages) == queue + messages,
    decreases messages.len(),
{
    if messages.len() == 0 {
        assert(queue + messages =~= queue);
    } else {
        lemma_added_all_appends(queue, messages.drop_last());
        assert((queue + messages.drop_last()).push(messages.last()) =~= queue + messages);
    }
}

/// Adding messages to a queue that was loaded where no file was, and then
/// taking all, hands out exactly those messages in the order of adding: that
/// is `taken`. The queue that is left holds nothing, so what it saves,
/// `saved`, holds nothing, and a queue loaded from it is empty.
pub proof fn lemma_add_then_take_all(
    messages: Seq<MessageView>,
    taken: Vec<Message>,
    saved: Vec<Message>,
)
    requires
        taken.deep_view() == added_all(Stored::Missing.messages(), messages),
        saved.deep_view() == Seq::<MessageView>::empty(),
    ensures
        taken.deep_view() == messages,
        Stored::Messages(saved).messages() == Seq::<MessageView>::empty(),
{
    lemma_added_all_appends(Seq::empty(), messages);
    assert(Seq::<MessageView>::empty() + messages =~= messages);
}

/// Saving right after loading stores what was stored before: `saved`, which
/// [`MessageQueue::save`] hands out of the queue loaded from `stored`, holds
/// the messages of `stored`, each as it was and in the same order.
pub proof fn lemma_save_after_load(stored: Vec<Message>, saved: Vec<Message>)
    requires
        saved.deep_view() == Stored::Messages(stored).messages(),
    ensures
        saved.deep_view() == stored.deep_view(),
{
}

} // verus!
