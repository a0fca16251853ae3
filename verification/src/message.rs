//! The unified message model shared by every platform.

use vstd::prelude::*;
use crate::time::Timestamp;

verus! {

/// One chat message, whatever the platform it came from.
#[derive(Debug, PartialEq, Eq)]
pub struct Message {
    /// Display name of the author.
    pub sender: String,
    /// Text of the message; empty for a message that carried no text.
    pub content: String,
    /// When the message was sent, where the export gave a readable time.
    pub timestamp: Option<Timestamp>,
    /// The platform's own identifier of the message.
    pub id: Option<u64>,
    /// Identifier of the message this one answers. It is a lookup key only:
    /// the message it names need not be part of the same collection.
    pub reply_to: Option<u64>,
    /// When the message was last edited.
    pub edited: Option<Timestamp>,
}

/// What a [`Message`] holds, as mathematical values.
pub struct MessageView {
    pub sender: Seq<char>,
    pub content: Seq<char>,
    pub timestamp: Option<Timestamp>,
    pub id: Option<u64>,
    pub reply_to: Option<u64>,
    pub edited: Option<Timestamp>,
}

impl View for Message {
    type V = MessageView;

    open spec fn view(&self) -> MessageView {
        MessageView {
            sender: self.sender@,
            content: self.content@,
            timestamp: self.timestamp,
            id: self.id,
            reply_to: self.reply_to,
            edited: self.edited,
        }
    }
}

impl Clone for Message {
    fn clone(&self) -> (r: Self)
        ensures
            r@ == self@,
    {
        Message {
            sender: self.sender.clone(),
            content: self.content.clone(),
            timestamp: self.timestamp,
            id: self.id,
            reply_to: self.reply_to,
            edited: self.edited,
        }
    }
}

impl Message {
    /// A message with sender and content and nothing else known of it.
    pub fn new(sender: &str, content: &str) -> (r: Self)
        ensures
            r@ == (MessageView {
                sender: sender@,
                content: content@,
                timestamp: None,
                id: None,
                reply_to: None,
                edited: None,
            }),
    {
        Message {
            sender: sender.to_owned(),
            content: content.to_owned(),
            timestamp: None,
            id: None,
            reply_to: None,
            edited: None,
        }
    }

    /// The same message, sent at `timestamp`.
    pub fn with_timestamp(self, timestamp: Timestamp) -> (r: Self)
        ensures
            r@ == (MessageView { timestamp: Some(timestamp), ..self@ }),
    {
        Message { timestamp: Some(timestamp), ..self }
    }

    /// The same message, carrying the platform identifier `id`.
    pub fn with_id(self, id: u64) -> (r: Self)
        ensures
            r@ == (MessageView { id: Some(id), ..self@ }),
    {
        Message { id: Some(id), ..self }
    }

    /// The same message, marked as an answer to the message `reply_to`.
    pub fn with_reply_to(self, reply_to: u64) -> (r: Self)
        ensures
            r@ == (MessageView { reply_to: Some(reply_to), ..self@ }),
    {
        Message { reply_to: Some(reply_to), ..self }
    }

    /// The same message, last edited at `edited`.
    pub fn with_edited(self, edited: Timestamp) -> (r: Self)
        ensures
            r@ == (MessageView { edited: Some(edited), ..self@ }),
    {
        Message { edited: Some(edited), ..self }
    }
}

/// The views of a sequence of messages, in order.
pub open spec fn message_views(s: Seq<Message>) -> Seq<MessageView> {
    Seq::new(s.len(), |i: int| s[i]@)
}

/// Every message of `messages` has a sender.
pub open spec fn all_named(messages: Seq<MessageView>) -> bool {
    forall|i: int| 0 <= i < messages.len() ==> (#[trigger] messages[i]).sender.len() > 0
}

/// Appending a message appends its view.
pub proof fn lemma_views_push(s: Seq<Message>, m: Message)
    ensures
        message_views(s.push(m)) == message_views(s).push(m@),
{
    assert(message_views(s.push(m)) =~= message_views(s).push(m@));
}

} // verus!
