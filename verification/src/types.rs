//! The records handed to and taken from the host language: every field is a
//! number, a flag or text.

use vstd::prelude::*;
use vstd::string::*;
use crate::filter::{FilterConfig, FilterConfigView};
use crate::message::{message_views, Message, MessageView};
use crate::time::{
    date_bound_of_text, format_rfc3339, offset_datetime_instant, parse_date_bound,
    parse_offset_datetime, rfc3339_text, Timestamp,
};

verus! {

/// Characters of the content that the debugging text of a message shows.
pub const REPR_CONTENT_CHARS: usize = 30;

/// A message as the host sees it: the time of sending is RFC 3339 text.
#[derive(Debug, PartialEq, Eq)]
pub struct PyMessage {
    pub sender: String,
    pub content: String,
    pub timestamp: Option<String>,
    pub platform: Option<String>,
}

/// What a [`PyMessage`] holds, as mathematical values.
pub struct PyMessageView {
    pub sender: Seq<char>,
    pub content: Seq<char>,
    pub timestamp: Option<Seq<char>>,
    pub platform: Option<Seq<char>>,
}

impl View for PyMessage {
    type V = PyMessageView;

    open spec fn view(&self) -> PyMessageView {
        PyMessageView {
            sender: self.sender@,
            content: self.content@,
            timestamp: self.timestamp.deep_view(),
            platform: self.platform.deep_view(),
        }
    }
}

/// The views of a sequence of host messages, in order.
pub open spec fn py_message_views(s: Seq<PyMessage>) -> Seq<PyMessageView> {
    Seq::new(s.len(), |i: int| s[i]@)
}

impl PyMessageView {
    /// The debugging text: sender, the first characters of the content, and
    /// the time of sending or `None`.
    pub open spec fn repr(self) -> Seq<char> {
        let shown = if self.content.len() <= 30 {
            self.content
        } else {
            self.content.subrange(0, 30)
        };
        let time = match self.timestamp {
            Some(text) => text,
            None => "None"@,
        };
        "Message(sender='"@ + self.sender + "', content='"@ + shown + "...', timestamp="@ + time
            + ")"@
    }

    /// The message as one line: sender, a colon, the content.
    pub open spec fn line(self) -> Seq<char> {
        self.sender + ": "@ + self.content
    }

    /// The fields by name, in the order in which the record lists them.
    pub open spec fn entries(self) -> Seq<(Seq<char>, Option<Seq<char>>)> {
        seq![
            ("sender"@, Some(self.sender)),
            ("content"@, Some(self.content)),
            ("timestamp"@, self.timestamp),
            ("platform"@, self.platform),
        ]
    }

    /// The unified message that the host message stands for. A time of
    /// sending that is no RFC 3339 text is dropped; identifiers and the time
    /// of editing are unknown to the host.
    pub open spec fn unified(self) -> MessageView {
        MessageView {
            sender: self.sender,
            content: self.content,
            timestamp: match self.timestamp {
                Some(text) => offset_datetime_instant(text),
                None => None,
            },
            id: None,
            reply_to: None,
            edited: None,
        }
    }

    /// The host message that shows the unified message `m`. The time of
    /// sending is written as RFC 3339 text; no platform is named.
    pub open spec fn of_unified(m: MessageView) -> PyMessageView {
        PyMessageView {
            sender: m.sender,
            content: m.content,
            timestamp: match m.timestamp {
                Some(at) => rfc3339_text(at),
                None => None,
            },
            platform: None,
        }
    }
}

/// A copy of an optional text.
pub fn clone_text(text: &Option<String>) -> (r: Option<String>)
    ensures
        r.deep_view() == text.deep_view(),
{
    match text {
        Some(s) => Some(s.clone()),
        None => None,
    }
}

impl Clone for PyMessage {
    fn clone(&self) -> (r: Self)
        ensures
            r@ == self@,
    {
        PyMessage {
            sender: self.sender.clone(),
            content: self.content.clone(),
            timestamp: clone_text(&self.timestamp),
            platform: clone_text(&self.platform),
        }
    }
}

impl PyMessage {
    /// A host message of the given fields.
    pub fn new(
        sender: String,
        content: String,
        timestamp: Option<String>,
        platform: Option<String>,
    ) -> (r: Self)
        ensures
            r@ == (PyMessageView {
                sender: sender@,
                content: content@,
                timestamp: timestamp.deep_view(),
                platform: platform.deep_view(),
            }),
    {
        PyMessage { sender, content, timestamp, platform }
    }

    /// The debugging text of the message.
    pub fn __repr__(&self) -> (r: String)
        ensures
            r@ == self@.repr(),
    {
        let length: usize = self.content.as_str().unicode_len();
        let shown: usize = if length <= REPR_CONTENT_CHARS {
            length
        } else {
            REPR_CONTENT_CHARS
        };
        let head: &str = self.content.as_str().substring_char(0, shown);
        proof {
            assert(head@ =~= if self@.content.len() <= 30 {
                self@.content
            } else {
                self@.content.subrange(0, 30)
            });
        }
        let mut text: String = String::from_str("Message(sender='");
        text.append(self.sender.as_str());
        text.append("', content='");
        text.append(head);
        text.append("...', timestamp=");
        match &self.timestamp {
            Some(time) => text.append(time.as_str()),
            None => text.append("None"),
        }
        text.append(")");
        text
    }

    /// The message as one line.
    pub fn __str__(&self) -> (r: String)
        ensures
            r@ == self@.line(),
    {
        let mut text: String = self.sender.clone();
        text.append(": ");
        text.append(self.content.as_str());
        text
    }

    /// The fields by name, for the host to build its dictionary from.
    pub fn to_dict(&self) -> (r: Vec<(String, Option<String>)>)
        ensures
            r.deep_view() == self@.entries(),
    {
        let mut fields: Vec<(String, Option<String>)> = Vec::new();
        fields.push((String::from_str("sender"), Some(self.sender.clone())));
        fields.push((String::from_str("content"), Some(self.content.clone())));
        fields.push((String::from_str("timestamp"), clone_text(&self.timestamp)));
        fields.push((String::from_str("platform"), clone_text(&self.platform)));
        proof {
            assert(fields.deep_view() =~= self@.entries());
        }
        fields
    }

    /// The host message that shows the unified message `msg`.
    pub fn from_rust(msg: Message) -> (r: Self)
        ensures
            r@ == PyMessageView::of_unified(msg@),
    {
        let timestamp: Option<String> = match msg.timestamp {
            Some(at) => format_rfc3339(at),
            None => None,
        };
        PyMessage { sender: msg.sender, content: msg.content, timestamp, platform: None }
    }

    /// The unified message that this host message stands for.
    pub fn into_rust(self) -> (r: Message)
        ensures
            r@ == self@.unified(),
    {
        let timestamp: Option<Timestamp> = match &self.timestamp {
            Some(text) => parse_offset_datetime(text.as_str()),
            None => None,
        };
        Message {
            sender: self.sender,
            content: self.content,
            timestamp,
            id: None,
            reply_to: None,
            edited: None,
        }
    }
}

/// The host messages that show the unified messages `messages`, in order.
pub open spec fn host_views(messages: Seq<MessageView>) -> Seq<PyMessageView> {
    Seq::new(messages.len(), |i: int| PyMessageView::of_unified(messages[i]))
}

/// The unified messages that the host messages `messages` stand for, in order.
pub open spec fn unified_views(messages: Seq<PyMessageView>) -> Seq<MessageView> {
    Seq::new(messages.len(), |i: int| messages[i].unified())
}

/// Shows each unified message to the host, in order.
pub fn to_host(messages: Vec<Message>) -> (r: Vec<PyMessage>)
    ensures
        py_message_views(r@) == host_views(message_views(messages@)),
{
    let mut shown: Vec<PyMessage> = Vec::new();
    let mut i: usize = 0;
    while i < messages.len()
        invariant
            i <= messages.len(),
            shown@.len() == i,
            forall|k: int|
                0 <= k < i ==> (#[trigger] shown@[k])@ == PyMessageView::of_unified(messages@[k]@),
        decreases messages.len() - i,
    {
        shown.push(PyMessage::from_rust(messages[i].clone()));
        i = i + 1;
    }
    proof {
        assert(py_message_views(shown@) =~= host_views(message_views(messages@)));
    }
    shown
}

/// Reads each host message as a unified message, in order.
pub fn to_unified(messages: Vec<PyMessage>) -> (r: Vec<Message>)
    ensures
        message_views(r@) == unified_views(py_message_views(messages@)),
{
    let mut read: Vec<Message> = Vec::new();
    let mut i: usize = 0;
    while i < messages.len()
        invariant
            i <= messages.len(),
            read@.len() == i,
            forall|k: int| 0 <= k < i ==> (#[trigger] read@[k])@ == messages@[k]@.unified(),
        decreases messages.len() - i,
    {
        read.push(messages[i].clone().into_rust());
        i = i + 1;
    }
    proof {
        assert(message_views(read@) =~= unified_views(py_message_views(messages@)));
    }
    read
}

/// A filter configuration as the host writes it: the date bounds are text.
#[derive(Debug, PartialEq, Eq)]
pub struct PyFilterConfig {
    pub min_length: Option<usize>,
    pub max_length: Option<usize>,
    pub sender: Option<String>,
    pub date_from: Option<String>,
    pub date_to: Option<String>,
}

/// What a [`PyFilterConfig`] holds, as mathematical values.
pub struct PyFilterConfigView {
    pub min_length: Option<usize>,
    pub max_length: Option<usize>,
    pub sender: Option<Seq<char>>,
    pub date_from: Option<Seq<char>>,
    pub date_to: Option<Seq<char>>,
}

impl View for PyFilterConfig {
    type V = PyFilterConfigView;

    open spec fn view(&self) -> PyFilterConfigView {
        PyFilterConfigView {
            min_length: self.min_length,
            max_length: self.max_length,
            sender: self.sender.deep_view(),
            date_from: self.date_from.deep_view(),
            date_to: self.date_to.deep_view(),
        }
    }
}

/// The instant that an optional date bound stands for. A bound that is not
/// set, or whose text is in none of the notations, constrains nothing.
pub open spec fn optional_date_bound(text: Option<Seq<char>>) -> Option<Timestamp> {
    match text {
        Some(text) => date_bound_of_text(text),
        None => None,
    }
}

impl PyFilterConfigView {
    /// The filter configuration that the host's configuration stands for.
    pub open spec fn unified(self) -> FilterConfigView {
        FilterConfigView {
            min_length: self.min_length,
            max_length: self.max_length,
            sender: self.sender,
            date_from: optional_date_bound(self.date_from),
            date_to: optional_date_bound(self.date_to),
        }
    }
}

/// Reads an optional date bound.
pub fn parse_optional_date_bound(text: &Option<String>) -> (r: Option<Timestamp>)
    ensures
        r == optional_date_bound(text.deep_view()),
{
    match text {
        Some(text) => parse_date_bound(text.as_str()),
        None => None,
    }
}

impl PyFilterConfig {
    /// A configuration of the given predicates.
    pub fn new(
        min_length: Option<usize>,
        max_length: Option<usize>,
        sender: Option<String>,
        date_from: Option<String>,
        date_to: Option<String>,
    ) -> (r: Self)
        ensures
            r@ == (PyFilterConfigView {
                min_length,
                max_length,
                sender: sender.deep_view(),
                date_from: date_from.deep_view(),
                date_to: date_to.deep_view(),
            }),
    {
        PyFilterConfig { min_length, max_length, sender, date_from, date_to }
    }

    /// The same configuration, asking for at least `length` characters.
    pub fn with_min_length(self, length: usize) -> (r: Self)
        ensures
            r@ == (PyFilterConfigView { min_length: Some(length), ..self@ }),
    {
        PyFilterConfig { min_length: Some(length), ..self }
    }

    /// The same configuration, asking for at most `length` characters.
    pub fn with_max_length(self, length: usize) -> (r: Self)
        ensures
            r@ == (PyFilterConfigView { max_length: Some(length), ..self@ }),
    {
        PyFilterConfig { max_length: Some(length), ..self }
    }

    /// The same configuration, asking for messages of `sender` only.
    pub fn with_sender(self, sender: String) -> (r: Self)
        ensures
            r@ == (PyFilterConfigView { sender: Some(sender@), ..self@ }),
    {
        PyFilterConfig { sender: Some(sender), ..self }
    }

    /// The same configuration, asking for messages from `date` on.
    pub fn with_date_from(self, date: String) -> (r: Self)
        ensures
            r@ == (PyFilterConfigView { date_from: Some(date@), ..self@ }),
    {
        PyFilterConfig { date_from: Some(date), ..self }
    }

    /// The same configuration, asking for messages up to `date`.
    pub fn with_date_to(self, date: String) -> (r: Self)
        ensures
            r@ == (PyFilterConfigView { date_to: Some(date@), ..self@ }),
    {
        PyFilterConfig { date_to: Some(date), ..self }
    }

    /// The filter configuration that this one stands for, its date bounds
    /// read as instants.
    pub fn into_rust(self) -> (r: FilterConfig)
        ensures
            r@ == self@.unified(),
    {
        let date_from: Option<Timestamp> = parse_optional_date_bound(&self.date_from);
        let date_to: Option<Timestamp> = parse_optional_date_bound(&self.date_to);
        FilterConfig {
            min_length: self.min_length,
            max_length: self.max_length,
            sender: self.sender,
            date_from,
            date_to,
        }
    }
}

/// Which optional fields a written export shows.
#[derive(Clone, Copy, Debug, PartialEq, Eq, Structural)]
pub struct PyOutputConfig {
    pub include_timestamps: bool,
    pub include_platform: bool,
}

impl PyOutputConfig {
    /// A configuration of the given choices.
    pub fn new(include_timestamps: bool, include_platform: bool) -> (r: Self)
        ensures
            r == (PyOutputConfig { include_timestamps, include_platform }),
    {
        PyOutputConfig { include_timestamps, include_platform }
    }

    /// The same configuration, showing timestamps.
    pub fn with_timestamps(self) -> (r: Self)
        ensures
            r == (PyOutputConfig { include_timestamps: true, ..self }),
    {
        PyOutputConfig { include_timestamps: true, ..self }
    }

    /// The same configuration, showing the platform.
    pub fn with_platform(self) -> (r: Self)
        ensures
            r == (PyOutputConfig { include_platform: true, ..self }),
    {
        PyOutputConfig { include_platform: true, ..self }
    }
}

impl Default for PyOutputConfig {
    /// Timestamps are shown, the platform is not.
    fn default() -> (r: Self)
        ensures
            r == (PyOutputConfig { include_timestamps: true, include_platform: false }),
    {
        PyOutputConfig { include_timestamps: true, include_platform: false }
    }
}

} // verus!
