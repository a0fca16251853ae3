//! Filtering a message collection by length, sender and date.

use vstd::prelude::*;
use vstd::string::*;
use crate::message::{all_named, lemma_views_push, message_views, Message, MessageView};
use crate::time::Timestamp;

verus! {

/// The predicates a message has to meet to pass the filter. A field that is
/// `None` puts no constraint on the message.
#[derive(Debug, PartialEq, Eq)]
pub struct FilterConfig {
    /// Least number of characters of the content.
    pub min_length: Option<usize>,
    /// Greatest number of characters of the content.
    pub max_length: Option<usize>,
    /// The sender, letter for letter.
    pub sender: Option<String>,
    /// Earliest time of sending, inclusive.
    pub date_from: Option<Timestamp>,
    /// Latest time of sending, inclusive.
    pub date_to: Option<Timestamp>,
}

/// What a [`FilterConfig`] holds, as mathematical values.
pub struct FilterConfigView {
    pub min_length: Option<usize>,
    pub max_length: Option<usize>,
    pub sender: Option<Seq<char>>,
    pub date_from: Option<Timestamp>,
    pub date_to: Option<Timestamp>,
}

impl FilterConfigView {
    /// The configuration that constrains nothing.
    pub open spec fn unconstrained() -> FilterConfigView {
        FilterConfigView {
            min_length: None,
            max_length: None,
            sender: None,
            date_from: None,
            date_to: None,
        }
    }

    /// A lower or an upper date bound is set.
    pub open spec fn has_date_bound(self) -> bool {
        self.date_from is Some || self.date_to is Some
    }

    /// At least one predicate is set.
    pub open spec fn is_active(self) -> bool {
        self.min_length is Some || self.max_length is Some || self.sender is Some
            || self.has_date_bound()
    }

    /// A content of `length` characters lies within the length bounds.
    pub open spec fn admits_length(self, length: nat) -> bool {
        &&& self.min_length matches Some(least) ==> length >= least
        &&& self.max_length matches Some(most) ==> length <= most
    }

    /// `sender` is the configured sender, if one is configured.
    pub open spec fn admits_sender(self, sender: Seq<char>) -> bool {
        self.sender matches Some(wanted) ==> sender == wanted
    }

    /// `timestamp` lies within the date bounds. A message without a
    /// timestamp meets them only when there are none.
    pub open spec fn admits_time(self, timestamp: Option<Timestamp>) -> bool {
        match timestamp {
            None => !self.has_date_bound(),
            Some(at) => {
                &&& self.date_from matches Some(from) ==> from.at_or_before(at)
                &&& self.date_to matches Some(to) ==> at.at_or_before(to)
            },
        }
    }

    /// `m` meets every predicate that is set.
    pub open spec fn admits(self, m: MessageView) -> bool {
        &&& self.admits_length(m.content.len())
        &&& self.admits_sender(m.sender)
        &&& self.admits_time(m.timestamp)
    }
}

impl View for FilterConfig {
    type V = FilterConfigView;

    open spec fn view(&self) -> FilterConfigView {
        FilterConfigView {
            min_length: self.min_length,
            max_length: self.max_length,
            sender: self.sender.deep_view(),
            date_from: self.date_from,
            date_to: self.date_to,
        }
    }
}

/// The messages of `messages` that `config` admits, in the order in which
/// they stand in `messages`.
pub open spec fn filter_messages(messages: Seq<MessageView>, config: FilterConfigView) -> Seq<
    MessageView,
> {
    messages.filter(|m: MessageView| config.admits(m))
}

impl FilterConfig {
    /// A configuration that lets every message pass.
    pub fn new() -> (r: Self)
        ensures
            r@ == FilterConfigView::unconstrained(),
    {
        FilterConfig { min_length: None, max_length: None, sender: None, date_from: None, date_to: None }
    }

    /// The same configuration, asking for at least `length` characters.
    pub fn with_min_length(self, length: usize) -> (r: Self)
        ensures
            r@ == (FilterConfigView { min_length: Some(length), ..self@ }),
    {
        FilterConfig { min_length: Some(length), ..self }
    }

    /// The same configuration, asking for at most `length` characters.
    pub fn with_max_length(self, length: usize) -> (r: Self)
        ensures
            r@ == (FilterConfigView { max_length: Some(length), ..self@ }),
    {
        FilterConfig { max_length: Some(length), ..self }
    }

    /// The same configuration, asking for messages of `sender` only.
    pub fn with_sender(self, sender: &str) -> (r: Self)
        ensures
            r@ == (FilterConfigView { sender: Some(sender@), ..self@ }),
    {
        FilterConfig { sender: Some(sender.to_owned()), ..self }
    }

    /// The same configuration, asking for messages sent at `from` or later.
    pub fn with_date_from(self, from: Timestamp) -> (r: Self)
        ensures
            r@ == (FilterConfigView { date_from: Some(from), ..self@ }),
    {
        FilterConfig { date_from: Some(from), ..self }
    }

    /// The same configuration, asking for messages sent at `to` or earlier.
    pub fn with_date_to(self, to: Timestamp) -> (r: Self)
        ensures
            r@ == (FilterConfigView { date_to: Some(to), ..self@ }),
    {
        FilterConfig { date_to: Some(to), ..self }
    }

    /// Whether `m` meets every predicate that is set.
    pub fn admits(&self, m: &Message) -> (r: bool)
        ensures
            r == self@.admits(m@),
    {
        if self.min_length.is_some() || self.max_length.is_some() {
            let length: usize = m.content.as_str().unicode_len();
            if let Some(least) = self.min_length {
                if length < least {
                    return false;
                }
            }
            if let Some(most) = self.max_length {
                if length > most {
                    return false;
                }
            }
        }
        if let Some(wanted) = &self.sender {
            if !(m.sender == *wanted) {
                return false;
            }
        }
        match m.timestamp {
            None => self.date_from.is_none() && self.date_to.is_none(),
            Some(at) => {
                if let Some(from) = self.date_from {
                    if !from.is_at_or_before(&at) {
                        return false;
                    }
                }
                if let Some(to) = self.date_to {
                    if !at.is_at_or_before(&to) {
                        return false;
                    }
                }
                true
            },
        }
    }
}

/// Keeps the messages that meet every predicate of `config`, in the order
/// in which they were given.
pub fn apply_filters(messages: Vec<Message>, config: &FilterConfig) -> (r: Vec<Message>)
    ensures
        message_views(r@) == filter_messages(message_views(messages@), config@),
        !config@.is_active() ==> message_views(r@) == message_views(messages@),
        r@.len() <= messages@.len(),
{
    let ghost all = message_views(messages@);
    proof {
        if !config@.is_active() {
            lemma_filter_identity(all, config@);
        }
        lemma_filter_keeps_exactly_the_admitted(all, config@);
    }
    let ghost pred = |m: MessageView| config@.admits(m);
    let mut kept: Vec<Message> = Vec::new();
    let mut i: usize = 0;
    proof {
        reveal(Seq::filter);
        assert(all.take(0) =~= Seq::<MessageView>::empty());
        assert(message_views(kept@) =~= Seq::<MessageView>::empty());
    }
    while i < messages.len()
        invariant
            i <= messages.len(),
            all == message_views(messages@),
            pred == (|m: MessageView| config@.admits(m)),
            message_views(kept@) == all.take(i as int).filter(pred),
        decreases messages.len() - i,
    {
        let m: Message = messages[i].clone();
        proof {
            reveal(Seq::filter);
            assert(all.take(i + 1).drop_last() =~= all.take(i as int));
            assert(all.take(i + 1).last() == m@);
            lemma_views_push(kept@, m);
        }
        if config.admits(&m) {
            kept.push(m);
        }
        i = i + 1;
    }
    proof {
        assert(all.take(i as int) =~= all);
    }
    kept
}

/// Filtering twice with one configuration gives what filtering once gives.
pub proof fn lemma_filter_idempotent(messages: Seq<MessageView>, config: FilterConfigView)
    ensures
        filter_messages(filter_messages(messages, config), config) == filter_messages(
            messages,
            config,
        ),
    decreases messages.len(),
{
    reveal(Seq::filter);
    let pred = |m: MessageView| config.admits(m);
    if messages.len() > 0 {
        let init = messages.drop_last();
        lemma_filter_idempotent(init, config);
        if config.admits(messages.last()) {
            let once = init.filter(pred).push(messages.last());
            assert(once.drop_last() =~= init.filter(pred));
        }
    }
}

/// A configuration without any predicate leaves the collection as it is.
pub proof fn lemma_filter_identity(messages: Seq<MessageView>, config: FilterConfigView)
    requires
        !config.is_active(),
    ensures
        filter_messages(messages, config) == messages,
    decreases messages.len(),
{
    reveal(Seq::filter);
    if messages.len() > 0 {
        lemma_filter_identity(messages.drop_last(), config);
        assert(messages.drop_last().push(messages.last()) =~= messages);
    }
}

/// Every message that filtering keeps meets the configuration, and every
/// message that meets it is kept.
pub proof fn lemma_filter_keeps_exactly_the_admitted(
    messages: Seq<MessageView>,
    config: FilterConfigView,
)
    ensures
        forall|i: int|
            0 <= i < filter_messages(messages, config).len() ==> config.admits(
                #[trigger] filter_messages(messages, config)[i],
            ),
        forall|i: int|
            0 <= i < messages.len() && config.admits(#[trigger] messages[i]) ==> filter_messages(
                messages,
                config,
            ).contains(messages[i]),
        filter_messages(messages, config).len() <= messages.len(),
{
    messages.filter_lemma(|m: MessageView| config.admits(m));
}

/// Filtering leaves no message without a sender where there was none before.
pub proof fn lemma_filter_keeps_named(messages: Seq<MessageView>, config: FilterConfigView)
    requires
        all_named(messages),
    ensures
        all_named(filter_messages(messages, config)),
    decreases messages.len(),
{
    reveal(Seq::filter);
    if messages.len() > 0 {
        lemma_filter_keeps_named(messages.drop_last(), config);
    }
}

/// A message without a timestamp never passes a filter with a date bound,
/// and the date bounds alone never hold it back when neither is set.
pub proof fn lemma_filter_without_timestamp(m: MessageView, config: FilterConfigView)
    requires
        m.timestamp is None,
    ensures
        config.has_date_bound() ==> filter_messages(seq![m], config) == Seq::<MessageView>::empty(),
        !config.has_date_bound() ==> (config.admits(m) <==> config.admits_length(m.content.len())
            && config.admits_sender(m.sender)),
        !config.has_date_bound() && config.admits_length(m.content.len()) && config.admits_sender(
            m.sender,
        ) ==> filter_messages(seq![m], config) == seq![m],
{
    reveal(Seq::filter);
    let pred = |m: MessageView| config.admits(m);
    let one = seq![m];
    assert(one.drop_last() =~= Seq::<MessageView>::empty());
    assert(one.last() == m);
    assert(one.drop_last().filter(pred) =~= Seq::<MessageView>::empty());
    if config.admits(m) {
        assert(one.filter(pred) =~= seq![m]);
    } else {
        assert(one.filter(pred) =~= Seq::<MessageView>::empty());
    }
}

} // verus!
