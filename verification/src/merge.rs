//! Merging runs of consecutive messages of one sender.

use vstd::prelude::*;
use vstd::string::*;
use crate::message::{all_named, lemma_views_push, message_views, Message, MessageView};

verus! {

/// Seconds that two consecutive messages of one sender may lie apart and
/// still be merged, where the caller names no other limit.
pub const DEFAULT_MERGE_THRESHOLD: i64 = 300;

/// `next` continues the run whose last message is `last`: both have the same
/// sender, both carry a timestamp, and `next` was sent at most `threshold`
/// seconds after `last`.
pub open spec fn continues_run(last: MessageView, next: MessageView, threshold: int) -> bool {
    &&& last.sender == next.sender
    &&& last.timestamp is Some
    &&& next.timestamp is Some
    &&& next.timestamp->0.nanos_since(last.timestamp->0) <= threshold * 1_000_000_000
}

/// The run `run` after it took in `next`: the content of `next` follows on a
/// new line, everything else stays as the run's first message had it.
pub open spec fn absorb(run: MessageView, next: MessageView) -> MessageView {
    MessageView { content: run.content + seq!['\n'] + next.content, ..run }
}

/// `messages` with every run merged into one message.
///
/// Reading from the left, a message that continues the run of the message
/// just before it is taken into the last merged message; any other message
/// starts a new one.
pub open spec fn merge_messages(messages: Seq<MessageView>, threshold: int) -> Seq<MessageView>
    decreases messages.len(),
{
    if messages.len() <= 1 {
        messages
    } else {
        let merged = merge_messages(messages.drop_last(), threshold);
        let next = messages.last();
        if continues_run(messages[messages.len() - 2], next, threshold) {
            merged.drop_last().push(absorb(merged.last(), next))
        } else {
            merged.push(next)
        }
    }
}

/// Merging never yields more messages than it was given, and yields none
/// only when given none.
pub proof fn lemma_merge_len(messages: Seq<MessageView>, threshold: int)
    ensures
        merge_messages(messages, threshold).len() <= messages.len(),
        messages.len() > 0 ==> merge_messages(messages, threshold).len() > 0,
    decreases messages.len(),
{
    if messages.len() > 1 {
        lemma_merge_len(messages.drop_last(), threshold);
    }
}

/// The contents of `messages`, in order.
pub open spec fn contents(messages: Seq<MessageView>) -> Seq<Seq<char>> {
    Seq::new(messages.len(), |i: int| messages[i].content)
}

/// The texts of `texts` written one after the other, a newline between each
/// two.
pub open spec fn joined(texts: Seq<Seq<char>>) -> Seq<char>
    decreases texts.len(),
{
    if texts.len() == 0 {
        Seq::empty()
    } else if texts.len() == 1 {
        texts[0]
    } else {
        joined(texts.drop_last()) + seq!['\n'] + texts.last()
    }
}

/// The number of runs in `messages`: the messages that do not continue the
/// run of the message before them.
pub open spec fn run_count(messages: Seq<MessageView>, threshold: int) -> nat
    decreases messages.len(),
{
    if messages.len() <= 1 {
        messages.len()
    } else if continues_run(messages[messages.len() - 2], messages.last(), threshold) {
        run_count(messages.drop_last(), threshold)
    } else {
        run_count(messages.drop_last(), threshold) + 1
    }
}

/// Where the last run of `messages` starts: the index of the last message
/// that does not continue the run of the message before it.
pub open spec fn last_run_start(messages: Seq<MessageView>, threshold: int) -> int
    decreases messages.len(),
{
    if messages.len() <= 1 {
        0
    } else if continues_run(messages[messages.len() - 2], messages.last(), threshold) {
        last_run_start(messages.drop_last(), threshold)
    } else {
        messages.len() - 1
    }
}

/// The one message that the run `run` becomes: its first message, with the
/// contents of the whole run joined by newlines.
pub open spec fn run_message(run: Seq<MessageView>) -> MessageView {
    MessageView { content: joined(contents(run)), ..run[0] }
}

/// The last run starts within `messages`.
pub proof fn lemma_last_run_start_in_range(messages: Seq<MessageView>, threshold: int)
    requires
        messages.len() > 0,
    ensures
        0 <= last_run_start(messages, threshold) < messages.len(),
    decreases messages.len(),
{
    if messages.len() > 1 {
        lemma_last_run_start_in_range(messages.drop_last(), threshold);
    }
}

/// Merging, told by runs: the last merged message is the last run made one
/// message, and before it stands what merging makes of everything before
/// that run.
pub proof fn lemma_merge_by_last_run(messages: Seq<MessageView>, threshold: int)
    requires
        messages.len() > 0,
    ensures
        merge_messages(messages, threshold) == merge_messages(
            messages.take(last_run_start(messages, threshold)),
            threshold,
        ).push(
            run_message(
                messages.subrange(last_run_start(messages, threshold), messages.len() as int),
            ),
        ),
    decreases messages.len(),
{
    let len = messages.len() as int;
    let start = last_run_start(messages, threshold);
    let run = messages.subrange(start, len);
    if messages.len() == 1 {
        assert(messages.take(0) =~= Seq::<MessageView>::empty());
        assert(run =~= messages);
        assert(run_message(run) == messages[0]);
        assert(Seq::<MessageView>::empty().push(messages[0]) =~= messages);
    } else {
        let init = messages.drop_last();
        let next = messages.last();
        if continues_run(messages[len - 2], next, threshold) {
            lemma_last_run_start_in_range(init, threshold);
            lemma_merge_by_last_run(init, threshold);
            let before = merge_messages(init.take(start), threshold);
            let run_init = init.subrange(start, len - 1);
            assert(init.take(start) =~= messages.take(start));
            assert(before.push(run_message(run_init)).drop_last() =~= before);
            assert(contents(run).drop_last() =~= contents(run_init));
            assert(contents(run).last() == next.content);
            assert(run[0] == run_init[0]);
            assert(absorb(run_message(run_init), next) == run_message(run));
        } else {
            assert(messages.take(start) =~= init);
            assert(run =~= seq![next]);
            assert(run_message(run) == next);
        }
    }
}

/// Merging yields one message for each run.
pub proof fn lemma_merge_count(messages: Seq<MessageView>, threshold: int)
    ensures
        merge_messages(messages, threshold).len() == run_count(messages, threshold),
    decreases messages.len(),
{
    if messages.len() > 1 {
        lemma_merge_count(messages.drop_last(), threshold);
        lemma_merge_len(messages.drop_last(), threshold);
    }
}

/// Merging moves the borders between messages and nothing else: the
/// contents, joined by newlines, read the same before and after.
pub proof fn lemma_merge_keeps_text(messages: Seq<MessageView>, threshold: int)
    ensures
        joined(contents(merge_messages(messages, threshold))) == joined(contents(messages)),
    decreases messages.len(),
{
    if messages.len() > 1 {
        let init = messages.drop_last();
        let next = messages.last();
        let merged = merge_messages(init, threshold);
        lemma_merge_keeps_text(init, threshold);
        lemma_merge_len(init, threshold);
        assert(contents(messages).drop_last() =~= contents(init));
        if continues_run(messages[messages.len() - 2], next, threshold) {
            let after = merged.drop_last().push(absorb(merged.last(), next));
            assert(contents(after).drop_last() =~= contents(merged).drop_last());
            assert(joined(contents(after)) =~= joined(contents(merged)) + seq!['\n']
                + next.content);
        } else {
            assert(contents(merged.push(next)).drop_last() =~= contents(merged));
        }
    }
}

/// Where no message continues the run of the one before it, merging changes
/// nothing.
pub proof fn lemma_merge_without_runs(messages: Seq<MessageView>, threshold: int)
    requires
        forall|i: int|
            1 <= i < messages.len() ==> !continues_run(
                #[trigger] messages[i - 1],
                messages[i],
                threshold,
            ),
    ensures
        merge_messages(messages, threshold) == messages,
    decreases messages.len(),
{
    if messages.len() > 1 {
        let init = messages.drop_last();
        assert forall|i: int| 1 <= i < init.len() implies !continues_run(
            #[trigger] init[i - 1],
            init[i],
            threshold,
        ) by {
            assert(init[i - 1] == messages[i - 1]);
        }
        lemma_merge_without_runs(init, threshold);
        let last = messages.len() - 1;
        assert(!continues_run(messages[last - 1], messages[last], threshold));
        assert(init.push(messages.last()) =~= messages);
    }
}

/// Merging leaves no message without a sender where there was none before.
pub proof fn lemma_merge_keeps_named(messages: Seq<MessageView>, threshold: int)
    requires
        all_named(messages),
    ensures
        all_named(merge_messages(messages, threshold)),
    decreases messages.len(),
{
    if messages.len() > 1 {
        lemma_merge_keeps_named(messages.drop_last(), threshold);
        lemma_merge_len(messages.drop_last(), threshold);
    }
}

/// Two messages become one exactly when the second continues the run of the
/// first.
pub proof fn lemma_merge_pair(a: MessageView, b: MessageView, threshold: int)
    ensures
        merge_messages(seq![a, b], threshold) == if continues_run(a, b, threshold) {
            seq![absorb(a, b)]
        } else {
            seq![a, b]
        },
{
    let pair = seq![a, b];
    assert(pair.drop_last() =~= seq![a]);
    assert(merge_messages(seq![a], threshold) == seq![a]);
    assert(seq![a].drop_last().push(absorb(a, b)) =~= seq![absorb(a, b)]);
    assert(seq![a].push(b) =~= pair);
}

/// Two messages of one sender that lie further apart than the threshold
/// stay two messages.
pub proof fn lemma_merge_keeps_distant_apart(a: MessageView, b: MessageView, threshold: int)
    requires
        a.sender == b.sender,
        a.timestamp is Some,
        b.timestamp is Some,
        b.timestamp->0.nanos_since(a.timestamp->0) > threshold * 1_000_000_000,
    ensures
        merge_messages(seq![a, b], threshold) == seq![a, b],
{
    lemma_merge_pair(a, b, threshold);
}

/// Two messages of which one has no timestamp stay two messages, whatever
/// the threshold.
pub proof fn lemma_merge_keeps_untimed_apart(a: MessageView, b: MessageView, threshold: int)
    requires
        a.timestamp is None || b.timestamp is None,
    ensures
        merge_messages(seq![a, b], threshold) == seq![a, b],
{
    lemma_merge_pair(a, b, threshold);
}

/// Whether `next` continues the run whose last message is `last`.
pub fn continues(last: &Message, next: &Message, time_threshold: i64) -> (r: bool)
    ensures
        r == continues_run(last@, next@, time_threshold as int),
{
    match (last.timestamp, next.timestamp) {
        (Some(earlier), Some(later)) => {
            last.sender == next.sender && later.is_within(&earlier, time_threshold)
        },
        _ => false,
    }
}

/// Merges each run of consecutive messages of one sender, none more than
/// `time_threshold` seconds after the one before it, into a single message.
///
/// The merged message keeps the sender, timestamp and identifiers of the
/// run's first message; its content is the contents of the run, joined by
/// newlines. Messages are never reordered.
pub fn merge_consecutive(messages: Vec<Message>, time_threshold: i64) -> (r: Vec<Message>)
    ensures
        message_views(r@) == merge_messages(message_views(messages@), time_threshold as int),
        r@.len() <= messages@.len(),
{
    let ghost all = message_views(messages@);
    let ghost limit = time_threshold as int;
    proof {
        lemma_merge_len(all, limit);
    }
    let mut merged: Vec<Message> = Vec::new();
    let mut i: usize = 0;
    proof {
        assert(all.take(0) =~= Seq::<MessageView>::empty());
        assert(message_views(merged@) =~= Seq::<MessageView>::empty());
    }
    while i < messages.len()
        invariant
            i <= messages.len(),
            all == message_views(messages@),
            limit == time_threshold as int,
            message_views(merged@) == merge_messages(all.take(i as int), limit),
        decreases messages.len() - i,
    {
        let next: Message = messages[i].clone();
        let ghost seen = all.take(i as int);
        let ghost now = all.take(i + 1);
        proof {
            assert(now.drop_last() =~= seen);
            assert(now.last() == next@);
            lemma_merge_len(seen, limit);
        }
        if i > 0 && continues(&messages[i - 1], &next, time_threshold) {
            proof {
                assert(now[now.len() - 2] == messages@[i - 1]@);
            }
            let mut run: Message = merged.pop().unwrap();
            let ghost rest = merged@;
            let ghost run_before = run@;
            run.content.append("\n");
            run.content.append(next.content.as_str());
            proof {
                reveal_strlit("\n");
                assert("\n"@ =~= seq!['\n']);
                assert(run@ == absorb(run_before, next@));
                lemma_views_push(rest, run);
                assert(message_views(rest) =~= merge_messages(seen, limit).drop_last());
            }
            merged.push(run);
        } else {
            proof {
                if i > 0 {
                    assert(now[now.len() - 2] == messages@[i - 1]@);
                } else {
                    assert(now =~= seq![next@]);
                }
                lemma_views_push(merged@, next);
            }
            merged.push(next);
        }
        i = i + 1;
    }
    proof {
        assert(all.take(i as int) =~= all);
    }
    merged
}

/// Merges with the default threshold where `merge` is set and hands the
/// messages back untouched where it is not.
pub fn maybe_merge(messages: Vec<Message>, merge: bool) -> (r: Vec<Message>)
    ensures
        message_views(r@) == if merge {
            merge_messages(message_views(messages@), DEFAULT_MERGE_THRESHOLD as int)
        } else {
            message_views(messages@)
        },
{
    if merge {
        merge_consecutive(messages, DEFAULT_MERGE_THRESHOLD)
    } else {
        messages
    }
}

} // verus!
