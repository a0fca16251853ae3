//! Chat exports of four messaging platforms, brought into one message model,
//! filtered and merged.
//!
//! [`parsers`] reads an export into [`message::Message`]s, [`filter`] keeps
//! the messages that meet a configuration, and [`merge`] joins runs of one
//! sender. [`types`] holds the same records as the host language sees them,
//! and the two functions below work on those.

use vstd::prelude::*;
use vstd::string::*;

pub mod error;
pub mod filter;
pub mod merge;
pub mod message;
pub mod parsers;
pub mod time;
pub mod types;

use crate::filter::{filter_messages, FilterConfig, FilterConfigView};
use crate::merge::{absorb, continues, continues_run, merge_messages};
use crate::message::Message;
use crate::types::{py_message_views, unified_views, PyFilterConfig, PyMessage, PyMessageView};

verus! {

/// The host messages of `messages` whose unified reading `config` admits,
/// each as it stands in `messages` and in the same order.
pub open spec fn host_filter(messages: Seq<PyMessageView>, config: FilterConfigView) -> Seq<
    PyMessageView,
> {
    messages.filter(|m: PyMessageView| config.admits(m.unified()))
}

/// The run `run` of host messages after it took in `next`: the content of
/// `next` follows on a new line, every other field stays as the run's first
/// message had it.
pub open spec fn host_absorb(run: PyMessageView, next: PyMessageView) -> PyMessageView {
    PyMessageView { content: run.content + seq!['\n'] + next.content, ..run }
}

/// `messages` with every run merged into one host message. Whether a
/// message continues the run of the message before it is decided on the
/// unified readings of the two.
pub open spec fn host_merge(messages: Seq<PyMessageView>, threshold: int) -> Seq<PyMessageView>
    decreases messages.len(),
{
    if messages.len() <= 1 {
        messages
    } else {
        let merged = host_merge(messages.drop_last(), threshold);
        let next = messages.last();
        if continues_run(messages[messages.len() - 2].unified(), next.unified(), threshold) {
            merged.drop_last().push(host_absorb(merged.last(), next))
        } else {
            merged.push(next)
        }
    }
}

/// Appending a host message appends its view.
pub proof fn lemma_py_views_push(s: Seq<PyMessage>, m: PyMessage)
    ensures
        py_message_views(s.push(m)) == py_message_views(s).push(m@),
{
    assert(py_message_views(s.push(m)) =~= py_message_views(s).push(m@));
}

/// Filtering host messages twice with one configuration gives what
/// filtering once gives.
pub proof fn lemma_host_filter_idempotent(messages: Seq<PyMessageView>, config: FilterConfigView)
    ensures
        host_filter(host_filter(messages, config), config) == host_filter(messages, config),
    decreases messages.len(),
{
    reveal(Seq::filter);
    let pred = |m: PyMessageView| config.admits(m.unified());
    if messages.len() > 0 {
        let init = messages.drop_last();
        lemma_host_filter_idempotent(init, config);
        if config.admits(messages.last().unified()) {
            let once = init.filter(pred).push(messages.last());
            assert(once.drop_last() =~= init.filter(pred));
        }
    }
}

/// A configuration without any predicate leaves the host messages as they
/// are: the same messages in the same order, every field untouched.
pub proof fn lemma_host_filter_identity(messages: Seq<PyMessageView>, config: FilterConfigView)
    requires
        !config.is_active(),
    ensures
        host_filter(messages, config) == messages,
    decreases messages.len(),
{
    reveal(Seq::filter);
    if messages.len() > 0 {
        lemma_host_filter_identity(messages.drop_last(), config);
        assert(messages.drop_last().push(messages.last()) =~= messages);
    }
}

/// Filtering host messages and reading the result is reading the host
/// messages and filtering the readings.
pub proof fn lemma_host_filter_reads_as_filter(
    messages: Seq<PyMessageView>,
    config: FilterConfigView,
)
    ensures
        unified_views(host_filter(messages, config)) == filter_messages(
            unified_views(messages),
            config,
        ),
    decreases messages.len(),
{
    reveal(Seq::filter);
    let readings = unified_views(messages);
    if messages.len() == 0 {
        assert(unified_views(host_filter(messages, config)) =~= filter_messages(readings, config));
    } else {
        let init = messages.drop_last();
        let last = messages.last();
        lemma_host_filter_reads_as_filter(init, config);
        assert(readings.drop_last() =~= unified_views(init));
        assert(readings.last() == last.unified());
        if config.admits(last.unified()) {
            assert(unified_views(host_filter(init, config).push(last)) =~= unified_views(
                host_filter(init, config),
            ).push(last.unified()));
        }
    }
}

/// Merging host messages never yields more messages than it was given, and
/// yields none only when given none.
pub proof fn lemma_host_merge_len(messages: Seq<PyMessageView>, threshold: int)
    ensures
        host_merge(messages, threshold).len() <= messages.len(),
        messages.len() > 0 ==> host_merge(messages, threshold).len() > 0,
    decreases messages.len(),
{
    if messages.len() > 1 {
        lemma_host_merge_len(messages.drop_last(), threshold);
    }
}

/// Merging host messages and reading the result is reading the host
/// messages and merging the readings.
pub proof fn lemma_host_merge_reads_as_merge(messages: Seq<PyMessageView>, threshold: int)
    ensures
        unified_views(host_merge(messages, threshold)) == merge_messages(
            unified_views(messages),
            threshold,
        ),
    decreases messages.len(),
{
    let readings = unified_views(messages);
    if messages.len() <= 1 {
        assert(unified_views(host_merge(messages, threshold)) =~= merge_messages(
            readings,
            threshold,
        ));
    } else {
        let init = messages.drop_last();
        let next = messages.last();
        let merged = host_merge(init, threshold);
        lemma_host_merge_reads_as_merge(init, threshold);
        lemma_host_merge_len(init, threshold);
        assert(readings.drop_last() =~= unified_views(init));
        assert(readings.last() == next.unified());
        assert(readings[readings.len() - 2] == messages[messages.len() - 2].unified());
        if continues_run(messages[messages.len() - 2].unified(), next.unified(), threshold) {
            let run = host_absorb(merged.last(), next);
            assert(run.unified() == absorb(merged.last().unified(), next.unified()));
            assert(unified_views(merged.drop_last().push(run)) =~= unified_views(
                merged,
            ).drop_last().push(run.unified()));
            assert(unified_views(merged).last() == merged.last().unified());
        } else {
            assert(unified_views(merged.push(next)) =~= unified_views(merged).push(
                next.unified(),
            ));
        }
    }
}

/// Where no host message continues the run of the one before it, merging
/// leaves the host messages as they are, every field untouched.
pub proof fn lemma_host_merge_without_runs(messages: Seq<PyMessageView>, threshold: int)
    requires
        forall|i: int|
            1 <= i < messages.len() ==> !continues_run(
                (#[trigger] messages[i - 1]).unified(),
                messages[i].unified(),
                threshold,
            ),
    ensures
        host_merge(messages, threshold) == messages,
    decreases messages.len(),
{
    if messages.len() > 1 {
        let init = messages.drop_last();
        assert forall|i: int| 1 <= i < init.len() implies !continues_run(
            (#[trigger] init[i - 1]).unified(),
            init[i].unified(),
            threshold,
        ) by {
            assert(init[i - 1] == messages[i - 1]);
        }
        lemma_host_merge_without_runs(init, threshold);
        let last = messages.len() - 1;
        assert(!continues_run(messages[last - 1].unified(), messages[last].unified(), threshold));
        assert(init.push(messages.last()) =~= messages);
    }
}

/// Two host messages become one exactly when the reading of the second
/// continues the run of the reading of the first; the one message is then
/// the first as it came, with the content of the second on a new line.
pub proof fn lemma_host_merge_pair(a: PyMessageView, b: PyMessageView, threshold: int)
    ensures
        host_merge(seq![a, b], threshold) == if continues_run(
            a.unified(),
            b.unified(),
            threshold,
        ) {
            seq![host_absorb(a, b)]
        } else {
            seq![a, b]
        },
{
    let pair = seq![a, b];
    assert(pair.drop_last() =~= seq![a]);
    assert(host_merge(seq![a], threshold) == seq![a]);
    assert(seq![a].drop_last().push(host_absorb(a, b)) =~= seq![host_absorb(a, b)]);
    assert(seq![a].push(b) =~= pair);
}

/// Keeps the host messages that meet every predicate of `config`, in the
/// order in which they were given and each as it was given.
///
/// A message is judged by its unified reading: its time of sending counts
/// where it is RFC 3339 text, and is missing where it is not.
pub fn apply_filters(messages: Vec<PyMessage>, config: PyFilterConfig) -> (r: Vec<PyMessage>)
    ensures
        py_message_views(r@) == host_filter(py_message_views(messages@), config@.unified()),
        !config@.unified().is_active() ==> py_message_views(r@) == py_message_views(messages@),
        r@.len() <= messages@.len(),
{
    let ghost all = py_message_views(messages@);
    let ghost config_view = config@.unified();
    let ghost pred = |m: PyMessageView| config_view.admits(m.unified());
    let config: FilterConfig = config.into_rust();
    let mut kept: Vec<PyMessage> = Vec::new();
    let mut i: usize = 0;
    proof {
        reveal(Seq::filter);
        if !config_view.is_active() {
            lemma_host_filter_identity(all, config_view);
        }
        all.lemma_filter_len(pred);
        assert(all.take(0) =~= Seq::<PyMessageView>::empty());
        assert(py_message_views(kept@) =~= Seq::<PyMessageView>::empty());
    }
    while i < messages.len()
        invariant
            i <= messages.len(),
            all == py_message_views(messages@),
            config@ == config_view,
            pred == (|m: PyMessageView| config_view.admits(m.unified())),
            py_message_views(kept@) == all.take(i as int).filter(pred),
        decreases messages.len() - i,
    {
        let m: PyMessage = messages[i].clone();
        let reading: Message = messages[i].clone().into_rust();
        proof {
            reveal(Seq::filter);
            assert(all.take(i + 1).drop_last() =~= all.take(i as int));
            assert(all.take(i + 1).last() == m@);
            lemma_py_views_push(kept@, m);
        }
        if config.admits(&reading) {
            kept.push(m);
        }
        i = i + 1;
    }
    proof {
        assert(all.take(i as int) =~= all);
    }
    kept
}

/// Merges each run of consecutive host messages of one sender, none more
/// than `time_threshold` seconds after the one before it, into a single
/// message: the first message of the run as it was given, with the contents
/// of the run joined by newlines.
///
/// Whether a message continues a run is judged by the unified readings: a
/// time of sending counts where it is RFC 3339 text, and is missing where
/// it is not. A message that is in no run comes back as it was given.
pub fn merge_consecutive(messages: Vec<PyMessage>, time_threshold: i64) -> (r: Vec<PyMessage>)
    ensures
        py_message_views(r@) == host_merge(py_message_views(messages@), time_threshold as int),
        r@.len() <= messages@.len(),
{
    let ghost all = py_message_views(messages@);
    let ghost limit = time_threshold as int;
    let mut merged: Vec<PyMessage> = Vec::new();
    let mut previous: Option<Message> = None;
    let mut i: usize = 0;
    proof {
        lemma_host_merge_len(all, limit);
        assert(all.take(0) =~= Seq::<PyMessageView>::empty());
        assert(py_message_views(merged@) =~= Seq::<PyMessageView>::empty());
    }
    while i < messages.len()
        invariant
            i <= messages.len(),
            all == py_message_views(messages@),
            limit == time_threshold as int,
            i == 0 ==> previous is None,
            i > 0 ==> previous is Some && previous->0@ == messages@[i - 1]@.unified(),
            py_message_views(merged@) == host_merge(all.take(i as int), limit),
        decreases messages.len() - i,
    {
        let next: PyMessage = messages[i].clone();
        let reading: Message = messages[i].clone().into_rust();
        let joins: bool = match &previous {
            Some(last) => continues(last, &reading, time_threshold),
            None => false,
        };
        let ghost seen = all.take(i as int);
        let ghost now = all.take(i + 1);
        proof {
            assert(now.drop_last() =~= seen);
            assert(now.last() == next@);
            lemma_host_merge_len(seen, limit);
            if i > 0 {
                assert(now[now.len() - 2] == messages@[i - 1]@);
            } else {
                assert(now =~= seq![next@]);
            }
        }
        if joins {
            let mut run: PyMessage = merged.pop().unwrap();
            let ghost rest = merged@;
            let ghost run_before = run@;
            run.content.append("\n");
            run.content.append(next.content.as_str());
            proof {
                reveal_strlit("\n");
                assert("\n"@ =~= seq!['\n']);
                assert(run@ == host_absorb(run_before, next@));
                lemma_py_views_push(rest, run);
                assert(py_message_views(rest) =~= host_merge(seen, limit).drop_last());
            }
            merged.push(run);
        } else {
            proof {
                lemma_py_views_push(merged@, next);
            }
            merged.push(next);
        }
        previous = Some(reading);
        i = i + 1;
    }
    proof {
        assert(all.take(i as int) =~= all);
    }
    merged
}

} // verus!
