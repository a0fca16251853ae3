use chat_exports::merge::{continues, maybe_merge, merge_consecutive, DEFAULT_MERGE_THRESHOLD};
use chat_exports::message::Message;
use chat_exports::time::Timestamp;

fn at(secs: i64) -> Timestamp {
    Timestamp { secs, nanos: 0 }
}

fn timed(sender: &str, content: &str, secs: i64) -> Message {
    Message::new(sender, content).with_timestamp(at(secs))
}

#[test]
fn merges_a_run_and_keeps_the_next_sender_apart() {
    let messages = vec![
        timed("A", "one", 0),
        timed("A", "two", 100),
        timed("A", "three", 250),
        timed("B", "four", 260),
    ];
    let merged = merge_consecutive(messages, 300);
    assert_eq!(merged.len(), 2);
    assert_eq!(merged[0], timed("A", "one\ntwo\nthree", 0));
    assert_eq!(merged[1], timed("B", "four", 260));
}

#[test]
fn gap_over_the_threshold_keeps_messages_apart() {
    let messages = vec![timed("A", "one", 0), timed("A", "two", 301)];
    let merged = merge_consecutive(messages, 300);
    assert_eq!(merged, vec![timed("A", "one", 0), timed("A", "two", 301)]);
}

#[test]
fn gap_of_exactly_the_threshold_merges() {
    let messages = vec![timed("A", "one", 0), timed("A", "two", 300)];
    let merged = merge_consecutive(messages, 300);
    assert_eq!(merged, vec![timed("A", "one\ntwo", 0)]);
}

#[test]
fn one_nanosecond_over_the_threshold_keeps_messages_apart() {
    let first = Message::new("A", "one").with_timestamp(Timestamp { secs: 10, nanos: 5 });
    let second = Message::new("A", "two").with_timestamp(Timestamp { secs: 310, nanos: 6 });
    let merged = merge_consecutive(vec![first.clone(), second.clone()], 300);
    assert_eq!(merged, vec![first, second]);
}

#[test]
fn nanoseconds_count_towards_the_gap() {
    let first = Message::new("A", "one").with_timestamp(Timestamp { secs: 10, nanos: 900_000_000 });
    let second = Message::new("A", "two").with_timestamp(Timestamp { secs: 310, nanos: 100_000_000 });
    let merged = merge_consecutive(vec![first.clone(), second], 300);
    assert_eq!(merged.len(), 1);
    assert_eq!(merged[0].content, "one\ntwo");
    assert_eq!(merged[0].timestamp, first.timestamp);
    let third = Message::new("A", "three").with_timestamp(Timestamp { secs: 311, nanos: 100_000_000 });
    assert_eq!(merge_consecutive(vec![first, third], 300).len(), 2);
}

#[test]
fn missing_first_timestamp_never_merges() {
    let messages = vec![Message::new("A", "one"), timed("A", "two", 1)];
    let merged = merge_consecutive(messages, i64::MAX);
    assert_eq!(merged, vec![Message::new("A", "one"), timed("A", "two", 1)]);
}

#[test]
fn missing_second_timestamp_never_merges() {
    let messages = vec![timed("A", "one", 1), Message::new("A", "two")];
    let merged = merge_consecutive(messages, i64::MAX);
    assert_eq!(merged, vec![timed("A", "one", 1), Message::new("A", "two")]);
}

#[test]
fn two_untimed_messages_never_merge() {
    let messages = vec![Message::new("A", "one"), Message::new("A", "two")];
    let merged = merge_consecutive(messages, 300);
    assert_eq!(merged.len(), 2);
}

#[test]
fn the_gap_is_taken_from_the_last_message_of_the_run() {
    let messages = vec![timed("A", "one", 0), timed("A", "two", 200), timed("A", "three", 400)];
    let merged = merge_consecutive(messages, 300);
    assert_eq!(merged, vec![timed("A", "one\ntwo\nthree", 0)]);
}

#[test]
fn a_run_that_broke_starts_anew() {
    let messages = vec![
        timed("A", "one", 0),
        timed("A", "two", 1000),
        timed("A", "three", 1100),
        timed("B", "four", 1100),
        timed("A", "five", 1100),
    ];
    let merged = merge_consecutive(messages, 300);
    assert_eq!(
        merged,
        vec![
            timed("A", "one", 0),
            timed("A", "two\nthree", 1000),
            timed("B", "four", 1100),
            timed("A", "five", 1100),
        ]
    );
}

#[test]
fn merged_message_keeps_what_the_first_one_carried() {
    let first = timed("A", "one", 5).with_id(7).with_reply_to(3).with_edited(at(9));
    let second = timed("A", "two", 6).with_id(8).with_reply_to(4).with_edited(at(10));
    let merged = merge_consecutive(vec![first, second], 300);
    assert_eq!(merged.len(), 1);
    assert_eq!(merged[0].id, Some(7));
    assert_eq!(merged[0].reply_to, Some(3));
    assert_eq!(merged[0].edited, Some(at(9)));
    assert_eq!(merged[0].timestamp, Some(at(5)));
    assert_eq!(merged[0].content, "one\ntwo");
}

#[test]
fn an_earlier_message_is_within_every_positive_threshold() {
    let messages = vec![timed("A", "one", 1000), timed("A", "two", 10)];
    let merged = merge_consecutive(messages, 300);
    assert_eq!(merged, vec![timed("A", "one\ntwo", 1000)]);
}

#[test]
fn a_negative_threshold_merges_only_steps_back_in_time() {
    let forward = merge_consecutive(vec![timed("A", "one", 0), timed("A", "two", 0)], -1);
    assert_eq!(forward.len(), 2);
    let back = merge_consecutive(vec![timed("A", "one", 5), timed("A", "two", 4)], -1);
    assert_eq!(back.len(), 1);
}

#[test]
fn merging_nothing_gives_nothing() {
    assert_eq!(merge_consecutive(Vec::new(), 300), Vec::new());
}

#[test]
fn merging_one_message_gives_it_back() {
    assert_eq!(merge_consecutive(vec![timed("A", "one", 0)], 300), vec![timed("A", "one", 0)]);
}

#[test]
fn empty_contents_are_joined_like_any_other() {
    let merged = merge_consecutive(vec![timed("A", "", 0), timed("A", "", 1)], 300);
    assert_eq!(merged, vec![timed("A", "\n", 0)]);
}

#[test]
fn senders_are_compared_letter_for_letter() {
    let merged = merge_consecutive(vec![timed("alice", "one", 0), timed("Alice", "two", 1)], 300);
    assert_eq!(merged.len(), 2);
}

#[test]
fn extreme_timestamps_do_not_overflow() {
    let messages = vec![
        Message::new("A", "one").with_timestamp(Timestamp { secs: i64::MIN, nanos: u32::MAX }),
        Message::new("A", "two").with_timestamp(Timestamp { secs: i64::MAX, nanos: 0 }),
    ];
    assert_eq!(merge_consecutive(messages.clone(), i64::MAX).len(), 2);
    let reversed = vec![messages[1].clone(), messages[0].clone()];
    assert_eq!(merge_consecutive(reversed.clone(), i64::MIN).len(), 1);
    let near = vec![
        Message::new("A", "one").with_timestamp(Timestamp { secs: 0, nanos: 0 }),
        Message::new("A", "two").with_timestamp(Timestamp { secs: i64::MIN, nanos: 1 }),
    ];
    assert_eq!(merge_consecutive(near, i64::MIN).len(), 2);
}

#[test]
fn continues_tells_what_merge_does() {
    assert!(continues(&timed("A", "x", 0), &timed("A", "y", 300), 300));
    assert!(!continues(&timed("A", "x", 0), &timed("A", "y", 301), 300));
    assert!(!continues(&timed("A", "x", 0), &timed("B", "y", 1), 300));
    assert!(!continues(&Message::new("A", "x"), &timed("A", "y", 1), 300));
}

#[test]
fn default_threshold_is_five_minutes() {
    assert_eq!(DEFAULT_MERGE_THRESHOLD, 300);
}

#[test]
fn maybe_merge_merges_only_when_asked() {
    let messages = vec![timed("A", "one", 0), timed("A", "two", 300), timed("A", "three", 601)];
    assert_eq!(maybe_merge(messages.clone(), false), messages);
    assert_eq!(
        maybe_merge(messages, true),
        vec![timed("A", "one\ntwo", 0), timed("A", "three", 601)]
    );
}

#[test]
fn merging_keeps_the_text_as_a_whole() {
    let messages = vec![
        timed("A", "one", 0),
        timed("A", "two", 10),
        timed("B", "three", 20),
        Message::new("B", "four"),
        timed("B", "five", 30),
        timed("B", "six", 31),
    ];
    let before: Vec<String> = messages.iter().map(|m| m.content.clone()).collect();
    let merged = merge_consecutive(messages, 300);
    let after: Vec<String> = merged.iter().map(|m| m.content.clone()).collect();
    assert_eq!(after, vec!["one\ntwo", "three", "four", "five\nsix"]);
    assert_eq!(before.join("\n"), after.join("\n"));
    let senders: Vec<&str> = merged.iter().map(|m| m.sender.as_str()).collect();
    assert_eq!(senders, vec!["A", "B", "B", "B"]);
}
