use chat_exports::filter::{apply_filters, FilterConfig};
use chat_exports::message::Message;
use chat_exports::time::Timestamp;

fn sent_at(secs: i64) -> Timestamp {
    Timestamp { secs, nanos: 0 }
}

fn sample() -> Vec<Message> {
    vec![
        Message::new("Alice", "hi").with_timestamp(sent_at(100)),
        Message::new("Bob", "hello there").with_timestamp(sent_at(200)),
        Message::new("Alice", ""),
        Message::new("alice", "good morning").with_timestamp(sent_at(300)),
        Message::new("Bob", "bye").with_timestamp(sent_at(400)).with_id(9),
    ]
}

#[test]
fn no_predicate_returns_the_input_unchanged() {
    assert_eq!(apply_filters(sample(), &FilterConfig::new()), sample());
}

#[test]
fn new_configuration_has_no_predicate() {
    let config = FilterConfig::new();
    assert_eq!(config.min_length, None);
    assert_eq!(config.max_length, None);
    assert_eq!(config.sender, None);
    assert_eq!(config.date_from, None);
    assert_eq!(config.date_to, None);
}

#[test]
fn setters_set_one_field_each() {
    let config = FilterConfig::new()
        .with_min_length(1)
        .with_max_length(2)
        .with_sender("Bob")
        .with_date_from(sent_at(3))
        .with_date_to(sent_at(4));
    assert_eq!(
        config,
        FilterConfig {
            min_length: Some(1),
            max_length: Some(2),
            sender: Some("Bob".to_string()),
            date_from: Some(sent_at(3)),
            date_to: Some(sent_at(4)),
        }
    );
}

#[test]
fn filtering_twice_is_filtering_once() {
    let config = FilterConfig::new().with_min_length(3).with_sender("Bob").with_date_from(sent_at(150));
    let once = apply_filters(sample(), &config);
    let twice = apply_filters(once.clone(), &config);
    assert_eq!(once, twice);
    assert_eq!(
        once,
        vec![
            Message::new("Bob", "hello there").with_timestamp(sent_at(200)),
            Message::new("Bob", "bye").with_timestamp(sent_at(400)).with_id(9),
        ]
    );
}

#[test]
fn min_length_is_inclusive() {
    let kept = apply_filters(sample(), &FilterConfig::new().with_min_length(3));
    let contents: Vec<&str> = kept.iter().map(|m| m.content.as_str()).collect();
    assert_eq!(contents, vec!["hello there", "good morning", "bye"]);
}

#[test]
fn max_length_is_inclusive() {
    let kept = apply_filters(sample(), &FilterConfig::new().with_max_length(3));
    let contents: Vec<&str> = kept.iter().map(|m| m.content.as_str()).collect();
    assert_eq!(contents, vec!["hi", "", "bye"]);
}

#[test]
fn min_length_zero_keeps_empty_content() {
    assert_eq!(apply_filters(sample(), &FilterConfig::new().with_min_length(0)), sample());
}

#[test]
fn min_above_max_keeps_nothing() {
    let config = FilterConfig::new().with_min_length(4).with_max_length(3);
    assert_eq!(apply_filters(sample(), &config), Vec::new());
}

#[test]
fn length_counts_characters_not_bytes() {
    let messages = vec![Message::new("A", "héllo"), Message::new("A", "日本語"), Message::new("A", "😀😀")];
    let exact = FilterConfig::new().with_min_length(5).with_max_length(5);
    assert_eq!(apply_filters(messages.clone(), &exact), vec![Message::new("A", "héllo")]);
    let short = FilterConfig::new().with_max_length(2);
    assert_eq!(apply_filters(messages.clone(), &short), vec![Message::new("A", "😀😀")]);
    let three = FilterConfig::new().with_min_length(3).with_max_length(3);
    assert_eq!(apply_filters(messages, &three), vec![Message::new("A", "日本語")]);
}

#[test]
fn sender_matches_letter_for_letter() {
    let kept = apply_filters(sample(), &FilterConfig::new().with_sender("Alice"));
    assert_eq!(
        kept,
        vec![Message::new("Alice", "hi").with_timestamp(sent_at(100)), Message::new("Alice", "")]
    );
}

#[test]
fn unknown_sender_keeps_nothing() {
    assert_eq!(apply_filters(sample(), &FilterConfig::new().with_sender("Carol")), Vec::new());
}

#[test]
fn date_from_is_inclusive() {
    let kept = apply_filters(sample(), &FilterConfig::new().with_date_from(sent_at(200)));
    let times: Vec<Option<Timestamp>> = kept.iter().map(|m| m.timestamp).collect();
    assert_eq!(times, vec![Some(sent_at(200)), Some(sent_at(300)), Some(sent_at(400))]);
}

#[test]
fn date_to_is_inclusive() {
    let kept = apply_filters(sample(), &FilterConfig::new().with_date_to(sent_at(300)));
    let times: Vec<Option<Timestamp>> = kept.iter().map(|m| m.timestamp).collect();
    assert_eq!(times, vec![Some(sent_at(100)), Some(sent_at(200)), Some(sent_at(300))]);
}

#[test]
fn date_bounds_look_at_nanoseconds() {
    let bound = Timestamp { secs: 200, nanos: 500 };
    let messages = vec![
        Message::new("A", "before").with_timestamp(Timestamp { secs: 200, nanos: 499 }),
        Message::new("A", "at").with_timestamp(bound),
        Message::new("A", "after").with_timestamp(Timestamp { secs: 200, nanos: 501 }),
    ];
    let from = apply_filters(messages.clone(), &FilterConfig::new().with_date_from(bound));
    let contents: Vec<&str> = from.iter().map(|m| m.content.as_str()).collect();
    assert_eq!(contents, vec!["at", "after"]);
    let to = apply_filters(messages, &FilterConfig::new().with_date_to(bound));
    let contents: Vec<&str> = to.iter().map(|m| m.content.as_str()).collect();
    assert_eq!(contents, vec!["before", "at"]);
}

#[test]
fn message_without_timestamp_fails_a_lower_date_bound() {
    let kept = apply_filters(vec![Message::new("A", "x")], &FilterConfig::new().with_date_from(sent_at(i64::MIN)));
    assert_eq!(kept, Vec::new());
}

#[test]
fn message_without_timestamp_fails_an_upper_date_bound() {
    let kept = apply_filters(vec![Message::new("A", "x")], &FilterConfig::new().with_date_to(sent_at(i64::MAX)));
    assert_eq!(kept, Vec::new());
}

#[test]
fn message_without_timestamp_passes_without_date_bounds() {
    let config = FilterConfig::new().with_min_length(1).with_sender("A");
    assert_eq!(apply_filters(vec![Message::new("A", "x")], &config), vec![Message::new("A", "x")]);
}

#[test]
fn every_predicate_has_to_hold() {
    let config = FilterConfig::new()
        .with_min_length(3)
        .with_max_length(11)
        .with_sender("Bob")
        .with_date_from(sent_at(200))
        .with_date_to(sent_at(399));
    assert_eq!(
        apply_filters(sample(), &config),
        vec![Message::new("Bob", "hello there").with_timestamp(sent_at(200))]
    );
}

#[test]
fn admits_agrees_with_the_filter() {
    let config = FilterConfig::new().with_max_length(2);
    assert!(config.admits(&Message::new("A", "hi")));
    assert!(!config.admits(&Message::new("A", "hey")));
}

#[test]
fn filtering_nothing_gives_nothing() {
    assert_eq!(apply_filters(Vec::new(), &FilterConfig::new().with_min_length(1)), Vec::new());
}
