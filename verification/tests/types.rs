use chat_exports::filter::FilterConfig;
use chat_exports::message::Message;
use chat_exports::time::Timestamp;
use chat_exports::types::{
    clone_text, parse_optional_date_bound, to_host, to_unified, PyFilterConfig, PyMessage,
    PyOutputConfig, REPR_CONTENT_CHARS,
};

fn instant(secs: i64) -> Timestamp {
    Timestamp { secs, nanos: 0 }
}

fn text(s: &str) -> Option<String> {
    Some(s.to_string())
}

fn host(sender: &str, content: &str, timestamp: Option<&str>) -> PyMessage {
    PyMessage::new(sender.to_string(), content.to_string(), timestamp.map(|t| t.to_string()), None)
}

#[test]
fn new_host_message_holds_its_fields() {
    let m = PyMessage::new("Alice".to_string(), "Hi".to_string(), text("t"), text("telegram"));
    assert_eq!(m.sender, "Alice");
    assert_eq!(m.content, "Hi");
    assert_eq!(m.timestamp, text("t"));
    assert_eq!(m.platform, text("telegram"));
}

#[test]
fn repr_shows_short_content_whole() {
    let m = host("Alice", "Hello", None);
    assert_eq!(m.__repr__(), "Message(sender='Alice', content='Hello...', timestamp=None)");
}

#[test]
fn repr_cuts_content_after_thirty_characters() {
    let m = host("Bob", "0123456789012345678901234567890123", Some("2024-01-15T10:30:00+00:00"));
    assert_eq!(
        m.__repr__(),
        "Message(sender='Bob', content='012345678901234567890123456789...', timestamp=2024-01-15T10:30:00+00:00)"
    );
    assert_eq!(REPR_CONTENT_CHARS, 30);
}

#[test]
fn repr_keeps_content_of_exactly_thirty_characters() {
    let m = host("Bob", "012345678901234567890123456789", None);
    assert_eq!(
        m.__repr__(),
        "Message(sender='Bob', content='012345678901234567890123456789...', timestamp=None)"
    );
}

#[test]
fn repr_counts_characters_not_bytes() {
    let content = "ééééééééééééééééééééééééééééééé";
    assert_eq!(content.chars().count(), 31);
    let m = host("Zoé", content, None);
    assert_eq!(
        m.__repr__(),
        "Message(sender='Zoé', content='éééééééééééééééééééééééééééééé...', timestamp=None)"
    );
}

#[test]
fn str_is_sender_colon_content() {
    assert_eq!(host("Alice", "Hello there", None).__str__(), "Alice: Hello there");
    assert_eq!(host("", "", None).__str__(), ": ");
}

#[test]
fn to_dict_lists_the_four_fields_in_order() {
    let m = PyMessage::new("Alice".to_string(), "Hi".to_string(), text("2024"), None);
    assert_eq!(
        m.to_dict(),
        vec![
            ("sender".to_string(), text("Alice")),
            ("content".to_string(), text("Hi")),
            ("timestamp".to_string(), text("2024")),
            ("platform".to_string(), None),
        ]
    );
}

#[test]
fn from_rust_writes_the_time_as_rfc3339() {
    let m = Message::new("Alice", "Hi").with_timestamp(instant(1_705_314_600)).with_id(4);
    assert_eq!(PyMessage::from_rust(m), host("Alice", "Hi", Some("2024-01-15T10:30:00+00:00")));
}

#[test]
fn from_rust_writes_fractions_of_a_second() {
    let m = Message::new("A", "x").with_timestamp(Timestamp { secs: 0, nanos: 250_000_000 });
    assert_eq!(PyMessage::from_rust(m).timestamp, text("1970-01-01T00:00:00.250+00:00"));
    let m = Message::new("A", "x").with_timestamp(Timestamp { secs: -1, nanos: 1 });
    assert_eq!(PyMessage::from_rust(m).timestamp, text("1969-12-31T23:59:59.000000001+00:00"));
}

#[test]
fn from_rust_without_time_has_none() {
    assert_eq!(PyMessage::from_rust(Message::new("A", "x")), host("A", "x", None));
}

#[test]
fn from_rust_drops_a_time_outside_the_calendar() {
    let m = Message::new("A", "x").with_timestamp(instant(i64::MAX));
    assert_eq!(PyMessage::from_rust(m).timestamp, None);
    let m = Message::new("A", "x").with_timestamp(Timestamp { secs: 0, nanos: 2_000_000_000 });
    assert_eq!(PyMessage::from_rust(m).timestamp, None);
}

#[test]
fn into_rust_reads_the_time() {
    let m = PyMessage::new("Alice".to_string(), "Hi".to_string(), text("2024-01-15T12:30:00+02:00"), text("x"));
    assert_eq!(m.into_rust(), Message::new("Alice", "Hi").with_timestamp(instant(1_705_314_600)));
}

#[test]
fn into_rust_drops_a_time_it_cannot_read() {
    assert_eq!(host("A", "x", Some("yesterday")).into_rust(), Message::new("A", "x"));
    assert_eq!(host("A", "x", Some("2024-01-15")).into_rust(), Message::new("A", "x"));
    assert_eq!(host("A", "x", None).into_rust(), Message::new("A", "x"));
}

#[test]
fn host_and_back_keeps_sender_content_and_time() {
    let m = Message::new("A", "x").with_timestamp(Timestamp { secs: 1_705_314_600, nanos: 123_456_789 });
    assert_eq!(PyMessage::from_rust(m.clone()).into_rust(), m);
}

#[test]
fn lists_convert_in_order() {
    let unified = vec![Message::new("A", "one").with_timestamp(instant(0)), Message::new("B", "two")];
    let shown = to_host(unified.clone());
    assert_eq!(
        shown,
        vec![host("A", "one", Some("1970-01-01T00:00:00+00:00")), host("B", "two", None)]
    );
    assert_eq!(to_unified(shown), unified);
}

#[test]
fn clone_text_copies() {
    assert_eq!(clone_text(&text("abc")), text("abc"));
    assert_eq!(clone_text(&None), None);
}

#[test]
fn clone_of_a_host_message_is_equal() {
    let m = PyMessage::new("A".to_string(), "b".to_string(), text("c"), text("d"));
    assert_eq!(m.clone(), m);
}

#[test]
fn new_filter_configuration_holds_its_fields() {
    let c = PyFilterConfig::new(Some(1), Some(2), text("Bob"), text("2024-01-01"), text("2024-12-31"));
    assert_eq!(c.min_length, Some(1));
    assert_eq!(c.max_length, Some(2));
    assert_eq!(c.sender, text("Bob"));
    assert_eq!(c.date_from, text("2024-01-01"));
    assert_eq!(c.date_to, text("2024-12-31"));
}

#[test]
fn filter_configuration_setters_set_one_field_each() {
    let c = PyFilterConfig::new(None, None, None, None, None)
        .with_min_length(3)
        .with_max_length(9)
        .with_sender("Bob".to_string())
        .with_date_from("2024-01-01".to_string())
        .with_date_to("2024-12-31".to_string());
    assert_eq!(
        c,
        PyFilterConfig::new(Some(3), Some(9), text("Bob"), text("2024-01-01"), text("2024-12-31"))
    );
}

#[test]
fn filter_configuration_reads_its_date_bounds() {
    let c = PyFilterConfig::new(Some(3), Some(9), text("Bob"), text("2024-06-01"), text("2024-06-01T12:30:00Z"));
    assert_eq!(
        c.into_rust(),
        FilterConfig {
            min_length: Some(3),
            max_length: Some(9),
            sender: text("Bob"),
            date_from: Some(instant(1_717_200_000)),
            date_to: Some(instant(1_717_245_000)),
        }
    );
}

#[test]
fn date_to_given_as_a_date_is_the_start_of_that_day() {
    let c = PyFilterConfig::new(None, None, None, None, text("2024-06-01"));
    assert_eq!(c.into_rust().date_to, Some(instant(1_717_200_000)));
}

#[test]
fn unreadable_date_bound_constrains_nothing() {
    let c = PyFilterConfig::new(None, None, None, text("soon"), text(""));
    assert_eq!(c.into_rust(), FilterConfig::new());
    assert_eq!(parse_optional_date_bound(&text("soon")), None);
    assert_eq!(parse_optional_date_bound(&None), None);
    assert_eq!(parse_optional_date_bound(&text("1970-01-02")), Some(instant(86_400)));
}

#[test]
fn output_configuration_defaults_to_timestamps_only() {
    assert_eq!(PyOutputConfig::default(), PyOutputConfig::new(true, false));
}

#[test]
fn output_configuration_setters_switch_on() {
    let c = PyOutputConfig::new(false, false);
    assert!(!c.include_timestamps);
    assert!(!c.include_platform);
    assert_eq!(c.with_timestamps(), PyOutputConfig::new(true, false));
    assert_eq!(c.with_platform(), PyOutputConfig::new(false, true));
    assert_eq!(c.with_timestamps().with_platform(), PyOutputConfig::new(true, true));
}

fn full(sender: &str, content: &str, timestamp: Option<&str>, platform: Option<&str>) -> PyMessage {
    PyMessage::new(
        sender.to_string(),
        content.to_string(),
        timestamp.map(|t| t.to_string()),
        platform.map(|p| p.to_string()),
    )
}

#[test]
fn host_filter_keeps_what_passes_as_it_was_given() {
    let messages = vec![
        full("Alice", "hello", Some("2024-06-01 00:00:00Z"), Some("telegram")),
        host("Alice", "hi", Some("2024-06-02T00:00:00Z")),
        host("Bob", "hello", Some("2024-05-31T23:59:59Z")),
        host("Bob", "hello", None),
        host("Bob", "hello", Some("not a time")),
        full("Bob", "hello", Some("2024-06-03T02:00:00+02:00"), None),
    ];
    let config = PyFilterConfig::new(Some(3), None, None, text("2024-06-01"), None);
    assert_eq!(
        chat_exports::apply_filters(messages, config),
        vec![
            full("Alice", "hello", Some("2024-06-01 00:00:00Z"), Some("telegram")),
            full("Bob", "hello", Some("2024-06-03T02:00:00+02:00"), None),
        ]
    );
}

#[test]
fn host_filter_without_predicate_returns_the_input_unchanged() {
    let messages = vec![
        host("A", "x", None),
        host("B", "", Some("2024-06-01T10:00:00+00:00")),
        full("C", "y", Some("2024-06-01 10:00:00Z"), Some("telegram")),
        full("D", "z", Some("not a time"), Some("discord")),
    ];
    let config = PyFilterConfig::new(None, None, None, None, None);
    assert_eq!(chat_exports::apply_filters(messages.clone(), config), messages);
    let unreadable = PyFilterConfig::new(None, None, None, text("soon"), text("later"));
    assert_eq!(chat_exports::apply_filters(messages.clone(), unreadable), messages);
}

#[test]
fn host_filter_twice_is_host_filter_once() {
    let messages = vec![
        full("A", "one", Some("2024-06-01 10:00:00Z"), Some("telegram")),
        full("A", "three", Some("junk"), Some("telegram")),
        full("B", "two", Some("2024-06-02T10:00:00Z"), None),
        full("A", "four", Some("2024-05-02T10:00:00Z"), None),
    ];
    let once = chat_exports::apply_filters(
        messages,
        PyFilterConfig::new(Some(3), Some(4), None, text("2024-06-01"), None),
    );
    let twice = chat_exports::apply_filters(
        once.clone(),
        PyFilterConfig::new(Some(3), Some(4), None, text("2024-06-01"), None),
    );
    assert_eq!(once, twice);
    assert_eq!(
        once,
        vec![
            full("A", "one", Some("2024-06-01 10:00:00Z"), Some("telegram")),
            full("B", "two", Some("2024-06-02T10:00:00Z"), None),
        ]
    );
}

#[test]
fn host_filter_by_sender_and_length() {
    let messages = vec![host("A", "one", None), host("B", "two", None), host("A", "three", None)];
    let config = PyFilterConfig::new(None, Some(3), text("A"), None, None);
    assert_eq!(chat_exports::apply_filters(messages, config), vec![host("A", "one", None)]);
}

#[test]
fn host_filter_drops_a_message_whose_time_cannot_be_read_under_a_date_bound() {
    let messages = vec![host("A", "x", Some("yesterday")), host("A", "y", Some("2024-06-01T00:00:00Z"))];
    let config = PyFilterConfig::new(None, None, None, None, text("2024-06-01"));
    assert_eq!(
        chat_exports::apply_filters(messages, config),
        vec![host("A", "y", Some("2024-06-01T00:00:00Z"))]
    );
}

#[test]
fn host_merge_joins_a_run_and_keeps_the_first_message_as_given() {
    let messages = vec![
        full("A", "one", Some("2024-06-01 10:00:00Z"), Some("telegram")),
        full("A", "two", Some("2024-06-01T10:05:00Z"), Some("whatsapp")),
        host("A", "three", Some("2024-06-01T10:10:01Z")),
        full("B", "four", Some("2024-06-01T12:10:02+02:00"), Some("discord")),
        host("B", "five", None),
        host("B", "six", Some("not a time")),
    ];
    assert_eq!(
        chat_exports::merge_consecutive(messages, 300),
        vec![
            full("A", "one\ntwo", Some("2024-06-01 10:00:00Z"), Some("telegram")),
            host("A", "three", Some("2024-06-01T10:10:01Z")),
            full("B", "four", Some("2024-06-01T12:10:02+02:00"), Some("discord")),
            host("B", "five", None),
            host("B", "six", Some("not a time")),
        ]
    );
}

#[test]
fn host_merge_takes_the_gap_from_the_last_message_of_the_run() {
    let messages = vec![
        host("A", "one", Some("2024-06-01T10:00:00Z")),
        host("A", "two", Some("2024-06-01T10:04:00Z")),
        host("A", "three", Some("2024-06-01T10:08:00Z")),
    ];
    assert_eq!(
        chat_exports::merge_consecutive(messages, 300),
        vec![host("A", "one\ntwo\nthree", Some("2024-06-01T10:00:00Z"))]
    );
}

#[test]
fn host_merge_without_a_run_returns_the_input_unchanged() {
    let messages = vec![
        full("A", "one", Some("junk"), Some("telegram")),
        full("A", "two", Some("2024-06-01 10:00:00Z"), Some("telegram")),
        full("B", "three", Some("2024-06-01 10:00:01Z"), None),
        full("B", "four", Some("2024-06-01 10:05:02Z"), None),
    ];
    assert_eq!(chat_exports::merge_consecutive(messages.clone(), 300), messages);
    assert_eq!(chat_exports::merge_consecutive(Vec::new(), 300), Vec::new());
}
