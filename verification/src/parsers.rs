//! The four platform parsers, and the pipeline that every parse runs
//! through: read, filter, merge.

use vstd::prelude::*;
use vstd::string::*;
use vstd::utf8::{decode_utf8, valid_utf8};
use crate::error::{ParseError, ParseErrorView};
use crate::filter::{apply_filters, filter_messages, FilterConfig, FilterConfigView};
use crate::merge::{merge_consecutive, merge_messages, DEFAULT_MERGE_THRESHOLD};
use crate::message::{all_named, message_views, Message, MessageView};
use crate::time::Timestamp;
use crate::types::{
    host_views, optional_date_bound, parse_optional_date_bound, py_message_views, to_host,
    PyMessage, PyMessageView,
};

verus! {

/// The platforms whose exports can be read.
#[derive(Clone, Copy, Debug, PartialEq, Eq, Structural)]
pub enum Platform {
    /// One JSON document with an array of messages and service events.
    Telegram,
    /// Plain text, one message per line or group of lines.
    WhatsApp,
    /// One JSON document of the data download, newest message first.
    Instagram,
    /// What the chat exporter writes: JSON, CSV or plain text.
    Discord,
}

/// What the Telegram parser makes of the JSON export `content`: the
/// messages it reads, or, where it refuses the document, the text of its
/// error.
pub uninterp spec fn telegram_export(content: Seq<char>) -> Result<Seq<MessageView>, Seq<char>>;

/// What the WhatsApp parser makes of the text export `content`, leaving out
/// what it takes for system notices where `skip_system_messages` is set:
/// the messages it reads, or, where it refuses the text, the text of its
/// error.
pub uninterp spec fn whatsapp_export(content: Seq<char>, skip_system_messages: bool) -> Result<
    Seq<MessageView>,
    Seq<char>,
>;

/// What the Instagram parser makes of the JSON export `content`, setting
/// the platform's mis-encoded text right where `fix_encoding` is set: the
/// messages it reads, oldest first, or, where it refuses the document, the
/// text of its error.
pub uninterp spec fn instagram_export(content: Seq<char>, fix_encoding: bool) -> Result<
    Seq<MessageView>,
    Seq<char>,
>;

/// What the Discord parser makes of the export `content`, whichever of the
/// three shapes it has: the messages it reads, or, where it refuses the
/// export, the text of its error.
pub uninterp spec fn discord_export(content: Seq<char>) -> Result<Seq<MessageView>, Seq<char>>;

/// The views of what a parser wrapper hands back.
pub open spec fn outcome_view(r: Result<Vec<Message>, String>) -> Result<
    Seq<MessageView>,
    Seq<char>,
> {
    match r {
        Ok(messages) => Ok(message_views(messages@)),
        Err(cause) => Err(cause@),
    }
}

/// Calls `chatpack::parsers::TelegramParser::new` and, on that parser,
/// `chatpack::parser::Parser::parse_str`. Each message that comes back is
/// copied field by field, its times taken apart with `DateTime::timestamp`
/// and `DateTime::timestamp_subsec_nanos`; an error comes back as the text
/// that its `Display` writes.
///
/// Trusted: whether the parser accepts `content`, the messages it then
/// returns and the error it else returns are a function of `content` alone,
/// here called [`telegram_export`].
#[verifier::external_body]
pub(crate) fn telegram_parse_str(content: &str) -> (r: Result<Vec<Message>, String>)
    ensures
        outcome_view(r) == telegram_export(content@),
{
    let parser = chatpack::parsers::TelegramParser::new();
    let parsed = chatpack::parser::Parser::parse_str(&parser, content).map_err(|e| e.to_string())?;
    Ok(parsed.into_iter().map(|m| Message {
        sender: m.sender,
        content: m.content,
        timestamp: m.timestamp.map(|t| Timestamp { secs: t.timestamp(), nanos: t.timestamp_subsec_nanos() }),
        id: m.id,
        reply_to: m.reply_to,
        edited: m.edited.map(|t| Timestamp { secs: t.timestamp(), nanos: t.timestamp_subsec_nanos() }),
    }).collect())
}

/// Calls `chatpack::parsers::WhatsAppParser::with_config`, on the default
/// `chatpack::config::WhatsAppConfig` with `skip_system_messages` set as
/// given, and, on that parser, `chatpack::parser::Parser::parse_str`. Each
/// message that comes back is copied field by field, its times taken apart
/// with `DateTime::timestamp` and `DateTime::timestamp_subsec_nanos`; an
/// error comes back as the text that its `Display` writes.
///
/// Trusted: whether the parser accepts `content`, the messages it then
/// returns and the error it else returns are a function of `content` and
/// `skip_system_messages` alone, here called [`whatsapp_export`].
#[verifier::external_body]
pub(crate) fn whatsapp_parse_str(content: &str, skip_system_messages: bool) -> (r: Result<
    Vec<Message>,
    String,
>)
    ensures
        outcome_view(r) == whatsapp_export(content@, skip_system_messages),
{
    let config = chatpack::config::WhatsAppConfig::new().with_skip_system_messages(skip_system_messages);
    let parser = chatpack::parsers::WhatsAppParser::with_config(config);
    let parsed = chatpack::parser::Parser::parse_str(&parser, content).map_err(|e| e.to_string())?;
    Ok(parsed.into_iter().map(|m| Message {
        sender: m.sender,
        content: m.content,
        timestamp: m.timestamp.map(|t| Timestamp { secs: t.timestamp(), nanos: t.timestamp_subsec_nanos() }),
        id: m.id,
        reply_to: m.reply_to,
        edited: m.edited.map(|t| Timestamp { secs: t.timestamp(), nanos: t.timestamp_subsec_nanos() }),
    }).collect())
}

/// Calls `chatpack::parsers::InstagramParser::with_config`, on the default
/// `chatpack::config::InstagramConfig` with `fix_encoding` set as given,
/// and, on that parser, `chatpack::parser::Parser::parse_str`. Each message
/// that comes back is copied field by field, its times taken apart with
/// `DateTime::timestamp` and `DateTime::timestamp_subsec_nanos`; an error
/// comes back as the text that its `Display` writes.
///
/// Trusted: whether the parser accepts `content`, the messages it then
/// returns and the error it else returns are a function of `content` and
/// `fix_encoding` alone, here called [`instagram_export`].
#[verifier::external_body]
pub(crate) fn instagram_parse_str(content: &str, fix_encoding: bool) -> (r: Result<
    Vec<Message>,
    String,
>)
    ensures
        outcome_view(r) == instagram_export(content@, fix_encoding),
{
    let config = chatpack::config::InstagramConfig::new().with_fix_encoding(fix_encoding);
    let parser = chatpack::parsers::InstagramParser::with_config(config);
    let parsed = chatpack::parser::Parser::parse_str(&parser, content).map_err(|e| e.to_string())?;
    Ok(parsed.into_iter().map(|m| Message {
        sender: m.sender,
        content: m.content,
        timestamp: m.timestamp.map(|t| Timestamp { secs: t.timestamp(), nanos: t.timestamp_subsec_nanos() }),
        id: m.id,
        reply_to: m.reply_to,
        edited: m.edited.map(|t| Timestamp { secs: t.timestamp(), nanos: t.timestamp_subsec_nanos() }),
    }).collect())
}

/// Calls `chatpack::parsers::DiscordParser::new` and, on that parser,
/// `chatpack::parser::Parser::parse_str`. Each message that comes back is
/// copied field by field, its times taken apart with `DateTime::timestamp`
/// and `DateTime::timestamp_subsec_nanos`; an error comes back as the text
/// that its `Display` writes.
///
/// Trusted: whether the parser accepts `content`, the messages it then
/// returns and the error it else returns are a function of `content` alone,
/// here called [`discord_export`].
#[verifier::external_body]
pub(crate) fn discord_parse_str(content: &str) -> (r: Result<Vec<Message>, String>)
    ensures
        outcome_view(r) == discord_export(content@),
{
    let parser = chatpack::parsers::DiscordParser::new();
    let parsed = chatpack::parser::Parser::parse_str(&parser, content).map_err(|e| e.to_string())?;
    Ok(parsed.into_iter().map(|m| Message {
        sender: m.sender,
        content: m.content,
        timestamp: m.timestamp.map(|t| Timestamp { secs: t.timestamp(), nanos: t.timestamp_subsec_nanos() }),
        id: m.id,
        reply_to: m.reply_to,
        edited: m.edited.map(|t| Timestamp { secs: t.timestamp(), nanos: t.timestamp_subsec_nanos() }),
    }).collect())
}

/// The text that the bytes `raw` are read as where they are not valid
/// UTF-8: what is well formed stays, and each ill-formed stretch gives way
/// to the replacement character.
pub uninterp spec fn lossy_text(raw: Seq<u8>) -> Seq<char>;

/// Calls `String::from_utf8_lossy` and makes its result an owned `String`.
///
/// Trusted: valid UTF-8 is decoded as it stands; of any other bytes the
/// text is a function of the bytes alone, here called [`lossy_text`].
#[verifier::external_body]
pub(crate) fn decode_lossy(raw: &[u8]) -> (r: String)
    ensures
        valid_utf8(raw@) ==> r@ == decode_utf8(raw@),
        !valid_utf8(raw@) ==> r@ == lossy_text(raw@),
{
    String::from_utf8_lossy(raw).into_owned()
}

/// The text of an export file that holds the bytes `raw`: the bytes decoded
/// as UTF-8, with the replacement character wherever they are ill formed.
pub open spec fn export_text(raw: Seq<u8>) -> Seq<char> {
    if valid_utf8(raw) {
        decode_utf8(raw)
    } else {
        lossy_text(raw)
    }
}

/// What the parser of `platform` makes of `content`: the messages it reads,
/// or, where it refuses the export, the text of its error.
///
/// WhatsApp's system notices are kept, and Instagram's mis-encoded text is
/// set right.
pub open spec fn export_reading(platform: Platform, content: Seq<char>) -> Result<
    Seq<MessageView>,
    Seq<char>,
> {
    match platform {
        Platform::Telegram => telegram_export(content),
        Platform::WhatsApp => whatsapp_export(content, false),
        Platform::Instagram => instagram_export(content, true),
        Platform::Discord => discord_export(content),
    }
}

/// `m` with the sender `Unknown` where the export named none.
pub open spec fn with_named_sender(m: MessageView) -> MessageView {
    if m.sender.len() == 0 {
        MessageView { sender: "Unknown"@, ..m }
    } else {
        m
    }
}

/// `messages` with every nameless sender called `Unknown`.
pub open spec fn with_named_senders(messages: Seq<MessageView>) -> Seq<MessageView> {
    Seq::new(messages.len(), |i: int| with_named_sender(messages[i]))
}

/// What filtering and merging make of `messages`: the messages that
/// `config` admits, their runs merged where a threshold is given.
pub open spec fn processed(
    messages: Seq<MessageView>,
    config: FilterConfigView,
    merge_threshold: Option<int>,
) -> Seq<MessageView> {
    let kept = filter_messages(messages, config);
    match merge_threshold {
        Some(threshold) => merge_messages(kept, threshold),
        None => kept,
    }
}

/// The threshold that a parse merges with: none where `merge` is off, else
/// the one given, else the default.
pub open spec fn chosen_threshold(merge: bool, merge_threshold: Option<i64>) -> Option<int> {
    if !merge {
        None
    } else {
        match merge_threshold {
            Some(threshold) => Some(threshold as int),
            None => Some(DEFAULT_MERGE_THRESHOLD as int),
        }
    }
}

/// Gives every message without a sender the sender `Unknown`, so that no
/// message is left without one.
pub fn name_senders(messages: Vec<Message>) -> (r: Vec<Message>)
    ensures
        message_views(r@) == with_named_senders(message_views(messages@)),
        all_named(message_views(r@)),
{
    let mut named: Vec<Message> = Vec::new();
    let mut i: usize = 0;
    while i < messages.len()
        invariant
            i <= messages.len(),
            named@.len() == i,
            forall|k: int| 0 <= k < i ==> (#[trigger] named@[k])@ == with_named_sender(messages@[k]@),
            forall|k: int| 0 <= k < i ==> (#[trigger] named@[k]).sender@.len() > 0,
        decreases messages.len() - i,
    {
        let m: Message = messages[i].clone();
        if m.sender.as_str().unicode_len() == 0 {
            proof {
                reveal_strlit("Unknown");
            }
            named.push(Message { sender: String::from_str("Unknown"), ..m });
        } else {
            named.push(m);
        }
        i = i + 1;
    }
    proof {
        assert(message_views(named@) =~= with_named_senders(message_views(messages@)));
        assert forall|k: int| 0 <= k < named@.len() implies (#[trigger] message_views(
            named@,
        )[k]).sender.len() > 0 by {
            assert(named@[k].sender@.len() > 0);
        }
    }
    named
}

/// Reads the export text `content` of `platform` into messages, in the
/// order in which the parser returns them, each with a sender. Where the
/// parser refuses the export, the error carries the parser's own words.
pub fn parse_from_text(platform: Platform, content: &str) -> (r: Result<Vec<Message>, ParseError>)
    ensures
        match export_reading(platform, content@) {
            Ok(parsed) => r is Ok && message_views(r->Ok_0@) == with_named_senders(parsed),
            Err(cause) => r is Err && r->Err_0@ == ParseErrorView::Structure(cause),
        },
        r is Ok ==> all_named(message_views(r->Ok_0@)),
{
    let outcome = match platform {
        Platform::Telegram => telegram_parse_str(content),
        Platform::WhatsApp => whatsapp_parse_str(content, false),
        Platform::Instagram => instagram_parse_str(content, true),
        Platform::Discord => discord_parse_str(content),
    };
    match outcome {
        Ok(parsed) => Ok(name_senders(parsed)),
        Err(cause) => Err(ParseError::Structure(cause)),
    }
}

/// Filters `messages` by `config`, where one is given, and then merges the
/// runs, where `merge` is set: with `merge_threshold` seconds, or with the
/// default where none is given.
pub fn process(
    messages: Vec<Message>,
    config: Option<&FilterConfig>,
    merge: bool,
    merge_threshold: Option<i64>,
) -> (r: Vec<Message>)
    ensures
        message_views(r@) == processed(
            message_views(messages@),
            match config {
                Some(config) => config@,
                None => FilterConfigView::unconstrained(),
            },
            chosen_threshold(merge, merge_threshold),
        ),
        all_named(message_views(messages@)) ==> all_named(message_views(r@)),
{
    proof {
        if all_named(message_views(messages@)) {
            let config_view = match config {
                Some(config) => config@,
                None => FilterConfigView::unconstrained(),
            };
            let kept = filter_messages(message_views(messages@), config_view);
            crate::filter::lemma_filter_keeps_named(message_views(messages@), config_view);
            if merge {
                crate::merge::lemma_merge_keeps_named(
                    kept,
                    chosen_threshold(merge, merge_threshold)->0,
                );
            }
        }
    }
    let kept: Vec<Message> = match config {
        Some(config) => apply_filters(messages, config),
        None => {
            proof {
                crate::filter::lemma_filter_identity(
                    message_views(messages@),
                    FilterConfigView::unconstrained(),
                );
            }
            messages
        },
    };
    if merge {
        let threshold: i64 = match merge_threshold {
            Some(threshold) => threshold,
            None => DEFAULT_MERGE_THRESHOLD,
        };
        merge_consecutive(kept, threshold)
    } else {
        kept
    }
}

/// Reads the export of `platform` whose file holds the bytes `raw`, filters
/// and merges.
pub fn parse(
    platform: Platform,
    raw: &[u8],
    config: Option<&FilterConfig>,
    merge: bool,
    merge_threshold: Option<i64>,
) -> (r: Result<Vec<Message>, ParseError>)
    ensures
        match export_reading(platform, export_text(raw@)) {
            Ok(parsed) => r is Ok && message_views(r->Ok_0@) == processed(
                with_named_senders(parsed),
                match config {
                    Some(config) => config@,
                    None => FilterConfigView::unconstrained(),
                },
                chosen_threshold(merge, merge_threshold),
            ),
            Err(cause) => r is Err && r->Err_0@ == ParseErrorView::Structure(cause),
        },
        r is Ok ==> all_named(message_views(r->Ok_0@)),
{
    let content: String = decode_lossy(raw);
    match parse_from_text(platform, content.as_str()) {
        Ok(parsed) => Ok(process(parsed, config, merge, merge_threshold)),
        Err(error) => Err(error),
    }
}

/// The filter configuration that the short form of a parse asks for: a
/// least length and two date bounds, the latter as text.
pub open spec fn filter_config_of(
    min_length: Option<usize>,
    date_from: Option<Seq<char>>,
    date_to: Option<Seq<char>>,
) -> FilterConfigView {
    FilterConfigView {
        min_length,
        max_length: None,
        sender: None,
        date_from: optional_date_bound(date_from),
        date_to: optional_date_bound(date_to),
    }
}

/// What the short form of a parse owes the host for the export `content` of
/// `platform`: the messages to show, or, where the parser refuses the
/// export, the text of its error.
pub open spec fn parse_outcome(
    platform: Platform,
    content: Seq<char>,
    merge: bool,
    min_length: Option<usize>,
    date_from: Option<Seq<char>>,
    date_to: Option<Seq<char>>,
) -> Result<Seq<PyMessageView>, Seq<char>> {
    match export_reading(platform, content) {
        Ok(parsed) => Ok(
            host_views(
                processed(
                    with_named_senders(parsed),
                    filter_config_of(min_length, date_from, date_to),
                    chosen_threshold(merge, None),
                ),
            ),
        ),
        Err(cause) => Err(cause),
    }
}

/// What reading alone owes the host for the export `content` of `platform`:
/// the messages to show, or, where the parser refuses the export, the text
/// of its error.
pub open spec fn parse_str_outcome(platform: Platform, content: Seq<char>) -> Result<
    Seq<PyMessageView>,
    Seq<char>,
> {
    match export_reading(platform, content) {
        Ok(parsed) => Ok(host_views(with_named_senders(parsed))),
        Err(cause) => Err(cause),
    }
}

/// Whether `r` is the result that is owed for `outcome`: the messages where
/// there are any to show, else the error that blames the document's shape
/// in the parser's own words.
pub open spec fn is_result_of(
    r: Result<Vec<PyMessage>, ParseError>,
    outcome: Result<Seq<PyMessageView>, Seq<char>>,
) -> bool {
    match outcome {
        Ok(shown) => r is Ok && py_message_views(r->Ok_0@) == shown,
        Err(cause) => r is Err && r->Err_0@ == ParseErrorView::Structure(cause),
    }
}

/// With no option set, the short form of a parse owes what reading alone
/// owes: the same messages, or the same error.
pub proof fn lemma_parse_without_options(platform: Platform, content: Seq<char>)
    ensures
        parse_outcome(platform, content, false, None, None, None) == parse_str_outcome(
            platform,
            content,
        ),
{
    match export_reading(platform, content) {
        Ok(parsed) => {
            crate::filter::lemma_filter_identity(
                with_named_senders(parsed),
                filter_config_of(None, None, None),
            );
        },
        Err(_) => {},
    }
}

/// The message of the error that a refused export gives: `Parse error: `
/// and then the parser's own words.
pub proof fn lemma_refusal_message(
    r: Result<Vec<PyMessage>, ParseError>,
    outcome: Result<Seq<PyMessageView>, Seq<char>>,
)
    requires
        is_result_of(r, outcome),
        outcome is Err,
    ensures
        r is Err,
        r->Err_0@.message() == "Parse error: "@ + outcome->Err_0,
{
}

/// Builds the filter configuration of the short form of a parse. A date
/// bound whose text cannot be read constrains nothing.
pub fn build_filter_config(
    min_length: Option<usize>,
    date_from: Option<String>,
    date_to: Option<String>,
) -> (r: FilterConfig)
    ensures
        r@ == filter_config_of(min_length, date_from.deep_view(), date_to.deep_view()),
{
    let date_from: Option<Timestamp> = parse_optional_date_bound(&date_from);
    let date_to: Option<Timestamp> = parse_optional_date_bound(&date_to);
    FilterConfig { min_length, max_length: None, sender: None, date_from, date_to }
}

/// Reads the export of `platform` whose file holds the bytes `raw`, filters
/// by least length and date bounds, merges with the default threshold where
/// `merge` is set, and shows the result to the host.
pub fn parse_impl(
    platform: Platform,
    raw: &[u8],
    merge: bool,
    min_length: Option<usize>,
    date_from: Option<String>,
    date_to: Option<String>,
) -> (r: Result<Vec<PyMessage>, ParseError>)
    ensures
        is_result_of(
            r,
            parse_outcome(
                platform,
                export_text(raw@),
                merge,
                min_length,
                date_from.deep_view(),
                date_to.deep_view(),
            ),
        ),
{
    let config: FilterConfig = build_filter_config(min_length, date_from, date_to);
    match parse(platform, raw, Some(&config), merge, None) {
        Ok(messages) => Ok(to_host(messages)),
        Err(error) => Err(error),
    }
}

/// Reads the export text `content` of `platform` and shows every message
/// to the host, neither filtered nor merged.
pub fn parse_str_impl(platform: Platform, content: &str) -> (r: Result<Vec<PyMessage>, ParseError>)
    ensures
        is_result_of(r, parse_str_outcome(platform, content@)),
{
    match parse_from_text(platform, content) {
        Ok(messages) => Ok(to_host(messages)),
        Err(error) => Err(error),
    }
}

/// Reads the Telegram export whose file holds the bytes `raw`, filters,
/// merges and shows the result to the host.
pub fn parse_telegram_impl(
    raw: &[u8],
    merge: bool,
    min_length: Option<usize>,
    date_from: Option<String>,
    date_to: Option<String>,
) -> (r: Result<Vec<PyMessage>, ParseError>)
    ensures
        is_result_of(
            r,
            parse_outcome(
                Platform::Telegram,
                export_text(raw@),
                merge,
                min_length,
                date_from.deep_view(),
                date_to.deep_view(),
            ),
        ),
{
    parse_impl(Platform::Telegram, raw, merge, min_length, date_from, date_to)
}

/// Reads the WhatsApp export whose file holds the bytes `raw`, filters,
/// merges and shows the result to the host.
pub fn parse_whatsapp_impl(
    raw: &[u8],
    merge: bool,
    min_length: Option<usize>,
    date_from: Option<String>,
    date_to: Option<String>,
) -> (r: Result<Vec<PyMessage>, ParseError>)
    ensures
        is_result_of(
            r,
            parse_outcome(
                Platform::WhatsApp,
                export_text(raw@),
                merge,
                min_length,
                date_from.deep_view(),
                date_to.deep_view(),
            ),
        ),
{
    parse_impl(Platform::WhatsApp, raw, merge, min_length, date_from, date_to)
}

/// Reads the Instagram export whose file holds the bytes `raw`, filters,
/// merges and shows the result to the host.
pub fn parse_instagram_impl(
    raw: &[u8],
    merge: bool,
    min_length: Option<usize>,
    date_from: Option<String>,
    date_to: Option<String>,
) -> (r: Result<Vec<PyMessage>, ParseError>)
    ensures
        is_result_of(
            r,
            parse_outcome(
                Platform::Instagram,
                export_text(raw@),
                merge,
                min_length,
                date_from.deep_view(),
                date_to.deep_view(),
            ),
        ),
{
    parse_impl(Platform::Instagram, raw, merge, min_length, date_from, date_to)
}

/// Reads the Discord export whose file holds the bytes `raw`, filters,
/// merges and shows the result to the host.
pub fn parse_discord_impl(
    raw: &[u8],
    merge: bool,
    min_length: Option<usize>,
    date_from: Option<String>,
    date_to: Option<String>,
) -> (r: Result<Vec<PyMessage>, ParseError>)
    ensures
        is_result_of(
            r,
            parse_outcome(
                Platform::Discord,
                export_text(raw@),
                merge,
                min_length,
                date_from.deep_view(),
                date_to.deep_view(),
            ),
        ),
{
    parse_impl(Platform::Discord, raw, merge, min_length, date_from, date_to)
}

/// The parser of Telegram exports.
#[derive(Clone, Copy, Debug)]
pub struct TelegramParser {}

impl TelegramParser {
    /// A parser of Telegram exports.
    pub fn new() -> Self {
        TelegramParser {}
    }

    /// Reads the export whose file holds the bytes `raw`, filters, merges
    /// and shows the result to the host.
    pub fn parse(
        &self,
        raw: &[u8],
        merge: bool,
        min_length: Option<usize>,
        date_from: Option<String>,
        date_to: Option<String>,
    ) -> (r: Result<Vec<PyMessage>, ParseError>)
        ensures
            is_result_of(
                r,
                parse_outcome(
                    Platform::Telegram,
                    export_text(raw@),
                    merge,
                    min_length,
                    date_from.deep_view(),
                    date_to.deep_view(),
                ),
            ),
    {
        parse_telegram_impl(raw, merge, min_length, date_from, date_to)
    }

    /// Reads the export text `content` and shows every message to the host.
    pub fn parse_str(&self, content: String) -> (r: Result<Vec<PyMessage>, ParseError>)
        ensures
            is_result_of(r, parse_str_outcome(Platform::Telegram, content@)),
    {
        parse_str_impl(Platform::Telegram, content.as_str())
    }
}

/// The parser of WhatsApp exports.
#[derive(Clone, Copy, Debug)]
pub struct WhatsAppParser {}

impl WhatsAppParser {
    /// A parser of WhatsApp exports.
    pub fn new() -> Self {
        WhatsAppParser {}
    }

    /// Reads the export whose file holds the bytes `raw`, filters, merges
    /// and shows the result to the host.
    pub fn parse(
        &self,
        raw: &[u8],
        merge: bool,
        min_length: Option<usize>,
        date_from: Option<String>,
        date_to: Option<String>,
    ) -> (r: Result<Vec<PyMessage>, ParseError>)
        ensures
            is_result_of(
                r,
                parse_outcome(
                    Platform::WhatsApp,
                    export_text(raw@),
                    merge,
                    min_length,
                    date_from.deep_view(),
                    date_to.deep_view(),
                ),
            ),
    {
        parse_whatsapp_impl(raw, merge, min_length, date_from, date_to)
    }

    /// Reads the export text `content` and shows every message to the host.
    pub fn parse_str(&self, content: String) -> (r: Result<Vec<PyMessage>, ParseError>)
        ensures
            is_result_of(r, parse_str_outcome(Platform::WhatsApp, content@)),
    {
        parse_str_impl(Platform::WhatsApp, content.as_str())
    }
}

/// The parser of Instagram exports.
#[derive(Clone, Copy, Debug)]
pub struct InstagramParser {}

impl InstagramParser {
    /// A parser of Instagram exports.
    pub fn new() -> Self {
        InstagramParser {}
    }

    /// Reads the export whose file holds the bytes `raw`, filters, merges
    /// and shows the result to the host.
    pub fn parse(
        &self,
        raw: &[u8],
        merge: bool,
        min_length: Option<usize>,
        date_from: Option<String>,
        date_to: Option<String>,
    ) -> (r: Result<Vec<PyMessage>, ParseError>)
        ensures
            is_result_of(
                r,
                parse_outcome(
                    Platform::Instagram,
                    export_text(raw@),
                    merge,
                    min_length,
                    date_from.deep_view(),
                    date_to.deep_view(),
                ),
            ),
    {
        parse_instagram_impl(raw, merge, min_length, date_from, date_to)
    }

    /// Reads the export text `content` and shows every message to the host.
    pub fn parse_str(&self, content: String) -> (r: Result<Vec<PyMessage>, ParseError>)
        ensures
            is_result_of(r, parse_str_outcome(Platform::Instagram, content@)),
    {
        parse_str_impl(Platform::Instagram, content.as_str())
    }
}

/// The parser of Discord exports.
#[derive(Clone, Copy, Debug)]
pub struct DiscordParser {}

impl DiscordParser {
    /// A parser of Discord exports.
    pub fn new() -> Self {
        DiscordParser {}
    }

    /// Reads the export whose file holds the bytes `raw`, filters, merges
    /// and shows the result to the host.
    pub fn parse(
        &self,
        raw: &[u8],
        merge: bool,
        min_length: Option<usize>,
        date_from: Option<String>,
        date_to: Option<String>,
    ) -> (r: Result<Vec<PyMessage>, ParseError>)
        ensures
            is_result_of(
                r,
                parse_outcome(
                    Platform::Discord,
                    export_text(raw@),
                    merge,
                    min_length,
                    date_from.deep_view(),
                    date_to.deep_view(),
                ),
            ),
    {
        parse_discord_impl(raw, merge, min_length, date_from, date_to)
    }

    /// Reads the export text `content` and shows every message to the host.
    pub fn parse_str(&self, content: String) -> (r: Result<Vec<PyMessage>, ParseError>)
        ensures
            is_result_of(r, parse_str_outcome(Platform::Discord, content@)),
    {
        parse_str_impl(Platform::Discord, content.as_str())
    }
}

} // verus!
