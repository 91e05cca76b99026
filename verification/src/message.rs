//! A chat message and the payload that carries it.
//!
//! The `data` member of a `message` frame is itself JSON text: an object
//! with the sender under `from` and the text under `message`.

use vstd::prelude::*;
use crate::json::{
    doc_field, doc_of, json_parse, json_text, member, members_of, object_value, parse_value,
    render, text_value, JsonDoc,
};
use crate::wire::DecodeError;

verus! {

/// One message of the feed: who sent it and what it says.
#[derive(Debug, Clone, PartialEq, Eq)]
pub struct ChatMessage {
    pub from: String,
    pub body: String,
}

/// The model of a [`ChatMessage`].
pub struct MessageView {
    pub from: Seq<char>,
    pub body: Seq<char>,
}

impl View for ChatMessage {
    type V = MessageView;

    open spec fn view(&self) -> MessageView {
        MessageView { from: self.from@, body: self.body@ }
    }
}

/// The message that a document holds: both members must be there and be
/// strings. Other members are ignored.
pub open spec fn message_of(doc: JsonDoc) -> Result<MessageView, DecodeError> {
    match (doc_field(doc, "from"@), doc_field(doc, "message"@)) {
        (Some(JsonDoc::Text(from)), Some(JsonDoc::Text(body))) => Ok(MessageView { from, body }),
        _ => Err(DecodeError::Malformed),
    }
}

/// What decoding a payload gives: the message of the document that the text
/// holds, and an error where the text holds none.
pub open spec fn decode_payload_spec(text: Seq<char>) -> Result<MessageView, DecodeError> {
    match json_parse(text) {
        Some(doc) => message_of(doc),
        None => Err(DecodeError::Malformed),
    }
}

/// The document of a message: an object with exactly the two members.
pub open spec fn message_doc(message: MessageView) -> JsonDoc {
    JsonDoc::Object(
        Map::empty().insert("from"@, JsonDoc::Text(message.from)).insert(
            "message"@,
            JsonDoc::Text(message.body),
        ),
    )
}

/// What encoding a message gives: the text of its document.
pub open spec fn encode_payload_spec(message: MessageView) -> Seq<char> {
    json_text(message_doc(message))
}

/// The names of the two members differ.
pub proof fn lemma_payload_names()
    ensures
        "from"@ != "message"@,
{
    reveal_strlit("from");
    reveal_strlit("message");
    assert("from"@.len() == 4 && "message"@.len() == 7);
}

/// Reads the member under `key` as a string; none where it is absent or no
/// string.
fn string_member(doc: &serde_json::Value, key: &str) -> (r: Option<String>)
    ensures
        r matches Some(text) ==> doc_field(doc_of(*doc), key@) == Some(JsonDoc::Text(text@)),
        r is None ==> !(doc_field(doc_of(*doc), key@) matches Some(JsonDoc::Text(_))),
{
    match member(doc, key) {
        Some(v) => match v.as_str() {
            Some(s) => Some(s.to_owned()),
            None => None,
        },
        None => None,
    }
}

/// Reads a message out of a parsed document.
pub fn read_message(doc: &serde_json::Value) -> (r: Result<ChatMessage, DecodeError>)
    ensures
        r matches Ok(message) ==> message_of(doc_of(*doc)) == Ok::<_, DecodeError>(message@),
        r matches Err(e) ==> message_of(doc_of(*doc)) == Err::<MessageView, _>(e),
{
    let from = match string_member(doc, "from") {
        Some(text) => text,
        None => {
            return Err(DecodeError::Malformed);
        },
    };
    let body = match string_member(doc, "message") {
        Some(text) => text,
        None => {
            return Err(DecodeError::Malformed);
        },
    };
    Ok(ChatMessage { from, body })
}

/// Decodes the payload of a `message` envelope.
///
/// The text must hold a JSON object with a string under `from` and a string
/// under `message`. Anything else is `Malformed`.
pub fn decode_payload(text: &str) -> (r: Result<ChatMessage, DecodeError>)
    ensures
        r matches Ok(message) ==> decode_payload_spec(text@) == Ok::<_, DecodeError>(message@),
        r matches Err(e) ==> decode_payload_spec(text@) == Err::<MessageView, _>(e),
{
    match parse_value(text) {
        Ok(doc) => read_message(&doc),
        Err(_) => Err(DecodeError::Malformed),
    }
}

/// Builds the JSON object of a message.
pub fn message_value(message: &ChatMessage) -> (v: serde_json::Value)
    ensures
        doc_of(v) == message_doc(message@),
{
    let mut fields: Vec<(String, serde_json::Value)> = Vec::new();
    let ghost none = fields@;
    fields.push(("from".to_owned(), text_value(message.from.clone())));
    let ghost one = fields@;
    fields.push(("message".to_owned(), text_value(message.body.clone())));
    proof {
        lemma_payload_names();
        assert(fields@.drop_last() =~= one);
        assert(one.drop_last() =~= none);
        reveal_with_fuel(members_of, 3);
        assert(members_of(fields@) =~= message_doc(message@)->Object_0);
    }
    object_value(fields)
}

/// Encodes a message as the payload of a `message` envelope.
pub fn encode_payload(message: &ChatMessage) -> (text: String)
    ensures
        text@ == encode_payload_spec(message@),
{
    let doc = message_value(message);
    render(&doc)
}

/// Round trip, at the level of documents: for every message, the document
/// that encoding builds is read back as that same message.
pub proof fn lemma_message_round_trip(message: MessageView)
    ensures
        message_of(message_doc(message)) == Ok::<_, DecodeError>(message),
{
    lemma_payload_names();
    let doc = message_doc(message);
    assert(doc_field(doc, "from"@) == Some(JsonDoc::Text(message.from)));
    assert(doc_field(doc, "message"@) == Some(JsonDoc::Text(message.body)));
}

/// Whether `text` ends with `suffix`.
pub open spec fn ends_with_spec(text: Seq<char>, suffix: Seq<char>) -> bool {
    suffix.len() <= text.len() && text.subrange(text.len() - suffix.len(), text.len() as int)
        == suffix
}

/// Whether a message body names an animated image and is to be shown as
/// one: it does where it ends with `.gif`.
pub open spec fn is_image_spec(body: Seq<char>) -> bool {
    ends_with_spec(body, ".gif"@)
}

/// Tells whether `text` ends with `suffix`, character for character.
pub fn ends_with(text: &str, suffix: &str) -> (r: bool)
    ensures
        r == ends_with_spec(text@, suffix@),
{
    let n = text.unicode_len();
    let k = suffix.unicode_len();
    if k > n {
        return false;
    }
    let start = n - k;
    let ghost tail = text@.subrange(start as int, n as int);
    let mut j: usize = 0;
    while j < k
        invariant
            j <= k,
            k <= n,
            start == n - k,
            n == text@.len(),
            k == suffix@.len(),
            tail == text@.subrange(start as int, n as int),
            forall|i: int| 0 <= i < j ==> tail[i] == suffix@[i],
        decreases k - j,
    {
        if text.get_char(start + j) != suffix.get_char(j) {
            assert(tail[j as int] != suffix@[j as int]);
            return false;
        }
        j += 1;
    }
    assert(tail =~= suffix@);
    true
}

impl ChatMessage {
    /// Whether the body is to be shown as an image.
    pub fn is_image(&self) -> (r: bool)
        ensures
            r == is_image_spec(self@.body),
    {
        ends_with(self.body.as_str(), ".gif")
    }
}

} // verus!
