//! The wire envelope and its JSON encoding.
//!
//! On the wire an envelope is a JSON object with three members: a
//! discriminant under `messageType`, an optional list of strings under
//! `dataArray`, and an optional string under `data`. [`WireFrame`] is that
//! object as it stands; [`WireEnvelope`] is the frame once the payload that
//! its discriminant asks for is known to be there.

use vstd::prelude::*;
use crate::json::{
    array_value, doc_field, doc_of, docs_of, json_parse, json_text, member, members_of,
    null_value, object_value, parse_value, render, text_value, JsonDoc,
};

verus! {

/// The discriminant of a frame.
#[derive(Debug, Clone, Copy, PartialEq, Eq, Structural)]
pub enum MsgTypes {
    Users,
    Register,
    Message,
}

/// Why a text could not be decoded.
#[derive(Debug, Clone, Copy, PartialEq, Eq, Structural)]
pub enum DecodeError {
    /// The text is no JSON document, or the document lacks a discriminant,
    /// has one that is not known, has a payload member of the wrong type, or
    /// lacks the payload that its discriminant requires.
    Malformed,
}

/// The JSON object on the wire, member by member.
#[derive(Debug, Clone, PartialEq, Eq)]
pub struct WireFrame {
    pub message_type: MsgTypes,
    pub data_array: Option<Vec<String>>,
    pub data: Option<String>,
}

/// One unit of communication with the server.
#[derive(Debug, Clone, PartialEq, Eq)]
pub enum WireEnvelope {
    /// The server's list of connected users.
    Users { names: Vec<String> },
    /// The client's announcement of its user name.
    Register { username: String },
    /// One chat message; the payload is itself an encoded sender and text.
    Message { payload: String },
}

/// The model of a [`WireFrame`].
pub struct FrameView {
    pub message_type: MsgTypes,
    pub data_array: Option<Seq<Seq<char>>>,
    pub data: Option<Seq<char>>,
}

/// The model of a [`WireEnvelope`].
pub enum EnvelopeView {
    Users { names: Seq<Seq<char>> },
    Register { username: Seq<char> },
    Message { payload: Seq<char> },
}

/// The texts of a sequence of strings, in order.
pub open spec fn texts(names: Seq<String>) -> Seq<Seq<char>> {
    names.map_values(|s: String| s@)
}

/// The text of an optional string.
pub open spec fn opt_text(s: Option<String>) -> Option<Seq<char>> {
    match s {
        Some(s) => Some(s@),
        None => None,
    }
}

/// The texts of an optional list of strings.
pub open spec fn opt_texts(names: Option<Vec<String>>) -> Option<Seq<Seq<char>>> {
    match names {
        Some(names) => Some(texts(names@)),
        None => None,
    }
}

impl View for WireFrame {
    type V = FrameView;

    open spec fn view(&self) -> FrameView {
        FrameView {
            message_type: self.message_type,
            data_array: opt_texts(self.data_array),
            data: opt_text(self.data),
        }
    }
}

impl View for WireEnvelope {
    type V = EnvelopeView;

    open spec fn view(&self) -> EnvelopeView {
        match *self {
            WireEnvelope::Users { names } => EnvelopeView::Users { names: texts(names@) },
            WireEnvelope::Register { username } => EnvelopeView::Register { username: username@ },
            WireEnvelope::Message { payload } => EnvelopeView::Message { payload: payload@ },
        }
    }
}

/// The word that stands for a discriminant on the wire.
pub open spec fn tag_text(kind: MsgTypes) -> Seq<char> {
    match kind {
        MsgTypes::Users => "users"@,
        MsgTypes::Register => "register"@,
        MsgTypes::Message => "message"@,
    }
}

/// The discriminant that a word stands for, if any. The match is exact:
/// case matters.
pub open spec fn tag_kind(word: Seq<char>) -> Option<MsgTypes> {
    if word == "users"@ {
        Some(MsgTypes::Users)
    } else if word == "register"@ {
        Some(MsgTypes::Register)
    } else if word == "message"@ {
        Some(MsgTypes::Message)
    } else {
        None
    }
}

/// The three words differ, so each stands for its own discriminant.
pub proof fn lemma_tag_round_trip(kind: MsgTypes)
    ensures
        tag_kind(tag_text(kind)) == Some(kind),
{
    reveal_strlit("users");
    reveal_strlit("register");
    reveal_strlit("message");
    assert("users"@.len() == 5 && "register"@.len() == 8 && "message"@.len() == 7);
}

impl MsgTypes {
    /// The word for this discriminant.
    pub fn as_str(&self) -> (word: &'static str)
        ensures
            word@ == tag_text(*self),
    {
        match self {
            MsgTypes::Users => "users",
            MsgTypes::Register => "register",
            MsgTypes::Message => "message",
        }
    }

    /// Reads a discriminant from its word.
    pub fn parse(word: &str) -> (kind: Option<MsgTypes>)
        ensures
            kind == tag_kind(word@),
    {
        let word = word.to_owned();
        if word == "users".to_owned() {
            Some(MsgTypes::Users)
        } else if word == "register".to_owned() {
            Some(MsgTypes::Register)
        } else if word == "message".to_owned() {
            Some(MsgTypes::Message)
        } else {
            None
        }
    }
}

/// Whether every item of an array is a JSON string.
pub open spec fn all_text(items: Seq<JsonDoc>) -> bool {
    forall|i: int| 0 <= i < items.len() ==> #[trigger] items[i] is Text
}

/// The texts of the items of an array of JSON strings, in order.
pub open spec fn item_texts(items: Seq<JsonDoc>) -> Seq<Seq<char>> {
    items.map_values(|d: JsonDoc| d->Text_0)
}

/// The discriminant that a `messageType` member gives: it must be there, be a
/// string, and be one of the three words.
pub open spec fn read_tag(field: Option<JsonDoc>) -> Result<MsgTypes, DecodeError> {
    match field {
        Some(JsonDoc::Text(word)) => match tag_kind(word) {
            Some(kind) => Ok(kind),
            None => Err(DecodeError::Malformed),
        },
        _ => Err(DecodeError::Malformed),
    }
}

/// The list that a `dataArray` member gives: none where the member is absent
/// or `null`, the strings of an array of strings, and an error for anything
/// else.
pub open spec fn read_list(field: Option<JsonDoc>) -> Result<
    Option<Seq<Seq<char>>>,
    DecodeError,
> {
    match field {
        None => Ok(None),
        Some(JsonDoc::Null) => Ok(None),
        Some(JsonDoc::Array(items)) => if all_text(items) {
            Ok(Some(item_texts(items)))
        } else {
            Err(DecodeError::Malformed)
        },
        _ => Err(DecodeError::Malformed),
    }
}

/// The string that a `data` member gives: none where the member is absent or
/// `null`, the text of a string, and an error for anything else.
pub open spec fn read_text(field: Option<JsonDoc>) -> Result<Option<Seq<char>>, DecodeError> {
    match field {
        None => Ok(None),
        Some(JsonDoc::Null) => Ok(None),
        Some(JsonDoc::Text(text)) => Ok(Some(text)),
        _ => Err(DecodeError::Malformed),
    }
}

/// The frame that a document holds. Members other than the three are
/// ignored.
pub open spec fn frame_of(doc: JsonDoc) -> Result<FrameView, DecodeError> {
    match (
        read_tag(doc_field(doc, "messageType"@)),
        read_list(doc_field(doc, "dataArray"@)),
        read_text(doc_field(doc, "data"@)),
    ) {
        (Ok(message_type), Ok(data_array), Ok(data)) => Ok(
            FrameView { message_type, data_array, data },
        ),
        _ => Err(DecodeError::Malformed),
    }
}

/// The envelope that a frame holds: the payload that the discriminant asks
/// for must be there; the other payload member is not looked at.
pub open spec fn envelope_of(frame: FrameView) -> Result<EnvelopeView, DecodeError> {
    match frame.message_type {
        MsgTypes::Users => match frame.data_array {
            Some(names) => Ok(EnvelopeView::Users { names }),
            None => Err(DecodeError::Malformed),
        },
        MsgTypes::Register => match frame.data {
            Some(username) => Ok(EnvelopeView::Register { username }),
            None => Err(DecodeError::Malformed),
        },
        MsgTypes::Message => match frame.data {
            Some(payload) => Ok(EnvelopeView::Message { payload }),
            None => Err(DecodeError::Malformed),
        },
    }
}

/// The envelope that a document holds.
pub open spec fn envelope_of_doc(doc: JsonDoc) -> Result<EnvelopeView, DecodeError> {
    match frame_of(doc) {
        Ok(frame) => envelope_of(frame),
        Err(e) => Err(e),
    }
}

/// What decoding a text gives: the envelope of the document that the text
/// holds, and an error where the text holds none.
pub open spec fn decode_spec(text: Seq<char>) -> Result<EnvelopeView, DecodeError> {
    match json_parse(text) {
        Some(doc) => envelope_of_doc(doc),
        None => Err(DecodeError::Malformed),
    }
}

/// The document of an optional member.
pub open spec fn field_doc(field: Option<&serde_json::Value>) -> Option<JsonDoc> {
    match field {
        Some(v) => Some(doc_of(*v)),
        None => None,
    }
}

/// Reads the discriminant from the `messageType` member.
fn parse_tag(field: Option<&serde_json::Value>) -> (r: Result<MsgTypes, DecodeError>)
    ensures
        r == read_tag(field_doc(field)),
{
    match field {
        Some(v) => match v.as_str() {
            Some(word) => match MsgTypes::parse(word) {
                Some(kind) => Ok(kind),
                None => Err(DecodeError::Malformed),
            },
            None => Err(DecodeError::Malformed),
        },
        None => Err(DecodeError::Malformed),
    }
}

/// Reads the items of an array as strings; none where an item is no string.
fn parse_strings(items: &Vec<serde_json::Value>) -> (r: Option<Vec<String>>)
    ensures
        r matches Some(names) ==> all_text(docs_of(items@)) && texts(names@) == item_texts(
            docs_of(items@),
        ),
        r is None ==> !all_text(docs_of(items@)),
{
    let mut names: Vec<String> = Vec::new();
    let mut i: usize = 0;
    while i < items.len()
        invariant
            i <= items.len(),
            names@.len() == i,
            forall|k: int|
                0 <= k < i ==> docs_of(items@)[k] == JsonDoc::Text(#[trigger] names@[k]@),
        decreases items.len() - i,
    {
        match items[i].as_str() {
            Some(s) => {
                names.push(s.to_owned());
            },
            None => {
                assert(!(docs_of(items@)[i as int] is Text));
                return None;
            },
        }
        i += 1;
    }
    proof {
        let docs = docs_of(items@);
        assert forall|k: int| 0 <= k < docs.len() implies #[trigger] docs[k] is Text by {
            assert(docs[k] == JsonDoc::Text(names@[k]@));
        }
        assert(texts(names@) =~= item_texts(docs));
    }
    Some(names)
}

/// Reads the list from the `dataArray` member.
fn parse_list(field: Option<&serde_json::Value>) -> (r: Result<Option<Vec<String>>, DecodeError>)
    ensures
        r matches Ok(names) ==> read_list(field_doc(field)) == Ok::<_, DecodeError>(
            opt_texts(names),
        ),
        r matches Err(e) ==> read_list(field_doc(field)) == Err::<Option<Seq<Seq<char>>>, _>(e),
{
    match field {
        None => Ok(None),
        Some(v) => {
            if v.is_null() {
                Ok(None)
            } else {
                match v.as_array() {
                    Some(items) => match parse_strings(items) {
                        Some(names) => Ok(Some(names)),
                        None => Err(DecodeError::Malformed),
                    },
                    None => Err(DecodeError::Malformed),
                }
            }
        },
    }
}

/// Reads the string from the `data` member.
fn parse_text(field: Option<&serde_json::Value>) -> (r: Result<Option<String>, DecodeError>)
    ensures
        r matches Ok(text) ==> read_text(field_doc(field)) == Ok::<_, DecodeError>(opt_text(text)),
        r matches Err(e) ==> read_text(field_doc(field)) == Err::<Option<Seq<char>>, _>(e),
{
    match field {
        None => Ok(None),
        Some(v) => {
            if v.is_null() {
                Ok(None)
            } else {
                match v.as_str() {
                    Some(s) => Ok(Some(s.to_owned())),
                    None => Err(DecodeError::Malformed),
                }
            }
        },
    }
}

/// Reads a frame out of a parsed document.
pub fn read_frame(doc: &serde_json::Value) -> (r: Result<WireFrame, DecodeError>)
    ensures
        r matches Ok(frame) ==> frame_of(doc_of(*doc)) == Ok::<_, DecodeError>(frame@),
        r matches Err(e) ==> frame_of(doc_of(*doc)) == Err::<FrameView, _>(e),
{
    let message_type = match parse_tag(member(doc, "messageType")) {
        Ok(kind) => kind,
        Err(e) => {
            return Err(e);
        },
    };
    let data_array = match parse_list(member(doc, "dataArray")) {
        Ok(names) => names,
        Err(e) => {
            return Err(e);
        },
    };
    let data = match parse_text(member(doc, "data")) {
        Ok(text) => text,
        Err(e) => {
            return Err(e);
        },
    };
    Ok(WireFrame { message_type, data_array, data })
}

impl WireFrame {
    /// The envelope that this frame holds, or `Malformed` where the payload
    /// that its discriminant requires is missing.
    pub fn into_envelope(self) -> (r: Result<WireEnvelope, DecodeError>)
        ensures
            r matches Ok(envelope) ==> envelope_of(self@) == Ok::<_, DecodeError>(envelope@),
            r matches Err(e) ==> envelope_of(self@) == Err::<EnvelopeView, _>(e),
    {
        match self.message_type {
            MsgTypes::Users => match self.data_array {
                Some(names) => Ok(WireEnvelope::Users { names }),
                None => Err(DecodeError::Malformed),
            },
            MsgTypes::Register => match self.data {
                Some(username) => Ok(WireEnvelope::Register { username }),
                None => Err(DecodeError::Malformed),
            },
            MsgTypes::Message => match self.data {
                Some(payload) => Ok(WireEnvelope::Message { payload }),
                None => Err(DecodeError::Malformed),
            },
        }
    }
}

/// Decodes one envelope from JSON text.
///
/// The text must hold a JSON object whose `messageType` is one of `"users"`,
/// `"register"` and `"message"`, whose `dataArray` is absent, `null` or an
/// array of strings, and whose `data` is absent, `null` or a string. `users`
/// requires the array, `register` and `message` require the string. Anything
/// else is `Malformed`.
pub fn decode(text: &str) -> (r: Result<WireEnvelope, DecodeError>)
    ensures
        r matches Ok(envelope) ==> decode_spec(text@) == Ok::<_, DecodeError>(envelope@),
        r matches Err(e) ==> decode_spec(text@) == Err::<EnvelopeView, _>(e),
{
    match parse_value(text) {
        Ok(doc) => match read_frame(&doc) {
            Ok(frame) => frame.into_envelope(),
            Err(e) => Err(e),
        },
        Err(_) => Err(DecodeError::Malformed),
    }
}

/// The frame that carries an envelope: the payload stands under the member
/// that the discriminant asks for, and the other member is empty.
pub open spec fn frame_from(envelope: EnvelopeView) -> FrameView {
    match envelope {
        EnvelopeView::Users { names } => FrameView {
            message_type: MsgTypes::Users,
            data_array: Some(names),
            data: None,
        },
        EnvelopeView::Register { username } => FrameView {
            message_type: MsgTypes::Register,
            data_array: None,
            data: Some(username),
        },
        EnvelopeView::Message { payload } => FrameView {
            message_type: MsgTypes::Message,
            data_array: None,
            data: Some(payload),
        },
    }
}

/// The array of JSON strings with the given texts.
pub open spec fn text_items(names: Seq<Seq<char>>) -> Seq<JsonDoc> {
    names.map_values(|t: Seq<char>| JsonDoc::Text(t))
}

/// The document of a `dataArray` member: an array of strings, or `null`.
pub open spec fn list_doc(names: Option<Seq<Seq<char>>>) -> JsonDoc {
    match names {
        Some(names) => JsonDoc::Array(text_items(names)),
        None => JsonDoc::Null,
    }
}

/// The document of a `data` member: a string, or `null`.
pub open spec fn text_doc(text: Option<Seq<char>>) -> JsonDoc {
    match text {
        Some(text) => JsonDoc::Text(text),
        None => JsonDoc::Null,
    }
}

/// The document of a frame: an object with exactly the three members.
pub open spec fn frame_doc(frame: FrameView) -> JsonDoc {
    JsonDoc::Object(
        Map::empty().insert("messageType"@, JsonDoc::Text(tag_text(frame.message_type))).insert(
            "dataArray"@,
            list_doc(frame.data_array),
        ).insert("data"@, text_doc(frame.data)),
    )
}

/// What encoding an envelope gives: the text of the document of its frame.
pub open spec fn encode_spec(envelope: EnvelopeView) -> Seq<char> {
    json_text(frame_doc(frame_from(envelope)))
}

/// Copies a list of strings.
fn clone_strings(names: &Vec<String>) -> (copy: Vec<String>)
    ensures
        texts(copy@) == texts(names@),
{
    let mut copy: Vec<String> = Vec::new();
    let mut i: usize = 0;
    while i < names.len()
        invariant
            i <= names.len(),
            copy@.len() == i,
            forall|k: int| 0 <= k < i ==> (#[trigger] copy@[k])@ == names@[k]@,
        decreases names.len() - i,
    {
        copy.push(names[i].clone());
        i += 1;
    }
    assert(texts(copy@) =~= texts(names@));
    copy
}

impl WireFrame {
    /// The frame that carries `envelope`.
    pub fn from_envelope(envelope: &WireEnvelope) -> (frame: WireFrame)
        ensures
            frame@ == frame_from(envelope@),
    {
        match envelope {
            WireEnvelope::Users { names } => WireFrame {
                message_type: MsgTypes::Users,
                data_array: Some(clone_strings(names)),
                data: None,
            },
            WireEnvelope::Register { username } => WireFrame {
                message_type: MsgTypes::Register,
                data_array: None,
                data: Some(username.clone()),
            },
            WireEnvelope::Message { payload } => WireFrame {
                message_type: MsgTypes::Message,
                data_array: None,
                data: Some(payload.clone()),
            },
        }
    }
}

/// Builds the JSON array of a list of strings.
fn strings_value(names: &Vec<String>) -> (v: serde_json::Value)
    ensures
        doc_of(v) == JsonDoc::Array(text_items(texts(names@))),
{
    let mut items: Vec<serde_json::Value> = Vec::new();
    let mut i: usize = 0;
    while i < names.len()
        invariant
            i <= names.len(),
            items@.len() == i,
            forall|k: int| 0 <= k < i ==> doc_of(#[trigger] items@[k]) == JsonDoc::Text(names@[k]@),
        decreases names.len() - i,
    {
        items.push(text_value(names[i].clone()));
        i += 1;
    }
    assert(docs_of(items@) =~= text_items(texts(names@)));
    array_value(items)
}

/// Builds the JSON object of a frame.
pub fn frame_value(frame: &WireFrame) -> (v: serde_json::Value)
    ensures
        doc_of(v) == frame_doc(frame@),
{
    let tag = text_value(frame.message_type.as_str().to_owned());
    let list = match &frame.data_array {
        Some(names) => strings_value(names),
        None => null_value(),
    };
    let data = match &frame.data {
        Some(text) => text_value(text.clone()),
        None => null_value(),
    };
    let mut fields: Vec<(String, serde_json::Value)> = Vec::new();
    let ghost none = fields@;
    fields.push(("messageType".to_owned(), tag));
    let ghost one = fields@;
    fields.push(("dataArray".to_owned(), list));
    let ghost two = fields@;
    fields.push(("data".to_owned(), data));
    proof {
        lemma_member_names();
        assert(fields@.drop_last() =~= two);
        assert(two.drop_last() =~= one);
        assert(one.drop_last() =~= none);
        reveal_with_fuel(members_of, 4);
        assert(members_of(fields@) =~= frame_doc(frame@)->Object_0);
    }
    object_value(fields)
}

/// The names of the three members differ.
pub proof fn lemma_member_names()
    ensures
        "messageType"@ != "dataArray"@,
        "messageType"@ != "data"@,
        "dataArray"@ != "data"@,
{
    reveal_strlit("messageType");
    reveal_strlit("dataArray");
    reveal_strlit("data");
    assert("messageType"@.len() == 11 && "dataArray"@.len() == 9 && "data"@.len() == 4);
}

/// Encodes one envelope as JSON text.
pub fn encode(envelope: &WireEnvelope) -> (text: String)
    ensures
        text@ == encode_spec(envelope@),
{
    let frame = WireFrame::from_envelope(envelope);
    let doc = frame_value(&frame);
    render(&doc)
}

/// Reading the document of a frame gives the frame back.
pub proof fn lemma_frame_round_trip(frame: FrameView)
    ensures
        frame_of(frame_doc(frame)) == Ok::<_, DecodeError>(frame),
{
    lemma_member_names();
    lemma_tag_round_trip(frame.message_type);
    let doc = frame_doc(frame);
    assert(doc_field(doc, "messageType"@) == Some(JsonDoc::Text(tag_text(frame.message_type))));
    assert(doc_field(doc, "dataArray"@) == Some(list_doc(frame.data_array)));
    assert(doc_field(doc, "data"@) == Some(text_doc(frame.data)));
    match frame.data_array {
        Some(names) => {
            assert(all_text(text_items(names)));
            assert(item_texts(text_items(names)) =~= names);
        },
        None => {},
    }
}

/// Round trip, at the level of documents: for every envelope, the document
/// that encoding builds is read back as that same envelope.
pub proof fn lemma_envelope_round_trip(envelope: EnvelopeView)
    ensures
        envelope_of(frame_from(envelope)) == Ok::<_, DecodeError>(envelope),
        envelope_of_doc(frame_doc(frame_from(envelope))) == Ok::<_, DecodeError>(envelope),
{
    lemma_frame_round_trip(frame_from(envelope));
}

/// Round trip, at the level of text: decoding the encoding of an envelope
/// gives the envelope back, wherever the JSON parser reads the printed
/// document back as it was.
pub proof fn lemma_decode_encode(envelope: EnvelopeView)
    ensures
        json_parse(encode_spec(envelope)) == Some(frame_doc(frame_from(envelope)))
            ==> decode_spec(encode_spec(envelope)) == Ok::<_, DecodeError>(envelope),
{
    lemma_envelope_round_trip(envelope);
}

} // verus!
