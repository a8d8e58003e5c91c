//! The frames that travel over the channel, and their JSON form.

use crate::json::{JsonDoc, doc_of, docs_of, has_key, json_parse, json_text, member};
use crate::json;
use crate::text::{same_text, texts};
use vstd::pervasive::unreached;
use vstd::prelude::*;
use vstd::string::*;

verus! {

/// The kind of a frame.
#[derive(Clone, Copy, Debug, PartialEq, Eq, Structural)]
pub enum MsgTypes {
    /// The server announces who is connected.
    Users,
    /// A client announces itself.
    Register,
    /// A chat message.
    Message,
}

/// The word that stands for a kind on the wire.
pub open spec fn kind_token(kind: MsgTypes) -> Seq<char> {
    match kind {
        MsgTypes::Users => "users"@,
        MsgTypes::Register => "register"@,
        MsgTypes::Message => "message"@,
    }
}

/// The kind that a word on the wire stands for, if it stands for one.
pub open spec fn kind_of_token(token: Seq<char>) -> Option<MsgTypes> {
    if token == "users"@ {
        Some(MsgTypes::Users)
    } else if token == "register"@ {
        Some(MsgTypes::Register)
    } else if token == "message"@ {
        Some(MsgTypes::Message)
    } else {
        None
    }
}

impl MsgTypes {
    /// The word that stands for this kind on the wire.
    pub fn token(self) -> (token: &'static str)
        ensures
            token@ == kind_token(self),
    {
        match self {
            MsgTypes::Users => "users",
            MsgTypes::Register => "register",
            MsgTypes::Message => "message",
        }
    }

    /// The kind that `token` stands for, if it stands for one.
    pub fn from_token(token: &str) -> (kind: Option<MsgTypes>)
        ensures
            kind == kind_of_token(token@),
    {
        if same_text(token, "users") {
            Some(MsgTypes::Users)
        } else if same_text(token, "register") {
            Some(MsgTypes::Register)
        } else if same_text(token, "message") {
            Some(MsgTypes::Message)
        } else {
            None
        }
    }
}

/// Every kind is found again from its word.
pub proof fn lemma_kind_token_round_trip(kind: MsgTypes)
    ensures
        kind_of_token(kind_token(kind)) == Some(kind),
{
    reveal_strlit("users");
    reveal_strlit("register");
    reveal_strlit("message");
    assert("users"@.len() == 5 && "register"@.len() == 8 && "message"@.len() == 7);
}

/// Why a text was not taken for a frame or for a chat entry.
#[derive(Clone, Copy, Debug, PartialEq, Eq, Structural)]
pub enum DecodeError {
    /// The text is not a JSON document.
    Syntax,
    /// The document lacks a member that must be there, or a member holds a
    /// value of the wrong type.
    Shape,
    /// A message frame carries no payload.
    NoPayload,
}

/// A message on the wire: its kind, and the names or the payload that a frame
/// of that kind carries.
#[derive(Clone, Debug, PartialEq, Eq)]
pub struct WebSocketMessage {
    pub message_type: MsgTypes,
    /// The names of the connected users, in a frame of kind `Users`.
    pub data_array: Option<Vec<String>>,
    /// The payload, in a frame of kind `Register` or `Message`.
    pub data: Option<String>,
}

/// What a frame holds, as a mathematical value.
pub struct FrameView {
    pub message_type: MsgTypes,
    pub data_array: Option<Seq<Seq<char>>>,
    pub data: Option<Seq<char>>,
}

impl View for WebSocketMessage {
    type V = FrameView;

    open spec fn view(&self) -> FrameView {
        FrameView {
            message_type: self.message_type,
            data_array: match self.data_array {
                Some(names) => Some(texts(names@)),
                None => None,
            },
            data: match self.data {
                Some(payload) => Some(payload@),
                None => None,
            },
        }
    }
}

/// The document of a text that may be missing: `null` where it is.
pub open spec fn text_doc(text: Option<Seq<char>>) -> JsonDoc {
    match text {
        Some(text) => JsonDoc::Text(text),
        None => JsonDoc::Null,
    }
}

/// The document of a list of names that may be missing: `null` where it is,
/// else the array of the names.
pub open spec fn names_doc(names: Option<Seq<Seq<char>>>) -> JsonDoc {
    match names {
        Some(names) => JsonDoc::List(names.map_values(|name: Seq<char>| JsonDoc::Text(name))),
        None => JsonDoc::Null,
    }
}

/// The document that stands for a frame on the wire: an object with the
/// members `messageType`, `dataArray` and `data`.
pub open spec fn frame_doc(frame: FrameView) -> JsonDoc {
    JsonDoc::Object(
        Map::empty().insert("messageType"@, JsonDoc::Text(kind_token(frame.message_type))).insert(
            "dataArray"@,
            names_doc(frame.data_array),
        ).insert("data"@, text_doc(frame.data)),
    )
}

/// The member of `doc` under `key`, where a member that holds `null` counts
/// as missing.
pub open spec fn optional_member(doc: JsonDoc, key: Seq<char>) -> Option<JsonDoc> {
    match member(doc, key) {
        Some(JsonDoc::Null) => None,
        found => found,
    }
}

/// The text under `key` that must be there: nothing where the member is
/// missing or holds no string.
pub open spec fn required_text(doc: JsonDoc, key: Seq<char>) -> Option<Seq<char>> {
    match member(doc, key) {
        Some(JsonDoc::Text(text)) => Some(text),
        _ => None,
    }
}

/// The text under `key` that may be missing: `Ok` of the text or of nothing,
/// and `Err` where the member holds something other than a string.
pub open spec fn optional_text(doc: JsonDoc, key: Seq<char>) -> Result<Option<Seq<char>>, ()> {
    match optional_member(doc, key) {
        None => Ok(None),
        Some(JsonDoc::Text(text)) => Ok(Some(text)),
        Some(_) => Err(()),
    }
}

/// Whether every document of a list is a string.
pub open spec fn all_text(items: Seq<JsonDoc>) -> bool {
    forall|i: int| 0 <= i < items.len() ==> (#[trigger] items[i]) is Text
}

/// The list of texts under `key` that may be missing: `Ok` of the texts or of
/// nothing, and `Err` where the member holds something other than an array
/// of strings.
pub open spec fn optional_texts(doc: JsonDoc, key: Seq<char>) -> Result<
    Option<Seq<Seq<char>>>,
    (),
> {
    match optional_member(doc, key) {
        None => Ok(None),
        Some(JsonDoc::List(items)) => if all_text(items) {
            Ok(Some(items.map_values(|item: JsonDoc| item->Text_0)))
        } else {
            Err(())
        },
        Some(_) => Err(()),
    }
}

/// The kind that a document names under `messageType`, if it names one.
pub open spec fn kind_in(doc: JsonDoc) -> Option<MsgTypes> {
    match required_text(doc, "messageType"@) {
        Some(token) => kind_of_token(token),
        None => None,
    }
}

/// The frame that a document stands for: its kind is the one named under
/// `messageType`, its names are the strings under `dataArray` and its payload
/// is the string under `data`, each of the two missing where the member is
/// missing or `null`. Any other document has the wrong shape.
pub open spec fn frame_of_doc(doc: JsonDoc) -> Result<FrameView, DecodeError> {
    match (kind_in(doc), optional_texts(doc, "dataArray"@), optional_text(doc, "data"@)) {
        (Some(kind), Ok(names), Ok(payload)) => Ok(
            FrameView { message_type: kind, data_array: names, data: payload },
        ),
        _ => Err(DecodeError::Shape),
    }
}

/// The frame that a text stands for: the frame of the document that the text
/// holds, where it holds one.
pub open spec fn decoded(text: Seq<char>) -> Result<FrameView, DecodeError> {
    match json_parse(text) {
        Some(doc) => frame_of_doc(doc),
        None => Err(DecodeError::Syntax),
    }
}

/// The text under `key` that must be there.
fn read_text(value: &serde_json::Value, key: &str) -> (text: Option<String>)
    ensures
        match text {
            Some(text) => required_text(doc_of(*value), key@) == Some(text@),
            None => required_text(doc_of(*value), key@) is None,
        },
{
    match json::get(value, key) {
        Some(found) => match json::as_str(found) {
            Some(text) => Some(text.to_owned()),
            None => None,
        },
        None => None,
    }
}

/// The member under `key`, where one that holds `null` counts as missing.
fn read_member<'a>(value: &'a serde_json::Value, key: &str) -> (found: Option<
    &'a serde_json::Value,
>)
    ensures
        match found {
            Some(found) => optional_member(doc_of(*value), key@) == Some(doc_of(*found)),
            None => optional_member(doc_of(*value), key@) is None,
        },
{
    match json::get(value, key) {
        Some(found) => if json::is_null(found) {
            None
        } else {
            Some(found)
        },
        None => None,
    }
}

/// The text under `key` that may be missing.
fn read_optional_text(value: &serde_json::Value, key: &str) -> (text: Result<Option<String>, ()>)
    ensures
        match text {
            Ok(Some(text)) => optional_text(doc_of(*value), key@) == Ok::<Option<Seq<char>>, ()>(
                Some(text@),
            ),
            Ok(None) => optional_text(doc_of(*value), key@) == Ok::<Option<Seq<char>>, ()>(None),
            Err(_) => optional_text(doc_of(*value), key@) is Err,
        },
{
    match read_member(value, key) {
        Some(found) => match json::as_str(found) {
            Some(text) => Ok(Some(text.to_owned())),
            None => Err(()),
        },
        None => Ok(None),
    }
}

/// The texts that a list of values holds, if every one of them is a string.
fn read_texts(items: &Vec<serde_json::Value>) -> (list: Option<Vec<String>>)
    ensures
        match list {
            Some(list) => all_text(docs_of(items@)) && texts(list@) == docs_of(items@).map_values(
                |item: JsonDoc| item->Text_0,
            ),
            None => !all_text(docs_of(items@)),
        },
{
    let mut list: Vec<String> = Vec::new();
    let mut at: usize = 0;
    while at < items.len()
        invariant
            at <= items.len(),
            list.len() == at,
            forall|k: int|
                0 <= k < at ==> docs_of(items@)[k] == JsonDoc::Text(#[trigger] list@[k]@),
        decreases items.len() - at,
    {
        match json::as_str(&items[at]) {
            Some(text) => {
                list.push(text.to_owned());
            },
            None => {
                assert(!(docs_of(items@)[at as int] is Text));
                return None;
            },
        }
        at += 1;
    }
    proof {
        assert forall|k: int| 0 <= k < items.len() implies (#[trigger] docs_of(
            items@,
        )[k]) is Text by {
            assert(docs_of(items@)[k] == JsonDoc::Text(list@[k]@));
        }
        assert(texts(list@) =~= docs_of(items@).map_values(|item: JsonDoc| item->Text_0)) by {
            assert forall|k: int| 0 <= k < list.len() implies texts(list@)[k] == docs_of(
                items@,
            ).map_values(|item: JsonDoc| item->Text_0)[k] by {
                assert(docs_of(items@)[k] == JsonDoc::Text(list@[k]@));
            }
        }
    }
    Some(list)
}

/// The list of texts under `key` that may be missing.
fn read_optional_texts(value: &serde_json::Value, key: &str) -> (list: Result<
    Option<Vec<String>>,
    (),
>)
    ensures
        match list {
            Ok(Some(list)) => optional_texts(doc_of(*value), key@) == Ok::<
                Option<Seq<Seq<char>>>,
                (),
            >(Some(texts(list@))),
            Ok(None) => optional_texts(doc_of(*value), key@) == Ok::<Option<Seq<Seq<char>>>, ()>(
                None,
            ),
            Err(_) => optional_texts(doc_of(*value), key@) is Err,
        },
{
    match read_member(value, key) {
        Some(found) => match json::as_array(found) {
            Some(items) => match read_texts(items) {
                Some(list) => Ok(Some(list)),
                None => Err(()),
            },
            None => Err(()),
        },
        None => Ok(None),
    }
}

/// The array of the strings that hold the given texts.
fn texts_value(list: &Vec<String>) -> (value: serde_json::Value)
    ensures
        doc_of(value) == names_doc(Some(texts(list@))),
{
    let mut items: Vec<serde_json::Value> = Vec::new();
    let mut at: usize = 0;
    while at < list.len()
        invariant
            at <= list.len(),
            items.len() == at,
            forall|k: int| 0 <= k < at ==> doc_of(#[trigger] items@[k]) == JsonDoc::Text(list@[k]@),
        decreases list.len() - at,
    {
        items.push(json::string(list[at].as_str()));
        at += 1;
    }
    assert(docs_of(items@) =~= texts(list@).map_values(|name: Seq<char>| JsonDoc::Text(name)));
    json::array(items)
}

/// The string that holds `text`, or `null` where there is none.
fn text_value(text: &Option<String>) -> (value: serde_json::Value)
    ensures
        doc_of(value) == text_doc(
            match *text {
                Some(text) => Some(text@),
                None => None,
            },
        ),
{
    match text {
        Some(text) => json::string(text.as_str()),
        None => json::null(),
    }
}

impl WebSocketMessage {
    /// The JSON value that stands for this frame. It is one that `from_value`
    /// reads as this frame again.
    pub fn to_value(&self) -> (value: serde_json::Value)
        ensures
            doc_of(value) == frame_doc(self@),
            frame_of_doc(doc_of(value)) == Ok::<FrameView, DecodeError>(self@),
    {
        proof {
            lemma_frame_round_trip(self@);
        }
        let kind = json::string(self.message_type.token());
        let names = match &self.data_array {
            Some(list) => texts_value(list),
            None => json::null(),
        };
        let payload = text_value(&self.data);
        let mut pairs: Vec<(String, serde_json::Value)> = Vec::new();
        pairs.push((String::from_str("messageType"), kind));
        pairs.push((String::from_str("dataArray"), names));
        pairs.push((String::from_str("data"), payload));
        proof {
            lemma_frame_keys();
        }
        let value = json::object(pairs);
        proof {
            let members = doc_of(value)->Object_0;
            let wanted = frame_doc(self@)->Object_0;
            assert(pairs@[0].0@ == "messageType"@ && pairs@[1].0@ == "dataArray"@ && pairs@[2].0@
                == "data"@);
            assert(members =~= wanted);
        }
        value
    }

    /// Reads a frame from a JSON value.
    pub fn from_value(value: &serde_json::Value) -> (r: Result<WebSocketMessage, DecodeError>)
        ensures
            match r {
                Ok(frame) => frame_of_doc(doc_of(*value)) == Ok::<FrameView, DecodeError>(frame@),
                Err(e) => frame_of_doc(doc_of(*value)) == Err::<FrameView, DecodeError>(e),
            },
    {
        let kind = match read_text(value, "messageType") {
            Some(token) => MsgTypes::from_token(token.as_str()),
            None => None,
        };
        let names = read_optional_texts(value, "dataArray");
        let payload = read_optional_text(value, "data");
        match (kind, names, payload) {
            (Some(kind), Ok(names), Ok(payload)) => Ok(
                WebSocketMessage { message_type: kind, data_array: names, data: payload },
            ),
            _ => Err(DecodeError::Shape),
        }
    }
}

/// The three keys of a frame's document differ from each other.
pub proof fn lemma_frame_keys()
    ensures
        "messageType"@ != "dataArray"@,
        "messageType"@ != "data"@,
        "dataArray"@ != "data"@,
{
    reveal_strlit("messageType");
    reveal_strlit("dataArray");
    reveal_strlit("data");
    assert("messageType"@.len() == 11 && "dataArray"@.len() == 9 && "data"@.len() == 4);
}

/// Writes a frame as its text on the wire.
pub fn encode(frame: &WebSocketMessage) -> (text: String)
    ensures
        text@ == json_text(frame_doc(frame@)),
{
    match json::print(&frame.to_value()) {
        Ok(text) => text,
        Err(_) => unreached(),
    }
}

/// Reads a frame from its text on the wire.
pub fn decode(text: &str) -> (r: Result<WebSocketMessage, DecodeError>)
    ensures
        match r {
            Ok(frame) => decoded(text@) == Ok::<FrameView, DecodeError>(frame@),
            Err(e) => decoded(text@) == Err::<FrameView, DecodeError>(e),
        },
{
    match json::parse(text) {
        Ok(value) => WebSocketMessage::from_value(&value),
        Err(_) => Err(DecodeError::Syntax),
    }
}

/// One chat message: who sent it, and what it says.
#[derive(Clone, Debug, PartialEq, Eq)]
pub struct MessageData {
    pub from: String,
    pub message: String,
}

/// What a chat entry holds, as a mathematical value.
pub struct EntryView {
    pub from: Seq<char>,
    pub message: Seq<char>,
}

impl View for MessageData {
    type V = EntryView;

    open spec fn view(&self) -> EntryView {
        EntryView { from: self.from@, message: self.message@ }
    }
}

/// The document that stands for a chat entry: an object with the members
/// `from` and `message`.
pub open spec fn entry_doc(entry: EntryView) -> JsonDoc {
    JsonDoc::Object(
        Map::empty().insert("from"@, JsonDoc::Text(entry.from)).insert(
            "message"@,
            JsonDoc::Text(entry.message),
        ),
    )
}

/// The chat entry that a document stands for: its sender is the string under
/// `from` and its body the string under `message`. Any other document has
/// the wrong shape.
pub open spec fn entry_of_doc(doc: JsonDoc) -> Result<EntryView, DecodeError> {
    match (required_text(doc, "from"@), required_text(doc, "message"@)) {
        (Some(from), Some(message)) => Ok(EntryView { from, message }),
        _ => Err(DecodeError::Shape),
    }
}

/// The chat entry that a text stands for: the entry of the document that the
/// text holds, where it holds one.
pub open spec fn entry_decoded(text: Seq<char>) -> Result<EntryView, DecodeError> {
    match json_parse(text) {
        Some(doc) => entry_of_doc(doc),
        None => Err(DecodeError::Syntax),
    }
}

/// The two keys of a chat entry's document differ from each other.
pub proof fn lemma_entry_keys()
    ensures
        "from"@ != "message"@,
{
    reveal_strlit("from");
    reveal_strlit("message");
    assert("from"@.len() == 4 && "message"@.len() == 7);
}

impl MessageData {
    /// The JSON value that stands for this chat entry. It is one that
    /// `from_value` reads as this entry again.
    pub fn to_value(&self) -> (value: serde_json::Value)
        ensures
            doc_of(value) == entry_doc(self@),
            entry_of_doc(doc_of(value)) == Ok::<EntryView, DecodeError>(self@),
    {
        proof {
            lemma_entry_round_trip(self@);
        }
        let mut pairs: Vec<(String, serde_json::Value)> = Vec::new();
        pairs.push((String::from_str("from"), json::string(self.from.as_str())));
        pairs.push((String::from_str("message"), json::string(self.message.as_str())));
        proof {
            lemma_entry_keys();
        }
        let value = json::object(pairs);
        proof {
            let members = doc_of(value)->Object_0;
            let wanted = entry_doc(self@)->Object_0;
            assert(pairs@[0].0@ == "from"@ && pairs@[1].0@ == "message"@);
            assert(members =~= wanted);
        }
        value
    }

    /// Reads a chat entry from a JSON value.
    pub fn from_value(value: &serde_json::Value) -> (r: Result<MessageData, DecodeError>)
        ensures
            match r {
                Ok(entry) => entry_of_doc(doc_of(*value)) == Ok::<EntryView, DecodeError>(entry@),
                Err(e) => entry_of_doc(doc_of(*value)) == Err::<EntryView, DecodeError>(e),
            },
    {
        match (read_text(value, "from"), read_text(value, "message")) {
            (Some(from), Some(message)) => Ok(MessageData { from, message }),
            _ => Err(DecodeError::Shape),
        }
    }
}

/// Writes a chat entry as the text that a message frame carries.
pub fn encode_chat_entry(entry: &MessageData) -> (text: String)
    ensures
        text@ == json_text(entry_doc(entry@)),
{
    match json::print(&entry.to_value()) {
        Ok(text) => text,
        Err(_) => unreached(),
    }
}

/// Reads a chat entry from the text that a message frame carries.
pub fn decode_chat_entry(text: &str) -> (r: Result<MessageData, DecodeError>)
    ensures
        match r {
            Ok(entry) => entry_decoded(text@) == Ok::<EntryView, DecodeError>(entry@),
            Err(e) => entry_decoded(text@) == Err::<EntryView, DecodeError>(e),
        },
{
    match json::parse(text) {
        Ok(value) => MessageData::from_value(&value),
        Err(_) => Err(DecodeError::Syntax),
    }
}

/// A frame is read back from its own document: whatever the frame, the
/// document that `WebSocketMessage::to_value` builds for it is one that
/// `WebSocketMessage::from_value` takes, and the frame it gives is the same.
pub proof fn lemma_frame_round_trip(frame: FrameView)
    ensures
        frame_of_doc(frame_doc(frame)) == Ok::<FrameView, DecodeError>(frame),
{
    lemma_frame_keys();
    lemma_kind_token_round_trip(frame.message_type);
    match frame.data_array {
        Some(names) => {
            let items = names.map_values(|name: Seq<char>| JsonDoc::Text(name));
            assert(items.map_values(|item: JsonDoc| item->Text_0) =~= names);
        },
        None => {},
    }
}

/// Every text that holds the document of a frame is read as that frame.
pub proof fn lemma_decoded_frame_doc(text: Seq<char>, frame: FrameView)
    ensures
        json_parse(text) == Some(frame_doc(frame)) ==> decoded(text) == Ok::<
            FrameView,
            DecodeError,
        >(frame),
{
    lemma_frame_round_trip(frame);
}

/// A chat entry is read back from its own document: whatever the entry, the
/// document that `MessageData::to_value` builds for it is one that
/// `MessageData::from_value` takes, and the entry it gives is the same.
pub proof fn lemma_entry_round_trip(entry: EntryView)
    ensures
        entry_of_doc(entry_doc(entry)) == Ok::<EntryView, DecodeError>(entry),
{
    lemma_entry_keys();
}

/// Every text that holds the document of a chat entry is read as that entry.
pub proof fn lemma_decoded_entry_doc(text: Seq<char>, entry: EntryView)
    ensures
        json_parse(text) == Some(entry_doc(entry)) ==> entry_decoded(text) == Ok::<
            EntryView,
            DecodeError,
        >(entry),
{
    lemma_entry_round_trip(entry);
}

} // verus!
