//! The envelope codec: what crosses the channel to and from a context.
//!
//! A request is a structured-text object with two fields: the task's name and
//! its payload. A binary payload travels as an array of byte values nested in
//! that object; a text payload is a document of its own and travels as the
//! value itself. A response is the raw value that the task returned, read in
//! the encoding of the request.

use vstd::prelude::*;
use crate::error::WorkerError;

verus! {

/// The field of a request that names the task.
pub const TASK_NAME_KEY: &'static str = "task_name";

/// The field of a request that carries the payload.
pub const MESSAGE_KEY: &'static str = "message";

/// The two encodings of a payload.
#[derive(Clone, Copy, Debug, PartialEq, Eq, Structural)]
pub enum Encoding {
    /// Compact bytes, whose meaning is fixed by the types of the task.
    Binary,
    /// A loosely typed value in structured text.
    Text,
}

/// A payload in the form in which it travels.
#[derive(Clone, Debug, PartialEq, Eq)]
pub enum Payload {
    /// The bytes of a binary-encoded value.
    Binary(Vec<u8>),
    /// A document in structured text.
    Text(String),
}

/// The mathematical content of a [`Payload`].
pub enum PayloadView {
    /// The bytes of a binary payload.
    Binary(Seq<u8>),
    /// The characters of a text payload.
    Text(Seq<char>),
}

impl PayloadView {
    /// The encoding that the payload is in.
    pub open spec fn encoding(self) -> Encoding {
        match self {
            PayloadView::Binary(_) => Encoding::Binary,
            PayloadView::Text(_) => Encoding::Text,
        }
    }
}

impl View for Payload {
    type V = PayloadView;

    open spec fn view(&self) -> PayloadView {
        match self {
            Payload::Binary(bytes) => PayloadView::Binary(bytes@),
            Payload::Text(document) => PayloadView::Text(document@),
        }
    }
}

impl Payload {
    /// The encoding that the payload is in.
    pub fn encoding(&self) -> (encoding: Encoding)
        ensures
            encoding == self@.encoding(),
    {
        match self {
            Payload::Binary(_) => Encoding::Binary,
            Payload::Text(_) => Encoding::Text,
        }
    }
}

/// The text that `serde_json` writes for the object that holds, under
/// `message_key`, the array of the numbers `bytes` and, under `name_key`, the
/// string `task_name`.
pub uninterp spec fn json_envelope_of_bytes(
    message_key: Seq<char>,
    bytes: Seq<u8>,
    name_key: Seq<char>,
    task_name: Seq<char>,
) -> Seq<char>;

/// The text that `serde_json` writes for the object that holds, under
/// `message_key`, the value that it reads from `document` and, under
/// `name_key`, the string `task_name`; `None` where it reads no value from
/// `document`.
pub uninterp spec fn json_envelope_of_document(
    message_key: Seq<char>,
    document: Seq<char>,
    name_key: Seq<char>,
    task_name: Seq<char>,
) -> Option<Seq<char>>;

/// The bytes that `serde_json` reads from `text` as an array of numbers below
/// 256; `None` where `text` is no such array.
pub uninterp spec fn json_byte_array(text: Seq<char>) -> Option<Seq<u8>>;

/// Writes an object of two fields with `serde_json`: `serde_json::Map::insert`
/// puts the bytes, as an array of numbers, under `message_key` and the task's
/// name under `name_key`, and the `Display` of `serde_json::Value` writes the
/// object in compact form. Nothing is proved of the text: the contract only
/// gives it its name.
#[verifier::external_body]
fn write_envelope_of_bytes(message_key: &str, bytes: &Vec<u8>, name_key: &str, task_name: &str) -> (text: String)
    ensures
        text@ == json_envelope_of_bytes(message_key@, bytes@, name_key@, task_name@),
{
    let mut object = serde_json::Map::new();
    object.insert(message_key.to_owned(), serde_json::Value::from(bytes.as_slice()));
    object.insert(name_key.to_owned(), serde_json::Value::from(task_name));
    serde_json::Value::Object(object).to_string()
}

/// Writes an object of two fields with `serde_json`: `serde_json::from_str`
/// reads a value from `document`, `serde_json::Map::insert` puts it under
/// `message_key` and the task's name under `name_key`, and the `Display` of
/// `serde_json::Value` writes the object in compact form. The result is `None`
/// exactly where `from_str` fails. Nothing else is proved of the text: the
/// contract only gives it its name.
#[verifier::external_body]
fn write_envelope_of_document(message_key: &str, document: &str, name_key: &str, task_name: &str) -> (text: Option<String>)
    ensures
        match text {
            Some(t) => json_envelope_of_document(message_key@, document@, name_key@, task_name@)
                == Some(t@),
            None => json_envelope_of_document(message_key@, document@, name_key@, task_name@)
                is None,
        },
{
    let value = serde_json::from_str::<serde_json::Value>(document).ok()?;
    let mut object = serde_json::Map::new();
    object.insert(message_key.to_owned(), value);
    object.insert(name_key.to_owned(), serde_json::Value::from(task_name));
    Some(serde_json::Value::Object(object).to_string())
}

/// Reads an array of bytes with `serde_json::from_str`, at the type
/// `Vec<u8>`. The result is `None` exactly where `from_str` fails. Nothing
/// else is proved of the bytes: the contract only gives them their name.
#[verifier::external_body]
fn read_byte_array(text: &str) -> (bytes: Option<Vec<u8>>)
    ensures
        match bytes {
            Some(b) => json_byte_array(text@) == Some(b@),
            None => json_byte_array(text@) is None,
        },
{
    serde_json::from_str::<Vec<u8>>(text).ok()
}

/// The text of the request that submits `payload` to the task `task_name`;
/// `None` where the payload is a text that holds no document.
pub open spec fn request_text(task_name: Seq<char>, payload: PayloadView) -> Option<Seq<char>> {
    match payload {
        PayloadView::Binary(bytes) => Some(
            json_envelope_of_bytes(MESSAGE_KEY@, bytes, TASK_NAME_KEY@, task_name),
        ),
        PayloadView::Text(document) => json_envelope_of_document(
            MESSAGE_KEY@,
            document,
            TASK_NAME_KEY@,
            task_name,
        ),
    }
}

/// Encodes the request that submits `payload` to the task `task_name`.
///
/// A binary payload can always be encoded. A text payload can be encoded
/// where it holds a document.
pub fn encode_request(task_name: &str, payload: &Payload) -> (text: Option<String>)
    ensures
        match text {
            Some(t) => request_text(task_name@, payload@) == Some(t@),
            None => request_text(task_name@, payload@) is None,
        },
{
    match payload {
        Payload::Binary(bytes) => Some(
            write_envelope_of_bytes(MESSAGE_KEY, bytes, TASK_NAME_KEY, task_name),
        ),
        Payload::Text(document) => write_envelope_of_document(
            MESSAGE_KEY,
            document.as_str(),
            TASK_NAME_KEY,
            task_name,
        ),
    }
}

/// The payload that the raw response `raw` holds in `encoding`; `None` where
/// it holds none.
pub open spec fn response_payload(encoding: Encoding, raw: Seq<char>) -> Option<PayloadView> {
    match encoding {
        Encoding::Binary => match json_byte_array(raw) {
            Some(bytes) => Some(PayloadView::Binary(bytes)),
            None => None,
        },
        Encoding::Text => Some(PayloadView::Text(raw)),
    }
}

/// Decodes the raw response `raw` in `encoding`.
///
/// A text response is its own document. A binary response has to be an array
/// of byte values: anything else is a decode failure.
pub fn decode_response(encoding: Encoding, raw: &str) -> (payload: Result<Payload, WorkerError>)
    ensures
        match payload {
            Ok(p) => response_payload(encoding, raw@) == Some(p@),
            Err(e) => e == WorkerError::DecodeFailure && response_payload(encoding, raw@) is None,
        },
{
    match encoding {
        Encoding::Binary => match read_byte_array(raw) {
            Some(bytes) => Ok(Payload::Binary(bytes)),
            None => Err(WorkerError::DecodeFailure),
        },
        Encoding::Text => Ok(Payload::Text(raw.to_owned())),
    }
}

} // verus!
