//! The wire format of event messages: a JSON object with the fields
//! `event` (a JSON string) and `data` (any JSON value), written compactly.
use vstd::prelude::*;
use crate::error::RustWaveError;

verus! {

/// The lower-case hexadecimal digit of a number below sixteen.
pub open spec fn hex_digit(n: int) -> char {
    if n < 10 {
        (48 + n) as char
    } else {
        (87 + n) as char
    }
}

/// How a JSON string writes one character: quote, backslash and the
/// control characters are escaped, everything else stands as it is.
pub open spec fn json_escape_char(c: char) -> Seq<char> {
    if c == '"' {
        seq!['\\', '"']
    } else if c == '\\' {
        seq!['\\', '\\']
    } else if c == '\x08' {
        seq!['\\', 'b']
    } else if c == '\t' {
        seq!['\\', 't']
    } else if c == '\n' {
        seq!['\\', 'n']
    } else if c == '\x0c' {
        seq!['\\', 'f']
    } else if c == '\r' {
        seq!['\\', 'r']
    } else if (c as int) < 32 {
        seq!['\\', 'u', '0', '0', hex_digit((c as int) / 16), hex_digit((c as int) % 16)]
    } else {
        seq![c]
    }
}

/// The escaped body of a JSON string, character by character.
pub open spec fn json_escape(s: Seq<char>) -> Seq<char>
    decreases s.len(),
{
    if s.len() == 0 {
        Seq::empty()
    } else {
        json_escape(s.drop_last()) + json_escape_char(s.last())
    }
}

/// A text written as a JSON string: in double quotes, escaped.
pub open spec fn json_string(s: Seq<char>) -> Seq<char> {
    seq!['"'] + json_escape(s) + seq!['"']
}

/// The message that carries `event` with a JSON value `data`.
pub open spec fn event_frame(event: Seq<char>, data: Seq<char>) -> Seq<char> {
    frame_of(json_string(event), data)
}

/// `serde_json::to_string` of a `str`: the text as a JSON string. It always
/// succeeds: the string is escaped into a `Vec<u8>`, whose writes cannot fail.
#[verifier::external_body]
fn json_quote(s: &str) -> (r: Result<String, serde_json::Error>)
    ensures
        r is Ok,
        r->Ok_0@ == json_string(s@),
{
    serde_json::to_string(s)
}

/// The JSON string of `s`; it always succeeds.
pub fn quote(s: &str) -> (r: Result<String, RustWaveError>)
    ensures
        r matches Ok(t) && t@ == json_string(s@),
{
    match json_quote(s) {
        Ok(t) => Ok(t),
        Err(e) => Err(RustWaveError::Json(e)),
    }
}

/// The message object with the already quoted event name `quoted_event`
/// and the JSON value `data`.
pub open spec fn frame_of(quoted_event: Seq<char>, data: Seq<char>) -> Seq<char> {
    "{\"event\":"@ + quoted_event + ",\"data\":"@ + data + "}"@
}

/// Writes the message object around a quoted event name and a JSON value.
pub fn frame_quoted(quoted_event: &str, data: &str) -> (r: String)
    ensures
        r@ == frame_of(quoted_event@, data@),
{
    let mut out = "{\"event\":".to_string();
    out.append(quoted_event);
    out.append(",\"data\":");
    out.append(data);
    out.append("}");
    out
}

/// The message that carries `event` with `data`, a JSON value already
/// written as text. It always succeeds.
pub fn encode_response(event: &str, data: &str) -> (r: Result<String, RustWaveError>)
    ensures
        r matches Ok(t) && t@ == event_frame(event@, data@),
{
    let quoted = quote(event)?;
    Ok(frame_quoted(quoted.as_str(), data))
}

/// What an `emit` reports once its message was handed to the socket's
/// channel, or could not be because the channel is closed.
pub fn send_outcome(sent: bool) -> (r: Result<(), RustWaveError>)
    ensures
        sent <==> r is Ok,
        !sent ==> (r matches Err(RustWaveError::Internal(m)) && m@ == "Message sendingg error"@),
{
    if sent {
        Ok(())
    } else {
        Err(RustWaveError::Internal("Message sendingg error".to_string()))
    }
}

/// What a peer sends to the server: an event name and its text.
#[derive(Debug)]
pub struct Request {
    pub event: String,
    pub data: String,
}

/// What the server sends to a peer: an event name and its data.
#[derive(Debug)]
pub struct Response<T> {
    pub event: String,
    pub data: T,
}

impl Request {
    /// The message of this request: its event with its text as a JSON string.
    pub fn encode(&self) -> (r: Result<String, RustWaveError>)
        ensures
            r matches Ok(t) && t@ == event_frame(self.event@, json_string(self.data@)),
    {
        let data = quote(self.data.as_str())?;
        encode_response(self.event.as_str(), data.as_str())
    }
}

} // verus!
