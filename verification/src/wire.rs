//! The boundary to `rustc_serialize` and `rand`: serializing the request
//! envelope to its JSON line, decoding a received line into a response
//! envelope, and drawing a correlation id. Each outside call sits behind a
//! trusted item; everything around the calls is verified.

use vstd::prelude::*;
use vstd::string::StringExecFns;

use rustc_serialize::json::Json;

use crate::models::MpvError;
use crate::models::Payload;
use crate::models::PayloadKind;
use crate::models::Request;
use crate::models::WireVal;
use crate::models::WireValue;
use crate::models::wire_views;

verus! {

/// Relies on `rand::thread_rng` and `rand::Rng::gen::<u32>`: a fresh random
/// 32-bit id. Nothing can be promised of a random value.
#[verifier::external_body]
pub(crate) fn random_request_id() -> u32 {
    rand::Rng::gen::<u32>(&mut rand::thread_rng())
}

/// The JSON line that `rustc_serialize` produces for a request envelope with
/// the given command list and id, or `None` where encoding fails. The text is
/// a function of the envelope alone.
pub uninterp spec fn encoded_request(command: Seq<WireVal>, id: u32) -> Option<Seq<char>>;

/// Relies on `rustc_serialize::json`: building the envelope as a `Json` object
/// (fields `command` and `request_id`, named after the envelope's own fields)
/// and rendering it through `Json`'s `Display`, which writes the same compact
/// text as `json::encode`. A raw value is embedded by parsing its text with
/// `Json::from_str`, and the whole serialization fails where that text is not
/// valid JSON. The result is a function of the envelope alone.
#[verifier::external_body]
fn encode_request_json(req: &Request) -> (r: Option<String>)
    ensures
        (match (r, encoded_request(wire_views(req.command@), req.request_id)) {
            (Some(s), Some(t)) => s@ == t,
            (None, None) => true,
            _ => false,
        }),
{
    let mut items: Vec<Json> = Vec::new();
    for w in req.command.iter() {
        items.push(match w {
            WireValue::Bool(b) => Json::Boolean(*b),
            WireValue::Int(i) => Json::I64(*i),
            WireValue::Text(s) => Json::String(s.clone()),
            WireValue::Raw(s) => Json::from_str(s).ok()?,
        });
    }
    let mut obj = std::collections::BTreeMap::new();
    obj.insert(String::from("command"), Json::Array(items));
    obj.insert(String::from("request_id"), Json::U64(req.request_id as u64));
    Some(Json::Object(obj).to_string())
}

/// Serializes a request envelope to the text of its wire line (the newline
/// byte is not part of it). Fails exactly where the encoder fails.
pub fn encode_request(req: &Request) -> (r: Result<String, MpvError>)
    ensures
        (match (r, encoded_request(wire_views(req.command@), req.request_id)) {
            (Ok(s), Some(t)) => s@ == t,
            (Err(e), None) => e == MpvError::Encode,
            _ => false,
        }),
{
    match encode_request_json(req) {
        Some(s) => Ok(s),
        None => Err(MpvError::Encode),
    }
}

/// The write path reports a distinct failure when zero bytes of the request
/// line were written; any positive count passes.
pub fn check_size(size: usize) -> (r: Result<(), MpvError>)
    ensures
        r is Ok <==> size > 0,
        r matches Err(e) ==> e == MpvError::WriteZero,
{
    if size > 0 {
        Ok(())
    } else {
        Err(MpvError::WriteZero)
    }
}

/// A response envelope decoded from one line: an optional payload and a
/// status text. Payload presence and status are independent; success is the
/// status text equalling "success", whether or not a payload came along.
pub struct Response {
    pub data: Option<Payload>,
    error: String,
}

impl Response {
    /// The status text of the reply.
    pub closed spec fn spec_error(&self) -> Seq<char> {
        self.error@
    }

    /// The payload of the reply, if one came along.
    pub closed spec fn spec_data(&self) -> Option<Payload> {
        self.data
    }

    /// Success means the status text is exactly "success".
    pub open spec fn spec_success(&self) -> bool {
        self.spec_error() == "success"@
    }

    /// Judges the reply by its status text alone: any other text, including
    /// the empty one, is a failure.
    pub fn success(&self) -> (r: bool)
        ensures
            r == self.spec_success(),
    {
        let success_text: String = String::from_str("success");
        self.error == success_text
    }
}

/// What decoding a line as a flag-carrying response yields: `None` where the
/// line does not decode, otherwise the status text and the optional boolean
/// payload. A function of the line's bytes alone.
pub uninterp spec fn flag_response_of(line: Seq<u8>) -> Option<(Seq<char>, Option<bool>)>;

/// What decoding a line as a number-carrying response yields: `None` where
/// the line does not decode, otherwise the status text and the optional
/// numeric payload as the number's JSON text. A function of the line's bytes
/// alone.
pub uninterp spec fn number_response_of(line: Seq<u8>) -> Option<(Seq<char>, Option<Seq<char>>)>;

/// An optional boolean payload as the response carries it.
pub open spec fn flag_payload(d: Option<bool>) -> Option<Payload> {
    match d {
        Some(b) => Some(Payload::Flag(b)),
        None => None,
    }
}

/// Whether `data` carries exactly the numeric payload text `d` describes.
pub open spec fn matches_number_payload(data: Option<Payload>, d: Option<Seq<char>>) -> bool {
    match (data, d) {
        (None, None) => true,
        (Some(p), Some(t)) => p matches Payload::Number(s) && s@ == t,
        _ => false,
    }
}

/// Whether a line decodes as a response envelope of the expected shape.
pub open spec fn line_decodes(kind: PayloadKind, line: Seq<u8>) -> bool {
    match kind {
        PayloadKind::Flag => flag_response_of(line) is Some,
        PayloadKind::Number => number_response_of(line) is Some,
    }
}

/// Whether `resp` is the response that the given line decodes to under the
/// expected shape.
pub open spec fn response_matches(kind: PayloadKind, line: Seq<u8>, resp: Response) -> bool {
    match kind {
        PayloadKind::Flag => match flag_response_of(line) {
            Some(m) => resp.spec_error() == m.0 && resp.spec_data() == flag_payload(m.1),
            None => false,
        },
        PayloadKind::Number => match number_response_of(line) {
            Some(m) => resp.spec_error() == m.0 && matches_number_payload(resp.spec_data(), m.1),
            None => false,
        },
    }
}

/// Relies on `rustc_serialize::json`: the line's bytes are read as characters,
/// parsed with `Json::from_str`, and the envelope's fields are taken with
/// `as_object`, `as_string` and `as_boolean`. A missing or null `data` field
/// is an absent payload, as the decoder treats an option field; a `data` field
/// that is not a boolean makes the whole line fail, as decoding into a boolean
/// payload does. The outcome is a function of the line's bytes alone, and an
/// empty line never decodes.
#[verifier::external_body]
fn decode_flag_line(line: &[u8]) -> (r: Option<Response>)
    ensures
        (match (r, flag_response_of(line@)) {
            (Some(resp), Some(m)) => resp.spec_error() == m.0 && resp.spec_data() == flag_payload(m.1),
            (None, None) => true,
            _ => false,
        }),
        line@.len() == 0 ==> r is None,
{
    let text: String = line.iter().map(|&c| c as char).collect();
    let json = Json::from_str(&text).ok()?;
    let obj = json.as_object()?;
    let error = obj.get("error")?.as_string()?.to_string();
    let data = match obj.get("data") {
        None | Some(Json::Null) => None,
        Some(d) => Some(Payload::Flag(d.as_boolean()?)),
    };
    Some(Response { data, error })
}

/// Relies on `rustc_serialize::json`, as the flag decoder does, except that
/// the payload must be a number: a `data` value that `is_number` accepts is
/// carried as its own compact JSON text (what `Json`'s `Display` writes for
/// it), and any other present, non-null value makes the whole line fail. The
/// outcome is a function of the line's bytes alone, and an empty line never
/// decodes.
#[verifier::external_body]
fn decode_number_line(line: &[u8]) -> (r: Option<Response>)
    ensures
        (match (r, number_response_of(line@)) {
            (Some(resp), Some(m)) => resp.spec_error() == m.0
                && matches_number_payload(resp.spec_data(), m.1),
            (None, None) => true,
            _ => false,
        }),
        line@.len() == 0 ==> r is None,
{
    let text: String = line.iter().map(|&c| c as char).collect();
    let json = Json::from_str(&text).ok()?;
    let obj = json.as_object()?;
    let error = obj.get("error")?.as_string()?.to_string();
    let data = match obj.get("data") {
        None | Some(Json::Null) => None,
        Some(d) if d.is_number() => Some(Payload::Number(d.to_string())),
        Some(_) => return None,
    };
    Some(Response { data, error })
}

/// Attempts to decode one complete line as a response of the expected shape.
pub fn try_decode(kind: PayloadKind, line: &[u8]) -> (r: Option<Response>)
    ensures
        r is Some <==> line_decodes(kind, line@),
        r matches Some(resp) ==> response_matches(kind, line@, resp),
{
    match kind {
        PayloadKind::Flag => decode_flag_line(line),
        PayloadKind::Number => decode_number_line(line),
    }
}

/// Extracts the boolean payload a flag getter asked for: a non-success reply
/// fails the command, a success without a boolean payload is an empty value.
pub fn flag_data(resp: Response) -> (r: Result<bool, MpvError>)
    ensures
        !resp.spec_success() ==> r == Err::<bool, MpvError>(MpvError::CommandFailed),
        resp.spec_success() ==> (match resp.spec_data() {
            Some(Payload::Flag(b)) => r == Ok::<bool, MpvError>(b),
            _ => r == Err::<bool, MpvError>(MpvError::EmptyValue),
        }),
{
    if resp.success() {
        match resp.data {
            Some(Payload::Flag(b)) => Ok(b),
            _ => Err(MpvError::EmptyValue),
        }
    } else {
        Err(MpvError::CommandFailed)
    }
}

/// Extracts the numeric payload a number getter asked for, as the number's
/// JSON text: a non-success reply fails the command, a success without a
/// numeric payload is an empty value.
pub fn number_data(resp: Response) -> (r: Result<String, MpvError>)
    ensures
        !resp.spec_success() ==> r == Err::<String, MpvError>(MpvError::CommandFailed),
        resp.spec_success() ==> (match resp.spec_data() {
            Some(Payload::Number(s)) => r matches Ok(t) && t@ == s@,
            _ => r == Err::<String, MpvError>(MpvError::EmptyValue),
        }),
{
    if resp.success() {
        match resp.data {
            Some(Payload::Number(s)) => Ok(s),
            _ => Err(MpvError::EmptyValue),
        }
    } else {
        Err(MpvError::CommandFailed)
    }
}

} // verus!
