//! What the service's replies mean.
use vstd::prelude::*;
use crate::error::{error_for, has_fragment, error_of, opt_view, ClientError, DexcomError, DexcomErrorResponse, SerdeJsonError};
use crate::json::{
    json_document, json_elements, json_integer, json_is_null, json_is_object, json_pointer_target,
    json_text, parse_document, shape_error,
};
use crate::trend::{trend_named, trend_numbered, Trend};

verus! {

/// One glucose reading: its value in mg/dL and its trend.
#[derive(Debug, Clone, Copy, PartialEq, Eq, Structural)]
pub struct GlucosReading {
    pub value: i32,
    pub trend: Trend,
}

/// A status in `200..=299`, whose body holds the answer; any other status
/// carries an error body.
pub open spec fn is_success(status: u16) -> bool {
    200 <= status <= 299
}

/// A member that may be absent or null, and otherwise must be a string:
/// `None` where it is of another kind.
pub open spec fn optional_text(doc: serde_json::Value, pointer: Seq<char>) -> Option<Option<Seq<char>>> {
    match json_pointer_target(doc, pointer) {
        None => Some(None),
        Some(v) => if json_is_null(v) {
            Some(None)
        } else {
            match json_text(v) {
                Some(t) => Some(Some(t)),
                None => None,
            }
        },
    }
}

/// The `Code` and `Message` of an error body: an object whose two members
/// are each absent, null or a string; `None` for any other document.
pub open spec fn error_body(b: Seq<u8>) -> Option<(Option<Seq<char>>, Option<Seq<char>>)> {
    match json_document(b) {
        None => None,
        Some(doc) => if !json_is_object(doc) {
            None
        } else {
            match (optional_text(doc, "/Code"@), optional_text(doc, "/Message"@)) {
                (Some(c), Some(m)) => Some((c, m)),
                _ => None,
            }
        },
    }
}

/// The id that a success body holds: one JSON string.
pub open spec fn id_body(b: Seq<u8>) -> Option<Seq<char>> {
    match json_document(b) {
        Some(doc) => json_text(doc),
        None => None,
    }
}

/// A trend written by name, or by its number.
pub open spec fn trend_value(v: serde_json::Value) -> Option<Trend> {
    match json_text(v) {
        Some(s) => trend_named(s),
        None => match json_integer(v) {
            Some(n) => trend_numbered(n as int),
            None => None,
        },
    }
}

/// A reading: an object whose `Value` is an integer that fits in `i32` and
/// whose `Trend` is a trend; other members do not matter.
pub open spec fn reading_value(v: serde_json::Value) -> Option<GlucosReading> {
    if !json_is_object(v) {
        None
    } else {
        match (json_pointer_target(v, "/Value"@), json_pointer_target(v, "/Trend"@)) {
            (Some(x), Some(t)) => match (json_integer(x), trend_value(t)) {
                (Some(n), Some(tr)) => if i32::MIN <= n <= i32::MAX {
                    Some(GlucosReading { value: n as i32, trend: tr })
                } else {
                    None
                },
                _ => None,
            },
            _ => None,
        }
    }
}

/// The reading that a success body of the readings operation holds: an
/// array of exactly one reading.
pub open spec fn readings_body(b: Seq<u8>) -> Option<GlucosReading> {
    match json_document(b) {
        Some(doc) => match json_elements(doc) {
            Some(items) => if items.len() == 1 {
                reading_value(items[0])
            } else {
                None
            },
            None => None,
        },
        None => None,
    }
}

/// What a reply stands for, given what its body decodes to on success: the
/// answer, a rejection (`Err(Some(..))`), or a document that could not be
/// read (`Err(None)`).
pub open spec fn reply_outcome<T>(status: u16, b: Seq<u8>, decoded: Option<T>) -> Result<
    T,
    Option<DexcomError>,
> {
    if is_success(status) {
        match decoded {
            Some(t) => Ok(t),
            None => Err(None),
        }
    } else {
        match error_body(b) {
            Some((c, m)) => Err(Some(error_for(c, m))),
            None => Err(None),
        }
    }
}

/// The error of a call is the one that the reply stands for.
pub open spec fn failure_matches<E>(e: ClientError<E>, f: Option<DexcomError>) -> bool {
    match f {
        Some(d) => e == ClientError::<E>::DexcomError(d),
        None => e is JSONError,
    }
}

/// A call answers a string as the reply stands for.
pub open spec fn id_result_matches<E>(r: Result<String, ClientError<E>>, x: Result<Seq<char>, Option<DexcomError>>) -> bool {
    match x {
        Ok(s) => r is Ok && r->Ok_0@ == s,
        Err(f) => r is Err && failure_matches(r->Err_0, f),
    }
}

/// A call answers a reading as the reply stands for.
pub open spec fn reading_result_matches<E>(
    r: Result<[GlucosReading; 1], ClientError<E>>,
    x: Result<GlucosReading, Option<DexcomError>>,
) -> bool {
    match x {
        Ok(g) => r is Ok && r->Ok_0@ == seq![g],
        Err(f) => r is Err && failure_matches(r->Err_0, f),
    }
}

/// A success reply whose body is one JSON string decodes to exactly that
/// string.
pub proof fn id_round_trip(status: u16, b: Seq<u8>, doc: serde_json::Value, id: Seq<char>)
    requires
        is_success(status),
        json_document(b) == Some(doc),
        json_text(doc) == Some(id),
    ensures
        reply_outcome(status, b, id_body(b)) == Ok::<Seq<char>, Option<DexcomError>>(id),
{
}

/// A success reply whose body is an array of one object, with an integer
/// `Value` that fits in `i32` and a `Trend` written by name, decodes to a
/// reading with exactly that value and trend, whatever other members the
/// object has.
pub proof fn reading_round_trip(
    status: u16,
    b: Seq<u8>,
    doc: serde_json::Value,
    item: serde_json::Value,
    value: serde_json::Value,
    trend: serde_json::Value,
    n: i64,
    name: Seq<char>,
    t: Trend,
)
    requires
        is_success(status),
        json_document(b) == Some(doc),
        json_elements(doc) == Some(seq![item]),
        json_is_object(item),
        json_pointer_target(item, "/Value"@) == Some(value),
        json_integer(value) == Some(n),
        i32::MIN <= n <= i32::MAX,
        json_pointer_target(item, "/Trend"@) == Some(trend),
        json_text(trend) == Some(name),
        trend_named(name) == Some(t),
    ensures
        reply_outcome(status, b, readings_body(b)) == Ok::<GlucosReading, Option<DexcomError>>(
            GlucosReading { value: n as i32, trend: t },
        ),
{
    assert(seq![item][0] == item);
}

/// A success reply whose body is not a JSON document is a document that
/// could not be read, and never a rejection by the service.
pub proof fn unreadable_success_is_not_rejection(status: u16, b: Seq<u8>)
    requires
        is_success(status),
        json_document(b) is None,
    ensures
        reply_outcome(status, b, id_body(b)) == Err::<Seq<char>, Option<DexcomError>>(None),
        reply_outcome(status, b, readings_body(b)) == Err::<GlucosReading, Option<DexcomError>>(None),
{
}

/// A reply outside 2xx whose error body has the code `SessionIdNotFound` is
/// the rejection `SessionNotFound`, whatever its message.
pub proof fn session_id_not_found_rejection(status: u16, b: Seq<u8>, message: Option<Seq<char>>)
    requires
        !is_success(status),
        error_body(b) == Some((Some("SessionIdNotFound"@), message)),
    ensures
        reply_outcome(status, b, id_body(b)) == Err::<Seq<char>, Option<DexcomError>>(
            Some(DexcomError::SessionNotFound),
        ),
{
}

/// A reply outside 2xx with the code `InvalidArgument` is told apart by its
/// message: one that mentions `accountName` is `InvalidUsername`; one that
/// mentions `password` and not `accountName` is `InvalidPassword`; one that
/// mentions none of `accountName`, `password` and `UUID` is `InvalidUnknown`.
pub proof fn invalid_argument_rejection(status: u16, b: Seq<u8>, message: Seq<char>)
    requires
        !is_success(status),
        error_body(b) == Some((Some("InvalidArgument"@), Some(message))),
    ensures
        has_fragment(message, "accountName"@) ==> reply_outcome(status, b, id_body(b))
            == Err::<Seq<char>, Option<DexcomError>>(Some(DexcomError::InvalidUsername)),
        !has_fragment(message, "accountName"@) && has_fragment(message, "password"@)
            ==> reply_outcome(status, b, id_body(b)) == Err::<Seq<char>, Option<DexcomError>>(
            Some(DexcomError::InvalidPassword),
        ),
        !has_fragment(message, "accountName"@) && !has_fragment(message, "password"@)
            && !has_fragment(message, "UUID"@) ==> reply_outcome(status, b, id_body(b))
            == Err::<Seq<char>, Option<DexcomError>>(Some(DexcomError::InvalidUnknown)),
{
    reveal_strlit("InvalidArgument");
    reveal_strlit("SessionIdNotFound");
    reveal_strlit("SessionNotValid");
    reveal_strlit("AccountPasswordInvalid");
    reveal_strlit("SSO_AuthenticateMaxAttemptsExceeed");
    assert("InvalidArgument"@.len() != "SessionIdNotFound"@.len());
    assert("InvalidArgument"@[0] != "SessionNotValid"@[0]);
    assert("InvalidArgument"@.len() != "AccountPasswordInvalid"@.len());
    assert("InvalidArgument"@.len() != "SSO_AuthenticateMaxAttemptsExceeed"@.len());
}

fn optional_member(doc: &serde_json::Value, pointer: &str) -> (r: Result<Option<String>, serde_json::Error>)
    ensures
        match optional_text(*doc, pointer@) {
            Some(t) => r is Ok && opt_view(r->Ok_0) == t,
            None => r is Err,
        },
{
    match doc.pointer(pointer) {
        None => Ok(None),
        Some(v) => {
            if v.is_null() {
                Ok(None)
            } else {
                match v.as_str() {
                    Some(t) => Ok(Some(t.to_owned())),
                    None => Err(shape_error("expected a string or null")),
                }
            }
        },
    }
}

impl DexcomErrorResponse {
    /// Reads an error body.
    pub fn parse(body: &[u8]) -> (r: Result<DexcomErrorResponse, serde_json::Error>)
        ensures
            match error_body(body@) {
                Some((c, m)) => r is Ok && r->Ok_0.view_code() == c && r->Ok_0.view_message() == m,
                None => r is Err,
            },
    {
        let doc = parse_document(body)?;
        if !doc.is_object() {
            return Err(shape_error("expected an object"));
        }
        let code = optional_member(&doc, "/Code")?;
        let message = optional_member(&doc, "/Message")?;
        Ok(DexcomErrorResponse { code, message })
    }
}

/// The failure that a reply outside 2xx stands for.
fn rejection<E>(body: &[u8]) -> (r: ClientError<E>)
    ensures
        failure_matches(
            r,
            match error_body(body@) {
                Some((c, m)) => Some(error_for(c, m)),
                None => None,
            },
        ),
{
    match DexcomErrorResponse::parse(body) {
        Ok(response) => {
            let code = match &response.code {
                Some(c) => Some(c.as_str()),
                None => None,
            };
            let message = match &response.message {
                Some(m) => Some(m.as_str()),
                None => None,
            };
            ClientError::DexcomError(error_of(code, message))
        },
        Err(e) => ClientError::JSONError(SerdeJsonError(e)),
    }
}

/// Decodes a reply whose success body is one id string.
pub fn decode_id<E>(status: u16, body: &[u8]) -> (r: Result<String, ClientError<E>>)
    ensures
        id_result_matches(r, reply_outcome(status, body@, id_body(body@))),
{
    if 200 <= status && status <= 299 {
        let doc = match parse_document(body) {
            Ok(d) => d,
            Err(e) => return Err(ClientError::JSONError(SerdeJsonError(e))),
        };
        match doc.as_str() {
            Some(t) => Ok(t.to_owned()),
            None => Err(ClientError::JSONError(SerdeJsonError(shape_error("expected a string")))),
        }
    } else {
        Err(rejection(body))
    }
}

fn trend_of(v: &serde_json::Value) -> (r: Option<Trend>)
    ensures
        r == trend_value(*v),
{
    match v.as_str() {
        Some(s) => Trend::from_name(s),
        None => match v.as_i64() {
            Some(n) => Trend::from_index(n),
            None => None,
        },
    }
}

fn reading_of(v: &serde_json::Value) -> (r: Option<GlucosReading>)
    ensures
        r == reading_value(*v),
{
    if !v.is_object() {
        return None;
    }
    let x = match v.pointer("/Value") {
        Some(x) => x,
        None => return None,
    };
    let t = match v.pointer("/Trend") {
        Some(t) => t,
        None => return None,
    };
    let n = match x.as_i64() {
        Some(n) => n,
        None => return None,
    };
    let trend = match trend_of(t) {
        Some(tr) => tr,
        None => return None,
    };
    if n < i32::MIN as i64 || n > i32::MAX as i64 {
        return None;
    }
    Some(GlucosReading { value: n as i32, trend })
}

/// Decodes a reply whose success body is an array of one reading.
pub fn decode_reading<E>(status: u16, body: &[u8]) -> (r: Result<[GlucosReading; 1], ClientError<E>>)
    ensures
        reading_result_matches(r, reply_outcome(status, body@, readings_body(body@))),
{
    if 200 <= status && status <= 299 {
        let doc = match parse_document(body) {
            Ok(d) => d,
            Err(e) => return Err(ClientError::JSONError(SerdeJsonError(e))),
        };
        let items = match doc.as_array() {
            Some(items) => items,
            None => return Err(ClientError::JSONError(SerdeJsonError(shape_error("expected an array")))),
        };
        if items.len() != 1 {
            return Err(ClientError::JSONError(SerdeJsonError(shape_error("expected one reading"))));
        }
        match reading_of(&items[0]) {
            Some(g) => {
                let out = [g];
                assert(out@ == seq![g]);
                Ok(out)
            },
            None => Err(ClientError::JSONError(SerdeJsonError(shape_error("expected a reading")))),
        }
    } else {
        Err(rejection(body))
    }
}

} // verus!
