//! Result decoding: how the effective response of a call becomes its value.
use vstd::prelude::*;
use vstd::utf8::{decode_utf8, valid_utf8};
use crate::http::{Draft, Response};
use crate::pipeline::{attached, ApiError, Body};

verus! {

/// How an endpoint's response is turned into its value.
#[derive(Clone, Copy, Debug, PartialEq, Eq, Structural)]
pub enum ResultKind {
    /// The numeric status alone; the body is not read.
    StatusCode,
    /// The body, read to its end, as text.
    RawText,
    /// The body, read to its end, as bytes.
    RawBytes,
    /// The body, read to its end, as one JSON text.
    DecodedJson,
}

/// The value of a call, tagged by its result kind.
#[derive(Debug)]
pub enum Output {
    Status(u16),
    Text(String),
    Bytes(Vec<u8>),
    /// A well-formed JSON text, for the caller to bind to its own type, with
    /// the status it came with.
    Json { status: u16, text: Vec<u8> },
}

/// Whether `b` is one well-formed JSON text.
pub uninterp spec fn json_accepts(b: Seq<u8>) -> bool;

/// The text that `b` reads as, with ill-formed UTF-8 replaced.
pub uninterp spec fn utf8_lossy(b: Seq<u8>) -> Seq<char>;

/// Relies on `serde_json::from_slice` (into `serde::de::IgnoredAny`): it
/// accepts exactly the inputs that hold one JSON value and nothing after it
/// but whitespace, which depends on the bytes alone; an empty input holds no
/// value. On refusal the message is serde_json's.
#[verifier::external_body]
fn check_json(b: &[u8]) -> (r: Result<(), String>)
    ensures
        r is Ok <==> json_accepts(b@),
        b@.len() == 0 ==> r is Err,
{
    match serde_json::from_slice::<serde::de::IgnoredAny>(b) {
        Ok(_) => Ok(()),
        Err(e) => Err(e.to_string()),
    }
}

/// Relies on `String::from_utf8_lossy`: the text depends on the bytes alone,
/// and well-formed UTF-8 reads as what it encodes.
#[verifier::external_body]
fn lossy_text(b: &[u8]) -> (r: String)
    ensures
        r@ == utf8_lossy(b@),
        valid_utf8(b@) ==> r@ == decode_utf8(b@),
{
    String::from_utf8_lossy(b).into_owned()
}

/// Whether `status` is a success status (200 to 299).
pub fn is_success(status: u16) -> (r: bool)
    ensures
        r == (200 <= status < 300),
{
    200 <= status && status < 300
}

/// What decoding a body with `kind` gives, once the body has been read as `b`
/// and, for JSON, checked with outcome `checked`.
pub open spec fn decoded_body(
    kind: ResultKind,
    url: Seq<char>,
    status: u16,
    b: Vec<u8>,
    r: Result<Output, ApiError>,
) -> bool {
    match kind {
        ResultKind::StatusCode => r == Ok::<Output, ApiError>(Output::Status(status)),
        ResultKind::RawText => r is Ok && r->Ok_0 is Text && r->Ok_0->Text_0@ == utf8_lossy(b@),
        ResultKind::RawBytes => r == Ok::<Output, ApiError>(Output::Bytes(b)),
        ResultKind::DecodedJson => if json_accepts(b@) {
            r == Ok::<Output, ApiError>(Output::Json { status, text: b })
        } else {
            decode_failure(url, status, r)
        },
    }
}

/// `r` is a decode error that names `url` and `status`.
pub open spec fn decode_failure(url: Seq<char>, status: u16, r: Result<Output, ApiError>) -> bool {
    &&& r is Err
    &&& r->Err_0 is Decode
    &&& r->Err_0->Decode_url@ == url
    &&& r->Err_0->Decode_status == status
}

/// What decoding `response` with `kind` gives: the status alone never fails;
/// the other kinds read the body first, and an unreadable body is a body-read
/// error carrying the transport's message.
pub open spec fn decoded(kind: ResultKind, url: Seq<char>, response: Response, r: Result<Output, ApiError>) -> bool {
    if kind == ResultKind::StatusCode {
        r == Ok::<Output, ApiError>(Output::Status(response.status))
    } else {
        match response.body {
            Ok(b) => decoded_body(kind, url, response.status, b, r),
            Err(m) => r == Err::<Output, ApiError>(ApiError::BodyRead(m)),
        }
    }
}

/// The value of a JSON call, given the body and the outcome of checking it:
/// the body itself when it is JSON, else a decode error with the checker's
/// message, the endpoint's URL and the status.
pub fn json_outcome(url: &str, status: u16, body: Vec<u8>, checked: Result<(), String>) -> (r: Result<
    Output,
    ApiError,
>)
    ensures
        match checked {
            Ok(_) => r == Ok::<Output, ApiError>(Output::Json { status, text: body }),
            Err(m) => decode_failure(url@, status, r) && r->Err_0->Decode_message == m,
        },
{
    match checked {
        Ok(_) => Ok(Output::Json { status, text: body }),
        Err(message) => Err(ApiError::Decode { url: url.to_owned(), status, message }),
    }
}

/// Decodes the effective response of a call to `url` as `kind` says.
pub fn decode(kind: ResultKind, url: &str, response: Response) -> (r: Result<Output, ApiError>)
    ensures
        decoded(kind, url@, response, r),
{
    let Response { status, headers: _, body } = response;
    match kind {
        ResultKind::StatusCode => Ok(Output::Status(status)),
        _ => match body {
            Err(m) => Err(ApiError::BodyRead(m)),
            Ok(b) => match kind {
                ResultKind::RawText => Ok(Output::Text(lossy_text(b.as_slice()))),
                ResultKind::RawBytes => Ok(Output::Bytes(b)),
                _ => {
                    let checked = check_json(b.as_slice());
                    json_outcome(url, status, b, checked)
                },
            },
        },
    }
}

/// A status-only result is the status of the response, whatever its status
/// and whatever its body, readable or not: it never fails.
pub proof fn status_result_is_response_status(url: Seq<char>, response: Response, r: Result<Output, ApiError>)
    requires
        decoded(ResultKind::StatusCode, url, response, r),
    ensures
        r == Ok::<Output, ApiError>(Output::Status(response.status)),
{
}

/// A JSON payload echoed back as a response body decodes, as JSON, to the
/// very bytes that were sent.
pub proof fn json_echo_round_trip(
    d: Draft,
    p: Vec<u8>,
    sent: Draft,
    echo: Response,
    url: Seq<char>,
    r: Result<Output, ApiError>,
)
    requires
        attached(d, Body::Json(p), sent),
        sent.body is Bytes,
        echo.body == Ok::<Vec<u8>, String>(sent.body->Bytes_0),
        json_accepts(p@),
        decoded(ResultKind::DecodedJson, url, echo, r),
    ensures
        r == Ok::<Output, ApiError>(Output::Json { status: echo.status, text: p }),
{
}

} // verus!
