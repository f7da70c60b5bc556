//! The request pipeline: one draft built, handed to the client's hooks, given
//! its body, and (after the transport has sent it) one response handed back
//! through the client's response hook.
use vstd::prelude::*;
use crate::http::{contains_header, has_header, same_name, lines, Draft, Header, Method, Payload, Response};

verus! {

/// How a call attaches its payload.
pub enum Body {
    /// No payload.
    Empty,
    /// JSON text, sent with content type `application/json`.
    Json(Vec<u8>),
    /// URL-encoded form data, sent with content type
    /// `application/x-www-form-urlencoded`.
    Form(Vec<u8>),
    /// A pre-built multipart form; it carries its own content type.
    Multipart(reqwest::multipart::Form),
}

/// Why one call failed.
#[derive(Debug)]
pub enum ApiError {
    /// The client's request hook refused the draft; nothing was sent.
    PreRequest(String),
    /// The transport could not deliver the request or receive a response.
    Transport(String),
    /// The response body could not be read to its end.
    BodyRead(String),
    /// The payload could not be encoded as the declared body kind.
    Encode(String),
    /// The body was read but does not decode into the declared result.
    Decode { url: String, status: u16, message: String },
    /// The call's arguments do not fit the endpoint's parameter list.
    Arguments,
}

/// The content type that a JSON or form payload is sent with.
pub open spec fn content_type_for(body: Body) -> Seq<char> {
    match body {
        Body::Json(_) => "application/json"@,
        Body::Form(_) => "application/x-www-form-urlencoded"@,
        _ => Seq::empty(),
    }
}

/// The header lines once `body` is attached: a JSON or form payload adds a
/// content type unless the lines already name one.
pub open spec fn lines_with_body(
    ls: Seq<(Seq<char>, Seq<char>)>,
    body: Body,
) -> Seq<(Seq<char>, Seq<char>)> {
    match body {
        Body::Json(_) | Body::Form(_) => if has_header(ls, "content-type"@) {
            ls
        } else {
            ls.push(("content-type"@, content_type_for(body)))
        },
        _ => ls,
    }
}

/// The draft's payload once `body` is attached: an empty body keeps what the
/// draft had, any other replaces it wholesale.
pub open spec fn payload_with_body(old: Payload, body: Body) -> Payload {
    match body {
        Body::Empty => old,
        Body::Json(p) => Payload::Bytes(p),
        Body::Form(p) => Payload::Bytes(p),
        Body::Multipart(f) => Payload::Multipart(f),
    }
}

/// `r` is the draft `d` with `body` attached.
pub open spec fn attached(d: Draft, body: Body, r: Draft) -> bool {
    &&& r.method == d.method
    &&& r.url == d.url
    &&& lines(r.headers@) == lines_with_body(lines(d.headers@), body)
    &&& r.body == payload_with_body(d.body, body)
}

/// What the pipeline makes of the request hook's outcome.
pub open spec fn after_hook(hooked: Result<Draft, String>, body: Body, r: Result<Draft, ApiError>) -> bool {
    match hooked {
        Ok(d) => r is Ok && attached(d, body, r->Ok_0),
        Err(e) => r == Err::<Draft, ApiError>(ApiError::PreRequest(e)),
    }
}

/// The client contract: a transport handle and two hooks around every call.
pub trait Api: Sized {
    /// The transport that sends this client's requests; the same on every call.
    fn client(&self) -> &reqwest::Client;

    /// Sees every draft before its body is attached and before it is sent; an
    /// error aborts the call. By default the draft passes unchanged.
    fn pre_request(&self, draft: Draft) -> (r: Result<Draft, String>)
        default_ensures
            r == Ok::<Draft, String>(draft),
    {
        Ok(draft)
    }

    /// Sees every response before it is decoded, and may update the client:
    /// it takes the client's state and hands back the state to keep. The
    /// response it returns is what gets decoded. By default the response
    /// passes unchanged and the client is kept as it was.
    fn post_response(self, response: Response) -> (r: (Self, Response))
        default_ensures
            r == (self, response),
    {
        (self, response)
    }
}

/// A client with the default hooks around a transport of its own.
pub struct BasicClient {
    transport: reqwest::Client,
}

/// The transport handle is carried through untouched.
#[verifier::external_type_specification]
#[verifier::external_body]
pub struct ExClient(reqwest::Client);

impl BasicClient {
    /// Wraps a transport.
    pub fn new(transport: reqwest::Client) -> (r: BasicClient)
        ensures
            r.transport() == transport,
    {
        BasicClient { transport }
    }

    /// The transport this client owns.
    pub closed spec fn transport(&self) -> reqwest::Client {
        self.transport
    }
}

impl Api for BasicClient {
    fn client(&self) -> &reqwest::Client {
        &self.transport
    }
}

/// Attaches `body` to `draft` (step three of the pipeline).
pub fn attach_body(draft: Draft, body: Body) -> (r: Draft)
    ensures
        attached(draft, body, r),
{
    let Draft { method, url, mut headers, body: old } = draft;
    let ghost old_lines = lines(headers@);
    let payload = match body {
        Body::Empty => old,
        Body::Json(p) => {
            if !contains_header(&headers, "content-type") {
                headers.push(Header {
                    name: "content-type".to_owned(),
                    value: "application/json".to_owned(),
                });
                assert(lines(headers@) =~= old_lines.push(("content-type"@, "application/json"@)));
            }
            Payload::Bytes(p)
        },
        Body::Form(p) => {
            if !contains_header(&headers, "content-type") {
                headers.push(Header {
                    name: "content-type".to_owned(),
                    value: "application/x-www-form-urlencoded".to_owned(),
                });
                assert(lines(headers@) =~= old_lines.push(
                    ("content-type"@, "application/x-www-form-urlencoded"@),
                ));
            }
            Payload::Bytes(p)
        },
        Body::Multipart(f) => Payload::Multipart(f),
    };
    Draft { method, url, headers, body: payload }
}

/// Steps two and three, given what the request hook returned: a refusal
/// becomes the call's error and nothing is left to send; an accepted draft
/// gets the body.
pub fn after_pre_request(hooked: Result<Draft, String>, body: Body) -> (r: Result<Draft, ApiError>)
    ensures
        after_hook(hooked, body, r),
{
    match hooked {
        Ok(d) => Ok(attach_body(d, body)),
        Err(e) => Err(ApiError::PreRequest(e)),
    }
}

/// `d` is a fresh draft for `method` and `url`: no headers and no body.
pub open spec fn fresh(d: Draft, method: Method, url: Seq<char>) -> bool {
    &&& d.method == method
    &&& d.url@ == url
    &&& lines(d.headers@) == Seq::<(Seq<char>, Seq<char>)>::empty()
    &&& d.body is Empty
}

/// `r` is what the pipeline makes of a fresh draft for `method` and `url`
/// run through `client`'s request hook, with `body` attached after it.
pub open spec fn prepared<C: Api>(client: &C, method: Method, url: Seq<char>, body: Body, r: Result<Draft, ApiError>) -> bool {
    exists|d: Draft, hooked: Result<Draft, String>|
        fresh(d, method, url) && call_ensures(C::pre_request, (client, d), hooked) && after_hook(hooked, body, r)
}

/// Builds the draft for `method` and `url`, runs the client's request hook on
/// it and attaches `body`. The result is the draft to send; an error comes
/// from the hook only, and then nothing is to be sent.
pub fn prepare<C: Api>(client: &C, method: Method, url: String, body: Body) -> (r: Result<Draft, ApiError>)
    ensures
        prepared(client, method, url@, body, r),
        r is Err ==> r->Err_0 is PreRequest,
{
    let fresh_draft = Draft::new(method, url);
    let ghost d = fresh_draft;
    let hooked = client.pre_request(fresh_draft);
    let r = after_pre_request(hooked, body);
    assert(fresh(d, method, url@) && call_ensures(C::pre_request, (client, d), hooked) && after_hook(hooked, body, r));
    r
}

/// Step five: hands what the transport returned through the client's
/// response hook, and gives back the client's state with the result. A
/// received response comes back as exactly what the hook returned; a
/// transport failure is passed on unchanged and the client is kept as it was.
pub fn receive<C: Api>(client: C, sent: Result<Response, String>) -> (r: (C, Result<Response, ApiError>))
    ensures
        match sent {
            Ok(response) => r.1 is Ok && call_ensures(C::post_response, (client, response), (r.0, r.1->Ok_0)),
            Err(e) => r.0 == client && r.1 == Err::<Response, ApiError>(ApiError::Transport(e)),
        },
{
    match sent {
        Ok(response) => {
            let (kept, effective) = client.post_response(response);
            (kept, Ok(effective))
        },
        Err(e) => (client, Err(ApiError::Transport(e))),
    }
}

/// When the request hook refuses a draft, the call fails with the hook's
/// error, unchanged, and yields no draft: nothing reaches the transport.
pub proof fn refused_draft_is_never_sent(hooked: Result<Draft, String>, body: Body, r: Result<Draft, ApiError>)
    requires
        after_hook(hooked, body, r),
        hooked is Err,
    ensures
        r is Err,
        r->Err_0 == ApiError::PreRequest(hooked->Err_0),
{
}

/// A JSON payload is sent as exactly its own bytes, under a content type:
/// `application/json` added, unless the request hook already set one.
pub proof fn json_payload_sent_exactly(hooked: Result<Draft, String>, p: Vec<u8>, r: Result<Draft, ApiError>)
    requires
        after_hook(hooked, Body::Json(p), r),
        hooked is Ok,
    ensures
        r is Ok,
        r->Ok_0.body == Payload::Bytes(p),
        has_header(lines(r->Ok_0.headers@), "content-type"@),
        !has_header(lines(hooked->Ok_0.headers@), "content-type"@) ==> lines(r->Ok_0.headers@)
            == lines(hooked->Ok_0.headers@).push(("content-type"@, "application/json"@)),
{
    let ls = lines(hooked->Ok_0.headers@);
    if !has_header(ls, "content-type"@) {
        let out = ls.push(("content-type"@, "application/json"@));
        assert(same_name(out[ls.len() as int].0, "content-type"@));
    }
}

/// With the default hooks, the request hook hands the draft on unchanged,
/// and the response hook hands back the received response itself and leaves
/// the client as it was: the pipeline's result is the transport's.
pub proof fn default_hooks_pass_through(
    client: BasicClient,
    draft: Draft,
    hooked: Result<Draft, String>,
    response: Response,
    kept: BasicClient,
    effective: Response,
)
    requires
        call_ensures(BasicClient::pre_request, (&client, draft), hooked),
        call_ensures(BasicClient::post_response, (client, response), (kept, effective)),
    ensures
        hooked == Ok::<Draft, String>(draft),
        effective == response,
        kept == client,
{
}

} // verus!
