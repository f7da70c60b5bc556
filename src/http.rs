//! Plain-value model of one HTTP exchange: the request draft handed to the
//! hooks and the transport, and the response handed back.
use vstd::prelude::*;
use vstd::string::StringExecFns;
use vstd::utf8::encode_utf8;

verus! {

/// The HTTP verbs an endpoint can be declared with.
#[derive(Clone, Copy, Debug, PartialEq, Eq, Structural)]
pub enum Method {
    Get,
    Post,
    Put,
    Patch,
    Delete,
    Head,
    Options,
    Connect,
    Trace,
}

/// One header line, name and value as written.
pub struct Header {
    pub name: String,
    pub value: String,
}

/// The body a draft carries.
pub enum Payload {
    /// Nothing attached.
    Empty,
    /// Encoded bytes (JSON text, or URL-encoded form data).
    Bytes(Vec<u8>),
    /// A multipart form, sent as it was built.
    Multipart(reqwest::multipart::Form),
}

/// A request that has not been sent yet.
pub struct Draft {
    pub method: Method,
    pub url: String,
    pub headers: Vec<Header>,
    pub body: Payload,
}

/// A received response. `body` is `Err` with a message when the body stream
/// could not be read to its end.
pub struct Response {
    pub status: u16,
    pub headers: Vec<Header>,
    pub body: Result<Vec<u8>, String>,
}

/// A multipart form is carried through the pipeline untouched.
#[verifier::external_type_specification]
#[verifier::external_body]
pub struct ExForm(reqwest::multipart::Form);

/// ASCII lower case of one byte; other bytes are left alone.
pub open spec fn ascii_lower(b: u8) -> u8 {
    if 65 <= b <= 90 {
        (b + 32) as u8
    } else {
        b
    }
}

/// Two byte strings that differ at most in the case of ASCII letters.
pub open spec fn same_ignoring_case(a: Seq<u8>, b: Seq<u8>) -> bool {
    &&& a.len() == b.len()
    &&& forall|i: int| 0 <= i < a.len() ==> #[trigger] ascii_lower(a[i]) == ascii_lower(b[i])
}

/// Header names compare without regard to ASCII case.
pub open spec fn same_name(a: Seq<char>, b: Seq<char>) -> bool {
    same_ignoring_case(encode_utf8(a), encode_utf8(b))
}

impl View for Header {
    type V = (Seq<char>, Seq<char>);

    open spec fn view(&self) -> (Seq<char>, Seq<char>) {
        (self.name@, self.value@)
    }
}

/// The header lines of `hs`, as (name, value) pairs.
pub open spec fn lines(hs: Seq<Header>) -> Seq<(Seq<char>, Seq<char>)> {
    hs.map_values(|h: Header| h@)
}

/// Some line of `ls` is named `name`.
pub open spec fn has_header(ls: Seq<(Seq<char>, Seq<char>)>, name: Seq<char>) -> bool {
    exists|i: int| 0 <= i < ls.len() && same_name(#[trigger] ls[i].0, name)
}

fn ascii_lower_byte(b: u8) -> (r: u8)
    ensures
        r == ascii_lower(b),
{
    if 65 <= b && b <= 90 {
        b + 32
    } else {
        b
    }
}

/// Compares two byte strings, ignoring the case of ASCII letters.
pub fn eq_ignoring_case(a: &[u8], b: &[u8]) -> (r: bool)
    ensures
        r == same_ignoring_case(a@, b@),
{
    if a.len() != b.len() {
        return false;
    }
    let mut i: usize = 0;
    while i < a.len()
        invariant
            a@.len() == b@.len(),
            0 <= i <= a@.len(),
            forall|j: int| 0 <= j < i ==> #[trigger] ascii_lower(a@[j]) == ascii_lower(b@[j]),
        decreases a@.len() - i,
    {
        if ascii_lower_byte(a[i]) != ascii_lower_byte(b[i]) {
            return false;
        }
        i += 1;
    }
    true
}

/// Compares two header names without regard to ASCII case.
pub fn names_match(a: &str, b: &str) -> (r: bool)
    ensures
        r == same_name(a@, b@),
{
    eq_ignoring_case(a.as_bytes(), b.as_bytes())
}

/// Whether some header of `headers` is named `name`.
pub fn contains_header(headers: &Vec<Header>, name: &str) -> (r: bool)
    ensures
        r == has_header(lines(headers@), name@),
{
    let mut i: usize = 0;
    while i < headers.len()
        invariant
            0 <= i <= headers@.len(),
            forall|j: int| 0 <= j < i ==> !same_name(#[trigger] lines(headers@)[j].0, name@),
        decreases headers@.len() - i,
    {
        if names_match(headers[i].name.as_str(), name) {
            assert(lines(headers@)[i as int].0 == headers@[i as int].name@);
            return true;
        }
        i += 1;
    }
    false
}

impl Draft {
    /// A draft with no headers and no body.
    pub fn new(method: Method, url: String) -> (r: Draft)
        ensures
            r.method == method,
            r.url == url,
            lines(r.headers@) == Seq::<(Seq<char>, Seq<char>)>::empty(),
            r.body is Empty,
    {
        let r = Draft { method, url, headers: Vec::new(), body: Payload::Empty };
        assert(lines(r.headers@) =~= Seq::<(Seq<char>, Seq<char>)>::empty());
        r
    }

    /// Appends a header line; earlier lines of the same name stay.
    pub fn header(self, name: &str, value: &str) -> (r: Draft)
        ensures
            r.method == self.method,
            r.url == self.url,
            r.body == self.body,
            lines(r.headers@) == lines(self.headers@).push((name@, value@)),
    {
        let mut headers = self.headers;
        headers.push(Header { name: name.to_owned(), value: value.to_owned() });
        assert(lines(headers@) =~= lines(self.headers@).push((name@, value@)));
        Draft { method: self.method, url: self.url, headers, body: self.body }
    }

    /// Appends an `authorization` header with the value `Bearer <token>`.
    pub fn bearer_auth(self, token: &str) -> (r: Draft)
        ensures
            r.method == self.method,
            r.url == self.url,
            r.body == self.body,
            lines(r.headers@) == lines(self.headers@).push(("authorization"@, "Bearer "@ + token@)),
    {
        let value = String::from_str("Bearer ").concat(token);
        self.header("authorization", value.as_str())
    }
}

} // verus!
