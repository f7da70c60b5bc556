//! Endpoint declarations: checked once when a client is defined, then used
//! for every call of that endpoint.
use vstd::prelude::*;
use vstd::string::StringExecFns;
use crate::decode::{decode, decoded, Output, ResultKind};
use crate::http::{has_header, lines, Draft, Method, Payload, Response};
use crate::pipeline::{after_hook, json_payload_sent_exactly, prepare, prepared, receive, Api, ApiError, Body};

verus! {

/// One piece of a URL template.
pub enum Segment {
    /// Literal text.
    Text(String),
    /// A placeholder, replaced by the argument of the parameter it names.
    Param(String),
}

/// How an endpoint's body parameter is encoded.
#[derive(Clone, Copy, Debug, PartialEq, Eq, Structural)]
pub enum BodyKind {
    Json,
    Form,
}

/// One declared parameter: a path parameter, or the body payload.
pub struct Param {
    pub name: String,
    pub is_body: bool,
}

/// An endpoint as written by the author of a client.
pub struct Declaration {
    pub method: Method,
    pub template: Vec<Segment>,
    pub params: Vec<Param>,
    pub body_kind: Option<BodyKind>,
    pub result: ResultKind,
}

/// Why a declaration is refused.
#[derive(Debug)]
pub enum DeclError {
    /// A body parameter stands elsewhere than first.
    BodyNotFirst,
    /// A body parameter is declared but no body kind.
    BodyWithoutKind,
    /// A body kind is declared but no body parameter.
    KindWithoutBody,
    /// A placeholder names no path parameter.
    UnknownPlaceholder(String),
}

/// Some parameter after the first is a body.
pub open spec fn body_misplaced(ps: Seq<Param>) -> bool {
    exists|i: int| 1 <= i < ps.len() && #[trigger] ps[i].is_body
}

/// The first parameter is a body.
pub open spec fn takes_body(ps: Seq<Param>) -> bool {
    ps.len() > 0 && ps[0].is_body
}

/// The number of leading parameters that are not path parameters.
pub open spec fn path_start(ps: Seq<Param>) -> int {
    if takes_body(ps) {
        1
    } else {
        0
    }
}

/// `k` is the first path parameter named `name`.
pub open spec fn first_param(ps: Seq<Param>, name: Seq<char>, k: int) -> bool {
    &&& 0 <= k < ps.len()
    &&& !ps[k].is_body
    &&& ps[k].name@ == name
    &&& forall|j: int| 0 <= j < k ==> (#[trigger] ps[j].is_body || ps[j].name@ != name)
}

/// Some path parameter is named `name`.
pub open spec fn declared(ps: Seq<Param>, name: Seq<char>) -> bool {
    exists|k: int| 0 <= k < ps.len() && !ps[k].is_body && #[trigger] ps[k].name@ == name
}

/// Every placeholder of `t` names a path parameter of `ps`.
pub open spec fn placeholders_declared(t: Seq<Segment>, ps: Seq<Param>) -> bool {
    forall|i: int| 0 <= i < t.len() && (#[trigger] t[i]) is Param ==> declared(ps, t[i]->Param_0@)
}

/// The body parameter and the body kind agree, and the body comes first.
pub open spec fn body_consistent(d: Declaration) -> bool {
    &&& !body_misplaced(d.params@)
    &&& takes_body(d.params@) == d.body_kind is Some
}

/// A declaration that defines an endpoint.
pub open spec fn valid(d: Declaration) -> bool {
    body_consistent(d) && placeholders_declared(d.template@, d.params@)
}

/// The argument that stands for `name`: arguments are given for the path
/// parameters in their order.
pub open spec fn argument(ps: Seq<Param>, args: Seq<String>, name: Seq<char>) -> Seq<char> {
    args[(choose|k: int| first_param(ps, name, k)) - path_start(ps)]@
}

/// One template piece with its argument put in.
pub open spec fn piece(s: Segment, ps: Seq<Param>, args: Seq<String>) -> Seq<char> {
    match s {
        Segment::Text(t) => t@,
        Segment::Param(n) => argument(ps, args, n@),
    }
}

/// The URL that template `t` gives with arguments `args`.
pub open spec fn rendered(t: Seq<Segment>, ps: Seq<Param>, args: Seq<String>) -> Seq<char>
    decreases t.len(),
{
    if t.len() == 0 {
        Seq::empty()
    } else {
        rendered(t.drop_last(), ps, args) + piece(t.last(), ps, args)
    }
}

/// The body that a call attaches for a payload.
pub open spec fn call_body(kind: Option<BodyKind>, payload: Option<Vec<u8>>) -> Body {
    match (kind, payload) {
        (Some(BodyKind::Json), Some(p)) => Body::Json(p),
        (Some(BodyKind::Form), Some(p)) => Body::Form(p),
        _ => Body::Empty,
    }
}

/// The first path parameter named `name`, if any.
fn find_param(ps: &Vec<Param>, name: &String) -> (r: Option<usize>)
    ensures
        match r {
            Some(k) => first_param(ps@, name@, k as int),
            None => !declared(ps@, name@),
        },
{
    let mut k: usize = 0;
    while k < ps.len()
        invariant
            0 <= k <= ps@.len(),
            forall|j: int| 0 <= j < k ==> (#[trigger] ps@[j].is_body || ps@[j].name@ != name@),
        decreases ps@.len() - k,
    {
        if !ps[k].is_body && ps[k].name == *name {
            return Some(k);
        }
        k += 1;
    }
    None
}

proof fn first_param_unique(ps: Seq<Param>, name: Seq<char>, k: int)
    requires
        first_param(ps, name, k),
    ensures
        (choose|j: int| first_param(ps, name, j)) == k,
{
    let c = choose|j: int| first_param(ps, name, j);
    assert(first_param(ps, name, c));
    if c < k {
        assert(ps[c].is_body || ps[c].name@ != name);
    } else if k < c {
        assert(ps[k].is_body || ps[k].name@ != name);
    }
}

/// Placeholder `name` is the first of `t` that names no path parameter.
pub open spec fn first_undeclared(t: Seq<Segment>, ps: Seq<Param>, name: Seq<char>) -> bool {
    exists|i: int|
        0 <= i < t.len() && (#[trigger] t[i]) is Param && t[i]->Param_0@ == name && !declared(ps, name)
            && forall|j: int| 0 <= j < i && (#[trigger] t[j]) is Param ==> declared(ps, t[j]->Param_0@)
}

/// Declaration `d` is refused with `e`: the checks run in the order body
/// placement, body kind, placeholders.
pub open spec fn refused(d: Declaration, e: DeclError) -> bool {
    &&& !valid(d)
    &&& if body_misplaced(d.params@) {
        e == DeclError::BodyNotFirst
    } else if takes_body(d.params@) && d.body_kind is None {
        e == DeclError::BodyWithoutKind
    } else if !takes_body(d.params@) && d.body_kind is Some {
        e == DeclError::KindWithoutBody
    } else {
        e is UnknownPlaceholder && first_undeclared(d.template@, d.params@, e->UnknownPlaceholder_0@)
    }
}

/// The definition-time checks of a declaration.
pub fn check_declaration(d: &Declaration) -> (r: Result<(), DeclError>)
    ensures
        match r {
            Ok(_) => valid(*d),
            Err(e) => refused(*d, e),
        },
{
    let ps = &d.params;
    let mut i: usize = 1;
    while i < ps.len()
        invariant
            1 <= i,
            ps == &d.params,
            i <= ps@.len() || ps@.len() == 0,
            forall|j: int| 1 <= j < i && j < ps@.len() ==> !(#[trigger] ps@[j].is_body),
        decreases ps@.len() - i,
    {
        if ps[i].is_body {
            assert(d.params@[i as int].is_body);
            return Err(DeclError::BodyNotFirst);
        }
        i += 1;
    }
    let takes = ps.len() > 0 && ps[0].is_body;
    if takes && d.body_kind.is_none() {
        return Err(DeclError::BodyWithoutKind);
    }
    if !takes && d.body_kind.is_some() {
        return Err(DeclError::KindWithoutBody);
    }
    let t = &d.template;
    let mut i: usize = 0;
    while i < t.len()
        invariant
            0 <= i <= t@.len(),
            body_consistent(*d),
            t == &d.template,
            ps == &d.params,
            forall|j: int| 0 <= j < i && (#[trigger] t@[j]) is Param ==> declared(ps@, t@[j]->Param_0@),
        decreases t@.len() - i,
    {
        if let Segment::Param(name) = &t[i] {
            if find_param(ps, name).is_none() {
                assert(!placeholders_declared(t@, ps@));
                return Err(DeclError::UnknownPlaceholder(name.clone()));
            }
        }
        i += 1;
    }
    Ok(())
}

/// An endpoint whose declaration passed the definition-time checks.
pub struct Endpoint {
    decl: Declaration,
}

impl Endpoint {
    /// The declaration this endpoint was made from.
    pub closed spec fn declaration(&self) -> Declaration {
        self.decl
    }

    /// Every endpoint holds a valid declaration.
    pub open spec fn wf(&self) -> bool {
        valid(self.declaration())
    }

    /// The number of arguments and the payload a call must supply.
    pub open spec fn fits(&self, args: Seq<String>, payload: Option<Vec<u8>>) -> bool {
        let ps = self.declaration().params@;
        &&& args.len() == ps.len() - path_start(ps)
        &&& payload is Some == takes_body(ps)
    }

    /// Checks `decl` and, if it passes, makes it an endpoint.
    pub fn compile(decl: Declaration) -> (r: Result<Endpoint, DeclError>)
        ensures
            match r {
                Ok(e) => e.declaration() == decl && e.wf(),
                Err(e) => refused(decl, e),
            },
    {
        match check_declaration(&decl) {
            Ok(_) => Ok(Endpoint { decl }),
            Err(e) => Err(e),
        }
    }

    /// The endpoint's HTTP verb.
    pub fn method(&self) -> (r: Method)
        ensures
            r == self.declaration().method,
    {
        self.decl.method
    }

    /// How the endpoint's responses are decoded.
    pub fn result_kind(&self) -> (r: ResultKind)
        ensures
            r == self.declaration().result,
    {
        self.decl.result
    }

    /// The template with every placeholder replaced by its argument.
    fn render(&self, args: &Vec<String>) -> (r: String)
        requires
            self.wf(),
            args@.len() == self.declaration().params@.len() - path_start(self.declaration().params@),
        ensures
            r@ == rendered(self.declaration().template@, self.declaration().params@, args@),
    {
        let t = &self.decl.template;
        let ps = &self.decl.params;
        let start: usize = if ps.len() > 0 && ps[0].is_body {
            1
        } else {
            0
        };
        let mut url = String::new();
        let mut i: usize = 0;
        while i < t.len()
            invariant
                0 <= i <= t@.len(),
                self.wf(),
                t == &self.decl.template,
                ps == &self.decl.params,
                start == path_start(ps@),
                args@.len() == ps@.len() - start,
                url@ == rendered(t@.take(i as int), ps@, args@),
            decreases t@.len() - i,
        {
            assert(t@.take(i + 1).drop_last() =~= t@.take(i as int));
            match &t[i] {
                Segment::Text(s) => {
                    url.append(s.as_str());
                },
                Segment::Param(name) => {
                    assert(declared(ps@, name@));
                    match find_param(ps, name) {
                        Some(k) => {
                            proof {
                                first_param_unique(ps@, name@, k as int);
                                if start == 1 {
                                    assert(k != 0);
                                }
                            }
                            url.append(args[k - start].as_str());
                        },
                        None => {},
                    }
                },
            }
            i += 1;
        }
        assert(t@.take(t@.len() as int) =~= t@);
        url
    }

    /// The URL of a call with path arguments `args`, given in the order the
    /// path parameters are declared; `Arguments` when their number is wrong.
    pub fn url(&self, args: &Vec<String>) -> (r: Result<String, ApiError>)
        requires
            self.wf(),
        ensures
            match r {
                Ok(u) => args@.len() == self.declaration().params@.len() - path_start(
                    self.declaration().params@,
                ) && u@ == rendered(self.declaration().template@, self.declaration().params@, args@),
                Err(e) => e is Arguments && args@.len() != self.declaration().params@.len()
                    - path_start(self.declaration().params@),
            },
    {
        let ps = &self.decl.params;
        let start: usize = if ps.len() > 0 && ps[0].is_body {
            1
        } else {
            0
        };
        if args.len() != ps.len() - start {
            return Err(ApiError::Arguments);
        }
        Ok(self.render(args))
    }

    /// Starts a call: renders the URL, runs the client's request hook on a
    /// fresh draft for it, and attaches the payload as the declared body kind.
    /// The result is the draft to send; on an error nothing is to be sent.
    pub fn invoke<C: Api>(&self, client: &C, args: &Vec<String>, payload: Option<Vec<u8>>) -> (r:
        Result<Draft, ApiError>)
        requires
            self.wf(),
        ensures
            !self.fits(args@, payload) ==> r == Err::<Draft, ApiError>(ApiError::Arguments),
            self.fits(args@, payload) ==> prepared(
                client,
                self.declaration().method,
                rendered(self.declaration().template@, self.declaration().params@, args@),
                call_body(self.declaration().body_kind, payload),
                r,
            ),
            self.fits(args@, payload) && r is Err ==> r->Err_0 is PreRequest,
    {
        let takes = self.decl.params.len() > 0 && self.decl.params[0].is_body;
        if payload.is_some() != takes {
            return Err(ApiError::Arguments);
        }
        let url = match self.url(args) {
            Ok(u) => u,
            Err(e) => return Err(e),
        };
        let body = match (self.decl.body_kind, payload) {
            (Some(BodyKind::Json), Some(p)) => Body::Json(p),
            (Some(BodyKind::Form), Some(p)) => Body::Form(p),
            _ => Body::Empty,
        };
        prepare(client, self.decl.method, url, body)
    }

    /// Ends a call to `url`: hands what the transport returned through the
    /// client's response hook and decodes exactly what the hook returned,
    /// giving back the client's state with the value. A transport failure is
    /// passed on unchanged and the client is kept as it was.
    pub fn complete<C: Api>(&self, client: C, url: &str, sent: Result<Response, String>) -> (r: (
        C,
        Result<Output, ApiError>,
    ))
        ensures
            match sent {
                Ok(response) => exists|effective: Response|
                    call_ensures(C::post_response, (client, response), (r.0, effective)) && decoded(
                        self.declaration().result,
                        url@,
                        effective,
                        r.1,
                    ),
                Err(e) => r.0 == client && r.1 == Err::<Output, ApiError>(ApiError::Transport(e)),
            },
    {
        let ghost sent0 = sent;
        let ghost client0 = client;
        let (kept, received) = receive(client, sent);
        match received {
            Ok(effective) => {
                let value = decode(self.decl.result, url, effective);
                assert(call_ensures(C::post_response, (client0, sent0->Ok_0), (kept, effective)));
                (kept, value)
            },
            Err(e) => (kept, Err(e)),
        }
    }
}

/// Every call of an endpoint declared with a JSON body sends exactly the
/// given payload's bytes, with content type `application/json` unless the
/// request hook set a content type of its own.
pub proof fn json_endpoint_sends_payload(
    e: Endpoint,
    args: Seq<String>,
    p: Vec<u8>,
    hooked: Result<Draft, String>,
    r: Result<Draft, ApiError>,
)
    requires
        e.wf(),
        e.declaration().body_kind == Some(BodyKind::Json),
        e.fits(args, Some(p)),
        hooked is Ok,
        after_hook(hooked, call_body(e.declaration().body_kind, Some(p)), r),
    ensures
        r is Ok,
        r->Ok_0.body == Payload::Bytes(p),
        has_header(lines(r->Ok_0.headers@), "content-type"@),
        !has_header(lines(hooked->Ok_0.headers@), "content-type"@) ==> lines(r->Ok_0.headers@)
            == lines(hooked->Ok_0.headers@).push(("content-type"@, "application/json"@)),
{
    json_payload_sent_exactly(hooked, p, r);
}

} // verus!
