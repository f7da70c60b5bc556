use std::cell::Cell;

use api_client::decode::decode;
use api_client::http::contains_header;
use api_client::pipeline::prepare;
use api_client::{
    Api, ApiError, BasicClient, Body, BodyKind, Declaration, Draft, Endpoint, Method, Output, Param,
    Payload, ResultKind, Response, Segment,
};

fn text(s: &str) -> Segment {
    Segment::Text(s.to_string())
}

fn placeholder(s: &str) -> Segment {
    Segment::Param(s.to_string())
}

fn path(name: &str) -> Param {
    Param { name: name.to_string(), is_body: false }
}

fn body_param(name: &str) -> Param {
    Param { name: name.to_string(), is_body: true }
}

fn items_endpoint(result: ResultKind) -> Endpoint {
    Endpoint::compile(Declaration {
        method: Method::Get,
        template: vec![text("/items/"), placeholder("id")],
        params: vec![path("id")],
        body_kind: None,
        result,
    })
    .unwrap()
}

fn ok_response(status: u16, body: &[u8]) -> Response {
    Response { status, headers: Vec::new(), body: Ok(body.to_vec()) }
}

fn header_pairs(d: &Draft) -> Vec<(String, String)> {
    d.headers.iter().map(|h| (h.name.clone(), h.value.clone())).collect()
}

fn body_bytes(d: &Draft) -> Vec<u8> {
    match &d.body {
        Payload::Bytes(b) => b.clone(),
        _ => panic!("draft carries no bytes"),
    }
}

/// A transport double: answers `GET /items/42` with a fixed body and counts
/// the requests it sees.
struct ItemsServer {
    body: Vec<u8>,
    sent: Cell<u32>,
}

impl ItemsServer {
    fn send(&self, draft: &Draft) -> Result<Response, String> {
        self.sent.set(self.sent.get() + 1);
        if draft.method == Method::Get && draft.url == "/items/42" {
            Ok(ok_response(200, &self.body))
        } else {
            Ok(ok_response(404, b""))
        }
    }
}

/// Echoes the request body back with status 200.
fn echo(draft: &Draft) -> Result<Response, String> {
    Ok(ok_response(200, &body_bytes(draft)))
}

struct TokenClient {
    transport: reqwest::Client,
    token: String,
}

impl Api for TokenClient {
    fn client(&self) -> &reqwest::Client {
        &self.transport
    }

    fn pre_request(&self, draft: Draft) -> Result<Draft, String> {
        Ok(draft.bearer_auth(&self.token))
    }
}

struct LockedClient {
    transport: reqwest::Client,
}

impl Api for LockedClient {
    fn client(&self) -> &reqwest::Client {
        &self.transport
    }

    fn pre_request(&self, _draft: Draft) -> Result<Draft, String> {
        Err("no credentials".to_string())
    }
}

struct SubstitutingClient {
    transport: reqwest::Client,
    seen: Vec<u16>,
}

impl Api for SubstitutingClient {
    fn client(&self) -> &reqwest::Client {
        &self.transport
    }

    fn post_response(mut self, response: Response) -> (Self, Response) {
        self.seen.push(response.status);
        (self, ok_response(418, b"short and stout"))
    }
}

#[test]
fn item_by_id_decodes_json() {
    let client = BasicClient::new(reqwest::Client::new());
    let endpoint = items_endpoint(ResultKind::DecodedJson);
    let server = ItemsServer { body: br#"{"id":42,"name":"x"}"#.to_vec(), sent: Cell::new(0) };
    let draft = endpoint.invoke(&client, &vec!["42".to_string()], None).unwrap();
    assert_eq!(draft.url, "/items/42");
    assert!(draft.method == Method::Get);
    let url = draft.url.clone();
    let sent = server.send(&draft);
    let (_, value) = endpoint.complete(client, &url, sent);
    match value {
        Ok(Output::Json { status, text }) => {
            assert_eq!(status, 200);
            let v: serde_json::Value = serde_json::from_slice(&text).unwrap();
            assert_eq!(v["id"], 42);
            assert_eq!(v["name"], "x");
        }
        other => panic!("unexpected {:?}", other),
    }
    assert_eq!(server.sent.get(), 1);
}

#[test]
fn malformed_item_is_a_decode_error() {
    let client = BasicClient::new(reqwest::Client::new());
    let endpoint = items_endpoint(ResultKind::DecodedJson);
    let server = ItemsServer { body: br#"{"id":42,"name":"#.to_vec(), sent: Cell::new(0) };
    let draft = endpoint.invoke(&client, &vec!["42".to_string()], None).unwrap();
    let url = draft.url.clone();
    let sent = server.send(&draft);
    let (_, value) = endpoint.complete(client, &url, sent);
    match value {
        Err(ApiError::Decode { url, status, message }) => {
            assert_eq!(url, "/items/42");
            assert_eq!(status, 200);
            assert!(!message.is_empty());
        }
        other => panic!("unexpected {:?}", other),
    }
}

#[test]
fn bearer_hook_reaches_the_transport() {
    let client = TokenClient { transport: reqwest::Client::new(), token: "s3cr3t".to_string() };
    let endpoint = items_endpoint(ResultKind::StatusCode);
    let draft = endpoint.invoke(&client, &vec!["42".to_string()], None).unwrap();
    assert_eq!(
        header_pairs(&draft),
        vec![("authorization".to_string(), "Bearer s3cr3t".to_string())]
    );
    let create = Endpoint::compile(Declaration {
        method: Method::Post,
        template: vec![text("/items")],
        params: vec![body_param("request")],
        body_kind: Some(BodyKind::Json),
        result: ResultKind::DecodedJson,
    })
    .unwrap();
    let draft = create.invoke(&client, &vec![], Some(b"{}".to_vec())).unwrap();
    assert!(contains_header(&draft.headers, "Authorization"));
    assert!(contains_header(&draft.headers, "content-type"));
}

#[test]
fn refused_draft_sends_nothing() {
    let client = LockedClient { transport: reqwest::Client::new() };
    let endpoint = items_endpoint(ResultKind::RawText);
    let server = ItemsServer { body: b"{}".to_vec(), sent: Cell::new(0) };
    match endpoint.invoke(&client, &vec!["42".to_string()], None) {
        Ok(draft) => {
            let _ = server.send(&draft);
            panic!("a refused draft was handed out");
        }
        Err(ApiError::PreRequest(m)) => assert_eq!(m, "no credentials"),
        Err(other) => panic!("unexpected {:?}", other),
    }
    assert_eq!(server.sent.get(), 0);
    let r = prepare(&client, Method::Post, "/x".to_string(), Body::Json(b"1".to_vec()));
    assert!(matches!(r, Err(ApiError::PreRequest(_))));
}

#[test]
fn response_hook_output_is_decoded() {
    let client = SubstitutingClient { transport: reqwest::Client::new(), seen: Vec::new() };
    let endpoint = items_endpoint(ResultKind::RawText);
    let server = ItemsServer { body: b"original".to_vec(), sent: Cell::new(0) };
    let draft = endpoint.invoke(&client, &vec!["42".to_string()], None).unwrap();
    let url = draft.url.clone();
    let (client, value) = endpoint.complete(client, &url, server.send(&draft));
    match value {
        Ok(Output::Text(t)) => assert_eq!(t, "short and stout"),
        other => panic!("unexpected {:?}", other),
    }
    assert_eq!(client.seen, vec![200]);
    let status = items_endpoint(ResultKind::StatusCode);
    let (client, value) = status.complete(client, &url, Ok(ok_response(200, b"")));
    match value {
        Ok(Output::Status(s)) => assert_eq!(s, 418),
        other => panic!("unexpected {:?}", other),
    }
}

#[test]
fn status_result_ignores_body() {
    let r = decode(ResultKind::StatusCode, "/x", ok_response(503, b"not json at all"));
    assert!(matches!(r, Ok(Output::Status(503))));
    let broken = Response { status: 404, headers: Vec::new(), body: Err("reset".to_string()) };
    assert!(matches!(decode(ResultKind::StatusCode, "/x", broken), Ok(Output::Status(404))));
}

#[test]
fn json_echo_round_trip() {
    let client = BasicClient::new(reqwest::Client::new());
    let update = Endpoint::compile(Declaration {
        method: Method::Put,
        template: vec![text("/todos/"), placeholder("id")],
        params: vec![body_param("request"), path("id")],
        body_kind: Some(BodyKind::Json),
        result: ResultKind::DecodedJson,
    })
    .unwrap();
    let original: serde_json::Value =
        serde_json::from_str(r#"{"userId":1,"id":1,"title":"test","completed":true}"#).unwrap();
    let payload = serde_json::to_vec(&original).unwrap();
    let draft = update.invoke(&client, &vec!["1".to_string()], Some(payload.clone())).unwrap();
    assert_eq!(draft.url, "/todos/1");
    assert_eq!(body_bytes(&draft), payload);
    let (_, value) = update.complete(client, "/todos/1", echo(&draft));
    match value {
        Ok(Output::Json { status, text }) => {
            assert_eq!(status, 200);
            let back: serde_json::Value = serde_json::from_slice(&text).unwrap();
            assert_eq!(back, original);
        }
        other => panic!("unexpected {:?}", other),
    }
}
