//! One exchange with a service: the request that a scenario sends and what
//! is made of the reply. Sending is the caller's; a scenario frames its
//! request here and judges the reply.

use crate::auth::{field, fields_view, CredentialsView, Field};
use crate::error::{prepared, sanitized};
use crate::json::{parse_or_null, Json, JsonView};
use crate::services::{Outcome, OutcomeView};
use crate::text::{contains, decimal, str_contains, u64_to_decimal};
use vstd::prelude::*;
use vstd::string::*;

verus! {

/// The HTTP methods that the scenarios use.
#[derive(Debug, Clone, Copy, PartialEq, Eq, Structural)]
pub enum Method {
    Get,
    Post,
}

/// One part of a multipart form.
#[derive(Debug)]
pub enum Part {
    /// A text field.
    Text { name: String, value: String },
    /// A file with its name and content type.
    File { name: String, data: Vec<u8>, file_name: String, content_type: String },
}

pub ghost enum PartView {
    Text { name: Seq<char>, value: Seq<char> },
    File { name: Seq<char>, data: Seq<u8>, file_name: Seq<char>, content_type: Seq<char> },
}

impl View for Part {
    type V = PartView;

    open spec fn view(&self) -> PartView {
        match self {
            Part::Text { name, value } => PartView::Text { name: name@, value: value@ },
            Part::File { name, data, file_name, content_type } => PartView::File {
                name: name@,
                data: data@,
                file_name: file_name@,
                content_type: content_type@,
            },
        }
    }
}

/// The body of a request.
#[derive(Debug)]
pub enum Body {
    Empty,
    Text(String),
    Bytes(Vec<u8>),
    Json(Json),
    Multipart(Vec<Part>),
}

pub ghost enum BodyView {
    Empty,
    Text(Seq<char>),
    Bytes(Seq<u8>),
    Json(JsonView),
    Multipart(Seq<PartView>),
}

impl View for Body {
    type V = BodyView;

    open spec fn view(&self) -> BodyView {
        match self {
            Body::Empty => BodyView::Empty,
            Body::Text(t) => BodyView::Text(t@),
            Body::Bytes(b) => BodyView::Bytes(b@),
            Body::Json(j) => BodyView::Json(j@),
            Body::Multipart(parts) => BodyView::Multipart(parts@.map_values(|p: Part| p@)),
        }
    }
}

/// The request of a scenario, complete with the header that carries the
/// credentials where the scenario sends them.
#[derive(Debug)]
pub struct ScenarioRequest {
    pub method: Method,
    pub url: String,
    pub headers: Vec<Field>,
    pub body: Body,
}

pub ghost struct ScenarioRequestView {
    pub method: Method,
    pub url: Seq<char>,
    pub headers: Seq<(Seq<char>, Seq<char>)>,
    pub body: BodyView,
}

impl View for ScenarioRequest {
    type V = ScenarioRequestView;

    open spec fn view(&self) -> ScenarioRequestView {
        ScenarioRequestView {
            method: self.method,
            url: self.url@,
            headers: fields_view(self.headers@),
            body: self.body@,
        }
    }
}

/// The value of a header of a response.
#[derive(Debug)]
pub enum HeaderValue {
    /// The response has no such header.
    Absent,
    /// The header is there, but its value is no text.
    Opaque,
    /// The value of the header.
    Text(String),
}

pub ghost enum HeaderValueView {
    Absent,
    Opaque,
    Text(Seq<char>),
}

impl View for HeaderValue {
    type V = HeaderValueView;

    open spec fn view(&self) -> HeaderValueView {
        match self {
            HeaderValue::Absent => HeaderValueView::Absent,
            HeaderValue::Opaque => HeaderValueView::Opaque,
            HeaderValue::Text(t) => HeaderValueView::Text(t@),
        }
    }
}

/// A response as the transport hands it over.
#[derive(Debug)]
pub struct HttpResponse {
    /// The status code.
    pub status: u16,
    /// The status as it is shown: the code and its reason.
    pub status_text: String,
    /// The body as text, or the message of the error that kept it from
    /// being read.
    pub body: Result<String, String>,
    /// The number of bytes of the body; zero where it could not be read.
    pub body_len: usize,
    /// The header `operation-location`.
    pub operation_location: HeaderValue,
}

pub ghost struct HttpResponseView {
    pub status: u16,
    pub status_text: Seq<char>,
    pub body: Result<Seq<char>, Seq<char>>,
    pub body_len: usize,
    pub operation_location: HeaderValueView,
}

impl View for HttpResponse {
    type V = HttpResponseView;

    open spec fn view(&self) -> HttpResponseView {
        HttpResponseView {
            status: self.status,
            status_text: self.status_text@,
            body: match self.body {
                Ok(t) => Ok(t@),
                Err(e) => Err(e@),
            },
            body_len: self.body_len,
            operation_location: self.operation_location@,
        }
    }
}

impl HttpResponseView {
    /// Whether the status stands for success: 200 to 299.
    pub open spec fn succeeded(self) -> bool {
        200 <= self.status < 300
    }

    /// The body as text; empty where it could not be read.
    pub open spec fn text(self) -> Seq<char> {
        match self.body {
            Ok(t) => t,
            Err(_) => Seq::empty(),
        }
    }

    /// The body as JSON; `null` where it could not be read or is no JSON.
    pub open spec fn json(self) -> JsonView {
        crate::json::json_or_null(self.text())
    }

    /// The failure for a status that is no success: the status as it is
    /// shown and the body, prepared for display. Every body is taken: one
    /// in which a character lies across byte 200 is cut before that
    /// character.
    pub open spec fn refusal(self) -> OutcomeView {
        OutcomeView::Failed {
            status: self.status,
            error: "HTTP "@ + self.status_text + ": "@ + sanitized(self.text(), self.status),
        }
    }

    /// The failure for a status that is no success, with the body as it
    /// is.
    pub open spec fn raw_refusal(self) -> OutcomeView {
        OutcomeView::Failed {
            status: self.status,
            error: "HTTP "@ + self.status_text + ": "@ + self.text(),
        }
    }

    /// A failure under the status of the response.
    pub open spec fn failure(self, error: Seq<char>) -> OutcomeView {
        OutcomeView::Failed { status: self.status, error }
    }
}

/// What came back for a request.
#[derive(Debug)]
pub enum HttpReply {
    /// The request could not be completed; the transport's message.
    Failed(String),
    /// A response arrived.
    Response(HttpResponse),
}

pub ghost enum HttpReplyView {
    Failed(Seq<char>),
    Response(HttpResponseView),
}

impl View for HttpReply {
    type V = HttpReplyView;

    open spec fn view(&self) -> HttpReplyView {
        match self {
            HttpReply::Failed(m) => HttpReplyView::Failed(m@),
            HttpReply::Response(r) => HttpReplyView::Response(r@),
        }
    }
}

/// What a reader with a fixed shape made of the body of a response.
#[derive(Debug)]
pub enum Parsed<T> {
    /// The body has the shape; what was read from it.
    Value(T),
    /// The body does not have the shape; the reader's message.
    Invalid(String),
}

pub ghost enum ParsedView<T> {
    Value(T),
    Invalid(Seq<char>),
}

/// The failure for a body that does not have its shape.
pub open spec fn unparsed(response: HttpResponseView, message: Seq<char>) -> OutcomeView {
    response.failure("Failed to parse response: "@ + message)
}

/// The failure for a request that could not be completed.
pub open spec fn request_failed(message: Seq<char>) -> OutcomeView {
    OutcomeView::Failed { status: 0, error: "Request failed: "@ + message }
}

impl HttpReplyView {
    /// Whether a response with a status of success arrived.
    pub open spec fn succeeded(self) -> bool {
        self matches HttpReplyView::Response(r) && r.succeeded()
    }

    /// The failure for a reply that is no success.
    pub open spec fn refusal(self) -> OutcomeView {
        match self {
            HttpReplyView::Failed(m) => request_failed(m),
            HttpReplyView::Response(r) => r.refusal(),
        }
    }
}

impl HttpResponse {
    /// Whether the status stands for success.
    pub fn succeeded(&self) -> (r: bool)
        ensures
            r == self@.succeeded(),
    {
        200 <= self.status && self.status < 300
    }

    /// The body as text; empty where it could not be read.
    pub fn text(&self) -> (r: &str)
        ensures
            r@ == self@.text(),
    {
        match &self.body {
            Ok(t) => t.as_str(),
            Err(_) => {
                proof {
                    reveal_strlit("");
                    assert(""@ =~= Seq::<char>::empty());
                }
                ""
            },
        }
    }

    /// The body as JSON; `null` where it could not be read or is no JSON.
    pub fn json(&self) -> (r: Json)
        ensures
            r@ == self@.json(),
    {
        parse_or_null(self.text())
    }

    /// The failure for a status that is no success: the status as it is
    /// shown and the body, prepared for display. Every body is taken.
    pub fn refusal(&self) -> (r: Outcome)
        ensures
            r@ == self@.refusal(),
    {
        let mut error = "HTTP ".to_owned();
        error.append(self.status_text.as_str());
        error.append(": ");
        error.append(prepared(self.text(), self.status).0.as_str());
        Outcome::Failed { status: self.status, error }
    }

    /// The failure for a status that is no success, with the body as it
    /// is.
    pub fn raw_refusal(&self) -> (r: Outcome)
        ensures
            r@ == self@.raw_refusal(),
    {
        let mut error = "HTTP ".to_owned();
        error.append(self.status_text.as_str());
        error.append(": ");
        error.append(self.text());
        Outcome::Failed { status: self.status, error }
    }

    /// A failure under the status of the response.
    pub fn failure(&self, error: &str) -> (r: Outcome)
        ensures
            r@ == self@.failure(error@),
    {
        Outcome::Failed { status: self.status, error: error.to_owned() }
    }
}

impl HttpResponse {
    /// The failure for a body that does not have its shape.
    pub fn unparsed(&self, message: &str) -> (r: Outcome)
        ensures
            r@ == unparsed(self@, message@),
    {
        let mut error = "Failed to parse response: ".to_owned();
        error.append(message);
        Outcome::Failed { status: self.status, error }
    }
}

impl HttpReply {
    /// The response, where one with a status of success arrived; else the
    /// failure that the reply stands for.
    pub fn success(&self) -> (r: Result<&HttpResponse, Outcome>)
        ensures
            match r {
                Ok(response) => self@ == HttpReplyView::Response(response@)
                    && response@.succeeded(),
                Err(o) => !self@.succeeded() && o@ == self@.refusal(),
            },
    {
        match self {
            HttpReply::Failed(m) => {
                let mut error = "Request failed: ".to_owned();
                error.append(m.as_str());
                Err(Outcome::Failed { status: 0, error })
            },
            HttpReply::Response(r) => {
                if r.succeeded() {
                    Ok(r)
                } else {
                    Err(r.refusal())
                }
            },
        }
    }
}

/// A success with a count in its details: the words before the count, the
/// count, the words after it.
pub open spec fn counted(before: Seq<char>, n: nat, after: Seq<char>) -> OutcomeView {
    OutcomeView::Passed(before + decimal(n) + after)
}

/// A success with a count in its details.
pub fn passed_count(before: &str, n: usize, after: &str) -> (r: Outcome)
    ensures
        r@ == counted(before@, n as nat, after@),
{
    let mut details = before.to_owned();
    details.append(u64_to_decimal(n as u64).as_str());
    details.append(after);
    Outcome::Passed(details)
}

/// A success with a text in its details, after some words.
pub fn passed_text(before: &str, text: &str) -> (r: Outcome)
    ensures
        r@ == OutcomeView::Passed(before@ + text@),
{
    let mut details = before.to_owned();
    details.append(text);
    Outcome::Passed(details)
}

/// What a transport failure is taken for when an endpoint is probed: a
/// failed lookup where the message speaks of it, a timeout, a TLS error, or
/// a failed connection.
pub open spec fn connection_error(message: Seq<char>) -> Seq<char> {
    if contains(message, "dns"@) || contains(message, "resolve"@) {
        "DNS resolution failed: "@ + message
    } else if contains(message, "timed out"@) || contains(message, "timeout"@) {
        "Connection timed out: "@ + message
    } else if contains(message, "certificate"@) || contains(message, "ssl"@) || contains(
        message,
        "tls"@,
    ) {
        "TLS/SSL error: "@ + message
    } else {
        "Connection failed: "@ + message
    }
}

/// What the probe of an endpoint comes to: any response below status 500
/// shows that the endpoint is reachable.
pub open spec fn endpoint_outcome(reply: HttpReplyView) -> OutcomeView {
    match reply {
        HttpReplyView::Failed(m) => OutcomeView::Failed { status: 0, error: connection_error(m) },
        HttpReplyView::Response(r) => if r.status < 500 {
            OutcomeView::Passed("Endpoint reachable (HTTP "@ + r.status_text + ")"@)
        } else {
            r.refusal()
        },
    }
}

/// Judges the probe of an endpoint.
pub fn endpoint_check(reply: &HttpReply) -> (r: Outcome)
    ensures
        r@ == endpoint_outcome(reply@),
{
    match reply {
        HttpReply::Failed(m) => {
            let msg = m.as_str();
            let mut error = if str_contains(msg, "dns") || str_contains(msg, "resolve") {
                "DNS resolution failed: ".to_owned()
            } else if str_contains(msg, "timed out") || str_contains(msg, "timeout") {
                "Connection timed out: ".to_owned()
            } else if str_contains(msg, "certificate") || str_contains(msg, "ssl") || str_contains(
                msg,
                "tls",
            ) {
                "TLS/SSL error: ".to_owned()
            } else {
                "Connection failed: ".to_owned()
            };
            error.append(msg);
            Outcome::Failed { status: 0, error }
        },
        HttpReply::Response(r) => {
            if r.status < 500 {
                let mut details = "Endpoint reachable (HTTP ".to_owned();
                details.append(r.status_text.as_str());
                details.append(")");
                Outcome::Passed(details)
            } else {
                r.refusal()
            }
        },
    }
}

/// The headers of a request: the given ones, then the one that carries the
/// credentials.
pub open spec fn with_credentials(
    headers: Seq<(Seq<char>, Seq<char>)>,
    credentials: CredentialsView,
) -> Seq<(Seq<char>, Seq<char>)> {
    headers.push(credentials.header())
}

/// Adds a header.
pub fn push_header(headers: &mut Vec<Field>, name: &str, value: &str)
    ensures
        fields_view(final(headers)@) == fields_view(old(headers)@).push((name@, value@)),
{
    headers.push(field(name, value));
    assert(fields_view(headers@) =~= fields_view(old(headers)@).push((name@, value@)));
}

/// No headers.
pub fn no_headers() -> (r: Vec<Field>)
    ensures
        fields_view(r@) == Seq::<(Seq<char>, Seq<char>)>::empty(),
{
    let r: Vec<Field> = Vec::new();
    assert(fields_view(r@) =~= Seq::<(Seq<char>, Seq<char>)>::empty());
    r
}

} // verus!
