//! Requests as plain values, and the rule on response statuses.
use vstd::prelude::*;

verus! {

#[derive(PartialEq, Eq, Structural, Clone, Copy, Debug)]
pub enum Method {
    Get,
    Post,
}

/// One part of a multipart body.
pub enum Part {
    Text { name: String, value: String },
    Bytes { name: String, data: Vec<u8>, file_name: Option<String>, mime: Option<String> },
}

/// What a request carries after its headers.
pub enum Body {
    Empty,
    /// Fields sent form-encoded, in this order.
    Form(Vec<(String, String)>),
    Multipart(Vec<Part>),
}

/// One HTTP request: `auth`, where present, is sent as the `Authorization`
/// header.
pub struct Request {
    pub method: Method,
    pub url: String,
    pub auth: Option<String>,
    pub body: Body,
}

pub enum PartView {
    Text { name: Seq<char>, value: Seq<char> },
    Bytes {
        name: Seq<char>,
        data: Seq<u8>,
        file_name: Option<Seq<char>>,
        mime: Option<Seq<char>>,
    },
}

pub enum BodyView {
    Empty,
    Form(Seq<(Seq<char>, Seq<char>)>),
    Multipart(Seq<PartView>),
}

pub struct RequestView {
    pub method: Method,
    pub url: Seq<char>,
    pub auth: Option<Seq<char>>,
    pub body: BodyView,
}

pub open spec fn opt_view(o: Option<String>) -> Option<Seq<char>> {
    match o {
        Some(s) => Some(s@),
        None => None,
    }
}

impl View for Part {
    type V = PartView;

    open spec fn view(&self) -> PartView {
        match self {
            Part::Text { name, value } => PartView::Text { name: name@, value: value@ },
            Part::Bytes { name, data, file_name, mime } => PartView::Bytes {
                name: name@,
                data: data@,
                file_name: opt_view(*file_name),
                mime: opt_view(*mime),
            },
        }
    }
}

impl View for Body {
    type V = BodyView;

    open spec fn view(&self) -> BodyView {
        match self {
            Body::Empty => BodyView::Empty,
            Body::Form(fields) => BodyView::Form(fields.deep_view()),
            Body::Multipart(parts) => BodyView::Multipart(parts_view(parts@)),
        }
    }
}

impl View for Request {
    type V = RequestView;

    open spec fn view(&self) -> RequestView {
        RequestView { method: self.method, url: self.url@, auth: opt_view(self.auth), body: self.body@ }
    }
}

/// The URL of `path` under the API root `base`.
pub open spec fn endpoint(base: Seq<char>, path: Seq<char>) -> Seq<char> {
    base + path
}

/// The view of a list of parts.
pub open spec fn parts_view(parts: Seq<Part>) -> Seq<PartView> {
    parts.map_values(|p: Part| p@)
}

/// A GET of `path` under `base` without a credential.
pub open spec fn plain_get(base: Seq<char>, path: Seq<char>) -> RequestView {
    RequestView { method: Method::Get, url: endpoint(base, path), auth: None, body: BodyView::Empty }
}

/// A GET of `path` under `base` that carries `token`.
pub open spec fn auth_get(base: Seq<char>, token: Seq<char>, path: Seq<char>) -> RequestView {
    RequestView {
        method: Method::Get,
        url: endpoint(base, path),
        auth: Some(token),
        body: BodyView::Empty,
    }
}

/// A POST of form `fields` to `path` under `base` that carries `token`.
pub open spec fn form_post(
    base: Seq<char>,
    token: Seq<char>,
    path: Seq<char>,
    fields: Seq<(Seq<char>, Seq<char>)>,
) -> RequestView {
    RequestView {
        method: Method::Post,
        url: endpoint(base, path),
        auth: Some(token),
        body: BodyView::Form(fields),
    }
}

/// A POST without a body to `path` under `base` that carries `token`.
pub open spec fn bare_post(base: Seq<char>, token: Seq<char>, path: Seq<char>) -> RequestView {
    RequestView {
        method: Method::Post,
        url: endpoint(base, path),
        auth: Some(token),
        body: BodyView::Empty,
    }
}

/// A POST of multipart `parts` to `path` under `base` that carries `token`.
pub open spec fn multipart_post(
    base: Seq<char>,
    token: Seq<char>,
    path: Seq<char>,
    parts: Seq<PartView>,
) -> RequestView {
    RequestView {
        method: Method::Post,
        url: endpoint(base, path),
        auth: Some(token),
        body: BodyView::Multipart(parts),
    }
}

/// Builds the full URL of `path` under `base`.
pub fn join_url(base: &String, path: &str) -> (r: String)
    ensures
        r@ == endpoint(base@, path@),
{
    base.clone().concat(path)
}

/// Why an operation failed.
pub enum ApiError {
    /// The server answered outside the success range.
    Status { status: u16, body: Vec<u8> },
    /// The request could not be sent or its answer not read.
    Transport(String),
    /// The answer did not have the expected shape.
    Decode(String),
}

/// A status in the success range, 200 to 299.
pub open spec fn is_success(status: u16) -> bool {
    200 <= status && status < 300
}

/// Accepts a response: its body when the status is in the success range, and
/// otherwise a failure that carries the status and the body, whatever the body
/// holds.
pub fn check_status(status: u16, body: Vec<u8>) -> (r: Result<Vec<u8>, ApiError>)
    ensures
        is_success(status) <==> r is Ok,
        r is Ok ==> r->Ok_0@ == body@,
        r is Err ==> (match r->Err_0 {
            ApiError::Status { status: s, body: b } => s == status && b@ == body@,
            _ => false,
        }),
{
    if 200 <= status && status < 300 {
        Ok(body)
    } else {
        Err(ApiError::Status { status, body })
    }
}

} // verus!
