//! Requests as values.
//!
//! The library never touches the network. It says which request is to be
//! sent, and the program around it sends it: so what goes over the wire is
//! decided here.

use vstd::prelude::*;
use crate::models::github::{CreateReleaseRequest, CreateReleaseRequestView};
use crate::models::modrinth::version::VersionRequestView;
use crate::modrinth::{FilePartView, VersionForm};
use crate::text::{join2, texts};

verus! {

/// The method of a request.
#[derive(Debug, Clone, Copy, PartialEq, Eq, Structural)]
pub enum Method {
    Get,
    Post,
}

/// One header of a request.
#[derive(Debug, Clone, PartialEq, Eq)]
pub struct Header {
    pub name: String,
    pub value: String,
}

impl View for Header {
    type V = (Seq<char>, Seq<char>);

    open spec fn view(&self) -> (Seq<char>, Seq<char>) {
        (self.name@, self.value@)
    }
}

/// What a request carries.
#[derive(Debug, Clone, PartialEq, Eq)]
pub enum Body {
    /// Nothing.
    Empty,
    /// A release, to be written as JSON.
    Release(CreateReleaseRequest),
    /// The bytes of a file, as they are.
    Bytes(Vec<u8>),
    /// A version and its files, each in a part of its own: the version as
    /// JSON in the part `data`, then the files under their names.
    Form(VersionForm),
}

/// What a request carries, seen as plain values.
pub enum BodyView {
    Empty,
    Release(CreateReleaseRequestView),
    Bytes(Seq<u8>),
    Form { data: VersionRequestView, parts: Seq<FilePartView>, part_names: Seq<Seq<char>> },
}

impl View for Body {
    type V = BodyView;

    open spec fn view(&self) -> BodyView {
        match self {
            Body::Empty => BodyView::Empty,
            Body::Release(release) => BodyView::Release(release@),
            Body::Bytes(bytes) => BodyView::Bytes(bytes@),
            Body::Form(form) => BodyView::Form {
                data: form.data@,
                parts: form.parts_view(),
                part_names: texts(form.part_names@),
            },
        }
    }
}

/// A request to a remote service.
#[derive(Debug, Clone, PartialEq, Eq)]
pub struct Request {
    pub method: Method,
    pub url: String,
    pub headers: Vec<Header>,
    pub body: Body,
}

/// A request seen as plain values.
pub struct RequestView {
    pub method: Method,
    pub url: Seq<char>,
    pub headers: Seq<(Seq<char>, Seq<char>)>,
    pub body: BodyView,
}

/// The headers of a list as pairs of name and value, in order.
pub open spec fn header_views(headers: Seq<Header>) -> Seq<(Seq<char>, Seq<char>)> {
    Seq::new(headers.len(), |i: int| headers[i]@)
}

impl View for Request {
    type V = RequestView;

    open spec fn view(&self) -> RequestView {
        RequestView {
            method: self.method,
            url: self.url@,
            headers: header_views(self.headers@),
            body: self.body@,
        }
    }
}

/// The value of the header that presents `token` as a bearer token.
pub open spec fn bearer_text(token: Seq<char>) -> Seq<char> {
    "Bearer "@ + token
}

/// A status in the range that means success, 200 to 299.
pub open spec fn is_success(status: u16) -> bool {
    200 <= status < 300
}

/// Tells whether a status means success.
pub fn status_is_success(status: u16) -> (out: bool)
    ensures
        out == is_success(status),
{
    200 <= status && status < 300
}

/// The header `name` with `value`.
pub fn header(name: &str, value: &str) -> (out: Header)
    ensures
        out@ == (name@, value@),
{
    Header { name: name.to_owned(), value: value.to_owned() }
}

/// The header that presents `token` as a bearer token.
pub fn bearer_auth(token: &str) -> (out: Header)
    ensures
        out@ == ("Authorization"@, bearer_text(token@)),
{
    Header { name: "Authorization".to_owned(), value: join2("Bearer ", token) }
}

} // verus!
