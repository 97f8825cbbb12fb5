//! What the HTTP routes answer.
//!
//! The server is the caller's. Decided here is the status, the kind of body
//! and the body for each thing that a route can come to.

use crate::error::{GenerationError, GenerationFailure};
use crate::literal::{quote, quoted};
use vstd::prelude::*;

verus! {

/// The body of the answer when the page cannot be rendered.
pub const TEMPLATE_ERROR: &'static str = "Template error";

/// The content type of an HTML page.
pub const HTML_CONTENT_TYPE: &'static str = "text/html";

/// The content type of a JSON value.
pub const JSON_CONTENT_TYPE: &'static str = "application/json";

/// The content type of plain text.
pub const TEXT_CONTENT_TYPE: &'static str = "text/plain; charset=utf-8";

/// The kind of body that an answer carries.
#[derive(Debug, Clone, Copy, PartialEq, Eq, Structural)]
pub enum BodyKind {
    /// An HTML page.
    Html,
    /// A JSON value.
    Json,
    /// Plain text.
    Text,
}

impl BodyKind {
    /// The content type that a body of this kind is sent with.
    pub open spec fn media_type(self) -> Seq<char> {
        match self {
            BodyKind::Html => HTML_CONTENT_TYPE@,
            BodyKind::Json => JSON_CONTENT_TYPE@,
            BodyKind::Text => TEXT_CONTENT_TYPE@,
        }
    }

    /// The content type that a body of this kind is sent with.
    pub fn content_type(self) -> (name: &'static str)
        ensures
            name@ == self.media_type(),
    {
        match self {
            BodyKind::Html => HTML_CONTENT_TYPE,
            BodyKind::Json => JSON_CONTENT_TYPE,
            BodyKind::Text => TEXT_CONTENT_TYPE,
        }
    }
}

/// What a route answers.
#[derive(Debug, PartialEq, Eq)]
pub struct RouteReply {
    pub status: u16,
    pub kind: BodyKind,
    pub body: String,
}

/// The mathematical value of a [`RouteReply`].
pub ghost struct RouteReplyView {
    pub status: u16,
    pub kind: BodyKind,
    pub body: Seq<char>,
}

impl View for RouteReply {
    type V = RouteReplyView;

    open spec fn view(&self) -> RouteReplyView {
        RouteReplyView { status: self.status, kind: self.kind, body: self.body@ }
    }
}

/// The answer of `GET /`: the page with status 200, or status 500 when the
/// page could not be rendered.
pub open spec fn index_answer(page: Option<Seq<char>>) -> RouteReplyView {
    match page {
        Some(html) => RouteReplyView { status: 200, kind: BodyKind::Html, body: html },
        None => RouteReplyView { status: 500, kind: BodyKind::Text, body: TEMPLATE_ERROR@ },
    }
}

/// The answer of `POST /generate`: the HTML as a JSON string with status 200,
/// or the text of the error with status 500.
pub open spec fn generate_answer(result: Result<Seq<char>, GenerationFailure>) -> RouteReplyView {
    match result {
        Ok(html) => RouteReplyView { status: 200, kind: BodyKind::Json, body: quoted(html) },
        Err(failure) => RouteReplyView {
            status: 500,
            kind: BodyKind::Text,
            body: failure.message(),
        },
    }
}

/// The mathematical value of what a generation came to.
pub open spec fn result_view(result: Result<String, GenerationError>) -> Result<
    Seq<char>,
    GenerationFailure,
> {
    match result {
        Ok(html) => Ok(html@),
        Err(error) => Err(error@),
    }
}

/// Answers `GET /`, given the rendered page if rendering succeeded.
pub fn index_reply(page: Option<String>) -> (reply: RouteReply)
    ensures
        reply@ == index_answer(
            match page {
                Some(html) => Some(html@),
                None => None,
            },
        ),
{
    match page {
        Some(html) => RouteReply { status: 200, kind: BodyKind::Html, body: html },
        None => RouteReply { status: 500, kind: BodyKind::Text, body: TEMPLATE_ERROR.to_owned() },
    }
}

/// Answers `POST /generate`, given what the generation came to.
pub fn generate_reply(result: Result<String, GenerationError>) -> (reply: RouteReply)
    ensures
        reply@ == generate_answer(result_view(result)),
{
    match result {
        Ok(html) => RouteReply { status: 200, kind: BodyKind::Json, body: quote(html.as_str()) },
        Err(error) => RouteReply { status: 500, kind: BodyKind::Text, body: error.message() },
    }
}

} // verus!
