//! The generation client: one prompt, one call upstream, one HTML fragment.
//!
//! The call itself is made by the caller. The client says what to send, and
//! makes of what came back either the HTML or the reason why there is none.

use crate::entities::{decode, decoded};
use crate::error::{GenerationError, GenerationFailure};
use crate::json::{parse, parsed_document, Json, JsonValue};
use crate::request::{build_body, build_url, request_for, Method, UpstreamRequest};
use crate::route::BodyKind;
use crate::response::{first_text, html_in, read_html, read_response, response_in};
use vstd::prelude::*;

verus! {

/// The error text of an outer document that is JSON but not a response.
pub const RESPONSE_SHAPE_MESSAGE: &'static str = "the response does not have the expected shape";

/// The error text of an inner document that is JSON but holds no HTML.
pub const HTML_SHAPE_MESSAGE: &'static str = "the text does not hold a string under `html`";

/// How the call upstream ended.
#[derive(Debug, PartialEq, Eq)]
pub enum UpstreamOutcome {
    /// It did not complete: the connection failed, or the body could not be
    /// read to its end.
    Failed { cause: String },
    /// A response came back, with this status and this body.
    Replied { status: u16, body: String },
}

/// The mathematical value of an [`UpstreamOutcome`].
pub ghost enum UpstreamOutcomeView {
    Failed { cause: Seq<char> },
    Replied { status: u16, body: Seq<char> },
}

impl View for UpstreamOutcome {
    type V = UpstreamOutcomeView;

    open spec fn view(&self) -> UpstreamOutcomeView {
        match self {
            UpstreamOutcome::Failed { cause } => UpstreamOutcomeView::Failed { cause: cause@ },
            UpstreamOutcome::Replied { status, body } => UpstreamOutcomeView::Replied {
                status: *status,
                body: body@,
            },
        }
    }
}

/// Whether a status is one of success: 200 to 299.
pub open spec fn success(status: u16) -> bool {
    200 <= status < 300
}

/// What a body whose status was one of success yields, given what parsing
/// it gave: the text of the first part of the first candidate.
pub open spec fn inner_text(body: Seq<char>, parsed: Result<JsonValue, Seq<char>>) -> Result<
    Seq<char>,
    GenerationFailure,
> {
    match parsed {
        Err(message) => Err(GenerationFailure::OuterDecode { error: message, body }),
        Ok(document) => match response_in(document) {
            None => Err(GenerationFailure::OuterDecode { error: RESPONSE_SHAPE_MESSAGE@, body }),
            Some(response) => match first_text(response) {
                None => Err(GenerationFailure::EmptyResponse),
                Some(text) => Ok(text),
            },
        },
    }
}

/// What an inner text yields, given what parsing it gave: the HTML, as the
/// upstream model wrote it.
pub open spec fn inner_html(text: Seq<char>, parsed: Result<JsonValue, Seq<char>>) -> Result<
    Seq<char>,
    GenerationFailure,
> {
    match parsed {
        Err(message) => Err(GenerationFailure::InnerDecode { error: message, text }),
        Ok(document) => match html_in(document) {
            None => Err(GenerationFailure::InnerDecode { error: HTML_SHAPE_MESSAGE@, text }),
            Some(html) => Ok(html),
        },
    }
}

/// What comes of a call upstream.
pub open spec fn generated(outcome: UpstreamOutcomeView) -> Result<Seq<char>, GenerationFailure> {
    match outcome {
        UpstreamOutcomeView::Failed { cause } => Err(GenerationFailure::Transport { cause }),
        UpstreamOutcomeView::Replied { status, body } => if !success(status) {
            Err(GenerationFailure::ApiStatus { status, body })
        } else {
            match inner_text(body, parsed_document(body)) {
                Err(failure) => Err(failure),
                Ok(text) => match inner_html(text, parsed_document(text)) {
                    Err(failure) => Err(failure),
                    Ok(html) => Ok(decoded(html)),
                },
            }
        },
    }
}

/// Whether a status is one of success.
pub fn is_success(status: u16) -> (yes: bool)
    ensures
        yes == success(status),
{
    200 <= status && status < 300
}

/// Takes the inner text out of a body, given what parsing the body gave.
pub fn unwrap_body(body: String, parsed: Result<Json, String>) -> (outcome: Result<
    String,
    GenerationError,
>)
    ensures
        match outcome {
            Ok(text) => inner_text(body@, parsed_view(parsed)) == Ok::<
                Seq<char>,
                GenerationFailure,
            >(text@),
            Err(error) => inner_text(body@, parsed_view(parsed)) == Err::<
                Seq<char>,
                GenerationFailure,
            >(error@),
        },
{
    match parsed {
        Err(message) => Err(GenerationError::OuterDecode { error: message, body }),
        Ok(document) => match read_response(&document) {
            None => Err(
                GenerationError::OuterDecode { error: RESPONSE_SHAPE_MESSAGE.to_owned(), body },
            ),
            Some(response) => match response.first_text() {
                None => Err(GenerationError::EmptyResponse),
                Some(text) => Ok(text),
            },
        },
    }
}

/// Takes the HTML out of an inner text, given what parsing the text gave.
pub fn unwrap_text(text: String, parsed: Result<Json, String>) -> (outcome: Result<
    String,
    GenerationError,
>)
    ensures
        match outcome {
            Ok(html) => inner_html(text@, parsed_view(parsed)) == Ok::<Seq<char>, GenerationFailure>(
                html@,
            ),
            Err(error) => inner_html(text@, parsed_view(parsed)) == Err::<
                Seq<char>,
                GenerationFailure,
            >(error@),
        },
{
    match parsed {
        Err(message) => Err(GenerationError::InnerDecode { error: message, text }),
        Ok(document) => match read_html(&document) {
            None => Err(GenerationError::InnerDecode { error: HTML_SHAPE_MESSAGE.to_owned(), text }),
            Some(html) => Ok(html),
        },
    }
}

/// The mathematical value of what parsing gave.
pub open spec fn parsed_view(parsed: Result<Json, String>) -> Result<JsonValue, Seq<char>> {
    match parsed {
        Ok(document) => Ok(document@),
        Err(message) => Err(message@),
    }
}

/// The client of the upstream service. It holds the API key and nothing that
/// changes between calls.
pub struct GeminiClient {
    api_key: String,
}

impl View for GeminiClient {
    type V = Seq<char>;

    /// The API key.
    closed spec fn view(&self) -> Seq<char> {
        self.api_key@
    }
}

impl GeminiClient {
    /// A client for an API key.
    pub fn new(api_key: String) -> (client: GeminiClient)
        ensures
            client@ == api_key@,
    {
        GeminiClient { api_key }
    }

    /// What to send upstream for a prompt.
    pub fn request(&self, prompt: &str) -> (request: UpstreamRequest)
        ensures
            request@ == request_for(self@, prompt@),
    {
        UpstreamRequest {
            method: Method::Post,
            url: build_url(self.api_key.as_str()),
            kind: BodyKind::Json,
            body: build_body(prompt),
        }
    }

    /// Makes of the outcome of the call the HTML to serve, or the error.
    pub fn generate_text(&self, outcome: UpstreamOutcome) -> (result: Result<
        String,
        GenerationError,
    >)
        ensures
            match result {
                Ok(html) => generated(outcome@) == Ok::<Seq<char>, GenerationFailure>(html@),
                Err(error) => generated(outcome@) == Err::<Seq<char>, GenerationFailure>(error@),
            },
    {
        match outcome {
            UpstreamOutcome::Failed { cause } => Err(GenerationError::Transport { cause }),
            UpstreamOutcome::Replied { status, body } => {
                if !is_success(status) {
                    return Err(GenerationError::ApiStatus { status, body });
                }
                let parsed = parse(body.as_str());
                match unwrap_body(body, parsed) {
                    Err(error) => Err(error),
                    Ok(text) => {
                        let parsed = parse(text.as_str());
                        match unwrap_text(text, parsed) {
                            Err(error) => Err(error),
                            Ok(html) => Ok(decode(html.as_str())),
                        }
                    },
                }
            },
        }
    }
}

/// A failed call is a transport error that keeps the cause.
pub proof fn failed_call_is_transport_error(cause: Seq<char>)
    ensures
        generated(UpstreamOutcomeView::Failed { cause }) == Err::<Seq<char>, GenerationFailure>(
            GenerationFailure::Transport { cause },
        ),
{
}

/// A status outside 200..=299 is reported with the body as it came,
/// whatever the body holds: what parsing it would give plays no part.
pub proof fn failure_status_is_reported(status: u16, body: Seq<char>)
    requires
        !success(status),
    ensures
        generated(UpstreamOutcomeView::Replied { status, body }) == Err::<
            Seq<char>,
            GenerationFailure,
        >(GenerationFailure::ApiStatus { status, body }),
{
}

/// A body that is no JSON document, or a document that is no response, is an
/// outer decode error that keeps the body.
pub proof fn malformed_body_is_outer_decode_error(status: u16, body: Seq<char>)
    requires
        success(status),
        match parsed_document(body) {
            Ok(document) => response_in(document) is None,
            Err(message) => true,
        },
    ensures
        generated(UpstreamOutcomeView::Replied { status, body }) matches Err(
            GenerationFailure::OuterDecode { error, body: kept },
        ) && kept == body && error == match parsed_document(body) {
            Ok(document) => RESPONSE_SHAPE_MESSAGE@,
            Err(message) => message,
        },
{
}

/// A response without candidates, or whose first candidate has no parts, is
/// an empty response, which is neither of the decode errors.
pub proof fn response_without_text_is_empty_response(
    status: u16,
    body: Seq<char>,
    document: JsonValue,
    response: Seq<Seq<Seq<char>>>,
)
    requires
        success(status),
        parsed_document(body) == Ok::<JsonValue, Seq<char>>(document),
        response_in(document) == Some(response),
        response.len() == 0 || response[0].len() == 0,
    ensures
        generated(UpstreamOutcomeView::Replied { status, body }) == Err::<
            Seq<char>,
            GenerationFailure,
        >(GenerationFailure::EmptyResponse),
{
}

/// A document with an empty array under `candidates` is a response without
/// candidates.
pub proof fn empty_candidates_is_empty_response(status: u16, body: Seq<char>, document: JsonValue)
    requires
        success(status),
        parsed_document(body) == Ok::<JsonValue, Seq<char>>(document),
        document.member(crate::response::CANDIDATES_KEY@) == Some(
            JsonValue::Array(Seq::<JsonValue>::empty()),
        ),
    ensures
        generated(UpstreamOutcomeView::Replied { status, body }) == Err::<
            Seq<char>,
            GenerationFailure,
        >(GenerationFailure::EmptyResponse),
{
    let response = response_in(document)->0;
    assert(response.len() == 0);
    response_without_text_is_empty_response(status, body, document, response);
}

/// An inner text that is no JSON document, or a document without a string
/// under `html`, is an inner decode error that keeps the text.
pub proof fn malformed_text_is_inner_decode_error(status: u16, body: Seq<char>, text: Seq<char>)
    requires
        success(status),
        inner_text(body, parsed_document(body)) == Ok::<Seq<char>, GenerationFailure>(text),
        match parsed_document(text) {
            Ok(document) => html_in(document) is None,
            Err(message) => true,
        },
    ensures
        generated(UpstreamOutcomeView::Replied { status, body }) matches Err(
            GenerationFailure::InnerDecode { error, text: kept },
        ) && kept == text && error == match parsed_document(text) {
            Ok(document) => HTML_SHAPE_MESSAGE@,
            Err(message) => message,
        },
{
}

/// A response of success whose two layers of JSON are well formed yields the
/// HTML of the inner document with its entities decoded, and nothing else is
/// done to it.
pub proof fn well_formed_response_yields_decoded_html(
    status: u16,
    body: Seq<char>,
    document: JsonValue,
    response: Seq<Seq<Seq<char>>>,
    text: Seq<char>,
    inner: JsonValue,
    html: Seq<char>,
)
    requires
        success(status),
        parsed_document(body) == Ok::<JsonValue, Seq<char>>(document),
        response_in(document) == Some(response),
        first_text(response) == Some(text),
        parsed_document(text) == Ok::<JsonValue, Seq<char>>(inner),
        html_in(inner) == Some(html),
    ensures
        generated(UpstreamOutcomeView::Replied { status, body }) == Ok::<
            Seq<char>,
            GenerationFailure,
        >(decoded(html)),
        !html.contains('&') ==> generated(UpstreamOutcomeView::Replied { status, body }) == Ok::<
            Seq<char>,
            GenerationFailure,
        >(html),
{
}

} // verus!
