//! The shape of what comes back from upstream.
//!
//! The outer document is `{"candidates": [{"content": {"parts": [{"text":
//! ..}]}}]}`; the text of its first part is a second document, `{"html":
//! ..}`. Members that are not named here are ignored. A member that is
//! named must be there, and of the kind shown.

use crate::json::{lemma_array_view, values_of, Json, JsonValue};
use vstd::prelude::*;

verus! {

/// The key under which the outer document holds its candidates.
pub const CANDIDATES_KEY: &'static str = "candidates";

/// The key under which a candidate holds its content.
pub const CONTENT_KEY: &'static str = "content";

/// The key under which a content holds its parts.
pub const PARTS_KEY: &'static str = "parts";

/// The key under which a part holds its text.
pub const TEXT_KEY: &'static str = "text";

/// The key under which the inner document holds the HTML.
pub const HTML_KEY: &'static str = "html";

/// One part of a candidate's content.
#[derive(Debug, PartialEq, Eq)]
pub struct ResponsePart {
    pub text: String,
}

/// The content of a candidate.
#[derive(Debug, PartialEq, Eq)]
pub struct ResponseContent {
    pub parts: Vec<ResponsePart>,
}

/// One answer that the upstream model proposes.
#[derive(Debug, PartialEq, Eq)]
pub struct Candidate {
    pub content: ResponseContent,
}

/// The outer document: the candidates, which may be none.
#[derive(Debug, PartialEq, Eq)]
pub struct GenerationResponse {
    pub candidates: Vec<Candidate>,
}

impl View for ResponsePart {
    type V = Seq<char>;

    open spec fn view(&self) -> Seq<char> {
        self.text@
    }
}

impl View for ResponseContent {
    type V = Seq<Seq<char>>;

    open spec fn view(&self) -> Seq<Seq<char>> {
        Seq::new(self.parts@.len(), |i: int| self.parts@[i]@)
    }
}

impl View for Candidate {
    type V = Seq<Seq<char>>;

    open spec fn view(&self) -> Seq<Seq<char>> {
        self.content@
    }
}

/// A response is, mathematically, the texts of the parts of each candidate.
impl View for GenerationResponse {
    type V = Seq<Seq<Seq<char>>>;

    open spec fn view(&self) -> Seq<Seq<Seq<char>>> {
        Seq::new(self.candidates@.len(), |i: int| self.candidates@[i]@)
    }
}

/// The text of a part: the string under `text`.
pub open spec fn part_text(part: JsonValue) -> Option<Seq<char>> {
    match part.member(TEXT_KEY@) {
        Some(JsonValue::Text(text)) => Some(text),
        _ => None,
    }
}

/// The texts of a run of parts, if every element is a part.
pub open spec fn parts_texts(parts: Seq<JsonValue>) -> Option<Seq<Seq<char>>> {
    if forall|i: int| 0 <= i < parts.len() ==> (#[trigger] part_text(parts[i])) is Some {
        Some(Seq::new(parts.len(), |i: int| part_text(parts[i])->0))
    } else {
        None
    }
}

/// The texts of a content: those of the array under `parts`.
pub open spec fn content_parts(content: JsonValue) -> Option<Seq<Seq<char>>> {
    match content.member(PARTS_KEY@) {
        Some(JsonValue::Array(parts)) => parts_texts(parts),
        _ => None,
    }
}

/// The texts of a candidate: those of the content under `content`.
pub open spec fn candidate_parts(candidate: JsonValue) -> Option<Seq<Seq<char>>> {
    match candidate.member(CONTENT_KEY@) {
        Some(content) => content_parts(content),
        None => None,
    }
}

/// The texts of a run of candidates, if every element is a candidate.
pub open spec fn candidates_parts(candidates: Seq<JsonValue>) -> Option<Seq<Seq<Seq<char>>>> {
    if forall|i: int|
        0 <= i < candidates.len() ==> (#[trigger] candidate_parts(candidates[i])) is Some {
        Some(Seq::new(candidates.len(), |i: int| candidate_parts(candidates[i])->0))
    } else {
        None
    }
}

/// The response that a document holds, if it has the shape of one.
pub open spec fn response_in(document: JsonValue) -> Option<Seq<Seq<Seq<char>>>> {
    match document.member(CANDIDATES_KEY@) {
        Some(JsonValue::Array(candidates)) => candidates_parts(candidates),
        _ => None,
    }
}

/// The HTML that an inner document holds: the string under `html`.
pub open spec fn html_in(document: JsonValue) -> Option<Seq<char>> {
    match document.member(HTML_KEY@) {
        Some(JsonValue::Text(html)) => Some(html),
        _ => None,
    }
}

/// The text to unwrap: that of the first part of the first candidate.
pub open spec fn first_text(response: Seq<Seq<Seq<char>>>) -> Option<Seq<char>> {
    if response.len() > 0 && response[0].len() > 0 {
        Some(response[0][0])
    } else {
        None
    }
}

/// Reads a part.
pub fn read_part(json: &Json) -> (part: Option<ResponsePart>)
    ensures
        match part {
            Some(part) => part_text(json@) == Some(part@),
            None => part_text(json@) is None,
        },
{
    match json.member(TEXT_KEY) {
        Some(Json::Text(text)) => Some(ResponsePart { text: text.clone() }),
        _ => None,
    }
}

/// Reads a content: every element under `parts` has to be a part.
pub fn read_content(json: &Json) -> (content: Option<ResponseContent>)
    ensures
        match content {
            Some(content) => content_parts(json@) == Some(content@),
            None => content_parts(json@) is None,
        },
{
    match json.member(PARTS_KEY) {
        Some(Json::Array(items)) => {
            let ghost values = values_of(items@);
            proof {
                lemma_array_view(*items);
            }
            let mut parts: Vec<ResponsePart> = Vec::new();
            let mut index: usize = 0;
            while index < items.len()
                invariant
                    index <= items.len(),
                    parts.len() == index,
                    values == values_of(items@),
                    content_parts(json@) == parts_texts(values),
                    forall|i: int|
                        0 <= i < index ==> (#[trigger] part_text(values[i])) == Some(parts@[i]@),
                decreases items.len() - index,
            {
                match read_part(&items[index]) {
                    Some(part) => {
                        parts.push(part);
                    },
                    None => {
                        assert(part_text(values[index as int]) is None);
                        return None;
                    },
                }
                index += 1;
            }
            let content = ResponseContent { parts };
            assert(parts_texts(values)->0 =~= content@);
            Some(content)
        },
        _ => None,
    }
}

/// Reads a candidate.
pub fn read_candidate(json: &Json) -> (candidate: Option<Candidate>)
    ensures
        match candidate {
            Some(candidate) => candidate_parts(json@) == Some(candidate@),
            None => candidate_parts(json@) is None,
        },
{
    match json.member(CONTENT_KEY) {
        Some(inner) => match read_content(inner) {
            Some(content) => Some(Candidate { content }),
            None => None,
        },
        None => None,
    }
}

/// Reads the outer document: every element under `candidates` has to be a
/// candidate, of which there may be none.
pub fn read_response(json: &Json) -> (response: Option<GenerationResponse>)
    ensures
        match response {
            Some(response) => response_in(json@) == Some(response@),
            None => response_in(json@) is None,
        },
{
    match json.member(CANDIDATES_KEY) {
        Some(Json::Array(items)) => {
            let ghost values = values_of(items@);
            proof {
                lemma_array_view(*items);
            }
            let mut candidates: Vec<Candidate> = Vec::new();
            let mut index: usize = 0;
            while index < items.len()
                invariant
                    index <= items.len(),
                    candidates.len() == index,
                    values == values_of(items@),
                    response_in(json@) == candidates_parts(values),
                    forall|i: int|
                        0 <= i < index ==> (#[trigger] candidate_parts(values[i])) == Some(
                            candidates@[i]@,
                        ),
                decreases items.len() - index,
            {
                match read_candidate(&items[index]) {
                    Some(candidate) => {
                        candidates.push(candidate);
                    },
                    None => {
                        assert(candidate_parts(values[index as int]) is None);
                        return None;
                    },
                }
                index += 1;
            }
            let response = GenerationResponse { candidates };
            assert(candidates_parts(values)->0 =~= response@);
            Some(response)
        },
        _ => None,
    }
}

/// Reads the inner document: the HTML under `html`.
pub fn read_html(json: &Json) -> (html: Option<String>)
    ensures
        match html {
            Some(html) => html_in(json@) == Some(html@),
            None => html_in(json@) is None,
        },
{
    match json.member(HTML_KEY) {
        Some(Json::Text(html)) => Some(html.clone()),
        _ => None,
    }
}

impl GenerationResponse {
    /// The text of the first part of the first candidate, if there is one.
    pub fn first_text(&self) -> (text: Option<String>)
        ensures
            match text {
                Some(text) => first_text(self@) == Some(text@),
                None => first_text(self@) is None,
            },
    {
        if self.candidates.len() == 0 {
            return None;
        }
        let parts = &self.candidates[0].content.parts;
        if parts.len() == 0 {
            return None;
        }
        Some(parts[0].text.clone())
    }
}

} // verus!
