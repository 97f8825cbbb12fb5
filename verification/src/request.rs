//! The request that goes upstream.
//!
//! Its body is one JSON object, written here member by member in a fixed
//! order. Only the prompt varies: the system instruction and the response
//! schema are the same in every request.

use crate::literal::{literal_end, literal_ends_at_its_closing_quote, quote, quoted};
use crate::route::BodyKind;
use vstd::prelude::*;
use vstd::string::StringExecFns;

verus! {

/// Where the requests go, up to the API key that ends the URL.
pub const ENDPOINT: &'static str =
    "https://generativelanguage.googleapis.com/v1beta/models/gemini-2.5-pro-exp-03-25:generateContent?key=";

/// What the upstream model is told with every prompt.
pub const SYSTEM_INSTRUCTION: &'static str = "与えられたプロンプトの印象に添ったHTMLを、tailwindで装飾して返します。但し以下の点に注意してください：
1. コンテンツの内容は後述の文章をそのまま表示し、あくまで「HTML」と「tailwind」での装飾だけを変化させ返します。
2. JavaScriptのコードは一切使用しないでください。
3. 但し、HTMLの複雑な構造やCSSのアニメーションを多用し、できるだけダイナミックに変化させてください。
4. そのHTMLは html というフィールドに入れてください。
5. HTMLの属性値は必ずシングルクォート（'）で囲んでください。
6. クラス名は必ずシングルクォートで囲み、スペースで区切ってください。
7. エスケープ文字は使用せず、生のHTMLとして返してください。

コンテンツの内容の文章は以下のとおりです。「あのイーハトーヴォのすきとおった風、夏でも底に冷たさをもつ青いそら、うつくしい森で飾られたモリーオ市、郊外のぎらぎらひかる草の波。」";

/// The body up to the prompt.
pub const BODY_HEAD: &'static str = "{\"contents\":[{\"parts\":[{\"text\":";

/// The body between the prompt and the system instruction.
pub const BODY_MIDDLE: &'static str = "}]}],\"systemInstruction\":{\"parts\":[{\"text\":";

/// The body after the system instruction: its role, and the configuration
/// that asks for a JSON object with a string under `html`.
pub const BODY_TAIL: &'static str =
    "}],\"role\":\"model\"},\"generationConfig\":{\"responseMimeType\":\"application/json\",\"responseSchema\":{\"type\":\"object\",\"properties\":{\"html\":{\"type\":\"string\"}}}}}";

/// The method of an HTTP request.
#[derive(Debug, Clone, Copy, PartialEq, Eq, Structural)]
pub enum Method {
    Get,
    Post,
}

/// What one call sends upstream: `body`, which is of kind `kind`, to `url`
/// by `method`.
#[derive(Debug, PartialEq, Eq)]
pub struct UpstreamRequest {
    pub method: Method,
    pub url: String,
    pub kind: BodyKind,
    pub body: String,
}

/// The mathematical value of an [`UpstreamRequest`].
pub ghost struct UpstreamRequestView {
    pub method: Method,
    pub url: Seq<char>,
    pub kind: BodyKind,
    pub body: Seq<char>,
}

impl View for UpstreamRequest {
    type V = UpstreamRequestView;

    open spec fn view(&self) -> UpstreamRequestView {
        UpstreamRequestView {
            method: self.method,
            url: self.url@,
            kind: self.kind,
            body: self.body@,
        }
    }
}

/// The request for a prompt by a client with an API key: a POST of the body,
/// as JSON, to the URL that ends in the key.
pub open spec fn request_for(api_key: Seq<char>, prompt: Seq<char>) -> UpstreamRequestView {
    UpstreamRequestView {
        method: Method::Post,
        url: request_url(api_key),
        kind: BodyKind::Json,
        body: request_body(prompt),
    }
}

/// The URL for an API key: the key is the query parameter `key`.
pub open spec fn request_url(api_key: Seq<char>) -> Seq<char> {
    ENDPOINT@ + api_key
}

/// The part of the body that follows the prompt. It does not depend on it.
pub open spec fn fixed_part() -> Seq<char> {
    BODY_MIDDLE@ + quoted(SYSTEM_INSTRUCTION@) + BODY_TAIL@
}

/// The body for a prompt.
pub open spec fn request_body(prompt: Seq<char>) -> Seq<char> {
    BODY_HEAD@ + quoted(prompt) + fixed_part()
}

/// Writes the URL for an API key.
pub fn build_url(api_key: &str) -> (url: String)
    ensures
        url@ == request_url(api_key@),
{
    let mut url = ENDPOINT.to_owned();
    url.append(api_key);
    url
}

/// Writes the body for a prompt.
pub fn build_body(prompt: &str) -> (body: String)
    ensures
        body@ == request_body(prompt@),
{
    let prompt_literal = quote(prompt);
    let instruction_literal = quote(SYSTEM_INSTRUCTION);
    let mut body = BODY_HEAD.to_owned();
    body.append(prompt_literal.as_str());
    body.append(BODY_MIDDLE);
    body.append(instruction_literal.as_str());
    body.append(BODY_TAIL);
    assert(body@ =~= request_body(prompt@));
    body
}

/// Where the fixed part of the body for a prompt begins.
pub open spec fn fixed_part_start(prompt: Seq<char>) -> int {
    (BODY_HEAD@.len() + quoted(prompt).len()) as int
}

/// Whatever the prompt, the body ends with the same text, which holds the
/// system instruction and the response schema; the prompt stands before it,
/// right after the head.
pub proof fn body_ends_with_fixed_part(prompt: Seq<char>)
    ensures
        request_body(prompt).len() == fixed_part_start(prompt) + fixed_part().len(),
        request_body(prompt).subrange(0, BODY_HEAD@.len() as int) == BODY_HEAD@,
        request_body(prompt).subrange(BODY_HEAD@.len() as int, fixed_part_start(prompt)) == quoted(
            prompt,
        ),
        request_body(prompt).skip(fixed_part_start(prompt)) == fixed_part(),
{
    let body = request_body(prompt);
    let start = fixed_part_start(prompt);
    assert(body.subrange(0, BODY_HEAD@.len() as int) =~= BODY_HEAD@);
    assert(body.subrange(BODY_HEAD@.len() as int, start) =~= quoted(prompt));
    assert(body.skip(start) =~= fixed_part());
}

/// Two prompts give bodies that differ in the prompt alone.
pub proof fn bodies_share_fixed_part(first: Seq<char>, second: Seq<char>)
    ensures
        request_body(first).skip(fixed_part_start(first)) == request_body(second).skip(
            fixed_part_start(second),
        ),
        request_body(first).subrange(0, BODY_HEAD@.len() as int) == request_body(second).subrange(
            0,
            BODY_HEAD@.len() as int,
        ),
{
    body_ends_with_fixed_part(first);
    body_ends_with_fixed_part(second);
}

/// However a prompt is written, the literal that carries it ends where the
/// fixed part begins: nothing in a prompt reaches into what follows it.
pub proof fn prompt_stays_inside_its_literal(prompt: Seq<char>)
    ensures
        literal_end(request_body(prompt), BODY_HEAD@.len() as int + 1) == Some(
            fixed_part_start(prompt),
        ),
{
    literal_ends_at_its_closing_quote(BODY_HEAD@, prompt, fixed_part());
    assert(request_body(prompt) =~= BODY_HEAD@ + quoted(prompt) + fixed_part());
}

/// The literal of the system instruction ends where the tail begins, in the
/// body of every prompt.
pub proof fn instruction_stays_inside_its_literal(prompt: Seq<char>)
    ensures
        literal_end(request_body(prompt), fixed_part_start(prompt) + BODY_MIDDLE@.len() + 1)
            == Some(request_body(prompt).len() - BODY_TAIL@.len()),
{
    let before = BODY_HEAD@ + quoted(prompt) + BODY_MIDDLE@;
    literal_ends_at_its_closing_quote(before, SYSTEM_INSTRUCTION@, BODY_TAIL@);
    assert(request_body(prompt) =~= before + quoted(SYSTEM_INSTRUCTION@) + BODY_TAIL@);
}

} // verus!
