//! What an answer of the OpenRouter API, and a line of its stream, means.

use crate::text::{begins_with, chars_of, starts_with, str_eq, string_of_range, trim, trimmed};
use vstd::prelude::*;
use vstd::string::*;

verus! {

/// The model that is asked where the caller names none.
pub const DEFAULT_MODEL: &'static str = "openai/gpt-4o";

/// Where the API is reached where the caller names no other place.
pub const DEFAULT_BASE_URL: &'static str = "https://openrouter.ai/api/v1";

/// The text of an answer: the content where it is not empty, else the
/// reasoning.
pub open spec fn response_text_of(content: Option<Seq<char>>, reasoning: Option<Seq<char>>)
    -> Option<Seq<char>> {
    if content is Some && content->0.len() > 0 {
        content
    } else {
        reasoning
    }
}

/// The JSON that a line of the stream carries: what follows `data: ` on
/// the trimmed line. A blank line, the line that ends the stream and a
/// line of another kind carry none.
pub open spec fn payload_of(line: Seq<char>) -> Option<Seq<char>> {
    let l = trim(line);
    if l.len() == 0 || l == "data: [DONE]"@ {
        None
    } else if starts_with(l, "data: "@) {
        Some(l.skip("data: "@.len() as int))
    } else {
        None
    }
}

/// The text of an answer with the content `content` and the reasoning
/// `reasoning`.
pub fn response_text(content: Option<String>, reasoning: Option<String>) -> (r: Option<String>)
    ensures
        r.deep_view() == response_text_of(content.deep_view(), reasoning.deep_view()),
{
    match content {
        Some(c) => {
            if c.as_str().is_empty() {
                reasoning
            } else {
                Some(c)
            }
        },
        None => reasoning,
    }
}

/// The JSON that the line `line` of the stream carries.
pub fn payload(line: &str) -> (r: Option<String>)
    ensures
        r.deep_view() == payload_of(line@),
{
    let l = trimmed(line);
    if l.as_str().is_empty() || str_eq(l.as_str(), "data: [DONE]") {
        return None;
    }
    let chars = chars_of(l.as_str());
    let prefix = chars_of("data: ");
    if begins_with(&chars, &prefix) {
        assert(chars@.subrange(prefix.len() as int, chars.len() as int) =~= chars@.skip(
            prefix.len() as int,
        ));
        Some(string_of_range(&chars, prefix.len(), chars.len()))
    } else {
        None
    }
}

} // verus!
