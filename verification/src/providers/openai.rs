//! What an answer of the OpenAI API means.

use crate::text::{trim, trimmed};
use vstd::prelude::*;
use vstd::string::*;

verus! {

/// The model that is asked where the caller names none.
pub const DEFAULT_MODEL: &'static str = "gpt-4o";

/// Where the API is reached where the caller names no other place.
pub const DEFAULT_BASE_URL: &'static str = "https://api.openai.com/v1";

/// What is reported of an answer with neither text nor tool calls.
pub open spec fn empty_response_message() -> Seq<char> {
    "Empty response from API: no content or tool calls"@
}

/// Whether `text` is there and not blank.
pub open spec fn has_text(text: Option<Seq<char>>) -> bool {
    text is Some && trim(text->0).len() > 0
}

/// The text of an answer: the content as it came, or an error where the
/// content is blank and no tool is called.
pub open spec fn response_text_of(content: Option<Seq<char>>, has_tool_calls: bool) -> Result<
    Option<Seq<char>>,
    Seq<char>,
> {
    if !has_text(content) && !has_tool_calls {
        Err(empty_response_message())
    } else {
        Ok(content)
    }
}

/// Whether `text` is there and not blank.
pub fn text_present(text: &Option<String>) -> (r: bool)
    ensures
        r == has_text(text.deep_view()),
{
    match text {
        Some(t) => !trimmed(t.as_str()).as_str().is_empty(),
        None => false,
    }
}

/// The text of an answer with the content `content`.
pub fn response_text(content: Option<String>, has_tool_calls: bool) -> (r: Result<
    Option<String>,
    String,
>)
    ensures
        match r {
            Ok(t) => response_text_of(content.deep_view(), has_tool_calls) == Ok::<
                Option<Seq<char>>,
                Seq<char>,
            >(t.deep_view()),
            Err(e) => response_text_of(content.deep_view(), has_tool_calls) == Err::<
                Option<Seq<char>>,
                Seq<char>,
            >(e@),
        },
{
    if !text_present(&content) && !has_tool_calls {
        Err("Empty response from API: no content or tool calls".to_owned())
    } else {
        Ok(content)
    }
}

} // verus!
