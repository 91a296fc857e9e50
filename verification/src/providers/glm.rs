//! How a request to the GLM API is signed, and what its answers and the
//! lines of its stream mean.

use crate::text::{
    begins_with,
    chars_of,
    decimal,
    decimal_string_u64,
    find_from,
    find_in,
    lemma_find_from,
    occurs_at,
    starts_with,
    str_eq,
    string_of,
    string_of_range,
    trim,
    trim_bounds,
    trimmed,
};
use vstd::prelude::*;
use vstd::string::*;
use vstd::utf8::encode_utf8;

verus! {

/// The model that is asked where the caller names none.
pub const DEFAULT_MODEL: &'static str = "glm-4.7";

/// Where the API is reached where the caller names no other place.
pub const DEFAULT_BASE_URL: &'static str = "https://api.z.ai/api/paas/v4";

/// For how many milliseconds a token is valid.
pub const TOKEN_LIFETIME_MS: u64 = 210_000;

/// For how many milliseconds a token is used again.
pub const TOKEN_REUSE_MS: u64 = 180_000;

/// The longest key and the longest text that are signed, in bytes.
pub const MAX_SIGNED_LEN: usize = 0x1000_0000;

/// The HMAC-SHA256 tag of `data` under `key`.
pub uninterp spec fn hmac_sha256_of(key: Seq<u8>, data: Seq<u8>) -> Seq<u8>;

/// The character that stands for the six bits `i` in URL-safe base 64.
pub open spec fn base64url_char(i: int) -> char {
    if i < 26 {
        ((65 + i) as u8) as char
    } else if i < 52 {
        ((97 + i - 26) as u8) as char
    } else if i < 62 {
        ((48 + i - 52) as u8) as char
    } else if i == 62 {
        '-'
    } else {
        '_'
    }
}

/// `data` in URL-safe base 64 without padding: every three bytes give four
/// characters, and one or two bytes at the end give two or three.
pub open spec fn base64url(data: Seq<u8>) -> Seq<char>
    decreases data.len(),
{
    if data.len() == 0 {
        Seq::empty()
    } else if data.len() == 1 {
        seq![base64url_char(data[0] as int / 4), base64url_char((data[0] as int % 4) * 16)]
    } else if data.len() == 2 {
        seq![
            base64url_char(data[0] as int / 4),
            base64url_char((data[0] as int % 4) * 16 + data[1] as int / 16),
            base64url_char((data[1] as int % 16) * 4),
        ]
    } else {
        seq![
            base64url_char(data[0] as int / 4),
            base64url_char((data[0] as int % 4) * 16 + data[1] as int / 16),
            base64url_char((data[1] as int % 16) * 4 + data[2] as int / 64),
            base64url_char(data[2] as int % 64),
        ] + base64url(data.skip(3))
    }
}

/// The two halves of an API key: what stands before its first dot and
/// what stands behind it. A key without a dot has two empty halves.
pub open spec fn key_halves(api_key: Seq<char>) -> (Seq<char>, Seq<char>) {
    match find_from(api_key, seq!['.'], 0) {
        Some(i) => (api_key.take(i), api_key.skip(i + 1)),
        None => (Seq::empty(), Seq::empty()),
    }
}

/// The header of a token.
pub open spec fn token_header() -> Seq<char> {
    "{\"alg\":\"HS256\",\"typ\":\"JWT\",\"sign_type\":\"SIGN\"}"@
}

/// The payload of a token for the key id `id`, made at `now_ms`.
pub open spec fn token_payload(id: Seq<char>, now_ms: u64) -> Seq<char> {
    "{\"api_key\":\""@ + id + "\",\"exp\":"@ + decimal((now_ms + TOKEN_LIFETIME_MS) as nat)
        + ",\"timestamp\":"@ + decimal(now_ms as nat) + "}"@
}

/// What is signed: header and payload in base 64, with a dot between.
pub open spec fn signing_input(id: Seq<char>, now_ms: u64) -> Seq<char> {
    base64url(encode_utf8(token_header())) + "."@ + base64url(
        encode_utf8(token_payload(id, now_ms)),
    )
}

/// The token: what is signed, a dot, and the signature in base 64.
pub open spec fn token_of(id: Seq<char>, secret: Seq<char>, now_ms: u64) -> Seq<char> {
    signing_input(id, now_ms) + "."@ + base64url(
        hmac_sha256_of(encode_utf8(secret), encode_utf8(signing_input(id, now_ms))),
    )
}

/// What is reported where the key has no two halves.
pub open spec fn invalid_key_message() -> Seq<char> {
    "GLM API key not set or invalid format. Expected 'id.secret'. Run `dinoe onboard` or set GLM_API_KEY env var."@
}

/// What is reported where the key is too long to sign with.
pub open spec fn key_too_long_message() -> Seq<char> {
    "GLM API key is too long"@
}

/// Whether a token kept from before may be used again at `now_ms`.
pub open spec fn can_reuse(kept: Option<(String, u64)>, now_ms: u64) -> bool {
    match kept {
        Some((_, expiry)) => now_ms < expiry,
        None => false,
    }
}

/// Whether `text` is there and not blank.
pub open spec fn has_text(text: Option<Seq<char>>) -> bool {
    text is Some && trim(text->0).len() > 0
}

/// The text of an answer: the content where it is not blank, else the
/// reasoning; an error where both are blank and no tool is called.
pub open spec fn response_text_of(
    content: Option<Seq<char>>,
    reasoning: Option<Seq<char>>,
    has_tool_calls: bool,
) -> Result<Option<Seq<char>>, Seq<char>> {
    if !has_text(content) && !has_text(reasoning) && !has_tool_calls {
        Err("Empty response from API: no content or tool calls"@)
    } else if has_text(content) {
        Ok(content)
    } else {
        Ok(reasoning)
    }
}

/// The JSON that a line of the stream carries: what follows `data:` on
/// the trimmed line, trimmed again. A blank line, a comment, the line
/// that ends the stream and a line of another kind carry none.
pub open spec fn payload_of(line: Seq<char>) -> Option<Seq<char>> {
    let l = trim(line);
    if l.len() == 0 || l[0] == ':' {
        None
    } else if starts_with(l, "data:"@) {
        let data = trim(l.skip("data:"@.len() as int));
        if data == "[DONE]"@ {
            None
        } else {
            Some(data)
        }
    } else {
        None
    }
}

/// `hmac::sign` of ring with an `hmac::Key` made of `HMAC_SHA256` and
/// `key`: the tag of `data`. Inputs of the lengths allowed here are never
/// too long for it.
#[verifier::external_body]
fn hmac_sha256(key: &[u8], data: &[u8]) -> (r: Vec<u8>)
    requires
        key@.len() <= MAX_SIGNED_LEN,
        data@.len() <= MAX_SIGNED_LEN,
    ensures
        r@ == hmac_sha256_of(key@, data@),
{
    let key = ring::hmac::Key::new(ring::hmac::HMAC_SHA256, key);
    ring::hmac::sign(&key, data).as_ref().to_vec()
}

/// The character that stands for the six bits `i`.
fn sextet(i: u8) -> (c: char)
    requires
        i < 64,
    ensures
        c == base64url_char(i as int),
{
    if i < 26 {
        (65 + i) as char
    } else if i < 52 {
        (97 + i - 26) as char
    } else if i < 62 {
        (48 + i - 52) as char
    } else if i == 62 {
        '-'
    } else {
        '_'
    }
}

/// `data` in URL-safe base 64 without padding.
pub fn base64url_encode_bytes(data: &[u8]) -> (r: String)
    ensures
        r@ == base64url(data@),
{
    let mut out: Vec<char> = Vec::new();
    let mut i: usize = 0;
    assert(data@.skip(0) =~= data@);
    assert(out@ + base64url(data@) =~= base64url(data@));
    while i < data.len()
        invariant
            i <= data.len(),
            out@ + base64url(data@.skip(i as int)) == base64url(data@),
        decreases data.len() - i,
    {
        let ghost rest = data@.skip(i as int);
        let ghost before = out@;
        let left = data.len() - i;
        let b0 = data[i];
        assert(rest[0] == b0);
        out.push(sextet(b0 / 4));
        if left == 1 {
            out.push(sextet((b0 % 4) * 16));
            assert(out@ =~= before + base64url(rest));
            return string_of(&out);
        }
        let b1 = data[i + 1];
        assert(rest[1] == b1);
        out.push(sextet((b0 % 4) * 16 + b1 / 16));
        if left == 2 {
            out.push(sextet((b1 % 16) * 4));
            assert(out@ =~= before + base64url(rest));
            return string_of(&out);
        }
        let b2 = data[i + 2];
        assert(rest[2] == b2);
        out.push(sextet((b1 % 16) * 4 + b2 / 64));
        out.push(sextet(b2 % 64));
        assert(rest.skip(3) =~= data@.skip(i + 3));
        assert(out@ + base64url(data@.skip(i + 3)) =~= before + base64url(rest));
        i += 3;
    }
    assert(base64url(data@.skip(i as int)) =~= Seq::<char>::empty());
    assert(out@ + Seq::<char>::empty() =~= out@);
    string_of(&out)
}

/// The UTF-8 bytes of `s` in URL-safe base 64 without padding.
pub fn base64url_encode_str(s: &str) -> (r: String)
    ensures
        r@ == base64url(encode_utf8(s@)),
{
    base64url_encode_bytes(s.as_bytes())
}

/// The two halves of the API key `api_key`.
pub fn split_api_key(api_key: &str) -> (r: (String, String))
    ensures
        (r.0@, r.1@) == key_halves(api_key@),
{
    let chars = chars_of(api_key);
    let mut dot: Vec<char> = Vec::new();
    dot.push('.');
    assert(dot@ =~= seq!['.']);
    match find_in(&chars, &dot, 0) {
        Some(i) => {
            proof {
                lemma_find_from(chars@, dot@, 0);
                assert(occurs_at(chars@, dot@, i as int));
                assert(dot@.len() == 1);
                assert(i + 1 <= chars.len());
                assert(chars@.subrange(0, i as int) =~= chars@.take(i as int));
                assert(chars@.subrange(i + 1, chars@.len() as int) =~= chars@.skip(i + 1));
            }
            (string_of_range(&chars, 0, i), string_of_range(&chars, i + 1, chars.len()))
        },
        None => (String::new(), String::new()),
    }
}

/// The token with which a request made at `now_ms` is signed, and until
/// when it may be used again. A token kept from before is used again
/// while its time has not come. An error where the key has no two halves
/// or is too long to sign with.
pub fn generate_token(
    api_key_id: &str,
    api_key_secret: &str,
    now_ms: u64,
    kept: Option<(String, u64)>,
) -> (r: Result<(String, u64), String>)
    requires
        now_ms <= u64::MAX - TOKEN_LIFETIME_MS,
    ensures
        match r {
            Ok((token, until)) => {
                &&& api_key_id@.len() > 0
                &&& api_key_secret@.len() > 0
                &&& match kept {
                    Some((old, expiry)) if now_ms < expiry => token@ == old@ && until == expiry,
                    _ => token@ == token_of(api_key_id@, api_key_secret@, now_ms) && until
                        == now_ms + TOKEN_REUSE_MS,
                }
            },
            Err(message) => if api_key_id@.len() == 0 || api_key_secret@.len() == 0 {
                message@ == invalid_key_message()
            } else {
                &&& message@ == key_too_long_message()
                &&& !can_reuse(kept, now_ms)
                &&& (encode_utf8(api_key_secret@).len() > MAX_SIGNED_LEN || encode_utf8(
                    signing_input(api_key_id@, now_ms),
                ).len() > MAX_SIGNED_LEN)
            },
        },
{
    if api_key_id.is_empty() || api_key_secret.is_empty() {
        return Err(
            "GLM API key not set or invalid format. Expected 'id.secret'. Run `dinoe onboard` or set GLM_API_KEY env var.".to_owned(),
        );
    }
    match kept {
        Some((token, expiry)) => {
            if now_ms < expiry {
                return Ok((token, expiry));
            }
        },
        None => {},
    }
    let header = base64url_encode_str("{\"alg\":\"HS256\",\"typ\":\"JWT\",\"sign_type\":\"SIGN\"}");
    let mut payload = "{\"api_key\":\"".to_owned();
    payload.append(api_key_id);
    payload.append("\",\"exp\":");
    payload.append(decimal_string_u64(now_ms + TOKEN_LIFETIME_MS).as_str());
    payload.append(",\"timestamp\":");
    payload.append(decimal_string_u64(now_ms).as_str());
    payload.append("}");
    let mut input = header;
    input.append(".");
    input.append(base64url_encode_str(payload.as_str()).as_str());
    let key = api_key_secret.as_bytes();
    let data = input.as_str().as_bytes();
    if key.len() > MAX_SIGNED_LEN || data.len() > MAX_SIGNED_LEN {
        return Err("GLM API key is too long".to_owned());
    }
    let tag = hmac_sha256(key, data);
    let mut token = input.clone();
    token.append(".");
    token.append(base64url_encode_bytes(tag.as_slice()).as_str());
    Ok((token, now_ms + TOKEN_REUSE_MS))
}

/// Whether `text` is there and not blank.
pub fn text_present(text: &Option<String>) -> (r: bool)
    ensures
        r == has_text(text.deep_view()),
{
    match text {
        Some(t) => !trimmed(t.as_str()).as_str().is_empty(),
        None => false,
    }
}

/// The text of an answer with the content `content` and the reasoning
/// `reasoning`.
pub fn response_text(content: Option<String>, reasoning: Option<String>, has_tool_calls: bool)
    -> (r: Result<Option<String>, String>)
    ensures
        match r {
            Ok(t) => response_text_of(content.deep_view(), reasoning.deep_view(), has_tool_calls)
                == Ok::<Option<Seq<char>>, Seq<char>>(t.deep_view()),
            Err(e) => response_text_of(content.deep_view(), reasoning.deep_view(), has_tool_calls)
                == Err::<Option<Seq<char>>, Seq<char>>(e@),
        },
{
    let content_there = text_present(&content);
    if !content_there && !text_present(&reasoning) && !has_tool_calls {
        return Err("Empty response from API: no content or tool calls".to_owned());
    }
    if content_there {
        Ok(content)
    } else {
        Ok(reasoning)
    }
}

/// The JSON that the line `line` of the stream carries.
pub fn payload(line: &str) -> (r: Option<String>)
    ensures
        r.deep_view() == payload_of(line@),
{
    let l = trimmed(line);
    let chars = chars_of(l.as_str());
    if chars.len() == 0 || chars[0] == ':' {
        return None;
    }
    let prefix = chars_of("data:");
    if !begins_with(&chars, &prefix) {
        return None;
    }
    assert(chars@.subrange(prefix.len() as int, chars.len() as int) =~= chars@.skip(
        prefix.len() as int,
    ));
    let (a, b) = trim_bounds(&chars, prefix.len(), chars.len());
    let data = string_of_range(&chars, a, b);
    if str_eq(data.as_str(), "[DONE]") {
        None
    } else {
        Some(data)
    }
}

} // verus!
