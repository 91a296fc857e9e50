//! Tool calls written into the text of an answer.
//!
//! A model that cannot report tool calls apart from its text wraps each
//! call, a JSON object with a `name` and `arguments`, in a pair of tags.
//! The parser takes the calls out and keeps the text around them.

use crate::digest::{md5_hex, md5_hex_of};
use crate::json::{
    is_json,
    json_error,
    json_member_text,
    json_member_text_of,
    json_str_member,
    json_str_member_of,
};
use crate::text::{
    chars_of,
    find_from,
    find_in,
    join,
    join_strings,
    lemma_find_from,
    occurs_at,
    string_of_range,
    trim,
    trim_bounds,
};
use crate::traits::provider::{ToolCall, ToolCallView};
use vstd::prelude::*;
use vstd::string::*;

verus! {

/// An opening tag and the closing tag that ends what it opens. A pair whose
/// opening tag is empty names nothing, and the parser passes over it.
#[derive(Debug)]
pub struct TagPair {
    pub open: String,
    pub close: String,
}

/// A `TagPair` as plain values.
pub struct TagPairView {
    pub open: Seq<char>,
    pub close: Seq<char>,
}

impl View for TagPair {
    type V = TagPairView;

    open spec fn view(&self) -> TagPairView {
        TagPairView { open: self.open@, close: self.close@ }
    }
}

impl DeepView for TagPair {
    type V = TagPairView;

    open spec fn deep_view(&self) -> TagPairView {
        self@
    }
}

impl TagPair {
    /// The pair of `open` and `close`.
    pub fn new(open: &str, close: &str) -> (r: Self)
        ensures
            r@ == (TagPairView { open: open@, close: close@ }),
    {
        TagPair { open: open.to_owned(), close: close.to_owned() }
    }
}

/// The tag pairs that are recognised where the caller names none. Two of
/// the opening tags and one closing tag lack their last bracket, so that a
/// tag may carry more than its name; what stands behind such a tag, the
/// bracket too, is read as what the tag holds or as the text behind it.
pub open spec fn default_tag_views() -> Seq<TagPairView> {
    seq![
        TagPairView { open: "<function="@, close: "</function>"@ },
        TagPairView { open: "<tool_call"@, close: "</tool_call"@ },
        TagPairView { open: "<invoke"@, close: "</invoke>"@ },
    ]
}

/// The tag pairs that are recognised where the caller names none.
pub fn default_tags() -> (r: Vec<TagPair>)
    ensures
        r.deep_view() == default_tag_views(),
{
    let mut r: Vec<TagPair> = Vec::new();
    r.push(TagPair::new("<function=", "</function>"));
    r.push(TagPair::new("<tool_call", "</tool_call"));
    r.push(TagPair::new("<invoke", "</invoke>"));
    assert(r.deep_view() =~= default_tag_views());
    r
}

/// The id of a call that the parser found: a function of the arguments
/// alone.
pub open spec fn call_id(arguments: Seq<char>) -> Seq<char> {
    "call_"@ + md5_hex_of(arguments)
}

/// The call that a name and arguments make, where both are there.
pub open spec fn tool_call_of(name: Option<Seq<char>>, arguments: Option<Seq<char>>) -> Option<
    ToolCallView,
> {
    match (name, arguments) {
        (Some(n), Some(a)) => Some(ToolCallView { id: call_id(a), name: n, arguments: a }),
        _ => None,
    }
}

/// The call that the JSON text `value` spells: its member `name`, which
/// must be a string, and its member `arguments`, as compact JSON text.
pub open spec fn tool_call_in(value: Seq<char>) -> Option<ToolCallView> {
    tool_call_of(json_str_member_of(value, "name"@), json_member_text_of(value, "arguments"@))
}

/// Where a scan for balanced objects stands.
pub struct ScanState {
    /// How many braces are open.
    pub depth: nat,
    /// Where the outermost open brace is, while `depth` is not 0.
    pub start: int,
    /// Whether the scan is inside a quoted string.
    pub in_string: bool,
    /// Whether the last character was a backslash that escapes the next.
    pub escaped: bool,
}

/// The scan before any character.
pub open spec fn scan_start() -> ScanState {
    ScanState { depth: 0, start: 0, in_string: false, escaped: false }
}

/// The scan after the character `c` at position `i`. Inside a string a
/// backslash escapes the next character and an unescaped quote ends the
/// string; braces count only outside strings, and a closing brace with
/// none open is passed over.
pub open spec fn scan_step(st: ScanState, c: char, i: int) -> ScanState {
    if st.in_string {
        if st.escaped {
            ScanState { escaped: false, ..st }
        } else if c == '\\' {
            ScanState { escaped: true, ..st }
        } else if c == '"' {
            ScanState { in_string: false, ..st }
        } else {
            st
        }
    } else if c == '"' {
        ScanState { in_string: true, ..st }
    } else if c == '{' {
        ScanState {
            depth: st.depth + 1,
            start: if st.depth == 0 {
                i
            } else {
                st.start
            },
            ..st
        }
    } else if c == '}' && st.depth > 0 {
        ScanState { depth: (st.depth - 1) as nat, ..st }
    } else {
        st
    }
}

/// Whether `c`, met in state `st`, closes an outermost object.
pub open spec fn closes_object(st: ScanState, c: char) -> bool {
    !st.in_string && c == '}' && st.depth == 1
}

/// The scan after the first `n` characters of `text`.
pub open spec fn scan_state(text: Seq<char>, n: int) -> ScanState
    decreases n,
{
    if n <= 0 {
        scan_start()
    } else {
        scan_step(scan_state(text, n - 1), text[n - 1], n - 1)
    }
}

/// The balanced objects that close within the first `n` characters of
/// `text` and are JSON, in the order in which they close.
pub open spec fn json_values_upto(text: Seq<char>, n: int) -> Seq<Seq<char>>
    decreases n,
{
    if n <= 0 {
        Seq::empty()
    } else {
        let before = json_values_upto(text, n - 1);
        let st = scan_state(text, n - 1);
        let candidate = text.subrange(st.start, n);
        if closes_object(st, text[n - 1]) && is_json(candidate) {
            before.push(candidate)
        } else {
            before
        }
    }
}

/// The balanced objects of `text` that are JSON.
pub open spec fn json_values(text: Seq<char>) -> Seq<Seq<char>> {
    json_values_upto(text, text.len() as int)
}

/// The calls that the JSON texts `values` spell, those that spell none
/// left out.
pub open spec fn calls_of(values: Seq<Seq<char>>) -> Seq<ToolCallView>
    decreases values.len(),
{
    if values.len() == 0 {
        Seq::empty()
    } else {
        let before = calls_of(values.drop_last());
        match tool_call_in(values.last()) {
            Some(call) => before.push(call),
            None => before,
        }
    }
}

/// The earliest place at or after `pos` where the opening tag of one of the
/// first `n` pairs occurs, with the index of that pair. Where two tags
/// occur at the same place, the pair that comes first wins.
pub open spec fn first_tag_among(text: Seq<char>, tags: Seq<TagPairView>, pos: int, n: int)
    -> Option<(int, int)>
    decreases n,
{
    if n <= 0 {
        None
    } else {
        let before = first_tag_among(text, tags, pos, n - 1);
        if tags[n - 1].open.len() == 0 {
            before
        } else {
            match find_from(text, tags[n - 1].open, pos) {
                None => before,
                Some(p) => match before {
                    Some((q, k)) => if q <= p {
                        before
                    } else {
                        Some((p, n - 1))
                    },
                    None => Some((p, n - 1)),
                },
            }
        }
    }
}

/// The earliest place at or after `pos` where any opening tag occurs.
pub open spec fn first_tag(text: Seq<char>, tags: Seq<TagPairView>, pos: int) -> Option<
    (int, int),
> {
    first_tag_among(text, tags, pos, tags.len() as int)
}

/// `parts` with the trimmed `piece` added, unless nothing is left of it.
pub open spec fn push_trimmed(parts: Seq<Seq<char>>, piece: Seq<char>) -> Seq<Seq<char>> {
    if trim(piece).len() == 0 {
        parts
    } else {
        parts.push(trim(piece))
    }
}

/// What the parser makes of `text`.
pub struct Parsed {
    /// The pieces of plain text, trimmed, in order.
    pub parts: Seq<Seq<char>>,
    /// The calls, in order.
    pub calls: Seq<ToolCallView>,
}

/// The parse of `text` from `pos` on, with `parts` and `calls` found so far.
///
/// Text before the next opening tag is kept. What lies between the tag and
/// its closing tag is searched for calls, and the parse goes on behind the
/// closing tag. Where no opening tag is left, everything from `pos` on is
/// kept as text and the parse ends. Where the closing tag is missing,
/// everything from the opening tag on is kept as text, the tag too, and the
/// parse ends.
pub open spec fn parse_from(
    text: Seq<char>,
    tags: Seq<TagPairView>,
    pos: int,
    parts: Seq<Seq<char>>,
    calls: Seq<ToolCallView>,
) -> Parsed
    decreases text.len() - pos,
    when 0 <= pos <= text.len()
{
    let rest = text.subrange(pos, text.len() as int);
    match first_tag(text, tags, pos) {
        None => Parsed { parts: push_trimmed(parts, rest), calls },
        Some((start, k)) => {
            let kept = push_trimmed(parts, text.subrange(pos, start));
            let inner_from = start + tags[k].open.len();
            match find_from(text, tags[k].close, inner_from) {
                None => Parsed {
                    parts: push_trimmed(kept, text.subrange(start, text.len() as int)),
                    calls,
                },
                Some(end) => {
                    proof {
                        lemma_first_tag(text, tags, pos, tags.len() as int);
                        lemma_find_from(text, tags[k].close, inner_from);
                    }
                    parse_from(
                        text,
                        tags,
                        end + tags[k].close.len(),
                        kept,
                        calls + calls_of(json_values(text.subrange(inner_from, end))),
                    )
                },
            }
        },
    }
}

/// The text and the calls that the parser finds in `response`: the pieces
/// of text joined by line breaks, and the calls in order.
pub open spec fn parse(response: Seq<char>, tags: Seq<TagPairView>) -> (Seq<char>, Seq<
    ToolCallView,
>) {
    let parsed = parse_from(response, tags, 0, Seq::empty(), Seq::empty());
    (join(parsed.parts, "\n"@), parsed.calls)
}

/// What `first_tag_among` returns is an occurrence of a non-empty opening
/// tag at or after `pos`.
pub proof fn lemma_first_tag(text: Seq<char>, tags: Seq<TagPairView>, pos: int, n: int)
    requires
        0 <= pos,
        n <= tags.len(),
    ensures
        match first_tag_among(text, tags, pos, n) {
            Some((p, k)) => {
                &&& 0 <= k < n
                &&& pos <= p
                &&& tags[k].open.len() > 0
                &&& occurs_at(text, tags[k].open, p)
                &&& find_from(text, tags[k].open, pos) == Some(p)
            },
            None => true,
        },
    decreases n,
{
    if n > 0 {
        lemma_first_tag(text, tags, pos, n - 1);
        if tags[n - 1].open.len() > 0 {
            lemma_find_from(text, tags[n - 1].open, pos);
        }
    }
}

/// The scan stops at the earliest opening tag: no tag that counts occurs
/// before the place that `first_tag_among` returns, a tag that occurs at
/// the same place comes later in the list, and where it returns nothing,
/// no tag occurs at all.
pub proof fn first_tag_is_the_earliest(
    text: Seq<char>,
    tags: Seq<TagPairView>,
    pos: int,
    n: int,
    j: int,
)
    requires
        0 <= pos,
        0 <= j < n <= tags.len(),
        tags[j].open.len() > 0,
    ensures
        match (first_tag_among(text, tags, pos, n), find_from(text, tags[j].open, pos)) {
            (Some((p, k)), Some(q)) => p < q || (p == q && k <= j),
            (None, Some(q)) => false,
            _ => true,
        },
    decreases n,
{
    lemma_first_tag(text, tags, pos, n - 1);
    if j < n - 1 {
        first_tag_is_the_earliest(text, tags, pos, n - 1, j);
    }
}

/// The calls of one value more.
pub proof fn lemma_calls_of_push(values: Seq<Seq<char>>, value: Seq<char>)
    ensures
        calls_of(values.push(value)) == match tool_call_in(value) {
            Some(call) => calls_of(values).push(call),
            None => calls_of(values),
        },
{
    let all = values.push(value);
    assert(all.drop_last() =~= values);
    assert(all.last() == value);
}

/// Whether every call of `calls` carries the id that its arguments give.
pub open spec fn ids_follow_arguments(calls: Seq<ToolCallView>) -> bool {
    forall|i: int| 0 <= i < calls.len() ==> (#[trigger] calls[i]).id == call_id(calls[i].arguments)
}

/// Every call that `calls_of` finds carries the id that its arguments give.
pub proof fn lemma_calls_of_ids(values: Seq<Seq<char>>)
    ensures
        ids_follow_arguments(calls_of(values)),
    decreases values.len(),
{
    if values.len() > 0 {
        lemma_calls_of_ids(values.drop_last());
        let before = calls_of(values.drop_last());
        let all = calls_of(values);
        assert forall|i: int| 0 <= i < all.len() implies (#[trigger] all[i]).id == call_id(
            all[i].arguments,
        ) by {
            if i < before.len() {
                assert(all[i] == before[i]);
            }
        }
    }
}

/// The parse keeps the property that every call carries the id that its
/// arguments give.
pub proof fn lemma_parse_from_ids(
    text: Seq<char>,
    tags: Seq<TagPairView>,
    pos: int,
    parts: Seq<Seq<char>>,
    calls: Seq<ToolCallView>,
)
    requires
        0 <= pos <= text.len(),
        ids_follow_arguments(calls),
    ensures
        ids_follow_arguments(parse_from(text, tags, pos, parts, calls).calls),
    decreases text.len() - pos,
{
    match first_tag(text, tags, pos) {
        None => {},
        Some((start, k)) => {
            let inner_from = start + tags[k].open.len();
            match find_from(text, tags[k].close, inner_from) {
                None => {},
                Some(end) => {
                    lemma_first_tag(text, tags, pos, tags.len() as int);
                    lemma_find_from(text, tags[k].close, inner_from);
                    let found = calls_of(json_values(text.subrange(inner_from, end)));
                    lemma_calls_of_ids(json_values(text.subrange(inner_from, end)));
                    lemma_parse_from_ids(
                        text,
                        tags,
                        end + tags[k].close.len(),
                        push_trimmed(parts, text.subrange(pos, start)),
                        calls + found,
                    );
                },
            }
        },
    }
}

/// The id of a call that the parser finds is a function of its arguments
/// alone: two calls with the same arguments carry one id, in whatever
/// answers they stand and whatever text surrounds them.
pub proof fn call_ids_depend_on_arguments_alone(
    one: Seq<char>,
    one_tags: Seq<TagPairView>,
    i: int,
    other: Seq<char>,
    other_tags: Seq<TagPairView>,
    j: int,
)
    requires
        0 <= i < parse(one, one_tags).1.len(),
        0 <= j < parse(other, other_tags).1.len(),
        parse(one, one_tags).1[i].arguments == parse(other, other_tags).1[j].arguments,
    ensures
        parse(one, one_tags).1[i].id == parse(other, other_tags).1[j].id,
        parse(one, one_tags).1[i].id == call_id(parse(one, one_tags).1[i].arguments),
{
    lemma_parse_from_ids(one, one_tags, 0, Seq::empty(), Seq::empty());
    lemma_parse_from_ids(other, other_tags, 0, Seq::empty(), Seq::empty());
}

/// Whether `text` is framed once: the first opening tag, of pair `k`,
/// stands at `start`, its closing tag at `end`, and no opening tag
/// follows.
pub open spec fn framed_once(
    text: Seq<char>,
    tags: Seq<TagPairView>,
    start: int,
    k: int,
    end: int,
) -> bool {
    &&& first_tag(text, tags, 0) == Some((start, k))
    &&& find_from(text, tags[k].close, start + tags[k].open.len()) == Some(end)
    &&& first_tag(text, tags, end + tags[k].close.len()) is None
}

/// What the tags of a text that is framed once hold.
pub open spec fn framed_inner(
    text: Seq<char>,
    tags: Seq<TagPairView>,
    start: int,
    k: int,
    end: int,
) -> Seq<char> {
    text.subrange(start + tags[k].open.len(), end)
}

/// Whether none of the first `n` opening tags occurs in `text` from
/// `from` up to, but not at, `to`.
pub open spec fn no_tag_between(
    text: Seq<char>,
    tags: Seq<TagPairView>,
    n: int,
    from: int,
    to: int,
) -> bool {
    forall|j: int, p: int|
        0 <= j < n && from <= p < to && tags[j].open.len() > 0 ==> !(#[trigger] occurs_at(
            text,
            tags[j].open,
            p,
        ))
}

/// Where no opening tag occurs from `pos` on, the scan finds none.
pub proof fn lemma_no_tag_found(text: Seq<char>, tags: Seq<TagPairView>, pos: int, n: int)
    requires
        0 <= pos,
        n <= tags.len(),
        no_tag_between(text, tags, n, pos, text.len() as int + 1),
    ensures
        first_tag_among(text, tags, pos, n) is None,
    decreases n,
{
    if n > 0 {
        lemma_no_tag_found(text, tags, pos, n - 1);
        if tags[n - 1].open.len() > 0 {
            lemma_find_from(text, tags[n - 1].open, pos);
        }
    }
}

/// Where none of the first `n` opening tags occurs from `pos` up to and at
/// `start`, the scan among them finds nothing there.
proof fn lemma_tags_found_later(
    text: Seq<char>,
    tags: Seq<TagPairView>,
    pos: int,
    n: int,
    start: int,
)
    requires
        0 <= pos,
        n <= tags.len(),
        no_tag_between(text, tags, n, pos, start + 1),
    ensures
        match first_tag_among(text, tags, pos, n) {
            Some((q, _)) => q > start,
            None => true,
        },
    decreases n,
{
    if n > 0 {
        lemma_tags_found_later(text, tags, pos, n - 1, start);
        if tags[n - 1].open.len() > 0 {
            lemma_find_from(text, tags[n - 1].open, pos);
        }
    }
}

/// An opening tag that occurs at `start`, with no opening tag before it
/// from `pos` on and no tag of an earlier pair at the same place, is what
/// the scan finds.
pub proof fn lemma_tag_found(
    text: Seq<char>,
    tags: Seq<TagPairView>,
    pos: int,
    n: int,
    start: int,
    k: int,
)
    requires
        0 <= pos <= start,
        0 <= k < n <= tags.len(),
        tags[k].open.len() > 0,
        occurs_at(text, tags[k].open, start),
        no_tag_between(text, tags, n, pos, start),
        no_tag_between(text, tags, k, start, start + 1),
    ensures
        first_tag_among(text, tags, pos, n) == Some((start, k)),
    decreases n,
{
    if n - 1 == k {
        assert forall|j: int, p: int|
            0 <= j < k && pos <= p < start + 1 && tags[j].open.len() > 0 implies !(
        #[trigger] occurs_at(text, tags[j].open, p)) by {
            if p < start {
                assert(0 <= j < n);
            }
        }
        lemma_tags_found_later(text, tags, pos, k, start);
        assert forall|p: int| pos <= p < start implies !occurs_at(text, tags[k].open, p) by {
            assert(0 <= k < n);
        }
        crate::text::lemma_find_from_is(text, tags[k].open, pos, start);
    } else {
        lemma_tag_found(text, tags, pos, n - 1, start, k);
        if tags[n - 1].open.len() > 0 {
            lemma_find_from(text, tags[n - 1].open, pos);
        }
    }
}

/// A text in which an opening tag stands at `start` with no opening tag
/// before it, its closing tag first at `end`, and no opening tag behind
/// that, is framed once.
pub proof fn text_between_tags_is_framed_once(
    text: Seq<char>,
    tags: Seq<TagPairView>,
    start: int,
    k: int,
    end: int,
)
    requires
        0 <= start,
        0 <= k < tags.len(),
        tags[k].open.len() > 0,
        occurs_at(text, tags[k].open, start),
        no_tag_between(text, tags, tags.len() as int, 0, start),
        no_tag_between(text, tags, k, start, start + 1),
        start + tags[k].open.len() <= end,
        occurs_at(text, tags[k].close, end),
        forall|p: int|
            start + tags[k].open.len() <= p < end ==> !occurs_at(text, tags[k].close, p),
        no_tag_between(
            text,
            tags,
            tags.len() as int,
            end + tags[k].close.len(),
            text.len() as int + 1,
        ),
    ensures
        framed_once(text, tags, start, k, end),
{
    lemma_tag_found(text, tags, 0, tags.len() as int, start, k);
    crate::text::lemma_find_from_is(text, tags[k].close, start + tags[k].open.len(), end);
    lemma_no_tag_found(text, tags, end + tags[k].close.len(), tags.len() as int);
}

/// Of a text that is framed once, the calls are those that stand between
/// the tags, whatever surrounds the tags and whichever pair it is; the
/// text is what stands before the opening and behind the closing tag.
pub proof fn framed_calls_are_those_between_the_tags(
    text: Seq<char>,
    tags: Seq<TagPairView>,
    start: int,
    k: int,
    end: int,
)
    requires
        framed_once(text, tags, start, k, end),
    ensures
        parse(text, tags).1 == calls_of(json_values(framed_inner(text, tags, start, k, end))),
        parse(text, tags).0 == join(
            push_trimmed(
                push_trimmed(Seq::empty(), text.subrange(0, start)),
                text.subrange(end + tags[k].close.len(), text.len() as int),
            ),
            "\n"@,
        ),
{
    lemma_first_tag(text, tags, 0, tags.len() as int);
    let inner_from = start + tags[k].open.len();
    lemma_find_from(text, tags[k].close, inner_from);
    let next = end + tags[k].close.len();
    let kept = push_trimmed(Seq::empty(), text.subrange(0, start));
    let found = calls_of(json_values(text.subrange(inner_from, end)));
    let none = Seq::<ToolCallView>::empty();
    assert(none + found =~= found);
    assert(parse_from(text, tags, 0, Seq::empty(), none) == parse_from(
        text,
        tags,
        next,
        kept,
        none + found,
    ));
    assert(parse_from(text, tags, next, kept, found) == (Parsed {
        parts: push_trimmed(kept, text.subrange(next, text.len() as int)),
        calls: found,
    }));
}

/// Two texts that are framed once around the same JSON object, a call
/// with a name and arguments, hold exactly one call each, and the two
/// calls are the same: the id, which the arguments give, does not depend
/// on the text around the tags nor on the pair of tags.
pub proof fn framed_object_gives_one_call_with_one_id(
    one: Seq<char>,
    one_tags: Seq<TagPairView>,
    one_start: int,
    one_k: int,
    one_end: int,
    other: Seq<char>,
    other_tags: Seq<TagPairView>,
    other_start: int,
    other_k: int,
    other_end: int,
    object: Seq<char>,
)
    requires
        framed_once(one, one_tags, one_start, one_k, one_end),
        framed_once(other, other_tags, other_start, other_k, other_end),
        json_values(framed_inner(one, one_tags, one_start, one_k, one_end)) == seq![object],
        json_values(framed_inner(other, other_tags, other_start, other_k, other_end)) == seq![
            object,
        ],
        tool_call_in(object) is Some,
    ensures
        parse(one, one_tags).1 == seq![tool_call_in(object)->0],
        parse(other, other_tags).1 == parse(one, one_tags).1,
        parse(one, one_tags).1[0].id == call_id(parse(one, one_tags).1[0].arguments),
{
    framed_calls_are_those_between_the_tags(one, one_tags, one_start, one_k, one_end);
    framed_calls_are_those_between_the_tags(other, other_tags, other_start, other_k, other_end);
    let values = seq![object];
    assert(values.drop_last() =~= Seq::<Seq<char>>::empty());
    assert(values.last() == object);
    assert(calls_of(values.drop_last()) =~= Seq::<ToolCallView>::empty());
    assert(calls_of(values) =~= seq![tool_call_in(object)->0]);
}

/// The id of a call that the parser found with the arguments `arguments`.
pub fn derive_call_id(arguments: &str) -> (r: String)
    ensures
        r@ == call_id(arguments@),
{
    let mut id = "call_".to_owned();
    let digest = md5_hex(arguments);
    id.append(digest.as_str());
    id
}

/// The call that a name and arguments make, where both are there. The id
/// is derived from the arguments alone.
pub fn tool_call_from_parts(name: Option<String>, arguments: Option<String>) -> (r: Option<
    ToolCall,
>)
    ensures
        r.deep_view() == tool_call_of(name.deep_view(), arguments.deep_view()),
{
    match (name, arguments) {
        (Some(n), Some(a)) => {
            let id = derive_call_id(a.as_str());
            Some(ToolCall { id, name: n, arguments: a })
        },
        _ => None,
    }
}

/// The call that the JSON text `value` spells, if it spells one: a value
/// without a string `name` or without `arguments` spells none.
pub fn parse_tool_call_value(value: &str) -> (r: Option<ToolCall>)
    ensures
        r.deep_view() == tool_call_in(value@),
{
    let name = json_str_member(value, "name");
    let arguments = json_member_text(value, "arguments");
    tool_call_from_parts(name, arguments)
}

/// The balanced objects of `text` that are JSON, in order. Braces inside
/// quoted strings do not count, and a backslash inside a string escapes
/// the character after it.
pub fn extract_json_values(text: &str) -> (r: Vec<String>)
    ensures
        r.deep_view() == json_values(text@),
{
    let chars = chars_of(text);
    let mut values: Vec<String> = Vec::new();
    let mut depth: usize = 0;
    let mut start: usize = 0;
    let mut in_string = false;
    let mut escaped = false;
    let mut i: usize = 0;
    while i < chars.len()
        invariant
            i <= chars.len(),
            chars@ == text@,
            depth <= i,
            depth > 0 ==> start < i,
            scan_state(text@, i as int) == (ScanState {
                depth: depth as nat,
                start: start as int,
                in_string,
                escaped,
            }),
            values.deep_view() == json_values_upto(text@, i as int),
        decreases chars.len() - i,
    {
        let c = chars[i];
        let ghost st = scan_state(text@, i as int);
        assert(scan_state(text@, i + 1) == scan_step(st, c, i as int));
        let ghost before = values.deep_view();
        if in_string {
            if escaped {
                escaped = false;
            } else if c == '\\' {
                escaped = true;
            } else if c == '"' {
                in_string = false;
            }
        } else if c == '"' {
            in_string = true;
        } else if c == '{' {
            if depth == 0 {
                start = i;
            }
            depth += 1;
        } else if c == '}' && depth > 0 {
            depth -= 1;
            if depth == 0 {
                let candidate = string_of_range(&chars, start, i + 1);
                if json_error(candidate.as_str()).is_none() {
                    values.push(candidate);
                    assert(values.deep_view() =~= before.push(candidate@));
                }
            }
        }
        i += 1;
    }
    values
}

/// The characters of each tag of `tags`: the opening tags, and the closing
/// tags.
fn tag_chars(tags: &Vec<TagPair>) -> (r: (Vec<Vec<char>>, Vec<Vec<char>>))
    ensures
        r.0.len() == tags.len(),
        r.1.len() == tags.len(),
        forall|i: int| 0 <= i < tags.len() ==> (#[trigger] r.0[i])@ == tags[i]@.open,
        forall|i: int| 0 <= i < tags.len() ==> (#[trigger] r.1[i])@ == tags[i]@.close,
{
    let mut opens: Vec<Vec<char>> = Vec::new();
    let mut closes: Vec<Vec<char>> = Vec::new();
    let mut i: usize = 0;
    while i < tags.len()
        invariant
            i <= tags.len(),
            opens.len() == i,
            closes.len() == i,
            forall|j: int| 0 <= j < i ==> (#[trigger] opens[j])@ == tags[j]@.open,
            forall|j: int| 0 <= j < i ==> (#[trigger] closes[j])@ == tags[j]@.close,
        decreases tags.len() - i,
    {
        opens.push(chars_of(tags[i].open.as_str()));
        closes.push(chars_of(tags[i].close.as_str()));
        i += 1;
    }
    (opens, closes)
}

/// The earliest place at or after `pos` where one of the opening tags
/// occurs, with the index of its pair.
fn find_first_tag(
    text: &Vec<char>,
    opens: &Vec<Vec<char>>,
    pos: usize,
    Ghost(tags): Ghost<Seq<TagPairView>>,
) -> (r: Option<(usize, usize)>)
    requires
        opens.len() == tags.len(),
        forall|i: int| 0 <= i < tags.len() ==> (#[trigger] opens[i])@ == tags[i].open,
    ensures
        match r {
            Some((p, k)) => first_tag(text@, tags, pos as int) == Some((p as int, k as int)),
            None => first_tag(text@, tags, pos as int) is None,
        },
{
    let mut best: Option<(usize, usize)> = None;
    let mut n: usize = 0;
    while n < opens.len()
        invariant
            n <= opens.len(),
            opens.len() == tags.len(),
            forall|i: int| 0 <= i < tags.len() ==> (#[trigger] opens[i])@ == tags[i].open,
            match best {
                Some((p, k)) => first_tag_among(text@, tags, pos as int, n as int) == Some(
                    (p as int, k as int),
                ),
                None => first_tag_among(text@, tags, pos as int, n as int) is None,
            },
        decreases opens.len() - n,
    {
        assert(opens[n as int]@ == tags[n as int].open);
        if opens[n].len() > 0 {
            match find_in(text, &opens[n], pos) {
                Some(p) => {
                    match best {
                        Some((q, _)) => {
                            if p < q {
                                best = Some((p, n));
                            }
                        },
                        None => {
                            best = Some((p, n));
                        },
                    }
                },
                None => {},
            }
        }
        n += 1;
    }
    best
}

/// Adds `text[from..to]`, trimmed, to `parts`, unless nothing is left of
/// it.
fn push_trimmed_range(parts: &mut Vec<String>, text: &Vec<char>, from: usize, to: usize)
    requires
        from <= to <= text.len(),
    ensures
        final(parts).deep_view() == push_trimmed(
            old(parts).deep_view(),
            text@.subrange(from as int, to as int),
        ),
{
    let (a, b) = trim_bounds(text, from, to);
    if a < b {
        let piece = string_of_range(text, a, b);
        let ghost before = parts.deep_view();
        parts.push(piece);
        assert(parts.deep_view() =~= before.push(piece@));
    }
}

/// The text and the calls in `response`, with `tags` as the tag pairs that
/// wrap a call.
pub fn parse_tool_calls_with_tags(response: &str, tags: &Vec<TagPair>) -> (r: (
    String,
    Vec<ToolCall>,
))
    ensures
        r.0@ == parse(response@, tags.deep_view()).0,
        r.1.deep_view() == parse(response@, tags.deep_view()).1,
        ids_follow_arguments(r.1.deep_view()),
{
    let text = chars_of(response);
    let (opens, closes) = tag_chars(tags);
    let ghost tv = tags.deep_view();
    let mut parts: Vec<String> = Vec::new();
    let mut calls: Vec<ToolCall> = Vec::new();
    let mut pos: usize = 0;
    proof {
        lemma_parse_from_ids(text@, tv, 0, Seq::empty(), Seq::empty());
        assert(parts.deep_view() =~= Seq::<Seq<char>>::empty());
        assert(calls.deep_view() =~= Seq::<ToolCallView>::empty());
    }
    loop
        invariant
            pos <= text.len(),
            text@ == response@,
            tv == tags.deep_view(),
            opens.len() == tv.len(),
            closes.len() == tv.len(),
            forall|i: int| 0 <= i < tv.len() ==> (#[trigger] opens[i])@ == tv[i].open,
            forall|i: int| 0 <= i < tv.len() ==> (#[trigger] closes[i])@ == tv[i].close,
            parse_from(text@, tv, pos as int, parts.deep_view(), calls.deep_view()) == parse_from(
                text@,
                tv,
                0,
                Seq::empty(),
                Seq::empty(),
            ),
            ids_follow_arguments(parse_from(text@, tv, 0, Seq::empty(), Seq::empty()).calls),
        decreases text.len() - pos,
    {
        let found = find_first_tag(&text, &opens, pos, Ghost(tv));
        let (start, k) = match found {
            Some(hit) => hit,
            None => {
                push_trimmed_range(&mut parts, &text, pos, text.len());
                return (join_strings(&parts, "\n"), calls);
            },
        };
        proof {
            lemma_first_tag(text@, tv, pos as int, tv.len() as int);
        }
        assert(opens[k as int]@ == tv[k as int].open);
        assert(closes[k as int]@ == tv[k as int].close);
        let ghost parts0 = parts.deep_view();
        push_trimmed_range(&mut parts, &text, pos, start);
        let inner_from = start + opens[k].len();
        let end = match find_in(&text, &closes[k], inner_from) {
            Some(end) => end,
            None => {
                push_trimmed_range(&mut parts, &text, start, text.len());
                return (join_strings(&parts, "\n"), calls);
            },
        };
        proof {
            lemma_find_from(text@, tv[k as int].close, inner_from as int);
        }
        let inner = string_of_range(&text, inner_from, end);
        let values = extract_json_values(inner.as_str());
        let ghost calls0 = calls.deep_view();
        let mut j: usize = 0;
        while j < values.len()
            invariant
                j <= values.len(),
                calls.deep_view() == calls0 + calls_of(values.deep_view().take(j as int)),
            decreases values.len() - j,
        {
            let ghost done = values.deep_view().take(j as int);
            let ghost before = calls.deep_view();
            proof {
                lemma_calls_of_push(done, values[j as int]@);
                assert(values.deep_view().take(j + 1) =~= done.push(values[j as int]@));
            }
            match parse_tool_call_value(values[j].as_str()) {
                Some(call) => {
                    calls.push(call);
                    assert(calls.deep_view() =~= before.push(call@));
                    assert(before.push(call@) =~= calls0 + calls_of(done).push(call@));
                },
                None => {},
            }
            j += 1;
        }
        assert(values.deep_view().take(values.len() as int) =~= values.deep_view());
        pos = end + closes[k].len();
    }
}

/// The text and the calls in `response`, with the default tag pairs.
pub fn parse_tool_calls_fallback(response: &str) -> (r: (String, Vec<ToolCall>))
    ensures
        r.0@ == parse(response@, default_tag_views()).0,
        r.1.deep_view() == parse(response@, default_tag_views()).1,
        ids_follow_arguments(r.1.deep_view()),
{
    let tags = default_tags();
    parse_tool_calls_with_tags(response, &tags)
}

} // verus!
