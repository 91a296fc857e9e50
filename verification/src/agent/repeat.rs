//! Detection of a model that repeats one tool call.
//!
//! The loop keeps the signatures of the last few tool calls. Three equal
//! signatures in a row among them mean that the model is stuck.

use crate::digest::{md5_hex, md5_hex_of};
use crate::traits::provider::{ToolCall, ToolCallView};
use std::collections::VecDeque;
use vstd::prelude::*;
use vstd::string::*;

verus! {

/// How many signatures the window keeps.
pub const LOOP_DETECTION_WINDOW: usize = 5;

/// How many equal signatures in a row count as a loop.
pub const LOOP_DETECTION_THRESHOLD: usize = 3;

/// What identifies a tool call for loop detection: the tool's name and a
/// digest of the arguments.
#[derive(Debug)]
pub struct ToolCallSignature {
    pub name: String,
    pub args_hash: String,
}

/// A `ToolCallSignature` as plain values.
pub struct ToolCallSignatureView {
    pub name: Seq<char>,
    pub args_hash: Seq<char>,
}

impl View for ToolCallSignature {
    type V = ToolCallSignatureView;

    open spec fn view(&self) -> ToolCallSignatureView {
        ToolCallSignatureView { name: self.name@, args_hash: self.args_hash@ }
    }
}

impl DeepView for ToolCallSignature {
    type V = ToolCallSignatureView;

    open spec fn deep_view(&self) -> ToolCallSignatureView {
        self@
    }
}

impl Clone for ToolCallSignature {
    fn clone(&self) -> (r: Self)
        ensures
            r == *self,
    {
        ToolCallSignature { name: self.name.clone(), args_hash: self.args_hash.clone() }
    }
}

/// The signature of a call.
pub open spec fn signature_of(call: ToolCallView) -> ToolCallSignatureView {
    ToolCallSignatureView { name: call.name, args_hash: md5_hex_of(call.arguments) }
}

impl ToolCallSignature {
    /// The signature of `tool_call`.
    pub fn from_tool_call(tool_call: &ToolCall) -> (r: Self)
        ensures
            r@ == signature_of(tool_call@),
    {
        ToolCallSignature {
            name: tool_call.name.clone(),
            args_hash: md5_hex(tool_call.arguments.as_str()),
        }
    }

    /// Whether two signatures are the same.
    pub fn same(&self, other: &ToolCallSignature) -> (r: bool)
        ensures
            r == (self@ == other@),
    {
        self.name == other.name && self.args_hash == other.args_hash
    }
}

/// The window after `signature` has entered it: the signature stands at
/// the end, and the oldest one leaves where the window would hold more than
/// five.
pub open spec fn slide(window: Seq<ToolCallSignatureView>, signature: ToolCallSignatureView)
    -> Seq<ToolCallSignatureView> {
    let grown = window.push(signature);
    if grown.len() > LOOP_DETECTION_WINDOW {
        grown.drop_first()
    } else {
        grown
    }
}

/// The window after the signatures of `calls` have entered it in order.
pub open spec fn slide_all(window: Seq<ToolCallSignatureView>, calls: Seq<ToolCallView>) -> Seq<
    ToolCallSignatureView,
>
    decreases calls.len(),
{
    if calls.len() == 0 {
        window
    } else {
        slide(slide_all(window, calls.drop_last()), signature_of(calls.last()))
    }
}

/// Whether the signature at `i` is the third of three equal ones in a row.
pub open spec fn repeats_at(window: Seq<ToolCallSignatureView>, i: int) -> bool {
    &&& 2 <= i < window.len()
    &&& window[i] == window[i - 1]
    &&& window[i - 1] == window[i - 2]
}

/// The first place at or after `from` that ends three equal signatures in
/// a row.
pub open spec fn first_repeat_from(window: Seq<ToolCallSignatureView>, from: int) -> Option<int>
    decreases window.len() + 1 - from,
{
    if from >= window.len() {
        None
    } else if repeats_at(window, from) {
        Some(from)
    } else {
        first_repeat_from(window, from + 1)
    }
}

/// What the loop reports when the tool `name` was called three times in a
/// row with the same arguments.
pub open spec fn loop_message(name: Seq<char>) -> Seq<char> {
    "Tool loop detected: '"@ + name
        + "' called 3 times with same arguments. The model may be stuck. Try rephrasing your request or using a larger model."@
}

/// The report on `window`: a message where three equal signatures stand in
/// a row, naming the tool of the first such run; nothing otherwise.
pub open spec fn detect(window: Seq<ToolCallSignatureView>) -> Option<Seq<char>> {
    match first_repeat_from(window, 0) {
        Some(i) => Some(loop_message(window[i].name)),
        None => None,
    }
}

/// What `first_repeat_from` returns is the first run's end at or after
/// `from`; it returns nothing exactly where no run ends there.
pub proof fn lemma_first_repeat(window: Seq<ToolCallSignatureView>, from: int)
    ensures
        match first_repeat_from(window, from) {
            Some(i) => from <= i && repeats_at(window, i) && forall|j: int|
                from <= j < i ==> !repeats_at(window, j),
            None => forall|j: int| from <= j ==> !repeats_at(window, j),
        },
    decreases window.len() + 1 - from,
{
    if from < window.len() && !repeats_at(window, from) {
        lemma_first_repeat(window, from + 1);
    }
}

/// A run's end with none before it from `from` on is what
/// `first_repeat_from` returns.
pub proof fn lemma_first_repeat_is(window: Seq<ToolCallSignatureView>, from: int, i: int)
    requires
        from <= i,
        repeats_at(window, i),
        forall|j: int| from <= j < i ==> !repeats_at(window, j),
    ensures
        first_repeat_from(window, from) == Some(i),
    decreases i - from,
{
    if from < i {
        lemma_first_repeat_is(window, from + 1, i);
    }
}

/// With no run's end from `from` on, `first_repeat_from` returns nothing.
pub proof fn lemma_first_repeat_none(window: Seq<ToolCallSignatureView>, from: int)
    requires
        forall|j: int| from <= j ==> !repeats_at(window, j),
    ensures
        first_repeat_from(window, from) is None,
    decreases window.len() + 1 - from,
{
    if from < window.len() {
        lemma_first_repeat_none(window, from + 1);
    }
}

/// A window that was no longer than five stays so, and the newest
/// signature stands at its end.
pub proof fn lemma_slide(window: Seq<ToolCallSignatureView>, signature: ToolCallSignatureView)
    ensures
        slide(window, signature).len() > 0,
        slide(window, signature).last() == signature,
        window.len() <= LOOP_DETECTION_WINDOW ==> slide(window, signature).len()
            <= LOOP_DETECTION_WINDOW,
        window.len() >= 2 ==> slide(window, signature).len() >= 3 && slide(window, signature)[slide(
            window,
            signature,
        ).len() - 2] == window[window.len() - 1] && slide(window, signature)[slide(
            window,
            signature,
        ).len() - 3] == window[window.len() - 2],
        window.len() >= 1 ==> slide(window, signature).len() >= 2 && slide(window, signature)[slide(
            window,
            signature,
        ).len() - 2] == window[window.len() - 1],
{
}

/// Three calls in a row with one name and the same arguments are reported,
/// whatever the window held before.
pub proof fn three_identical_calls_are_reported(
    window: Seq<ToolCallSignatureView>,
    a: ToolCallView,
    b: ToolCallView,
    c: ToolCallView,
)
    requires
        a.name == b.name,
        b.name == c.name,
        a.arguments == b.arguments,
        b.arguments == c.arguments,
    ensures
        detect(slide_all(window, seq![a, b, c])) is Some,
        window.len() == 0 ==> detect(slide_all(window, seq![a, b, c])) == Some(
            loop_message(a.name),
        ),
{
    let calls = seq![a, b, c];
    let two = seq![a, b];
    let one = seq![a];
    assert(calls.drop_last() =~= two);
    assert(two.drop_last() =~= one);
    assert(one.drop_last() =~= Seq::<ToolCallView>::empty());
    assert(calls.last() == c && two.last() == b && one.last() == a);
    let w0 = slide_all(window, Seq::<ToolCallView>::empty());
    assert(w0 == window);
    let w1 = slide(window, signature_of(a));
    assert(slide_all(window, one) == w1);
    let w2 = slide(w1, signature_of(b));
    assert(slide_all(window, two) == w2);
    let w3 = slide(w2, signature_of(c));
    assert(slide_all(window, calls) == w3);
    lemma_slide(window, signature_of(a));
    lemma_slide(w1, signature_of(b));
    lemma_slide(w2, signature_of(c));
    assert(repeats_at(w3, w3.len() - 1));
    lemma_first_repeat(w3, 0);
    if window.len() == 0 {
        assert(w3 =~= seq![signature_of(a), signature_of(b), signature_of(c)]);
        assert(repeats_at(w3, 2));
        assert forall|j: int| 0 <= j < 2 implies !repeats_at(w3, j) by {}
        lemma_first_repeat_is(w3, 0, 2);
    }
}

/// A window of at most five signatures holds at most five after any calls.
pub proof fn window_stays_within_its_size(
    window: Seq<ToolCallSignatureView>,
    calls: Seq<ToolCallView>,
)
    requires
        window.len() <= LOOP_DETECTION_WINDOW,
    ensures
        slide_all(window, calls).len() <= LOOP_DETECTION_WINDOW,
    decreases calls.len(),
{
    if calls.len() > 0 {
        window_stays_within_its_size(window, calls.drop_last());
    }
}

/// Two equal calls and a third with another signature, fed to an empty
/// window, are not reported.
pub proof fn two_calls_and_another_are_not_reported(a: ToolCallView, b: ToolCallView, c: ToolCallView)
    requires
        signature_of(c) != signature_of(b),
    ensures
        detect(slide_all(Seq::empty(), seq![a, b, c])) is None,
{
    let calls = seq![a, b, c];
    let two = seq![a, b];
    let one = seq![a];
    let none = Seq::<ToolCallSignatureView>::empty();
    assert(calls.drop_last() =~= two);
    assert(two.drop_last() =~= one);
    assert(one.drop_last() =~= Seq::<ToolCallView>::empty());
    assert(calls.last() == c && two.last() == b && one.last() == a);
    assert(slide_all(none, Seq::<ToolCallView>::empty()) == none);
    let w1 = slide(none, signature_of(a));
    assert(slide_all(none, one) == w1);
    let w2 = slide(w1, signature_of(b));
    assert(slide_all(none, two) == w2);
    let w3 = slide(w2, signature_of(c));
    assert(slide_all(none, calls) == w3);
    assert(w3 =~= seq![signature_of(a), signature_of(b), signature_of(c)]);
    assert forall|j: int| 0 <= j implies !repeats_at(w3, j) by {}
    lemma_first_repeat_none(w3, 0);
}

/// The message that reports a loop on the tool `name`.
pub fn loop_message_for(name: &str) -> (r: String)
    ensures
        r@ == loop_message(name@),
{
    let mut message = "Tool loop detected: '".to_owned();
    message.append(name);
    message.append(
        "' called 3 times with same arguments. The model may be stuck. Try rephrasing your request or using a larger model.",
    );
    message
}

/// Enters the signatures of `tool_calls` into the window, then looks for
/// three equal signatures in a row. Returns the report where there are.
pub fn detect_tool_loop(recent_calls: &mut VecDeque<ToolCallSignature>, tool_calls: &Vec<ToolCall>)
    -> (r: Option<String>)
    ensures
        final(recent_calls).deep_view() == slide_all(
            old(recent_calls).deep_view(),
            tool_calls.deep_view(),
        ),
        r.deep_view() == detect(final(recent_calls).deep_view()),
{
    broadcast use vstd::std_specs::vecdeque::axiom_spec_len;

    let ghost start = recent_calls.deep_view();
    let mut k: usize = 0;
    assert(tool_calls.deep_view().take(0) =~= Seq::<ToolCallView>::empty());
    while k < tool_calls.len()
        invariant
            k <= tool_calls.len(),
            recent_calls.deep_view() == slide_all(start, tool_calls.deep_view().take(k as int)),
        decreases tool_calls.len() - k,
    {
        let ghost before = recent_calls.deep_view();
        let signature = ToolCallSignature::from_tool_call(&tool_calls[k]);
        recent_calls.push_back(signature);
        assert(recent_calls.deep_view() =~= before.push(signature@));
        if recent_calls.len() > LOOP_DETECTION_WINDOW {
            let ghost grown = recent_calls.deep_view();
            let _ = recent_calls.pop_front();
            assert(recent_calls.deep_view() =~= grown.drop_first());
        }
        proof {
            let done = tool_calls.deep_view().take(k as int);
            let next = tool_calls.deep_view().take(k + 1);
            assert(next.drop_last() =~= done);
            assert(next.last() == tool_calls[k as int]@);
        }
        k += 1;
    }
    assert(tool_calls.deep_view().take(tool_calls.len() as int) =~= tool_calls.deep_view());
    let ghost window = recent_calls.deep_view();
    if recent_calls.len() < 3 {
        proof {
            lemma_first_repeat_none(window, 0);
        }
        return None;
    }
    let mut i: usize = 2;
    while i < recent_calls.len()
        invariant
            2 <= i <= recent_calls.len(),
            window == recent_calls.deep_view(),
            window == slide_all(old(recent_calls).deep_view(), tool_calls.deep_view()),
            forall|j: int| 0 <= j < i ==> !repeats_at(window, j),
        decreases recent_calls.len() - i,
    {
        if recent_calls[i].same(&recent_calls[i - 1]) && recent_calls[i - 1].same(
            &recent_calls[i - 2],
        ) {
            proof {
                lemma_first_repeat_is(window, 0, i as int);
            }
            return Some(loop_message_for(recent_calls[i].name.as_str()));
        }
        i += 1;
    }
    proof {
        lemma_first_repeat_none(window, 0);
    }
    None
}

} // verus!
