//! Chunks of a streamed answer, as the providers with an OpenAI-style
//! stream send them, and the tool calls that arrive in pieces.
//!
//! The calls of which pieces have arrived are kept in a hash map under
//! their index. In which order such a map is walked is left open, so
//! what depends on the walk is stated for whatever walk it was.

use crate::text::str_eq;
use crate::traits::provider::{ProviderEvent, ProviderEventView, ToolCall, ToolCallView};
use std::collections::HashMap;
use vstd::prelude::*;
use vstd::std_specs::hash::{group_hash_axioms, spec_keys_iter};
use vstd::std_specs::iter::IteratorSpec;
use vstd::string::*;

verus! {

broadcast use group_hash_axioms;

/// The function part of a tool call in a chunk.
#[derive(Debug)]
pub struct StreamFunction {
    pub name: Option<String>,
    pub arguments: Option<String>,
}

/// A piece of a tool call in a chunk.
#[derive(Debug)]
pub struct StreamToolCall {
    /// Which of the answer's tool calls the piece belongs to.
    pub index: usize,
    pub id: Option<String>,
    pub function: Option<StreamFunction>,
}

/// What a chunk adds to the answer.
#[derive(Debug)]
pub struct StreamDelta {
    pub content: Option<String>,
    pub reasoning_content: Option<String>,
    pub tool_calls: Option<Vec<StreamToolCall>>,
}

/// One choice of a chunk.
#[derive(Debug)]
pub struct StreamChoice {
    pub delta: StreamDelta,
    pub finish_reason: Option<String>,
}

/// A tool call of which pieces have arrived.
#[derive(Debug)]
pub struct PendingCall {
    pub id: String,
    pub name: String,
    pub arguments: String,
}

/// A `StreamFunction` as plain values.
pub struct StreamFunctionView {
    pub name: Option<Seq<char>>,
    pub arguments: Option<Seq<char>>,
}

/// A `StreamToolCall` as plain values.
pub struct StreamToolCallView {
    pub index: usize,
    pub id: Option<Seq<char>>,
    pub function: Option<StreamFunctionView>,
}

/// A `StreamDelta` as plain values.
pub struct StreamDeltaView {
    pub content: Option<Seq<char>>,
    pub reasoning_content: Option<Seq<char>>,
    pub tool_calls: Option<Seq<StreamToolCallView>>,
}

/// A `StreamChoice` as plain values.
pub struct StreamChoiceView {
    pub delta: StreamDeltaView,
    pub finish_reason: Option<Seq<char>>,
}

/// A `PendingCall` as plain values.
pub struct PendingCallView {
    pub id: Seq<char>,
    pub name: Seq<char>,
    pub arguments: Seq<char>,
}

impl View for StreamFunction {
    type V = StreamFunctionView;

    open spec fn view(&self) -> StreamFunctionView {
        StreamFunctionView { name: self.name.deep_view(), arguments: self.arguments.deep_view() }
    }
}

impl DeepView for StreamFunction {
    type V = StreamFunctionView;

    open spec fn deep_view(&self) -> StreamFunctionView {
        self@
    }
}

impl View for StreamToolCall {
    type V = StreamToolCallView;

    open spec fn view(&self) -> StreamToolCallView {
        StreamToolCallView {
            index: self.index,
            id: self.id.deep_view(),
            function: self.function.deep_view(),
        }
    }
}

impl DeepView for StreamToolCall {
    type V = StreamToolCallView;

    open spec fn deep_view(&self) -> StreamToolCallView {
        self@
    }
}

impl View for StreamDelta {
    type V = StreamDeltaView;

    open spec fn view(&self) -> StreamDeltaView {
        StreamDeltaView {
            content: self.content.deep_view(),
            reasoning_content: self.reasoning_content.deep_view(),
            tool_calls: self.tool_calls.deep_view(),
        }
    }
}

impl View for StreamChoice {
    type V = StreamChoiceView;

    open spec fn view(&self) -> StreamChoiceView {
        StreamChoiceView { delta: self.delta@, finish_reason: self.finish_reason.deep_view() }
    }
}

impl View for PendingCall {
    type V = PendingCallView;

    open spec fn view(&self) -> PendingCallView {
        PendingCallView { id: self.id@, name: self.name@, arguments: self.arguments@ }
    }
}

impl DeepView for PendingCall {
    type V = PendingCallView;

    open spec fn deep_view(&self) -> PendingCallView {
        self@
    }
}

/// `text`, or the empty text where there is none.
pub open spec fn or_empty(text: Option<Seq<char>>) -> Seq<char> {
    match text {
        Some(t) => t,
        None => Seq::empty(),
    }
}

/// `new` where it is not empty, else `old`.
pub open spec fn replaced_by(old: Seq<char>, new: Seq<char>) -> Seq<char> {
    if new.len() > 0 {
        new
    } else {
        old
    }
}

/// The pending calls as plain values.
pub open spec fn pending_view(pending: Map<usize, PendingCall>) -> Map<usize, PendingCallView> {
    Map::new(|k: usize| pending.contains_key(k), |k: usize| pending[k]@)
}

/// A call of which nothing has arrived.
pub open spec fn blank_call() -> PendingCallView {
    PendingCallView { id: Seq::empty(), name: Seq::empty(), arguments: Seq::empty() }
}

/// The pending calls after the piece `piece` has arrived. A piece without
/// a function changes nothing. Else the piece joins the call of its
/// index, which is begun where it is new: an id and a name that are not
/// empty take the place of what was there, and the arguments are added
/// at the end.
pub open spec fn merged(pending: Map<usize, PendingCallView>, piece: StreamToolCallView) -> Map<
    usize,
    PendingCallView,
> {
    match piece.function {
        None => pending,
        Some(f) => {
            let had = if pending.contains_key(piece.index) {
                pending[piece.index]
            } else {
                blank_call()
            };
            pending.insert(
                piece.index,
                PendingCallView {
                    id: replaced_by(had.id, or_empty(piece.id)),
                    name: replaced_by(had.name, or_empty(f.name)),
                    arguments: had.arguments + or_empty(f.arguments),
                },
            )
        },
    }
}

/// The pending calls after the pieces `pieces` have arrived, in order.
pub open spec fn merged_all(pending: Map<usize, PendingCallView>, pieces: Seq<StreamToolCallView>)
    -> Map<usize, PendingCallView>
    decreases pieces.len(),
{
    if pieces.len() == 0 {
        pending
    } else {
        merged(merged_all(pending, pieces.drop_last()), pieces.last())
    }
}

/// The tool call that a pending call has become.
pub open spec fn call_of(pending: PendingCallView) -> ToolCallView {
    ToolCallView { id: pending.id, name: pending.name, arguments: pending.arguments }
}

/// What a chunk means.
pub enum ChunkMeaning {
    /// The chunk gives this event and leaves the pending calls alone.
    Event(ProviderEventView),
    /// The chunk gives no event; these are the pending calls behind it.
    Pending(Map<usize, PendingCallView>),
    /// The chunk ends the answer for tool calls. These calls were pending;
    /// one of them becomes the event and all of them are dropped.
    Finished(Map<usize, PendingCallView>),
}

/// What a chunk means.
///
/// Content that is not empty is a token, and reasoning that is not empty
/// is thinking; in both cases the rest of the chunk is not read. Else
/// the pieces of tool calls join the pending calls, and the chunk may end
/// the answer for tool calls.
pub open spec fn chunk_meaning(choice: StreamChoiceView, pending: Map<usize, PendingCallView>)
    -> ChunkMeaning {
    if choice.delta.content is Some && choice.delta.content->0.len() > 0 {
        ChunkMeaning::Event(ProviderEventView::Token(choice.delta.content->0))
    } else if choice.delta.reasoning_content is Some && choice.delta.reasoning_content->0.len()
        > 0 {
        ChunkMeaning::Event(ProviderEventView::Thinking(choice.delta.reasoning_content->0))
    } else {
        let now = match choice.delta.tool_calls {
            Some(pieces) => merged_all(pending, pieces),
            None => pending,
        };
        if choice.finish_reason == Some("tool_calls"@) {
            ChunkMeaning::Finished(now)
        } else {
            ChunkMeaning::Pending(now)
        }
    }
}

/// Whether `event` is one of the calls `pending` as a tool call.
pub open spec fn is_call_of(pending: Map<usize, PendingCallView>, event: ProviderEventView)
    -> bool {
    exists|k: usize|
        #![trigger pending.contains_key(k)]
        pending.contains_key(k) && event == ProviderEventView::ToolCall(call_of(pending[k]))
}

/// Whether `keys` is a walk of the calls `pending`: each index once.
pub open spec fn is_walk(keys: Seq<usize>, pending: Map<usize, PendingCallView>) -> bool {
    keys.no_duplicates() && keys.to_set() == pending.dom()
}

/// The events for the calls that are still pending when the stream ends,
/// in the order of the walk `keys`: one for each call with arguments.
pub open spec fn leftover_calls(pending: Map<usize, PendingCallView>, keys: Seq<usize>) -> Seq<
    ProviderEventView,
>
    decreases keys.len(),
{
    if keys.len() == 0 {
        Seq::empty()
    } else {
        let before = leftover_calls(pending, keys.drop_last());
        if pending[keys.last()].arguments.len() > 0 {
            before.push(ProviderEventView::ToolCall(call_of(pending[keys.last()])))
        } else {
            before
        }
    }
}

/// The events that end a stream: the calls that are still pending, in the
/// order of the walk `keys`, then the end.
pub open spec fn closing_events(pending: Map<usize, PendingCallView>, keys: Seq<usize>) -> Seq<
    ProviderEventView,
> {
    leftover_calls(pending, keys).push(ProviderEventView::Done)
}

/// The indices of the pending calls, in the order in which the map is
/// walked.
fn walk(pending: &HashMap<usize, PendingCall>) -> (r: Vec<usize>)
    ensures
        is_walk(r@, pending_view(pending@)),
{
    let ghost all = spec_keys_iter(pending).remaining().unref();
    let mut keys: Vec<usize> = Vec::new();
    for k in it: pending.keys()
        invariant
            it.seq().unref() == all,
            keys@ == all.take(it.index() as int),
            all.to_set() == pending@.dom(),
            all.no_duplicates(),
    {
        keys.push(*k);
        assert(all.take(it.index() + 1) =~= all.take(it.index() as int).push(*k));
    }
    assert(keys@ =~= all);
    assert(pending_view(pending@).dom() =~= pending@.dom());
    keys
}

/// `text` as a string, or the empty string where there is none.
fn text_or_empty(text: &Option<String>) -> (r: String)
    ensures
        r@ == or_empty(text.deep_view()),
{
    match text {
        Some(t) => t.clone(),
        None => String::new(),
    }
}

/// `new` where it is not empty, else `old`.
fn replace_unless_empty(old: &str, new: String) -> (r: String)
    ensures
        r@ == replaced_by(old@, new@),
{
    if new.as_str().is_empty() {
        old.to_owned()
    } else {
        new
    }
}

/// Takes the piece `piece` of a tool call in.
pub fn merge_tool_call(pending: &mut HashMap<usize, PendingCall>, piece: &StreamToolCall)
    ensures
        pending_view(final(pending)@) == merged(pending_view(old(pending)@), piece@),
{
    let function = match &piece.function {
        Some(f) => f,
        None => {
            return ;
        },
    };
    let ghost before = pending_view(pending@);
    let id = text_or_empty(&piece.id);
    let name = text_or_empty(&function.name);
    let arguments = text_or_empty(&function.arguments);
    let now = match pending.get(&piece.index) {
        Some(had) => {
            assert(before.contains_key(piece.index) && before[piece.index] == had@);
            let mut all = had.arguments.clone();
            all.append(arguments.as_str());
            PendingCall {
                id: replace_unless_empty(had.id.as_str(), id),
                name: replace_unless_empty(had.name.as_str(), name),
                arguments: all,
            }
        },
        None => {
            assert(!before.contains_key(piece.index));
            assert(Seq::<char>::empty() + arguments@ =~= arguments@);
            proof {
                reveal_strlit("");
                assert(""@ =~= Seq::<char>::empty());
            }
            PendingCall {
                id: replace_unless_empty("", id),
                name: replace_unless_empty("", name),
                arguments,
            }
        },
    };
    let _ = pending.insert(piece.index, now);
    assert(pending_view(pending@) =~= before.insert(piece.index, now@));
}

/// Takes a chunk in. Returns the event that it gives, if any. Where the
/// chunk ends the answer for tool calls, the event is the call that the
/// walk of the map comes to last, and no call stays pending.
pub fn apply_chunk(choice: &StreamChoice, pending: &mut HashMap<usize, PendingCall>) -> (r: Option<
    ProviderEvent,
>)
    ensures
        match chunk_meaning(choice@, pending_view(old(pending)@)) {
            ChunkMeaning::Event(event) => r.deep_view() == Some(event) && pending_view(
                final(pending)@,
            ) == pending_view(old(pending)@),
            ChunkMeaning::Pending(now) => r is None && pending_view(final(pending)@) == now,
            ChunkMeaning::Finished(now) => {
                &&& pending_view(final(pending)@) == Map::<usize, PendingCallView>::empty()
                &&& match r {
                    Some(event) => is_call_of(now, event@),
                    None => now.dom() == Set::<usize>::empty(),
                }
            },
        },
{
    match &choice.delta.content {
        Some(content) => {
            if !content.as_str().is_empty() {
                return Some(ProviderEvent::Token(content.clone()));
            }
        },
        None => {},
    }
    match &choice.delta.reasoning_content {
        Some(reasoning) => {
            if !reasoning.as_str().is_empty() {
                return Some(ProviderEvent::Thinking(reasoning.clone()));
            }
        },
        None => {},
    }
    let ghost start = pending_view(pending@);
    match &choice.delta.tool_calls {
        Some(pieces) => {
            let ghost pv = pieces.deep_view();
            let mut k: usize = 0;
            assert(pv.take(0) =~= Seq::<StreamToolCallView>::empty());
            while k < pieces.len()
                invariant
                    k <= pieces.len(),
                    pv == pieces.deep_view(),
                    pending_view(pending@) == merged_all(start, pv.take(k as int)),
                decreases pieces.len() - k,
            {
                proof {
                    let next = pv.take(k + 1);
                    assert(next.drop_last() =~= pv.take(k as int));
                    assert(next.last() == pieces[k as int]@);
                }
                merge_tool_call(pending, &pieces[k]);
                k += 1;
            }
            assert(pv.take(pieces.len() as int) =~= pv);
        },
        None => {},
    }
    let finished = match &choice.finish_reason {
        Some(reason) => str_eq(reason.as_str(), "tool_calls"),
        None => false,
    };
    if !finished {
        return None;
    }
    let ghost now = pending_view(pending@);
    let keys = walk(pending);
    let last = if keys.len() > 0 {
        let key = keys[keys.len() - 1];
        assert(keys@.to_set().contains(key));
        assert(now.contains_key(key));
        assert(pending@.contains_key(key));
        let removed = pending.remove(&key);
        assert(removed is Some && removed->0@ == now[key]);
        removed
    } else {
        assert(now.dom() =~= Set::<usize>::empty());
        None
    };
    pending.clear();
    assert(pending_view(pending@) =~= Map::<usize, PendingCallView>::empty());
    match last {
        Some(call) => {
            let ghost key = keys@[keys@.len() - 1];
            assert(now.contains_key(key) && call@ == now[key]);
            let event = ProviderEvent::ToolCall(
                ToolCall { id: call.id, name: call.name, arguments: call.arguments },
            );
            assert(event@ == ProviderEventView::ToolCall(call_of(now[key])));
            assert(is_call_of(now, event@));
            Some(event)
        },
        None => {
            assert(keys@.len() == 0);
            None
        },
    }
}

/// The events that end a stream with the calls `pending` still open: an
/// event for each call with arguments, in the order in which the map is
/// walked, then the end.
pub fn closing(pending: &HashMap<usize, PendingCall>) -> (r: Vec<ProviderEvent>)
    ensures
        exists|keys: Seq<usize>|
            is_walk(keys, pending_view(pending@)) && r.deep_view() == #[trigger] closing_events(
                pending_view(pending@),
                keys,
            ),
{
    let ghost pv = pending_view(pending@);
    let keys = walk(pending);
    let mut events: Vec<ProviderEvent> = Vec::new();
    let mut i: usize = 0;
    assert(keys@.take(0) =~= Seq::<usize>::empty());
    assert(events.deep_view() =~= Seq::<ProviderEventView>::empty());
    while i < keys.len()
        invariant
            i <= keys.len(),
            pv == pending_view(pending@),
            is_walk(keys@, pv),
            events.deep_view() == leftover_calls(pv, keys@.take(i as int)),
        decreases keys.len() - i,
    {
        let ghost before = events.deep_view();
        proof {
            let next = keys@.take(i + 1);
            assert(next.drop_last() =~= keys@.take(i as int));
            assert(next.last() == keys@[i as int]);
            assert(keys@.to_set().contains(keys@[i as int]));
        }
        assert(pending@.contains_key(keys@[i as int]));
        let call = pending.get(&keys[i]).unwrap();
        assert(pv[keys@[i as int]] == call@);
        if !call.arguments.as_str().is_empty() {
            let event = ProviderEvent::ToolCall(
                ToolCall {
                    id: call.id.clone(),
                    name: call.name.clone(),
                    arguments: call.arguments.clone(),
                },
            );
            events.push(event);
            assert(events.deep_view() =~= before.push(event@));
        }
        i += 1;
    }
    assert(keys@.take(keys.len() as int) =~= keys@);
    let ghost calls = events.deep_view();
    events.push(ProviderEvent::Done);
    assert(events.deep_view() =~= calls.push(ProviderEventView::Done));
    assert(events.deep_view() == closing_events(pv, keys@));
    events
}

} // verus!
