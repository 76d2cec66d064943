//! Reassembly of one assistant message from the chunks of a streamed reply.
//!
//! Text deltas are concatenated in arrival order. Tool-call fragments are
//! collected per fragment index: the id and the name are taken from the first
//! fragment that supplies them, the argument pieces are concatenated in
//! arrival order, and the finished calls are listed by ascending index,
//! whatever the order in which their fragments arrived.

use crate::agent::event::{emit, AgentEvent, EventView};
use crate::api::deepseek::{
    FunctionCall, FunctionCallView, Message, MessageView, StreamChunk, StreamChunkView,
    StreamToolCall, StreamToolCallView, ToolCall, ToolCallView,
};
use vstd::prelude::*;

verus! {

/// A tool call under construction.
pub ghost struct FragmentView {
    pub index: int,
    pub id: Option<Seq<char>>,
    pub name: Option<Seq<char>>,
    pub arguments: Seq<char>,
}

impl FragmentView {
    /// The call at `index` before any fragment of it has been absorbed.
    pub open spec fn fresh(index: int) -> FragmentView {
        FragmentView { index, id: None, name: None, arguments: Seq::empty() }
    }

    /// The call after one more fragment: id and name are set once, by the
    /// first fragment that supplies them; argument text is appended.
    pub open spec fn absorb(self, piece: StreamToolCallView) -> FragmentView {
        FragmentView {
            index: self.index,
            id: if self.id is Some {
                self.id
            } else {
                piece.id
            },
            name: if self.name is Some {
                self.name
            } else {
                piece.name()
            },
            arguments: match piece.arguments() {
                Some(text) => self.arguments + text,
                None => self.arguments,
            },
        }
    }

    /// The finished call. An id or a name that no fragment supplied is empty.
    pub open spec fn finish(self) -> ToolCallView {
        ToolCallView {
            id: match self.id {
                Some(id) => id,
                None => Seq::empty(),
            },
            kind: "function"@,
            function: FunctionCallView {
                name: match self.name {
                    Some(name) => name,
                    None => Seq::empty(),
                },
                arguments: self.arguments,
            },
        }
    }
}

/// Number of leading entries of `table` whose index is below `index`: where
/// the call at `index` stands, or would stand, in a table ordered by index.
pub open spec fn slot(table: Seq<FragmentView>, index: int) -> int
    decreases table.len(),
{
    if table.len() == 0 || table[0].index >= index {
        0
    } else {
        1 + slot(table.drop_first(), index)
    }
}

/// The entry of `table` for `index`, if it has one.
pub open spec fn entry(table: Seq<FragmentView>, index: int) -> Option<FragmentView> {
    let at = slot(table, index);
    if at < table.len() && table[at].index == index {
        Some(table[at])
    } else {
        None
    }
}

/// `table` after one fragment: the fragment is merged into the entry of its
/// index, which is created in its place in the order if it is new.
pub open spec fn absorb_piece(table: Seq<FragmentView>, piece: StreamToolCallView) -> Seq<
    FragmentView,
> {
    let at = slot(table, piece.index);
    if at < table.len() && table[at].index == piece.index {
        table.update(at, table[at].absorb(piece))
    } else {
        table.insert(at, FragmentView::fresh(piece.index).absorb(piece))
    }
}

/// `table` after the fragments `pieces`, absorbed in arrival order.
pub open spec fn absorb_pieces(table: Seq<FragmentView>, pieces: Seq<StreamToolCallView>) -> Seq<
    FragmentView,
>
    decreases pieces.len(),
{
    if pieces.len() == 0 {
        table
    } else {
        absorb_piece(absorb_pieces(table, pieces.drop_last()), pieces.last())
    }
}

/// The finished calls of `table`, in table order.
pub open spec fn finished_calls(table: Seq<FragmentView>) -> Seq<ToolCallView> {
    Seq::new(table.len(), |i: int| table[i].finish())
}

/// The entries of `table` stand in strictly ascending order of index.
pub open spec fn ascending(table: Seq<FragmentView>) -> bool {
    forall|i: int, j: int|
        0 <= i < j < table.len() ==> (#[trigger] table[i]).index < (#[trigger] table[j]).index
}

/// The text delta that `chunk` carries: that of its first choice.
pub open spec fn chunk_text(chunk: StreamChunkView) -> Option<Seq<char>> {
    if chunk.choices.len() > 0 {
        chunk.choices[0].delta.content
    } else {
        None
    }
}

/// The tool-call fragments that `chunk` carries, in the order it lists them.
pub open spec fn chunk_pieces(chunk: StreamChunkView) -> Seq<StreamToolCallView> {
    if chunk.choices.len() > 0 {
        match chunk.choices[0].delta.tool_calls {
            Some(pieces) => pieces,
            None => Seq::empty(),
        }
    } else {
        Seq::empty()
    }
}

/// Whether `chunk` carries the finish marker, which ends the turn's stream.
pub open spec fn chunk_finishes(chunk: StreamChunkView) -> bool {
    chunk.choices.len() > 0 && chunk.choices[0].finish_reason is Some
}

/// The live events that `chunk` gives rise to: its text delta, if it has one.
pub open spec fn chunk_events(chunk: StreamChunkView) -> Seq<EventView> {
    match chunk_text(chunk) {
        Some(text) => seq![EventView::StreamChunk(text)],
        None => Seq::empty(),
    }
}

/// Mathematical value of a [`StreamAggregator`]: the text so far and the
/// table of tool calls under construction.
pub ghost struct AggregatorView {
    pub content: Seq<char>,
    pub fragments: Seq<FragmentView>,
}

impl AggregatorView {
    /// The state before the first chunk.
    pub open spec fn empty() -> AggregatorView {
        AggregatorView { content: Seq::empty(), fragments: Seq::empty() }
    }

    /// The state after one more chunk.
    pub open spec fn absorb(self, chunk: StreamChunkView) -> AggregatorView {
        AggregatorView {
            content: match chunk_text(chunk) {
                Some(text) => self.content + text,
                None => self.content,
            },
            fragments: absorb_pieces(self.fragments, chunk_pieces(chunk)),
        }
    }

    /// The finalized assistant message: the content is always present, and
    /// the tool calls are absent when there are none.
    pub open spec fn message(self) -> MessageView {
        MessageView::assistant(
            self.content,
            if self.fragments.len() == 0 {
                None
            } else {
                Some(finished_calls(self.fragments))
            },
        )
    }
}

/// `slot` is within bounds; the entries before it have smaller indices, and
/// the entry at it, if there is one, has not.
pub proof fn lemma_slot(table: Seq<FragmentView>, index: int)
    ensures
        0 <= slot(table, index) <= table.len(),
        forall|k: int| 0 <= k < slot(table, index) ==> (#[trigger] table[k]).index < index,
        slot(table, index) < table.len() ==> table[slot(table, index)].index >= index,
    decreases table.len(),
{
    if table.len() == 0 || table[0].index >= index {
    } else {
        let rest = table.drop_first();
        lemma_slot(rest, index);
        assert forall|k: int| 0 <= k < slot(table, index) implies (#[trigger] table[k]).index
            < index by {
            if k > 0 {
                assert(table[k] == rest[k - 1]);
            }
        }
    }
}

/// The first place whose entry does not have a smaller index is the slot.
pub proof fn lemma_slot_is(table: Seq<FragmentView>, index: int, at: int)
    requires
        0 <= at <= table.len(),
        forall|k: int| 0 <= k < at ==> (#[trigger] table[k]).index < index,
        at < table.len() ==> table[at].index >= index,
    ensures
        slot(table, index) == at,
    decreases table.len(),
{
    if table.len() == 0 || at == 0 {
    } else {
        assert(table[0].index < index);
        let rest = table.drop_first();
        assert forall|k: int| 0 <= k < at - 1 implies (#[trigger] rest[k]).index < index by {
            assert(rest[k] == table[k + 1]);
        }
        lemma_slot_is(rest, index, at - 1);
    }
}

/// A tool call under construction, as the aggregator holds it.
struct ToolCallFragment {
    index: i32,
    id: Option<String>,
    name: Option<String>,
    arguments: String,
}

impl View for ToolCallFragment {
    type V = FragmentView;

    closed spec fn view(&self) -> FragmentView {
        FragmentView {
            index: self.index as int,
            id: self.id.deep_view(),
            name: self.name.deep_view(),
            arguments: self.arguments@,
        }
    }
}

impl DeepView for ToolCallFragment {
    type V = FragmentView;

    closed spec fn deep_view(&self) -> FragmentView {
        self@
    }
}

impl ToolCallFragment {
    fn fresh(index: i32) -> (fragment: Self)
        ensures
            fragment@ == FragmentView::fresh(index as int),
    {
        ToolCallFragment { index, id: None, name: None, arguments: String::new() }
    }

    fn absorb(self, piece: &StreamToolCall) -> (merged: Self)
        ensures
            merged@ == self@.absorb(piece@),
    {
        let id = match self.id {
            Some(id) => Some(id),
            None => match &piece.id {
                Some(id) => Some(id.clone()),
                None => None,
            },
        };
        let mut name = self.name;
        let mut arguments = self.arguments;
        match &piece.function {
            Some(function) => {
                if name.is_none() {
                    name =
                    match &function.name {
                        Some(n) => Some(n.clone()),
                        None => None,
                    };
                }
                match &function.arguments {
                    Some(text) => {
                        arguments.append(text.as_str());
                    },
                    None => {},
                }
            },
            None => {},
        }
        ToolCallFragment { index: self.index, id, name, arguments }
    }

    fn finish(self) -> (call: ToolCall)
        ensures
            call@ == self@.finish(),
    {
        let id = match self.id {
            Some(id) => id,
            None => String::new(),
        };
        let name = match self.name {
            Some(name) => name,
            None => String::new(),
        };
        ToolCall {
            id,
            kind: "function".to_owned(),
            function: FunctionCall { name, arguments: self.arguments },
        }
    }
}

fn absorb_into(fragments: &mut Vec<ToolCallFragment>, piece: &StreamToolCall)
    ensures
        final(fragments).deep_view() == absorb_piece(old(fragments).deep_view(), piece@),
{
    let ghost before = fragments.deep_view();
    let mut at: usize = 0;
    while at < fragments.len() && fragments[at].index < piece.index
        invariant
            at <= fragments.len(),
            fragments.deep_view() == before,
            forall|k: int| 0 <= k < at ==> (#[trigger] before[k]).index < piece.index,
        decreases fragments.len() - at,
    {
        at += 1;
    }
    proof {
        lemma_slot_is(before, piece.index as int, at as int);
    }
    if at < fragments.len() && fragments[at].index == piece.index {
        let fragment = fragments.remove(at);
        let merged = fragment.absorb(piece);
        fragments.insert(at, merged);
        assert(fragments.deep_view() =~= before.update(at as int, before[at as int].absorb(piece@)));
    } else {
        let created = ToolCallFragment::fresh(piece.index).absorb(piece);
        fragments.insert(at, created);
        assert(fragments.deep_view() =~= before.insert(
            at as int,
            FragmentView::fresh(piece.index as int).absorb(piece@),
        ));
    }
}

/// Reassembles the assistant message of one turn from the chunks of its
/// streamed reply.
pub struct StreamAggregator {
    content: String,
    fragments: Vec<ToolCallFragment>,
}

impl View for StreamAggregator {
    type V = AggregatorView;

    closed spec fn view(&self) -> AggregatorView {
        AggregatorView { content: self.content@, fragments: self.fragments.deep_view() }
    }
}

impl StreamAggregator {
    /// An aggregator that has seen no chunk yet.
    pub fn new() -> (aggregator: Self)
        ensures
            aggregator@ == AggregatorView::empty(),
    {
        let aggregator = StreamAggregator { content: String::new(), fragments: Vec::new() };
        assert(aggregator.fragments.deep_view() =~= Seq::<FragmentView>::empty());
        aggregator
    }

    /// Takes in one chunk. Its text delta, if it has one, is appended to the
    /// content and at once forwarded as a `StreamChunk` event; its tool-call
    /// fragments are merged into the table. Returns whether the chunk
    /// carries the finish marker, after which no further chunk of the turn
    /// is to be read.
    pub fn push(&mut self, chunk: &StreamChunk, events: &mut Vec<AgentEvent>) -> (finished: bool)
        ensures
            final(self)@ == old(self)@.absorb(chunk@),
            final(events).deep_view() == old(events).deep_view() + chunk_events(chunk@),
            finished == chunk_finishes(chunk@),
    {
        if chunk.choices.len() == 0 {
            assert(events.deep_view() =~= old(events).deep_view() + chunk_events(chunk@));
            return false;
        }
        let choice = &chunk.choices[0];
        assert(choice@ == chunk@.choices[0]);
        match &choice.delta.content {
            Some(text) => {
                self.content.append(text.as_str());
                emit(events, AgentEvent::StreamChunk(text.clone()));
            },
            None => {},
        }
        assert(events.deep_view() =~= old(events).deep_view() + chunk_events(chunk@));
        let ghost content = self.content@;
        assert(content == old(self)@.absorb(chunk@).content);
        match &choice.delta.tool_calls {
            Some(pieces) => {
                let ghost start = self.fragments.deep_view();
                let mut i: usize = 0;
                while i < pieces.len()
                    invariant
                        i <= pieces.len(),
                        self.content@ == content,
                        self.fragments.deep_view() == absorb_pieces(
                            start,
                            pieces.deep_view().take(i as int),
                        ),
                    decreases pieces.len() - i,
                {
                    absorb_into(&mut self.fragments, &pieces[i]);
                    proof {
                        let done = pieces.deep_view().take(i as int + 1);
                        assert(done.drop_last() =~= pieces.deep_view().take(i as int));
                        assert(done.last() == pieces[i as int]@);
                    }
                    i += 1;
                }
                assert(pieces.deep_view().take(i as int) =~= pieces.deep_view());
            },
            None => {},
        }
        choice.finish_reason.is_some()
    }

    /// The finalized message of the turn.
    pub fn finish(self) -> (message: Message)
        ensures
            message@ == self@.message(),
    {
        let mut fragments = self.fragments;
        let ghost table = fragments.deep_view();
        if fragments.len() == 0 {
            return Message::assistant(self.content, None);
        }
        let mut stack: Vec<ToolCall> = Vec::new();
        while fragments.len() > 0
            invariant
                stack.len() + fragments.len() == table.len(),
                fragments.deep_view() == table.take(fragments.len() as int),
                forall|k: int|
                    0 <= k < stack.len() ==> (#[trigger] stack[k])@ == table[table.len() - 1
                        - k].finish(),
            decreases fragments.len(),
        {
            let ghost rest = fragments.deep_view();
            let fragment = fragments.pop().unwrap();
            assert(fragment@ == rest[rest.len() - 1]);
            assert(fragments.deep_view() =~= table.take(fragments.len() as int));
            stack.push(fragment.finish());
        }
        let mut calls: Vec<ToolCall> = Vec::new();
        while stack.len() > 0
            invariant
                calls.len() + stack.len() == table.len(),
                forall|k: int| 0 <= k < calls.len() ==> (#[trigger] calls[k])@ == table[k].finish(),
                forall|k: int|
                    0 <= k < stack.len() ==> (#[trigger] stack[k])@ == table[table.len() - 1
                        - k].finish(),
            decreases stack.len(),
        {
            let call = stack.pop().unwrap();
            calls.push(call);
        }
        assert(calls.deep_view() =~= finished_calls(table));
        Message::assistant(self.content, Some(calls))
    }
}

} // verus!
