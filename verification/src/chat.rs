//! The conversation state of an agentic chat loop.
//!
//! The loop itself (sending requests, reading the stream, running tools)
//! is outside work; here are the decisions it takes: how streamed deltas
//! accumulate into a message, when a message is committed to the
//! conversation, and which tool calls must be run.

use vstd::prelude::*;
use vstd::string::*;
use crate::models::consts::finish_reason;
use crate::models::message::{MessageContentView, MessageParamView};
use crate::models::tool::ToolCallView;
use crate::models::{
    ChatCompletion, ChatCompletionChunkChoice, ChatCompletionMessage, DeltaToolCall,
    FunctionToolCall, MessageParam, ToolCall,
};
use crate::text::str_eq;

verus! {

broadcast use vstd::string::group_string_axioms;

/// An error raised by the transport, carried through unread.
#[verifier::external_type_specification]
#[verifier::external_body]
pub struct ExAnyhowError(anyhow::Error);

/// Events emitted by the chat loop to its caller.
#[derive(Debug)]
pub enum ChatEvent {
    /// A complete message from a non-streaming response.
    Message(ChatCompletionMessage),
    /// A single chunk choice from a streaming response.
    ChunkChoice(Result<ChatCompletionChunkChoice, anyhow::Error>),
}

/// Partial content and tool-call data accumulated across stream chunks.
#[derive(Debug)]
pub struct MessageBuffer {
    pub role: Option<String>,
    pub content: Option<String>,
    pub tool_call: Option<ToolCall>,
}

/// A [`MessageBuffer`] with its texts as characters.
pub struct BufferView {
    pub role: Option<Seq<char>>,
    pub content: Option<Seq<char>>,
    pub tool_call: Option<ToolCallView>,
}

impl DeepView for MessageBuffer {
    type V = BufferView;

    open spec fn deep_view(&self) -> BufferView {
        BufferView {
            role: self.role.deep_view(),
            content: self.content.deep_view(),
            tool_call: self.tool_call.deep_view(),
        }
    }
}

/// The text of an optional fragment; absent counts as empty.
pub open spec fn fragment(o: Option<String>) -> Seq<char> {
    match o {
        Some(s) => s@,
        None => Seq::empty(),
    }
}

/// `more` appended to the buffered text `cur`, which may be absent.
pub open spec fn appended(cur: Option<Seq<char>>, more: Seq<char>) -> Seq<char> {
    match cur {
        Some(b) => b + more,
        None => more,
    }
}

/// The function name carried by a delta.
pub open spec fn delta_name(d: DeltaToolCall) -> Seq<char> {
    match d.function {
        Some(f) => fragment(f.name),
        None => Seq::empty(),
    }
}

/// The argument fragment carried by a delta.
pub open spec fn delta_arguments(d: DeltaToolCall) -> Seq<char> {
    match d.function {
        Some(f) => fragment(f.arguments),
        None => Seq::empty(),
    }
}

/// The buffered tool call after one tool-call delta: a delta with an id
/// starts a new function call (named by the delta); then, while the buffered
/// call is a function call, the delta's argument fragment is appended.
pub open spec fn tool_call_after_delta(cur: Option<ToolCallView>, d: DeltaToolCall) -> Option<
    ToolCallView,
> {
    let started = match d.id {
        Some(id) => Some(
            ToolCallView::Function { id: id@, name: delta_name(d), arguments: Seq::empty() },
        ),
        None => cur,
    };
    match started {
        Some(ToolCallView::Function { id, name, arguments }) => Some(
            ToolCallView::Function { id, name, arguments: arguments + delta_arguments(d) },
        ),
        other => other,
    }
}

/// The buffered tool call after the tool-call part of a delta; only the
/// first tool-call delta of a chunk is read.
pub open spec fn tool_call_after(cur: Option<ToolCallView>, calls: Option<Vec<DeltaToolCall>>) -> Option<
    ToolCallView,
> {
    match calls {
        Some(v) => if v@.len() > 0 {
            tool_call_after_delta(cur, v@[0])
        } else {
            cur
        },
        None => cur,
    }
}

/// The buffer after the delta of a chunk choice: a non-empty role replaces
/// the buffered one, a content fragment is appended, and the tool-call
/// delta is accumulated.
pub open spec fn buffer_after_delta(b: BufferView, c: ChatCompletionChunkChoice) -> BufferView {
    BufferView {
        role: match c.delta.role {
            Some(r) => if r@.len() > 0 {
                Some(r@)
            } else {
                b.role
            },
            None => b.role,
        },
        content: match c.delta.content {
            Some(t) => Some(appended(b.content, t@)),
            None => b.content,
        },
        tool_call: tool_call_after(b.tool_call, c.delta.tool_calls),
    }
}

/// A plain text message with the given role and (possibly absent) content.
pub open spec fn text_message_view(role: Seq<char>, content: Option<Seq<char>>) -> MessageParamView {
    MessageParamView {
        role,
        content: MessageContentView::Text(
            match content {
                Some(c) => c,
                None => Seq::empty(),
            },
        ),
        refusal: None,
        name: None,
        audio: None,
        tool_calls: None,
        tool_call_id: None,
    }
}

/// The conversation so far and the partial message being streamed.
pub struct ChatView {
    pub messages: Seq<MessageParamView>,
    pub buffer: BufferView,
}

/// Commits the buffered role and content as a message, if a role is known;
/// `calls` are attached to it. The buffer keeps its tool call.
pub open spec fn commit(v: ChatView, calls: Option<Seq<ToolCallView>>) -> ChatView {
    match v.buffer.role {
        Some(r) => ChatView {
            messages: v.messages.push(
                MessageParamView { tool_calls: calls, ..text_message_view(r, v.buffer.content) },
            ),
            buffer: BufferView { role: None, content: None, tool_call: v.buffer.tool_call },
        },
        None => v,
    }
}

/// One streamed chunk choice: the state after it and the tool call to run.
///
/// Without a finish reason the delta is only buffered. With finish reason
/// `"tool_calls"` and a buffered tool call, that call is taken out of the
/// buffer, the buffered message is committed with it attached, and the call
/// is handed out to be run. With any other finish reason the buffered
/// message is committed as it is.
pub open spec fn chunk_step(v: ChatView, c: ChatCompletionChunkChoice) -> (ChatView, Option<
    ToolCallView,
>) {
    let v1 = ChatView { messages: v.messages, buffer: buffer_after_delta(v.buffer, c) };
    match c.finish_reason {
        None => (v1, None),
        Some(f) => if f@ == finish_reason::TOOL_CALLS@ {
            match v1.buffer.tool_call {
                Some(tc) => (
                    commit(
                        ChatView {
                            messages: v1.messages,
                            buffer: BufferView { tool_call: None, ..v1.buffer },
                        },
                        Some(seq![tc]),
                    ),
                    Some(tc),
                ),
                None => (v1, None),
            }
        } else {
            (commit(v1, None), None)
        },
    }
}

/// A complete (non-streamed) message: it is committed with its role and
/// text (empty when absent); its tool calls, if any, are attached and handed
/// out to be run.
pub open spec fn response_step(v: ChatView, m: ChatCompletionMessage) -> (ChatView, Option<
    Seq<ToolCallView>,
>) {
    let calls = m.tool_calls.deep_view();
    (
        ChatView {
            messages: v.messages.push(
                MessageParamView {
                    tool_calls: calls,
                    ..text_message_view(m.role@, Some(m.spec_content_or_default()))
                },
            ),
            buffer: v.buffer,
        },
        calls,
    )
}

/// The state after a sequence of streamed chunk choices, taken in order.
pub open spec fn stream_steps(v: ChatView, cs: Seq<ChatCompletionChunkChoice>) -> ChatView
    decreases cs.len(),
{
    if cs.len() == 0 {
        v
    } else {
        stream_steps(chunk_step(v, cs[0]).0, cs.drop_first())
    }
}

/// The content fragments of a sequence of chunk choices, concatenated.
pub open spec fn content_fragments(cs: Seq<ChatCompletionChunkChoice>) -> Seq<char>
    decreases cs.len(),
{
    if cs.len() == 0 {
        Seq::empty()
    } else {
        fragment(cs[0].delta.content) + content_fragments(cs.drop_first())
    }
}

/// The argument fragments of the first tool-call deltas of a sequence of
/// chunk choices, concatenated.
pub open spec fn argument_fragments(cs: Seq<ChatCompletionChunkChoice>) -> Seq<char>
    decreases cs.len(),
{
    if cs.len() == 0 {
        Seq::empty()
    } else {
        let first = match cs[0].delta.tool_calls {
            Some(v) => if v@.len() > 0 {
                delta_arguments(v@[0])
            } else {
                Seq::empty()
            },
            None => Seq::empty(),
        };
        first + argument_fragments(cs.drop_first())
    }
}

/// No chunk of `cs` finishes the message.
pub open spec fn unfinished(cs: Seq<ChatCompletionChunkChoice>) -> bool {
    forall|i: int| 0 <= i < cs.len() ==> (#[trigger] cs[i]).finish_reason is None
}

/// No chunk of `cs` starts a new tool call.
pub open spec fn no_new_tool_call(cs: Seq<ChatCompletionChunkChoice>) -> bool {
    forall|i: int|
        0 <= i < cs.len() ==> match (#[trigger] cs[i]).delta.tool_calls {
            Some(v) => v@.len() > 0 ==> v@[0].id is None,
            None => true,
        }
}

/// No chunk of `cs` names a role.
pub open spec fn no_role(cs: Seq<ChatCompletionChunkChoice>) -> bool {
    forall|i: int|
        0 <= i < cs.len() ==> match (#[trigger] cs[i]).delta.role {
            Some(r) => r@.len() == 0,
            None => true,
        }
}

/// Streamed text reassembles: while no chunk finishes the message, the
/// buffered text (absent counting as empty) is the text buffered before
/// followed by every content fragment, in order; the conversation is
/// unchanged.
pub proof fn lemma_stream_content_reassembles(v: ChatView, cs: Seq<ChatCompletionChunkChoice>)
    requires
        unfinished(cs),
    ensures
        appended(stream_steps(v, cs).buffer.content, Seq::empty()) == appended(
            v.buffer.content,
            content_fragments(cs),
        ),
        stream_steps(v, cs).messages == v.messages,
    decreases cs.len(),
{
    if cs.len() > 0 {
        let v1 = chunk_step(v, cs[0]).0;
        assert(unfinished(cs.drop_first())) by {
            assert forall|i: int| 0 <= i < cs.drop_first().len() implies (
            #[trigger] cs.drop_first()[i]).finish_reason is None by {
                assert(cs.drop_first()[i] == cs[i + 1]);
            }
        }
        assert(cs[0].finish_reason is None);
        lemma_stream_content_reassembles(v1, cs.drop_first());
        match v.buffer.content {
            Some(b) => {
                assert(b + fragment(cs[0].delta.content) + content_fragments(cs.drop_first())
                    =~= b + (fragment(cs[0].delta.content) + content_fragments(cs.drop_first())));
            },
            None => {},
        }
        match cs[0].delta.content {
            Some(t) => {},
            None => {
                assert(fragment(cs[0].delta.content) + content_fragments(cs.drop_first())
                    =~= content_fragments(cs.drop_first()));
            },
        }
    }
}

/// Streamed tool-call arguments reassemble: once a function call is being
/// buffered, while no chunk finishes the message or starts another call,
/// its arguments are the arguments buffered before followed by every
/// argument fragment, in order; its id and name stay.
pub proof fn lemma_stream_arguments_reassemble(
    v: ChatView,
    cs: Seq<ChatCompletionChunkChoice>,
    id: Seq<char>,
    name: Seq<char>,
    arguments: Seq<char>,
)
    requires
        v.buffer.tool_call == Some(ToolCallView::Function { id, name, arguments }),
        unfinished(cs),
        no_new_tool_call(cs),
    ensures
        stream_steps(v, cs).buffer.tool_call == Some(
            ToolCallView::Function { id, name, arguments: arguments + argument_fragments(cs) },
        ),
    decreases cs.len(),
{
    if cs.len() == 0 {
        assert(arguments + argument_fragments(cs) =~= arguments);
    } else {
        let v1 = chunk_step(v, cs[0]).0;
        let rest = cs.drop_first();
        assert(unfinished(rest)) by {
            assert forall|i: int| 0 <= i < rest.len() implies (#[trigger] rest[i]).finish_reason
                is None by {
                assert(rest[i] == cs[i + 1]);
            }
        }
        assert(no_new_tool_call(rest)) by {
            assert forall|i: int| 0 <= i < rest.len() implies match (#[trigger] rest[i]).delta.tool_calls {
                Some(w) => w@.len() > 0 ==> w@[0].id is None,
                None => true,
            } by {
                assert(rest[i] == cs[i + 1]);
            }
        }
        assert(cs[0].finish_reason is None);
        let first = match cs[0].delta.tool_calls {
            Some(w) => if w@.len() > 0 {
                delta_arguments(w@[0])
            } else {
                Seq::empty()
            },
            None => Seq::empty(),
        };
        match cs[0].delta.tool_calls {
            Some(w) => {
                if w@.len() > 0 {
                    assert(w@[0].id is None);
                }
            },
            None => {},
        }
        assert(v1.buffer.tool_call == Some(
            ToolCallView::Function { id, name, arguments: arguments + first },
        ));
        lemma_stream_arguments_reassemble(v1, rest, id, name, arguments + first);
        assert(arguments + first + argument_fragments(rest) =~= arguments + (first
            + argument_fragments(rest)));
    }
}

/// A streamed message is committed whole: when the role is known and the
/// chunks after it carry no role, the chunk that finishes the message (for
/// any reason but a tool call) appends exactly one text message with that
/// role and all the streamed text, and empties the buffered text.
pub proof fn lemma_stream_message_committed(
    v: ChatView,
    cs: Seq<ChatCompletionChunkChoice>,
    last: ChatCompletionChunkChoice,
    role: Seq<char>,
)
    requires
        v.buffer.role == Some(role),
        unfinished(cs),
        no_role(cs),
        no_role(seq![last]),
        last.finish_reason matches Some(f) && f@ != finish_reason::TOOL_CALLS@,
    ensures
        ({
            let w = chunk_step(stream_steps(v, cs), last).0;
            &&& w.messages == v.messages.push(
                text_message_view(
                    role,
                    Some(
                        appended(
                            v.buffer.content,
                            content_fragments(cs) + fragment(last.delta.content),
                        ),
                    ),
                ),
            )
            &&& w.buffer.role is None
            &&& w.buffer.content is None
        }),
{
    lemma_stream_content_reassembles(v, cs);
    lemma_stream_role_kept(v, cs, role);
    let u = stream_steps(v, cs);
    assert(last == seq![last][0]);
    let b = buffer_after_delta(u.buffer, last);
    assert(b.role == Some(role));
    let total = appended(v.buffer.content, content_fragments(cs) + fragment(last.delta.content));
    assert(appended(b.content, Seq::empty()) == total) by {
        match v.buffer.content {
            Some(x) => {
                assert(x + content_fragments(cs) + fragment(last.delta.content) =~= x + (
                content_fragments(cs) + fragment(last.delta.content)));
            },
            None => {},
        }
        match u.buffer.content {
            Some(y) => {},
            None => {
                assert(appended(u.buffer.content, Seq::empty()) =~= Seq::<char>::empty());
            },
        }
        match last.delta.content {
            Some(t) => {},
            None => {
                assert(content_fragments(cs) + fragment(last.delta.content) =~= content_fragments(
                    cs,
                ));
            },
        }
    }
    match b.content {
        Some(y) => {
            assert(appended(b.content, Seq::empty()) =~= y);
        },
        None => {
            assert(appended(b.content, Seq::empty()) =~= Seq::<char>::empty());
        },
    }
}

/// The buffered role stays while no chunk names one.
pub proof fn lemma_stream_role_kept(v: ChatView, cs: Seq<ChatCompletionChunkChoice>, role: Seq<char>)
    requires
        v.buffer.role == Some(role),
        unfinished(cs),
        no_role(cs),
    ensures
        stream_steps(v, cs).buffer.role == Some(role),
    decreases cs.len(),
{
    if cs.len() > 0 {
        let rest = cs.drop_first();
        assert(unfinished(rest)) by {
            assert forall|i: int| 0 <= i < rest.len() implies (#[trigger] rest[i]).finish_reason
                is None by {
                assert(rest[i] == cs[i + 1]);
            }
        }
        assert(no_role(rest)) by {
            assert forall|i: int| 0 <= i < rest.len() implies match (#[trigger] rest[i]).delta.role {
                Some(r) => r@.len() == 0,
                None => true,
            } by {
                assert(rest[i] == cs[i + 1]);
            }
        }
        assert(cs[0].finish_reason is None);
        assert(match cs[0].delta.role {
            Some(r) => r@.len() == 0,
            None => true,
        });
        lemma_stream_role_kept(chunk_step(v, cs[0]).0, rest, role);
    }
}

/// A streamed answer that ends in a tool call is recorded whole: with the
/// role known and a function call buffered, while the chunks after that
/// name no role and start no other call, the chunk that finishes with
/// reason `tool_calls` (bringing no tool-call delta of its own) appends
/// exactly one message: its role, as text all that was streamed (the
/// buffered text, every content fragment, then the last chunk's), and the
/// call with every argument fragment appended; that call is handed out, and
/// the buffer is left empty.
pub proof fn law_stream_tool_call_committed(
    v: ChatView,
    cs: Seq<ChatCompletionChunkChoice>,
    last: ChatCompletionChunkChoice,
    role: Seq<char>,
    id: Seq<char>,
    name: Seq<char>,
    arguments: Seq<char>,
)
    requires
        v.buffer.role == Some(role),
        v.buffer.tool_call == Some(ToolCallView::Function { id, name, arguments }),
        unfinished(cs),
        no_role(cs),
        no_new_tool_call(cs),
        no_role(seq![last]),
        last.delta.tool_calls is None,
        last.finish_reason matches Some(f) && f@ == finish_reason::TOOL_CALLS@,
    ensures
        ({
            let call = ToolCallView::Function {
                id,
                name,
                arguments: arguments + argument_fragments(cs),
            };
            let text = appended(
                v.buffer.content,
                content_fragments(cs) + fragment(last.delta.content),
            );
            let r = chunk_step(stream_steps(v, cs), last);
            &&& r.1 == Some(call)
            &&& r.0.messages.len() == v.messages.len() + 1
            &&& r.0.messages.drop_last() == v.messages
            &&& r.0.messages.last().role == role
            &&& r.0.messages.last().content == MessageContentView::Text(text)
            &&& r.0.messages.last().tool_calls == Some(seq![call])
            &&& r.0.buffer.role is None
            &&& r.0.buffer.content is None
            &&& r.0.buffer.tool_call is None
        }),
{
    lemma_stream_content_reassembles(v, cs);
    lemma_stream_role_kept(v, cs, role);
    lemma_stream_arguments_reassemble(v, cs, id, name, arguments);
    let u = stream_steps(v, cs);
    assert(last == seq![last][0]);
    let b = buffer_after_delta(u.buffer, last);
    assert(b.role == Some(role));
    let total = appended(v.buffer.content, content_fragments(cs) + fragment(last.delta.content));
    assert(appended(b.content, Seq::empty()) == total) by {
        match v.buffer.content {
            Some(x) => {
                assert(x + content_fragments(cs) + fragment(last.delta.content) =~= x + (
                content_fragments(cs) + fragment(last.delta.content)));
            },
            None => {},
        }
        match u.buffer.content {
            Some(y) => {},
            None => {
                assert(appended(u.buffer.content, Seq::empty()) =~= Seq::<char>::empty());
            },
        }
        match last.delta.content {
            Some(t) => {},
            None => {
                assert(content_fragments(cs) + fragment(last.delta.content) =~= content_fragments(
                    cs,
                ));
            },
        }
    }
    match b.content {
        Some(y) => {
            assert(appended(b.content, Seq::empty()) =~= y);
        },
        None => {
            assert(appended(b.content, Seq::empty()) =~= Seq::<char>::empty());
        },
    }
    let r = chunk_step(u, last);
    assert(r.0.messages.drop_last() =~= v.messages);
}

/// A complete answer is recorded as one more message with the answer's role
/// and its text (empty when absent), whether or not it has tool calls; its
/// tool calls are attached and handed out as they came; the partial
/// streamed message is untouched.
pub proof fn law_response_recorded(v: ChatView, m: ChatCompletionMessage)
    ensures
        response_step(v, m).0.messages.len() == v.messages.len() + 1,
        response_step(v, m).0.messages.drop_last() == v.messages,
        response_step(v, m).0.messages.last().role == m.role@,
        response_step(v, m).0.messages.last().content == MessageContentView::Text(
            (match m.content {
                Some(c) => c@,
                None => Seq::empty(),
            }),
        ),
        response_step(v, m).0.messages.last().tool_calls == m.tool_calls.deep_view(),
        response_step(v, m).1 == m.tool_calls.deep_view(),
        response_step(v, m).0.buffer == v.buffer,
{
    assert(response_step(v, m).0.messages.drop_last() =~= v.messages);
}

impl MessageBuffer {
    pub fn new() -> (res: MessageBuffer)
        ensures
            res.role is None,
            res.content is None,
            res.tool_call is None,
    {
        MessageBuffer { role: None, content: None, tool_call: None }
    }

    /// Appends a content fragment.
    pub fn push_content(&mut self, content: String)
        ensures
            final(self).content.deep_view() == Some(appended(old(self).content.deep_view(), content@)),
            final(self).role == old(self).role,
            final(self).tool_call == old(self).tool_call,
    {
        let cur = self.content.take();
        match cur {
            Some(b) => {
                let mut b = b;
                b.append(content.as_str());
                self.content = Some(b);
            },
            None => {
                self.content = Some(content);
            },
        }
    }

    /// Drains the buffered role and content into a text message, if a role
    /// is present; the tool call stays.
    pub fn take_message_param(&mut self) -> (res: Option<MessageParam>)
        ensures
            match old(self).role {
                Some(r) => res matches Some(p) && p.deep_view() == text_message_view(
                    r@,
                    old(self).content.deep_view(),
                ) && final(self).role is None && final(self).content is None,
                None => res is None && final(self).role is None && final(self).content
                    == old(self).content,
            },
            final(self).tool_call == old(self).tool_call,
    {
        let role = match self.role.take() {
            Some(r) => r,
            None => return None,
        };
        let content = match self.content.take() {
            Some(c) => c,
            None => String::new(),
        };
        Some(MessageParam::new(role, content))
    }

    /// Accumulates the first tool-call delta of a chunk.
    pub fn accumulate_tool_call_chunk(&mut self, calls: Option<Vec<DeltaToolCall>>)
        ensures
            final(self).tool_call.deep_view() == tool_call_after(
                old(self).tool_call.deep_view(),
                calls,
            ),
            final(self).role == old(self).role,
            final(self).content == old(self).content,
    {
        let mut calls = match calls {
            Some(v) => v,
            None => return,
        };
        if calls.len() == 0 {
            return;
        }
        let ghost first = calls@[0];
        let delta = calls.remove(0);
        let DeltaToolCall { id, function, .. } = delta;
        let (name, arguments) = match function {
            Some(f) => (f.name, f.arguments),
            None => (None, None),
        };
        match id {
            Some(id) => {
                let name = match name {
                    Some(n) => n,
                    None => String::new(),
                };
                self.tool_call = Some(
                    ToolCall::Function {
                        id,
                        function: FunctionToolCall { name, arguments: String::new() },
                    },
                );
            },
            None => {},
        }
        let args = match arguments {
            Some(a) => a,
            None => String::new(),
        };
        match &mut self.tool_call {
            Some(ToolCall::Function { function, .. }) => {
                function.arguments.append(args.as_str());
            },
            _ => {},
        }
        assert(final(self).tool_call.deep_view() == tool_call_after_delta(
            old(self).tool_call.deep_view(),
            first,
        ));
    }
}

/// The conversation of a chat and the message being streamed.
pub struct Chat {
    completion: ChatCompletion,
    buffer: MessageBuffer,
}

impl Chat {
    pub closed spec fn view(&self) -> ChatView {
        ChatView { messages: self.completion.messages.deep_view(), buffer: self.buffer.deep_view() }
    }

    /// The request, apart from its messages, is what it was made with.
    pub closed spec fn request(&self) -> ChatCompletion {
        self.completion
    }

    /// A chat that continues the conversation of `completion`.
    pub fn new(completion: ChatCompletion) -> (res: Chat)
        ensures
            res.view().messages == completion.messages.deep_view(),
            res.view().buffer == (BufferView { role: None, content: None, tool_call: None }),
            res.request() == completion,
    {
        Chat { completion, buffer: MessageBuffer::new() }
    }

    /// The request to send for the conversation so far.
    pub fn completion(&self) -> (res: &ChatCompletion)
        ensures
            res.messages.deep_view() == self.view().messages,
            *res == self.request(),
    {
        &self.completion
    }

    /// Appends a batch of messages to the conversation. An empty batch
    /// changes nothing and asks for no request; otherwise the result is
    /// `true`: a request is due.
    pub fn accept_messages(&mut self, batch: Vec<MessageParam>) -> (res: bool)
        ensures
            res == (batch@.len() > 0),
            final(self).view().messages == old(self).view().messages + batch.deep_view(),
            final(self).view().buffer == old(self).view().buffer,
    {
        if batch.len() == 0 {
            assert(batch.deep_view() =~= Seq::<MessageParamView>::empty());
            assert(old(self).view().messages + batch.deep_view() =~= old(self).view().messages);
            return false;
        }
        let ghost before = self.completion.messages@;
        let mut batch = batch;
        let ghost b = batch@;
        self.completion.messages.append(&mut batch);
        assert(self.completion.messages.deep_view() =~= before.map_values(
            |m: MessageParam| m.deep_view(),
        ) + b.map_values(|m: MessageParam| m.deep_view()));
        true
    }

    fn push_message(&mut self, p: MessageParam)
        ensures
            final(self).completion.messages.deep_view() == old(
                self,
            ).completion.messages.deep_view().push(p.deep_view()),
            final(self).buffer == old(self).buffer,
            final(self).completion == (ChatCompletion {
                messages: final(self).completion.messages,
                ..old(self).completion
            }),
    {
        let ghost before = self.completion.messages@;
        self.completion.messages.push(p);
        assert(self.completion.messages.deep_view() =~= before.map_values(
            |m: MessageParam| m.deep_view(),
        ).push(p.deep_view()));
    }

    /// Takes in one streamed chunk choice; returns the tool call to run, if
    /// the choice finishes a tool call.
    pub fn on_chunk_choice(&mut self, choice: ChatCompletionChunkChoice) -> (res: Option<ToolCall>)
        ensures
            final(self).view() == chunk_step(old(self).view(), choice).0,
            res.deep_view() == chunk_step(old(self).view(), choice).1,
            final(self).request() == (ChatCompletion {
                messages: final(self).request().messages,
                ..old(self).request()
            }),
    {
        let ghost c = choice;
        let ChatCompletionChunkChoice { delta, finish_reason: finish, .. } = choice;
        match delta.role {
            Some(role) => {
                if role.as_str().unicode_len() > 0 {
                    self.buffer.role = Some(role);
                }
            },
            None => {},
        }
        match delta.content {
            Some(content) => self.buffer.push_content(content),
            None => {},
        }
        self.buffer.accumulate_tool_call_chunk(delta.tool_calls);
        assert(self.buffer.deep_view() == buffer_after_delta(old(self).buffer.deep_view(), c));
        let finish = match finish {
            Some(f) => f,
            None => return None,
        };
        if str_eq(finish.as_str(), finish_reason::TOOL_CALLS) {
            let tc = match self.buffer.tool_call.take() {
                Some(tc) => tc,
                None => return None,
            };
            match self.buffer.take_message_param() {
                Some(param) => {
                    let mut calls: Vec<ToolCall> = Vec::new();
                    calls.push(tc.clone());
                    assert(calls.deep_view() =~= seq![tc.deep_view()]);
                    self.push_message(param.tool_calls(calls));
                },
                None => {},
            }
            Some(tc)
        } else {
            match self.buffer.take_message_param() {
                Some(param) => self.push_message(param),
                None => {},
            }
            None
        }
    }

    /// Takes in the message of a complete response; returns its tool calls,
    /// which are to be run.
    pub fn on_response_message(&mut self, message: ChatCompletionMessage) -> (res: Option<
        Vec<ToolCall>,
    >)
        ensures
            final(self).view() == response_step(old(self).view(), message).0,
            res.deep_view() == response_step(old(self).view(), message).1,
            final(self).request() == (ChatCompletion {
                messages: final(self).request().messages,
                ..old(self).request()
            }),
    {
        let ghost m = message;
        let text = String::from_str(message.content_or_default());
        let ChatCompletionMessage { role, tool_calls, .. } = message;
        match tool_calls {
            Some(calls) => {
                let copy = calls.clone();
                assert(copy@ =~= calls@);
                self.push_message(MessageParam::new(role, text).tool_calls(copy));
                Some(calls)
            },
            None => {
                self.push_message(MessageParam::new(role, text));
                None
            },
        }
    }
}

} // verus!
