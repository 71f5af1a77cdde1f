//! Message bodies and the message parameters of a request.

use vstd::prelude::*;
use vstd::string::*;
use crate::models::consts::role;
use crate::models::tool::call::{ToolCall, ToolCallView};
use crate::text::str_eq;
use super::part::{ContentPart, FileData};

verus! {

/// The body of a [`MessageParam`].
///
/// Most messages carry plain text; multimodal messages carry a list of
/// [`ContentPart`]s. `Empty` (written as JSON `null`) is used for assistant
/// messages that consist solely of tool calls.
#[derive(Debug)]
pub enum MessageContent {
    /// Simple text body.
    Text(String),

    /// One or more typed content parts (text, image, audio, file).
    Parts(Vec<ContentPart>),

    /// No content.
    Empty,
}

impl Default for MessageContent {
    fn default() -> (res: MessageContent)
        ensures
            res is Empty,
    {
        MessageContent::Empty
    }
}

/// `new` is `old` with one part appended that satisfies `pred`, when `old`
/// is multi-part; otherwise `new` is `old`.
pub open spec fn content_after_push(
    old: MessageContent,
    new: MessageContent,
    pred: spec_fn(ContentPart) -> bool,
) -> bool {
    match old {
        MessageContent::Parts(ps) => new matches MessageContent::Parts(qs) && qs@.len() == ps@.len() + 1
            && qs@.drop_last() == ps@ && pred(qs@.last()),
        _ => new == old,
    }
}

/// Appending a part that satisfies `pred` meets [`content_after_push`].
proof fn lemma_push_gives_content_after_push(
    old: MessageContent,
    new: MessageContent,
    part: ContentPart,
    pred: spec_fn(ContentPart) -> bool,
)
    requires
        pred(part),
        match old {
            MessageContent::Parts(ps) => new matches MessageContent::Parts(qs) && qs@ == ps@.push(part),
            _ => new == old,
        },
    ensures
        content_after_push(old, new, pred),
{
    if let MessageContent::Parts(ps) = old {
        if let MessageContent::Parts(qs) = new {
            assert(qs@.drop_last() =~= ps@);
        }
    }
}

impl MessageContent {
    /// `true` for the `Empty` variant.
    pub fn is_none(&self) -> (res: bool)
        ensures
            res == (*self is Empty),
    {
        match self {
            MessageContent::Empty => true,
            _ => false,
        }
    }

    /// The text of a `Text` body.
    pub fn as_text(&self) -> (res: Option<&str>)
        ensures
            match *self {
                MessageContent::Text(t) => res matches Some(r) && r@ == t@,
                _ => res is None,
            },
    {
        match self {
            MessageContent::Text(t) => Some(t.as_str()),
            _ => None,
        }
    }

    /// A mutable reference to the text of a `Text` body.
    pub fn as_mut_text(&mut self) -> (res: Option<&mut String>)
        ensures
            match *old(self) {
                MessageContent::Text(t) => res matches Some(r) && *r == t
                    && *final(self) == MessageContent::Text(*final(r)),
                _ => res is None && *final(self) == *old(self),
            },
    {
        match self {
            MessageContent::Text(t) => Some(t),
            _ => None,
        }
    }

    /// The parts of a `Parts` body.
    pub fn as_parts(&self) -> (res: Option<&[ContentPart]>)
        ensures
            match *self {
                MessageContent::Parts(p) => res matches Some(r) && r@ == p@,
                _ => res is None,
            },
    {
        match self {
            MessageContent::Parts(p) => Some(p.as_slice()),
            _ => None,
        }
    }
}

impl From<String> for MessageContent {
    fn from(s: String) -> (res: MessageContent)
        ensures
            res == MessageContent::Text(s),
    {
        MessageContent::Text(s)
    }
}

impl vstd::std_specs::convert::FromSpecImpl<String> for MessageContent {
    open spec fn obeys_from_spec() -> bool {
        true
    }

    open spec fn from_spec(v: String) -> MessageContent {
        MessageContent::Text(v)
    }
}

impl From<Vec<ContentPart>> for MessageContent {
    fn from(parts: Vec<ContentPart>) -> (res: MessageContent)
        ensures
            res == MessageContent::Parts(parts),
    {
        MessageContent::Parts(parts)
    }
}

impl vstd::std_specs::convert::FromSpecImpl<Vec<ContentPart>> for MessageContent {
    open spec fn obeys_from_spec() -> bool {
        true
    }

    open spec fn from_spec(v: Vec<ContentPart>) -> MessageContent {
        MessageContent::Parts(v)
    }
}

/// Another name for [`MessageContent`].
pub type ChatCompletionMessageContent = MessageContent;

/// Reference to a prior audio response, used to include it in a follow-up
/// turn without uploading the audio again.
#[derive(Debug)]
pub struct AudioResponseData {
    /// The `id` of the earlier audio response.
    pub id: String,
}

/// A single message in a chat conversation, sent as part of a request.
#[derive(Debug)]
pub struct MessageParam {
    /// Conversation role (`"user"`, `"assistant"`, `"system"`, `"developer"`,
    /// `"tool"`).
    pub role: String,

    /// Textual or multipart body of the message.
    pub content: MessageContent,

    /// Set when the assistant message carries a model refusal.
    pub refusal: Option<String>,

    /// Optional name to disambiguate participants with the same role.
    pub name: Option<String>,

    /// Back-reference to a prior audio response (assistant messages only).
    pub audio: Option<AudioResponseData>,

    /// Tool calls requested by the assistant (assistant messages only).
    pub tool_calls: Option<Vec<ToolCall>>,

    /// The tool call this message answers (tool messages only).
    pub tool_call_id: Option<String>,
}

impl Default for MessageParam {
    fn default() -> (res: MessageParam)
        ensures
            res.role@ == Seq::<char>::empty(),
            res.content is Empty,
            res.refusal is None,
            res.name is None,
            res.audio is None,
            res.tool_calls is None,
            res.tool_call_id is None,
    {
        MessageParam {
            role: String::new(),
            content: MessageContent::Empty,
            refusal: None,
            name: None,
            audio: None,
            tool_calls: None,
            tool_call_id: None,
        }
    }
}

impl MessageParam {
    /// A plain-text message: role `role`, body `content`, every optional
    /// field absent.
    pub open spec fn is_text_message(self, role: Seq<char>, content: Seq<char>) -> bool {
        &&& self.role@ == role
        &&& self.content matches MessageContent::Text(t) && t@ == content
        &&& self.refusal is None
        &&& self.name is None
        &&& self.audio is None
        &&& self.tool_calls is None
        &&& self.tool_call_id is None
    }

    /// Every field but `content` is the same in `self` and `other`.
    pub open spec fn same_but_content(self, other: MessageParam) -> bool {
        &&& self.role == other.role
        &&& self.refusal == other.refusal
        &&& self.name == other.name
        &&& self.audio == other.audio
        &&& self.tool_calls == other.tool_calls
        &&& self.tool_call_id == other.tool_call_id
    }

    /// A text message with the given role.
    pub fn new(role: String, content: String) -> (res: MessageParam)
        ensures
            res == (MessageParam {
                role,
                content: MessageContent::Text(content),
                refusal: None,
                name: None,
                audio: None,
                tool_calls: None,
                tool_call_id: None,
            }),
    {
        MessageParam {
            role,
            content: MessageContent::Text(content),
            refusal: None,
            name: None,
            audio: None,
            tool_calls: None,
            tool_call_id: None,
        }
    }

    /// A multi-part message with no parts yet.
    pub fn new_with_parts(role: String) -> (res: MessageParam)
        ensures
            res.role == role,
            res.content matches MessageContent::Parts(ps) && ps@.len() == 0,
            res.refusal is None,
            res.name is None,
            res.audio is None,
            res.tool_calls is None,
            res.tool_call_id is None,
    {
        MessageParam {
            role,
            content: MessageContent::Parts(Vec::new()),
            refusal: None,
            name: None,
            audio: None,
            tool_calls: None,
            tool_call_id: None,
        }
    }

    /// A `developer` role message.
    pub fn developer(content: String) -> (res: MessageParam)
        ensures
            res.is_text_message(role::DEVELOPER@, content@),
    {
        MessageParam::new(String::from_str(role::DEVELOPER), content)
    }

    /// A `system` role message.
    pub fn system(content: String) -> (res: MessageParam)
        ensures
            res.is_text_message(role::SYSTEM@, content@),
    {
        MessageParam::new(String::from_str(role::SYSTEM), content)
    }

    /// A `user` role message.
    pub fn user(content: String) -> (res: MessageParam)
        ensures
            res.is_text_message(role::USER@, content@),
    {
        MessageParam::new(String::from_str(role::USER), content)
    }

    /// An `assistant` role message.
    pub fn assistant(content: String) -> (res: MessageParam)
        ensures
            res.is_text_message(role::ASSISTANT@, content@),
    {
        MessageParam::new(String::from_str(role::ASSISTANT), content)
    }

    /// A `tool` role message that carries the result of the tool call
    /// `tool_call_id`.
    pub fn tool(content: String, tool_call_id: String) -> (res: MessageParam)
        ensures
            res.role@ == role::TOOL@,
            res.content == MessageContent::Text(content),
            res.tool_call_id == Some(tool_call_id),
            res.refusal is None,
            res.name is None,
            res.audio is None,
            res.tool_calls is None,
    {
        let mut p = MessageParam::new(String::from_str(role::TOOL), content);
        p.tool_call_id = Some(tool_call_id);
        p
    }

    /// Appends a content part to a multi-part message; any other body is
    /// left as it is.
    pub fn push_part(self, part: ContentPart) -> (res: MessageParam)
        ensures
            res.same_but_content(self),
            match self.content {
                MessageContent::Parts(ps) => res.content matches MessageContent::Parts(qs)
                    && qs@ == ps@.push(part),
                _ => res.content == self.content,
            },
    {
        let mut s = self;
        match &mut s.content {
            MessageContent::Parts(parts) => {
                parts.push(part);
            },
            _ => {},
        }
        s
    }

    /// Adds a text part to a multi-part message.
    pub fn with_text(self, text: String) -> (res: MessageParam)
        ensures
            res.same_but_content(self),
            content_after_push(self.content, res.content, |p: ContentPart| p.is_text_part(text)),
    {
        let ghost before = self.content;
        let part = ContentPart::text(text);
        let res = self.push_part(part);
        proof {
            lemma_push_gives_content_after_push(before, res.content, part, |p: ContentPart| p.is_text_part(text));
        }
        res
    }

    /// Adds an image part to a multi-part message.
    pub fn with_image(self, url: String, detail: Option<String>) -> (res: MessageParam)
        ensures
            res.same_but_content(self),
            content_after_push(
                self.content,
                res.content,
                |p: ContentPart| p.is_image_part(url, detail),
            ),
    {
        let ghost before = self.content;
        let part = ContentPart::image_url(url, detail);
        let res = self.push_part(part);
        proof {
            lemma_push_gives_content_after_push(before, res.content, part, |p: ContentPart| p.is_image_part(url, detail));
        }
        res
    }

    /// Adds a file part to a multi-part message.
    pub fn with_file(self, file_data: FileData) -> (res: MessageParam)
        ensures
            res.same_but_content(self),
            content_after_push(
                self.content,
                res.content,
                |p: ContentPart| p.is_file_part(file_data),
            ),
    {
        let ghost before = self.content;
        let part = ContentPart::file(file_data);
        let res = self.push_part(part);
        proof {
            lemma_push_gives_content_after_push(before, res.content, part, |p: ContentPart| p.is_file_part(file_data));
        }
        res
    }

    /// Sets the participant name.
    pub fn set_name(self, name: String) -> (res: MessageParam)
        ensures
            res == (MessageParam { name: Some(name), ..self }),
    {
        MessageParam { name: Some(name), ..self }
    }

    /// Attaches an audio back-reference.
    pub fn set_audio(self, audio: AudioResponseData) -> (res: MessageParam)
        ensures
            res == (MessageParam { audio: Some(audio), ..self }),
    {
        MessageParam { audio: Some(audio), ..self }
    }

    /// Attaches tool calls.
    pub fn tool_calls(self, calls: Vec<ToolCall>) -> (res: MessageParam)
        ensures
            res == (MessageParam { tool_calls: Some(calls), ..self }),
    {
        MessageParam { tool_calls: Some(calls), ..self }
    }

    pub fn is_developer(&self) -> (res: bool)
        ensures
            res == (self.role@ == role::DEVELOPER@),
    {
        str_eq(self.role.as_str(), role::DEVELOPER)
    }

    pub fn is_system(&self) -> (res: bool)
        ensures
            res == (self.role@ == role::SYSTEM@),
    {
        str_eq(self.role.as_str(), role::SYSTEM)
    }

    pub fn is_user(&self) -> (res: bool)
        ensures
            res == (self.role@ == role::USER@),
    {
        str_eq(self.role.as_str(), role::USER)
    }

    pub fn is_assistant(&self) -> (res: bool)
        ensures
            res == (self.role@ == role::ASSISTANT@),
    {
        str_eq(self.role.as_str(), role::ASSISTANT)
    }

    pub fn is_tool(&self) -> (res: bool)
        ensures
            res == (self.role@ == role::TOOL@),
    {
        str_eq(self.role.as_str(), role::TOOL)
    }

    /// A mutable reference to the text, when the body is plain text.
    pub fn as_mut_text_content(&mut self) -> (res: Option<&mut String>)
        ensures
            final(self).same_but_content(*old(self)),
            match old(self).content {
                MessageContent::Text(t) => res matches Some(r) && *r == t
                    && final(self).content == MessageContent::Text(*final(r)),
                _ => res is None && final(self).content == old(self).content,
            },
    {
        self.content.as_mut_text()
    }
}

/// A message body with its text as characters.
pub enum MessageContentView {
    Text(Seq<char>),
    Parts(Seq<ContentPart>),
    Empty,
}

impl DeepView for MessageContent {
    type V = MessageContentView;

    open spec fn deep_view(&self) -> MessageContentView {
        match *self {
            MessageContent::Text(t) => MessageContentView::Text(t@),
            MessageContent::Parts(p) => MessageContentView::Parts(p@),
            MessageContent::Empty => MessageContentView::Empty,
        }
    }
}

/// A message parameter with its texts as characters and its tool calls as
/// [`ToolCallView`]s.
pub struct MessageParamView {
    pub role: Seq<char>,
    pub content: MessageContentView,
    pub refusal: Option<Seq<char>>,
    pub name: Option<Seq<char>>,
    pub audio: Option<AudioResponseData>,
    pub tool_calls: Option<Seq<ToolCallView>>,
    pub tool_call_id: Option<Seq<char>>,
}

impl DeepView for MessageParam {
    type V = MessageParamView;

    open spec fn deep_view(&self) -> MessageParamView {
        MessageParamView {
            role: self.role@,
            content: self.content.deep_view(),
            refusal: self.refusal.deep_view(),
            name: self.name.deep_view(),
            audio: self.audio,
            tool_calls: self.tool_calls.deep_view(),
            tool_call_id: self.tool_call_id.deep_view(),
        }
    }
}

/// Another name for [`MessageParam`].
pub type ChatCompletionMessageParam = MessageParam;

} // verus!
