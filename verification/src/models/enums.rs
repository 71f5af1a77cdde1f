//! Closed sets of wire names used by the chat completion API, each with its
//! exact name and a parser that accepts exactly those names.

use vstd::prelude::*;
use vstd::string::*;
use crate::text::{concat_str, debug_quoted, str_debug, str_eq};

verus! {

broadcast use vstd::string::group_string_axioms;

/// Content part type identifiers for a message content part.
#[derive(Debug, Clone, Copy, PartialEq, Eq, Hash, Structural)]
pub enum ContentPart {
    Text,
    ImageUrl,
    Audio,
    File,
    Refusal,
}

impl ContentPart {
    /// The wire name.
    pub open spec fn name(self) -> Seq<char> {
        match self {
            ContentPart::Text => "text"@,
            ContentPart::ImageUrl => "image_url"@,
            ContentPart::Audio => "input_audio"@,
            ContentPart::File => "file"@,
            ContentPart::Refusal => "refusal"@,
        }
    }

    /// The value whose wire name is `s`, if any.
    pub open spec fn from_name(s: Seq<char>) -> Option<ContentPart> {
        if s == "text"@ {
            Some(ContentPart::Text)
        } else if s == "image_url"@ {
            Some(ContentPart::ImageUrl)
        } else if s == "input_audio"@ {
            Some(ContentPart::Audio)
        } else if s == "file"@ {
            Some(ContentPart::File)
        } else if s == "refusal"@ {
            Some(ContentPart::Refusal)
        } else {
            Option::None
        }
    }

    pub fn as_str(&self) -> (res: &str)
        ensures
            res@ == self.name(),
    {
        match self {
            ContentPart::Text => "text",
            ContentPart::ImageUrl => "image_url",
            ContentPart::Audio => "input_audio",
            ContentPart::File => "file",
            ContentPart::Refusal => "refusal",
        }
    }

    /// Parses a wire name; any other text is refused with a message that
    /// quotes it.
    pub fn try_from_str(s: &str) -> (res: Result<ContentPart, String>)
        ensures
            match res {
                Ok(v) => ContentPart::from_name(s@) == Some(v),
                Err(e) => ContentPart::from_name(s@) is None
                    && e@ == "unknown content part type: "@ + str_debug(s@),
            },
    {
        if str_eq(s, "text") {
            Ok(ContentPart::Text)
        } else if str_eq(s, "image_url") {
            Ok(ContentPart::ImageUrl)
        } else if str_eq(s, "input_audio") {
            Ok(ContentPart::Audio)
        } else if str_eq(s, "file") {
            Ok(ContentPart::File)
        } else if str_eq(s, "refusal") {
            Ok(ContentPart::Refusal)
        } else {
            let q = debug_quoted(s);
            Err(concat_str("unknown content part type: ", q.as_str()))
        }
    }
}

impl Default for ContentPart {
    fn default() -> (res: ContentPart)
        ensures
            res == ContentPart::Text,
    {
        ContentPart::Text
    }
}

impl<'a> TryFrom<&'a str> for ContentPart {
    type Error = String;

    /// Parses a wire name as [`ContentPart::try_from_str`] does.
    fn try_from(s: &'a str) -> (res: Result<ContentPart, String>)
        ensures
            match res {
                Ok(v) => ContentPart::from_name(s@) == Some(v),
                Err(e) => ContentPart::from_name(s@) is None
                    && e@ == "unknown content part type: "@ + str_debug(s@),
            },
    {
        ContentPart::try_from_str(s)
    }
}

impl<'a> vstd::std_specs::convert::TryFromSpecImpl<&'a str> for ContentPart {
    /// The error text is not modelled as a spec value, so the trait-level
    /// specification is not claimed; `try_from` states its own contract.
    open spec fn obeys_try_from_spec() -> bool {
        false
    }

    open spec fn try_from_spec(v: &'a str) -> Result<ContentPart, String> {
        Err(arbitrary())
    }
}

/// Printing a value and parsing the text back gives the same value, and only
/// its own name parses to it.
pub proof fn lemma_content_part_name_roundtrip(x: ContentPart, s: Seq<char>)
    ensures
        ContentPart::from_name(x.name()) == Some(x),
        ContentPart::from_name(s) == Some(x) ==> s == x.name(),
{
    reveal_strlit("text");
    reveal_strlit("image_url");
    reveal_strlit("input_audio");
    reveal_strlit("file");
    reveal_strlit("refusal");
    assert("text"@.len() == 4);
    assert("image_url"@.len() == 9);
    assert("input_audio"@.len() == 11);
    assert("file"@.len() == 4);
    assert("refusal"@.len() == 7);
    assert("text"@[0] != "file"@[0]);
}

/// Audio format identifiers for input audio data.
#[derive(Debug, Clone, Copy, PartialEq, Eq, Hash, Structural)]
pub enum AudioFormat {
    Mp3,
    Wav,
}

impl AudioFormat {
    /// The wire name.
    pub open spec fn name(self) -> Seq<char> {
        match self {
            AudioFormat::Mp3 => "mp3"@,
            AudioFormat::Wav => "wav"@,
        }
    }

    /// The value whose wire name is `s`, if any.
    pub open spec fn from_name(s: Seq<char>) -> Option<AudioFormat> {
        if s == "mp3"@ {
            Some(AudioFormat::Mp3)
        } else if s == "wav"@ {
            Some(AudioFormat::Wav)
        } else {
            Option::None
        }
    }

    pub fn as_str(&self) -> (res: &str)
        ensures
            res@ == self.name(),
    {
        match self {
            AudioFormat::Mp3 => "mp3",
            AudioFormat::Wav => "wav",
        }
    }

    /// Parses a wire name; any other text is refused with a message that
    /// quotes it.
    pub fn try_from_str(s: &str) -> (res: Result<AudioFormat, String>)
        ensures
            match res {
                Ok(v) => AudioFormat::from_name(s@) == Some(v),
                Err(e) => AudioFormat::from_name(s@) is None
                    && e@ == "unknown audio format: "@ + str_debug(s@),
            },
    {
        if str_eq(s, "mp3") {
            Ok(AudioFormat::Mp3)
        } else if str_eq(s, "wav") {
            Ok(AudioFormat::Wav)
        } else {
            let q = debug_quoted(s);
            Err(concat_str("unknown audio format: ", q.as_str()))
        }
    }
}

impl Default for AudioFormat {
    fn default() -> (res: AudioFormat)
        ensures
            res == AudioFormat::Mp3,
    {
        AudioFormat::Mp3
    }
}

impl<'a> TryFrom<&'a str> for AudioFormat {
    type Error = String;

    /// Parses a wire name as [`AudioFormat::try_from_str`] does.
    fn try_from(s: &'a str) -> (res: Result<AudioFormat, String>)
        ensures
            match res {
                Ok(v) => AudioFormat::from_name(s@) == Some(v),
                Err(e) => AudioFormat::from_name(s@) is None
                    && e@ == "unknown audio format: "@ + str_debug(s@),
            },
    {
        AudioFormat::try_from_str(s)
    }
}

impl<'a> vstd::std_specs::convert::TryFromSpecImpl<&'a str> for AudioFormat {
    /// The error text is not modelled as a spec value, so the trait-level
    /// specification is not claimed; `try_from` states its own contract.
    open spec fn obeys_try_from_spec() -> bool {
        false
    }

    open spec fn try_from_spec(v: &'a str) -> Result<AudioFormat, String> {
        Err(arbitrary())
    }
}

/// Printing a value and parsing the text back gives the same value, and only
/// its own name parses to it.
pub proof fn lemma_audio_format_name_roundtrip(x: AudioFormat, s: Seq<char>)
    ensures
        AudioFormat::from_name(x.name()) == Some(x),
        AudioFormat::from_name(s) == Some(x) ==> s == x.name(),
{
    reveal_strlit("mp3");
    reveal_strlit("wav");
    assert("mp3"@.len() == 3);
    assert("wav"@.len() == 3);
    assert("mp3"@[0] != "wav"@[0]);
}

/// Image detail level options for image URLs.
#[derive(Debug, Clone, Copy, PartialEq, Eq, Hash, Structural)]
pub enum ImageDetail {
    Auto,
    Low,
    High,
}

impl ImageDetail {
    /// The wire name.
    pub open spec fn name(self) -> Seq<char> {
        match self {
            ImageDetail::Auto => "auto"@,
            ImageDetail::Low => "low"@,
            ImageDetail::High => "high"@,
        }
    }

    /// The value whose wire name is `s`, if any.
    pub open spec fn from_name(s: Seq<char>) -> Option<ImageDetail> {
        if s == "auto"@ {
            Some(ImageDetail::Auto)
        } else if s == "low"@ {
            Some(ImageDetail::Low)
        } else if s == "high"@ {
            Some(ImageDetail::High)
        } else {
            Option::None
        }
    }

    pub fn as_str(&self) -> (res: &str)
        ensures
            res@ == self.name(),
    {
        match self {
            ImageDetail::Auto => "auto",
            ImageDetail::Low => "low",
            ImageDetail::High => "high",
        }
    }

    /// Parses a wire name; any other text is refused with a message that
    /// quotes it.
    pub fn try_from_str(s: &str) -> (res: Result<ImageDetail, String>)
        ensures
            match res {
                Ok(v) => ImageDetail::from_name(s@) == Some(v),
                Err(e) => ImageDetail::from_name(s@) is None
                    && e@ == "unknown image detail: "@ + str_debug(s@),
            },
    {
        if str_eq(s, "auto") {
            Ok(ImageDetail::Auto)
        } else if str_eq(s, "low") {
            Ok(ImageDetail::Low)
        } else if str_eq(s, "high") {
            Ok(ImageDetail::High)
        } else {
            let q = debug_quoted(s);
            Err(concat_str("unknown image detail: ", q.as_str()))
        }
    }
}

impl Default for ImageDetail {
    fn default() -> (res: ImageDetail)
        ensures
            res == ImageDetail::Auto,
    {
        ImageDetail::Auto
    }
}

impl<'a> TryFrom<&'a str> for ImageDetail {
    type Error = String;

    /// Parses a wire name as [`ImageDetail::try_from_str`] does.
    fn try_from(s: &'a str) -> (res: Result<ImageDetail, String>)
        ensures
            match res {
                Ok(v) => ImageDetail::from_name(s@) == Some(v),
                Err(e) => ImageDetail::from_name(s@) is None
                    && e@ == "unknown image detail: "@ + str_debug(s@),
            },
    {
        ImageDetail::try_from_str(s)
    }
}

impl<'a> vstd::std_specs::convert::TryFromSpecImpl<&'a str> for ImageDetail {
    /// The error text is not modelled as a spec value, so the trait-level
    /// specification is not claimed; `try_from` states its own contract.
    open spec fn obeys_try_from_spec() -> bool {
        false
    }

    open spec fn try_from_spec(v: &'a str) -> Result<ImageDetail, String> {
        Err(arbitrary())
    }
}

/// Printing a value and parsing the text back gives the same value, and only
/// its own name parses to it.
pub proof fn lemma_image_detail_name_roundtrip(x: ImageDetail, s: Seq<char>)
    ensures
        ImageDetail::from_name(x.name()) == Some(x),
        ImageDetail::from_name(s) == Some(x) ==> s == x.name(),
{
    reveal_strlit("auto");
    reveal_strlit("low");
    reveal_strlit("high");
    assert("auto"@.len() == 4);
    assert("low"@.len() == 3);
    assert("high"@.len() == 4);
    assert("auto"@[0] != "high"@[0]);
}

/// Message role identifiers.
#[derive(Debug, Clone, Copy, PartialEq, Eq, Hash, Structural)]
pub enum Role {
    Developer,
    System,
    User,
    Assistant,
    Tool,
    Function,
}

impl Role {
    /// The wire name.
    pub open spec fn name(self) -> Seq<char> {
        match self {
            Role::Developer => "developer"@,
            Role::System => "system"@,
            Role::User => "user"@,
            Role::Assistant => "assistant"@,
            Role::Tool => "tool"@,
            Role::Function => "function"@,
        }
    }

    /// The value whose wire name is `s`, if any.
    pub open spec fn from_name(s: Seq<char>) -> Option<Role> {
        if s == "developer"@ {
            Some(Role::Developer)
        } else if s == "system"@ {
            Some(Role::System)
        } else if s == "user"@ {
            Some(Role::User)
        } else if s == "assistant"@ {
            Some(Role::Assistant)
        } else if s == "tool"@ {
            Some(Role::Tool)
        } else if s == "function"@ {
            Some(Role::Function)
        } else {
            Option::None
        }
    }

    pub fn as_str(&self) -> (res: &str)
        ensures
            res@ == self.name(),
    {
        match self {
            Role::Developer => "developer",
            Role::System => "system",
            Role::User => "user",
            Role::Assistant => "assistant",
            Role::Tool => "tool",
            Role::Function => "function",
        }
    }

    /// Parses a wire name; any other text is refused with a message that
    /// quotes it.
    pub fn try_from_str(s: &str) -> (res: Result<Role, String>)
        ensures
            match res {
                Ok(v) => Role::from_name(s@) == Some(v),
                Err(e) => Role::from_name(s@) is None
                    && e@ == "unknown role: "@ + str_debug(s@),
            },
    {
        if str_eq(s, "developer") {
            Ok(Role::Developer)
        } else if str_eq(s, "system") {
            Ok(Role::System)
        } else if str_eq(s, "user") {
            Ok(Role::User)
        } else if str_eq(s, "assistant") {
            Ok(Role::Assistant)
        } else if str_eq(s, "tool") {
            Ok(Role::Tool)
        } else if str_eq(s, "function") {
            Ok(Role::Function)
        } else {
            let q = debug_quoted(s);
            Err(concat_str("unknown role: ", q.as_str()))
        }
    }
}

impl Default for Role {
    fn default() -> (res: Role)
        ensures
            res == Role::User,
    {
        Role::User
    }
}

impl<'a> TryFrom<&'a str> for Role {
    type Error = String;

    /// Parses a wire name as [`Role::try_from_str`] does.
    fn try_from(s: &'a str) -> (res: Result<Role, String>)
        ensures
            match res {
                Ok(v) => Role::from_name(s@) == Some(v),
                Err(e) => Role::from_name(s@) is None
                    && e@ == "unknown role: "@ + str_debug(s@),
            },
    {
        Role::try_from_str(s)
    }
}

impl<'a> vstd::std_specs::convert::TryFromSpecImpl<&'a str> for Role {
    /// The error text is not modelled as a spec value, so the trait-level
    /// specification is not claimed; `try_from` states its own contract.
    open spec fn obeys_try_from_spec() -> bool {
        false
    }

    open spec fn try_from_spec(v: &'a str) -> Result<Role, String> {
        Err(arbitrary())
    }
}

/// Printing a value and parsing the text back gives the same value, and only
/// its own name parses to it.
pub proof fn lemma_role_name_roundtrip(x: Role, s: Seq<char>)
    ensures
        Role::from_name(x.name()) == Some(x),
        Role::from_name(s) == Some(x) ==> s == x.name(),
{
    reveal_strlit("developer");
    reveal_strlit("system");
    reveal_strlit("user");
    reveal_strlit("assistant");
    reveal_strlit("tool");
    reveal_strlit("function");
    assert("developer"@.len() == 9);
    assert("system"@.len() == 6);
    assert("user"@.len() == 4);
    assert("assistant"@.len() == 9);
    assert("tool"@.len() == 4);
    assert("function"@.len() == 8);
    assert("developer"@[0] != "assistant"@[0]);
    assert("user"@[0] != "tool"@[0]);
}

/// Reasoning effort level options.
#[derive(Debug, Clone, Copy, PartialEq, Eq, Hash, Structural)]
pub enum ReasoningEffort {
    NoEffort,
    Minimal,
    Low,
    Medium,
    High,
    XHigh,
}

impl ReasoningEffort {
    /// The wire name.
    pub open spec fn name(self) -> Seq<char> {
        match self {
            ReasoningEffort::NoEffort => "none"@,
            ReasoningEffort::Minimal => "minimal"@,
            ReasoningEffort::Low => "low"@,
            ReasoningEffort::Medium => "medium"@,
            ReasoningEffort::High => "high"@,
            ReasoningEffort::XHigh => "xhigh"@,
        }
    }

    /// The value whose wire name is `s`, if any.
    pub open spec fn from_name(s: Seq<char>) -> Option<ReasoningEffort> {
        if s == "none"@ {
            Some(ReasoningEffort::NoEffort)
        } else if s == "minimal"@ {
            Some(ReasoningEffort::Minimal)
        } else if s == "low"@ {
            Some(ReasoningEffort::Low)
        } else if s == "medium"@ {
            Some(ReasoningEffort::Medium)
        } else if s == "high"@ {
            Some(ReasoningEffort::High)
        } else if s == "xhigh"@ {
            Some(ReasoningEffort::XHigh)
        } else {
            Option::None
        }
    }

    pub fn as_str(&self) -> (res: &str)
        ensures
            res@ == self.name(),
    {
        match self {
            ReasoningEffort::NoEffort => "none",
            ReasoningEffort::Minimal => "minimal",
            ReasoningEffort::Low => "low",
            ReasoningEffort::Medium => "medium",
            ReasoningEffort::High => "high",
            ReasoningEffort::XHigh => "xhigh",
        }
    }

    /// Parses a wire name; any other text is refused with a message that
    /// quotes it.
    pub fn try_from_str(s: &str) -> (res: Result<ReasoningEffort, String>)
        ensures
            match res {
                Ok(v) => ReasoningEffort::from_name(s@) == Some(v),
                Err(e) => ReasoningEffort::from_name(s@) is None
                    && e@ == "unknown reasoning effort: "@ + str_debug(s@),
            },
    {
        if str_eq(s, "none") {
            Ok(ReasoningEffort::NoEffort)
        } else if str_eq(s, "minimal") {
            Ok(ReasoningEffort::Minimal)
        } else if str_eq(s, "low") {
            Ok(ReasoningEffort::Low)
        } else if str_eq(s, "medium") {
            Ok(ReasoningEffort::Medium)
        } else if str_eq(s, "high") {
            Ok(ReasoningEffort::High)
        } else if str_eq(s, "xhigh") {
            Ok(ReasoningEffort::XHigh)
        } else {
            let q = debug_quoted(s);
            Err(concat_str("unknown reasoning effort: ", q.as_str()))
        }
    }
}

impl Default for ReasoningEffort {
    fn default() -> (res: ReasoningEffort)
        ensures
            res == ReasoningEffort::Medium,
    {
        ReasoningEffort::Medium
    }
}

impl<'a> TryFrom<&'a str> for ReasoningEffort {
    type Error = String;

    /// Parses a wire name as [`ReasoningEffort::try_from_str`] does.
    fn try_from(s: &'a str) -> (res: Result<ReasoningEffort, String>)
        ensures
            match res {
                Ok(v) => ReasoningEffort::from_name(s@) == Some(v),
                Err(e) => ReasoningEffort::from_name(s@) is None
                    && e@ == "unknown reasoning effort: "@ + str_debug(s@),
            },
    {
        ReasoningEffort::try_from_str(s)
    }
}

impl<'a> vstd::std_specs::convert::TryFromSpecImpl<&'a str> for ReasoningEffort {
    /// The error text is not modelled as a spec value, so the trait-level
    /// specification is not claimed; `try_from` states its own contract.
    open spec fn obeys_try_from_spec() -> bool {
        false
    }

    open spec fn try_from_spec(v: &'a str) -> Result<ReasoningEffort, String> {
        Err(arbitrary())
    }
}

/// Printing a value and parsing the text back gives the same value, and only
/// its own name parses to it.
pub proof fn lemma_reasoning_effort_name_roundtrip(x: ReasoningEffort, s: Seq<char>)
    ensures
        ReasoningEffort::from_name(x.name()) == Some(x),
        ReasoningEffort::from_name(s) == Some(x) ==> s == x.name(),
{
    reveal_strlit("none");
    reveal_strlit("minimal");
    reveal_strlit("low");
    reveal_strlit("medium");
    reveal_strlit("high");
    reveal_strlit("xhigh");
    assert("none"@.len() == 4);
    assert("minimal"@.len() == 7);
    assert("low"@.len() == 3);
    assert("medium"@.len() == 6);
    assert("high"@.len() == 4);
    assert("xhigh"@.len() == 5);
    assert("none"@[0] != "high"@[0]);
}

/// Finish reason values returned in completion choices.
#[derive(Debug, Clone, Copy, PartialEq, Eq, Hash, Structural)]
pub enum FinishReason {
    Stop,
    Length,
    ToolCalls,
    ContentFilter,
    FunctionCall,
}

impl FinishReason {
    /// The wire name.
    pub open spec fn name(self) -> Seq<char> {
        match self {
            FinishReason::Stop => "stop"@,
            FinishReason::Length => "length"@,
            FinishReason::ToolCalls => "tool_calls"@,
            FinishReason::ContentFilter => "content_filter"@,
            FinishReason::FunctionCall => "function_call"@,
        }
    }

    /// The value whose wire name is `s`, if any.
    pub open spec fn from_name(s: Seq<char>) -> Option<FinishReason> {
        if s == "stop"@ {
            Some(FinishReason::Stop)
        } else if s == "length"@ {
            Some(FinishReason::Length)
        } else if s == "tool_calls"@ {
            Some(FinishReason::ToolCalls)
        } else if s == "content_filter"@ {
            Some(FinishReason::ContentFilter)
        } else if s == "function_call"@ {
            Some(FinishReason::FunctionCall)
        } else {
            Option::None
        }
    }

    pub fn as_str(&self) -> (res: &str)
        ensures
            res@ == self.name(),
    {
        match self {
            FinishReason::Stop => "stop",
            FinishReason::Length => "length",
            FinishReason::ToolCalls => "tool_calls",
            FinishReason::ContentFilter => "content_filter",
            FinishReason::FunctionCall => "function_call",
        }
    }

    /// Parses a wire name; any other text is refused with a message that
    /// quotes it.
    pub fn try_from_str(s: &str) -> (res: Result<FinishReason, String>)
        ensures
            match res {
                Ok(v) => FinishReason::from_name(s@) == Some(v),
                Err(e) => FinishReason::from_name(s@) is None
                    && e@ == "unknown finish reason: "@ + str_debug(s@),
            },
    {
        if str_eq(s, "stop") {
            Ok(FinishReason::Stop)
        } else if str_eq(s, "length") {
            Ok(FinishReason::Length)
        } else if str_eq(s, "tool_calls") {
            Ok(FinishReason::ToolCalls)
        } else if str_eq(s, "content_filter") {
            Ok(FinishReason::ContentFilter)
        } else if str_eq(s, "function_call") {
            Ok(FinishReason::FunctionCall)
        } else {
            let q = debug_quoted(s);
            Err(concat_str("unknown finish reason: ", q.as_str()))
        }
    }
}

impl Default for FinishReason {
    fn default() -> (res: FinishReason)
        ensures
            res == FinishReason::Stop,
    {
        FinishReason::Stop
    }
}

impl<'a> TryFrom<&'a str> for FinishReason {
    type Error = String;

    /// Parses a wire name as [`FinishReason::try_from_str`] does.
    fn try_from(s: &'a str) -> (res: Result<FinishReason, String>)
        ensures
            match res {
                Ok(v) => FinishReason::from_name(s@) == Some(v),
                Err(e) => FinishReason::from_name(s@) is None
                    && e@ == "unknown finish reason: "@ + str_debug(s@),
            },
    {
        FinishReason::try_from_str(s)
    }
}

impl<'a> vstd::std_specs::convert::TryFromSpecImpl<&'a str> for FinishReason {
    /// The error text is not modelled as a spec value, so the trait-level
    /// specification is not claimed; `try_from` states its own contract.
    open spec fn obeys_try_from_spec() -> bool {
        false
    }

    open spec fn try_from_spec(v: &'a str) -> Result<FinishReason, String> {
        Err(arbitrary())
    }
}

/// Printing a value and parsing the text back gives the same value, and only
/// its own name parses to it.
pub proof fn lemma_finish_reason_name_roundtrip(x: FinishReason, s: Seq<char>)
    ensures
        FinishReason::from_name(x.name()) == Some(x),
        FinishReason::from_name(s) == Some(x) ==> s == x.name(),
{
    reveal_strlit("stop");
    reveal_strlit("length");
    reveal_strlit("tool_calls");
    reveal_strlit("content_filter");
    reveal_strlit("function_call");
    assert("stop"@.len() == 4);
    assert("length"@.len() == 6);
    assert("tool_calls"@.len() == 10);
    assert("content_filter"@.len() == 14);
    assert("function_call"@.len() == 13);
}

/// Tool call type identifiers.
#[derive(Debug, Clone, Copy, PartialEq, Eq, Hash, Structural)]
pub enum ToolCallType {
    Function,
    Custom,
}

impl ToolCallType {
    /// The wire name.
    pub open spec fn name(self) -> Seq<char> {
        match self {
            ToolCallType::Function => "function"@,
            ToolCallType::Custom => "custom"@,
        }
    }

    /// The value whose wire name is `s`, if any.
    pub open spec fn from_name(s: Seq<char>) -> Option<ToolCallType> {
        if s == "function"@ {
            Some(ToolCallType::Function)
        } else if s == "custom"@ {
            Some(ToolCallType::Custom)
        } else {
            Option::None
        }
    }

    pub fn as_str(&self) -> (res: &str)
        ensures
            res@ == self.name(),
    {
        match self {
            ToolCallType::Function => "function",
            ToolCallType::Custom => "custom",
        }
    }

    /// Parses a wire name; any other text is refused with a message that
    /// quotes it.
    pub fn try_from_str(s: &str) -> (res: Result<ToolCallType, String>)
        ensures
            match res {
                Ok(v) => ToolCallType::from_name(s@) == Some(v),
                Err(e) => ToolCallType::from_name(s@) is None
                    && e@ == "unknown tool call type: "@ + str_debug(s@),
            },
    {
        if str_eq(s, "function") {
            Ok(ToolCallType::Function)
        } else if str_eq(s, "custom") {
            Ok(ToolCallType::Custom)
        } else {
            let q = debug_quoted(s);
            Err(concat_str("unknown tool call type: ", q.as_str()))
        }
    }
}

impl Default for ToolCallType {
    fn default() -> (res: ToolCallType)
        ensures
            res == ToolCallType::Function,
    {
        ToolCallType::Function
    }
}

impl<'a> TryFrom<&'a str> for ToolCallType {
    type Error = String;

    /// Parses a wire name as [`ToolCallType::try_from_str`] does.
    fn try_from(s: &'a str) -> (res: Result<ToolCallType, String>)
        ensures
            match res {
                Ok(v) => ToolCallType::from_name(s@) == Some(v),
                Err(e) => ToolCallType::from_name(s@) is None
                    && e@ == "unknown tool call type: "@ + str_debug(s@),
            },
    {
        ToolCallType::try_from_str(s)
    }
}

impl<'a> vstd::std_specs::convert::TryFromSpecImpl<&'a str> for ToolCallType {
    /// The error text is not modelled as a spec value, so the trait-level
    /// specification is not claimed; `try_from` states its own contract.
    open spec fn obeys_try_from_spec() -> bool {
        false
    }

    open spec fn try_from_spec(v: &'a str) -> Result<ToolCallType, String> {
        Err(arbitrary())
    }
}

/// Printing a value and parsing the text back gives the same value, and only
/// its own name parses to it.
pub proof fn lemma_tool_call_type_name_roundtrip(x: ToolCallType, s: Seq<char>)
    ensures
        ToolCallType::from_name(x.name()) == Some(x),
        ToolCallType::from_name(s) == Some(x) ==> s == x.name(),
{
    reveal_strlit("function");
    reveal_strlit("custom");
    assert("function"@.len() == 8);
    assert("custom"@.len() == 6);
}

} // verus!
