//! Stored message shapes: chat messages, their content parts, tool calls and
//! provider token usage, as they are kept in the session database.
use vstd::prelude::*;
use vstd::string::StringExecFns;

verus! {

#[derive(Debug, Clone)]
pub struct FunctionCall {
    pub name: String,
    pub arguments: String,
}

#[derive(Debug, Clone)]
pub struct OutboundToolCall {
    pub id: String,
    /// The call's `type` on the wire.
    pub kind: String,
    pub function: FunctionCall,
}

impl OutboundToolCall {
    /// A copy of the call.
    pub fn copy(&self) -> (r: Self)
        ensures
            r == *self,
    {
        OutboundToolCall {
            id: self.id.clone(),
            kind: self.kind.clone(),
            function: FunctionCall {
                name: self.function.name.clone(),
                arguments: self.function.arguments.clone(),
            },
        }
    }
}

#[derive(Debug, Clone)]
pub enum ChatMessageImageSource {
    ChatImage { image_id: String },
    DataUrl { data_url: String },
}

#[derive(Debug, Clone)]
pub enum ChatMessageContentPart {
    Text { text: String },
    Image { source: ChatMessageImageSource },
}

/// A content part with its texts taken as character sequences.
pub enum PartView {
    Text(Seq<char>),
    ChatImage(Seq<char>),
    DataUrl(Seq<char>),
}

impl View for ChatMessageContentPart {
    type V = PartView;

    open spec fn view(&self) -> PartView {
        match self {
            ChatMessageContentPart::Text { text } => PartView::Text(text@),
            ChatMessageContentPart::Image { source } => match source {
                ChatMessageImageSource::ChatImage { image_id } => PartView::ChatImage(image_id@),
                ChatMessageImageSource::DataUrl { data_url } => PartView::DataUrl(data_url@),
            },
        }
    }
}

pub open spec fn part_views(s: Seq<ChatMessageContentPart>) -> Seq<PartView> {
    s.map_values(|p: ChatMessageContentPart| p@)
}

#[derive(Debug, Clone)]
pub struct ChatMessage {
    pub role: String,
    /// Plain text view used by summaries, logs and text-only providers.
    pub content: String,
    pub content_parts: Vec<ChatMessageContentPart>,
    pub reasoning_content: Option<String>,
    pub tool_calls: Option<Vec<OutboundToolCall>>,
    pub tool_call_id: Option<String>,
    pub name: Option<String>,
}

impl ChatMessage {
    /// Whether the message carries only its role and content.
    pub open spec fn is_bare(&self) -> bool {
        &&& self.content_parts@.len() == 0
        &&& self.reasoning_content is None
        &&& self.tool_calls is None
        &&& self.tool_call_id is None
        &&& self.name is None
    }

    pub fn system(content: String) -> (r: Self)
        ensures
            r.role@ == "system"@,
            r.content == content,
            r.is_bare(),
    {
        ChatMessage {
            role: String::from_str("system"),
            content,
            content_parts: Vec::new(),
            reasoning_content: None,
            tool_calls: None,
            tool_call_id: None,
            name: None,
        }
    }

    pub fn user(content: String) -> (r: Self)
        ensures
            r.role@ == "user"@,
            r.content == content,
            r.is_bare(),
    {
        ChatMessage {
            role: String::from_str("user"),
            content,
            content_parts: Vec::new(),
            reasoning_content: None,
            tool_calls: None,
            tool_call_id: None,
            name: None,
        }
    }
}

#[derive(Debug, Clone, Copy, Default, PartialEq, Eq)]
pub struct LlmPromptTokensDetails {
    pub cached_tokens: u64,
}

#[derive(Debug, Clone, Copy, Default, PartialEq, Eq)]
pub struct LlmUsage {
    pub prompt_tokens: u64,
    pub completion_tokens: u64,
    pub total_tokens: u64,
    pub prompt_tokens_details: Option<LlmPromptTokensDetails>,
}

impl LlmUsage {
    /// Cached prompt tokens the provider reported, zero when it gave no details.
    pub open spec fn spec_cached_tokens(&self) -> u64 {
        match self.prompt_tokens_details {
            Some(details) => details.cached_tokens,
            None => 0,
        }
    }

    pub fn cached_tokens(&self) -> (r: u64)
        ensures
            r == self.spec_cached_tokens(),
    {
        match &self.prompt_tokens_details {
            Some(details) => details.cached_tokens,
            None => 0,
        }
    }
}

/// How many of the latest tool images one request may inline.
pub const MAX_TURN_TOOL_IMAGE_ATTACHMENTS: usize = 3;

} // verus!
