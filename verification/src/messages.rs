//! Stored messages: how a new message is recorded, how a stored one goes
//! back to the model, and how much context a history takes.
use vstd::prelude::*;
use vstd::string::StringExecFns;
use crate::artifacts::{DispatcherToolArtifactRef, ToolArtifactDraft};
use crate::contract::{ChatMessage, ChatMessageContentPart, OutboundToolCall, part_views, PartView};
use crate::content::{
    llm_parts, plain_text_of, segment_views, segments_to_llm_content_parts,
    segments_to_plain_text, ContentSegment,
};
use crate::json_text::{json_string, json_string_text};
use crate::llm_history::{keeps_message, should_keep_llm_message};
use crate::stamps::{new_uuid, now_rfc3339};
use crate::text::{clone_opt, is_blank_str, opt_view, str_eq, trim};

verus! {

broadcast use vstd::string::group_string_axioms;

#[derive(Debug, Clone, Copy, PartialEq, Eq, Structural)]
pub struct DispatcherMessageUsageStats {
    pub prompt_tokens: u64,
    pub completion_tokens: u64,
    pub total_tokens: u64,
    pub elapsed_ms: u64,
    pub paused: bool,
}

#[derive(Debug, Clone)]
pub struct DispatcherMessageRecord {
    pub id: String,
    pub workspace_id: String,
    pub role: String,
    pub segments_json: String,
    pub thinking_content: Option<String>,
    pub thinking_elapsed_ms: Option<u64>,
    pub context_payload: Option<String>,
    pub tool_call_id: Option<String>,
    pub tool_name: Option<String>,
    pub tool_result_mode: Option<String>,
    pub tool_artifacts: Vec<DispatcherToolArtifactRef>,
    pub tool_calls_json: Option<String>,
    pub usage_stats: Option<DispatcherMessageUsageStats>,
    pub created_at: String,
}

/// The text the model reads of a stored message: its context payload when
/// it has one, else the plain text of its segments.
pub open spec fn llm_content(r: DispatcherMessageRecord, segments: Seq<ContentSegment>) -> Seq<char> {
    match r.context_payload {
        Some(p) => p@,
        None => plain_text_of(segment_views(segments)),
    }
}

/// The request parts of a stored message: none with a context payload, else
/// those of its segments.
pub open spec fn llm_content_parts(r: DispatcherMessageRecord, segments: Seq<ContentSegment>) -> Seq<
    PartView,
> {
    match r.context_payload {
        Some(_) => Seq::empty(),
        None => llm_parts(r.role@, segment_views(segments)),
    }
}

/// An assistant's non-blank thinking, as reasoning.
pub open spec fn llm_reasoning(r: DispatcherMessageRecord) -> Option<Seq<char>> {
    if r.role@ == "assistant"@ {
        match r.thinking_content {
            Some(t) => if trim(t@).len() == 0 {
                None
            } else {
                Some(t@)
            },
            None => None,
        }
    } else {
        None
    }
}

/// `m` is the model's view of the stored message `r`.
pub open spec fn describes_llm_message(
    m: ChatMessage,
    r: DispatcherMessageRecord,
    segments: Seq<ContentSegment>,
    tool_calls: Option<Vec<OutboundToolCall>>,
) -> bool {
    &&& m.role@ == r.role@
    &&& m.content@ == llm_content(r, segments)
    &&& part_views(m.content_parts@) == llm_content_parts(r, segments)
    &&& opt_view(m.reasoning_content) == llm_reasoning(r)
    &&& m.tool_calls == tool_calls
    &&& opt_view(m.tool_call_id) == opt_view(r.tool_call_id)
    &&& opt_view(m.name) == opt_view(r.tool_name)
}

impl DispatcherMessageRecord {
    /// The text a message shows: the non-blank texts of its segments, one
    /// per line (`segments` is its stored segment list, parsed).
    pub fn plain_text(segments: &[ContentSegment]) -> (r: String)
        ensures
            r@ == plain_text_of(segment_views(segments@)),
    {
        segments_to_plain_text(segments)
    }

    /// The message as the model sees it, or `None` when it stays out of the
    /// model's history; `segments` and `tool_calls` are its stored segment
    /// list and tool calls, parsed.
    pub fn to_llm_message(&self, segments: &[ContentSegment], tool_calls: Option<Vec<OutboundToolCall>>) -> (r:
        Option<ChatMessage>)
        ensures
            match r {
                Some(m) => describes_llm_message(m, *self, segments@, tool_calls) && keeps_message(m),
                None => forall|m: ChatMessage|
                    describes_llm_message(m, *self, segments@, tool_calls) ==> !keeps_message(m),
            },
    {
        let (content, content_parts) = match &self.context_payload {
            Some(payload) => (payload.clone(), Vec::new()),
            None => (
                segments_to_plain_text(segments),
                segments_to_llm_content_parts(self.role.as_str(), segments),
            ),
        };
        let reasoning_content = if str_eq(self.role.as_str(), "assistant") {
            match &self.thinking_content {
                Some(t) => if is_blank_str(t.as_str()) {
                    None
                } else {
                    Some(t.clone())
                },
                None => None,
            }
        } else {
            None
        };
        let m = ChatMessage {
            role: self.role.clone(),
            content,
            content_parts,
            reasoning_content,
            tool_calls,
            tool_call_id: clone_opt(&self.tool_call_id),
            name: clone_opt(&self.tool_name),
        };
        proof {
            if self.context_payload is Some {
                assert(part_views(m.content_parts@) =~= Seq::<PartView>::empty());
            }
        }
        if should_keep_llm_message(&m) {
            Some(m)
        } else {
            proof {
                assert forall|x: ChatMessage|
                    describes_llm_message(x, *self, segments@, tool_calls) implies !keeps_message(x) by {
                    assert(keeps_message(x) == keeps_message(m));
                }
            }
            None
        }
    }
}

/// The stored segment list of a message that is one text: a single text
/// segment with the given id.
pub open spec fn single_text_segments_json(id: Seq<char>, content: Seq<char>) -> Seq<char> {
    "[{\"type\":\"text\",\"id\":"@ + json_string_text(id) + ",\"text\":"@ + json_string_text(content)
        + "}]"@
}

/// The stored segment list of a plain text message, with a fresh segment id.
pub fn content_to_segments_json(content: &str) -> (r: String)
    ensures
        exists|id: Seq<char>| id.len() == 36 && r@ == #[trigger] single_text_segments_json(id, content@),
{
    let id = new_uuid();
    let mut out = String::from_str("[{\"type\":\"text\",\"id\":");
    let id_json = json_string(id.as_str());
    out.append(id_json.as_str());
    out.append(",\"text\":");
    let text_json = json_string(content);
    out.append(text_json.as_str());
    out.append("}]");
    assert(out@ =~= single_text_segments_json(id@, content@));
    out
}

/// What a new message is recorded from.
#[derive(Debug, Clone)]
pub struct NewDispatcherMessage {
    pub workspace_id: String,
    pub role: String,
    pub content: String,
    pub segments_json: Option<String>,
    pub thinking_content: Option<String>,
    pub thinking_elapsed_ms: u64,
    pub context_payload: Option<String>,
    pub tool_call_id: Option<String>,
    pub tool_name: Option<String>,
    pub tool_result_mode: Option<String>,
    pub tool_calls_json: Option<String>,
    pub usage_stats: Option<DispatcherMessageUsageStats>,
    pub visible: bool,
}

/// Thinking that is kept: the non-blank thinking text.
pub open spec fn kept_thinking(t: Option<String>) -> Option<Seq<char>> {
    match t {
        Some(s) => if trim(s@).len() == 0 {
            None
        } else {
            Some(s@)
        },
        None => None,
    }
}

/// The record of a new message, with a fresh id and the current time: the
/// given segment list (or one text segment of the content), the thinking
/// and its duration only when the thinking is not blank, and the remaining
/// fields as given. Refused when the thinking duration does not fit a
/// database integer.
pub fn new_message_record(params: NewDispatcherMessage) -> (r: Result<DispatcherMessageRecord, String>)
    ensures
        (kept_thinking(params.thinking_content) is Some && params.thinking_elapsed_ms > i64::MAX)
            ==> r is Err && r->Err_0@ == "convert thinking elapsed milliseconds for sqlite"@,
        !(kept_thinking(params.thinking_content) is Some && params.thinking_elapsed_ms > i64::MAX)
            ==> r is Ok,
        r matches Ok(rec) ==> {
            &&& rec.id@.len() == 36
            &&& rec.workspace_id == params.workspace_id
            &&& rec.role == params.role
            &&& (match params.segments_json {
                Some(j) => rec.segments_json == j,
                None => exists|id: Seq<char>|
                    id.len() == 36 && rec.segments_json@ == #[trigger] single_text_segments_json(
                        id,
                        params.content@,
                    ),
            })
            &&& opt_view(rec.thinking_content) == kept_thinking(params.thinking_content)
            &&& rec.thinking_elapsed_ms == (if kept_thinking(params.thinking_content) is Some {
                Some(params.thinking_elapsed_ms)
            } else {
                None
            })
            &&& rec.context_payload == params.context_payload
            &&& rec.tool_call_id == params.tool_call_id
            &&& rec.tool_name == params.tool_name
            &&& rec.tool_result_mode == params.tool_result_mode
            &&& rec.tool_calls_json == params.tool_calls_json
            &&& rec.usage_stats == params.usage_stats
            &&& rec.tool_artifacts@.len() == 0
        },
{
    let NewDispatcherMessage {
        workspace_id,
        role,
        content,
        segments_json,
        thinking_content,
        thinking_elapsed_ms,
        context_payload,
        tool_call_id,
        tool_name,
        tool_result_mode,
        tool_calls_json,
        usage_stats,
        visible,
    } = params;
    let segments_json = match segments_json {
        Some(j) => j,
        None => content_to_segments_json(content.as_str()),
    };
    let thinking = match thinking_content {
        Some(t) => if is_blank_str(t.as_str()) {
            None
        } else {
            Some(t)
        },
        None => None,
    };
    let elapsed = match &thinking {
        Some(_) => Some(thinking_elapsed_ms),
        None => None,
    };
    if thinking.is_some() && thinking_elapsed_ms > i64::MAX as u64 {
        return Err(String::from_str("convert thinking elapsed milliseconds for sqlite"));
    }
    Ok(
        DispatcherMessageRecord {
            id: new_uuid(),
            workspace_id,
            role,
            segments_json,
            thinking_content: thinking,
            thinking_elapsed_ms: elapsed,
            context_payload,
            tool_call_id,
            tool_name,
            tool_result_mode,
            tool_artifacts: Vec::new(),
            tool_calls_json,
            usage_stats,
            created_at: now_rfc3339(),
        },
    )
}

/// The references a message keeps to the artifacts stored with it: one per
/// draft, in order, under the given artifact ids.
pub fn artifact_refs(drafts: &Vec<ToolArtifactDraft>, ids: Vec<String>, created_at: &str) -> (r: Vec<
    DispatcherToolArtifactRef,
>)
    requires
        ids@.len() == drafts@.len(),
    ensures
        r@.len() == drafts@.len(),
        forall|k: int|
            0 <= k < r@.len() ==> {
                &&& (#[trigger] r@[k]).id == ids@[k]
                &&& r@[k].title == drafts@[k].title
                &&& r@[k].kind == drafts@[k].kind
                &&& r@[k].preview == drafts@[k].preview
                &&& r@[k].char_count == drafts@[k].char_count
                &&& r@[k].line_count == drafts@[k].line_count
                &&& r@[k].created_at@ == created_at@
            },
{
    let mut out: Vec<DispatcherToolArtifactRef> = Vec::new();
    let n = drafts.len();
    for k in 0..n
        invariant
            n == drafts@.len(),
            ids@.len() == n,
            out@.len() == k,
            forall|j: int|
                0 <= j < k ==> {
                    &&& (#[trigger] out@[j]).id == ids@[j]
                    &&& out@[j].title == drafts@[j].title
                    &&& out@[j].kind == drafts@[j].kind
                    &&& out@[j].preview == drafts@[j].preview
                    &&& out@[j].char_count == drafts@[j].char_count
                    &&& out@[j].line_count == drafts@[j].line_count
                    &&& out@[j].created_at@ == created_at@
                },
    {
        let d = &drafts[k];
        out.push(
            DispatcherToolArtifactRef {
                id: ids[k].clone(),
                title: d.title.clone(),
                kind: d.kind.clone(),
                preview: d.preview.clone(),
                char_count: d.char_count,
                line_count: d.line_count,
                created_at: String::from_str(created_at),
            },
        );
    }
    out
}

/// A tool call as stored JSON.
pub open spec fn tool_call_json_text(c: OutboundToolCall) -> Seq<char> {
    "{\"id\":"@ + json_string_text(c.id@) + ",\"type\":"@ + json_string_text(c.kind@)
        + ",\"function\":{\"name\":"@ + json_string_text(c.function.name@) + ",\"arguments\":"@
        + json_string_text(c.function.arguments@) + "}}"@
}

/// The tool calls of a message as stored JSON: an array of the calls.
pub open spec fn tool_calls_json_text(calls: Seq<OutboundToolCall>) -> Seq<char> {
    "["@ + crate::text::join_with(calls.map_values(|c: OutboundToolCall| tool_call_json_text(c)), ","@)
        + "]"@
}

pub fn tool_call_json(call: &OutboundToolCall) -> (r: String)
    ensures
        r@ == tool_call_json_text(*call),
{
    let mut out = String::from_str("{\"id\":");
    let a = json_string(call.id.as_str());
    out.append(a.as_str());
    out.append(",\"type\":");
    let b = json_string(call.kind.as_str());
    out.append(b.as_str());
    out.append(",\"function\":{\"name\":");
    let c = json_string(call.function.name.as_str());
    out.append(c.as_str());
    out.append(",\"arguments\":");
    let d = json_string(call.function.arguments.as_str());
    out.append(d.as_str());
    out.append("}}");
    out
}

/// The stored JSON of a message's tool calls.
pub fn tool_calls_json(calls: &Vec<OutboundToolCall>) -> (r: String)
    ensures
        r@ == tool_calls_json_text(calls@),
{
    let ghost texts = calls@.map_values(|c: OutboundToolCall| tool_call_json_text(c));
    let mut body = String::new();
    let n = calls.len();
    for i in 0..n
        invariant
            n == calls@.len(),
            texts == calls@.map_values(|c: OutboundToolCall| tool_call_json_text(c)),
            body@ == crate::text::join_with(texts.take(i as int), ","@),
    {
        let piece = tool_call_json(&calls[i]);
        proof {
            crate::text::lemma_join_with_push(texts.take(i as int), ","@, piece@);
            assert(texts.take(i + 1) =~= texts.take(i as int).push(piece@));
        }
        if i > 0 {
            body.append(",");
        }
        body.append(piece.as_str());
    }
    proof {
        assert(texts.take(n as int) =~= texts);
    }
    let mut out = String::from_str("[");
    out.append(body.as_str());
    out.append("]");
    out
}

/// Characters one message takes in the context: its content, its reasoning
/// and its tool calls' JSON.
pub open spec fn message_chars(m: ChatMessage) -> nat {
    m.content@.len() + match m.reasoning_content {
        Some(r) => r@.len(),
        None => 0,
    } + match m.tool_calls {
        Some(calls) => tool_calls_json_text(calls@).len(),
        None => 0,
    }
}

pub open spec fn total_chars(s: Seq<ChatMessage>) -> nat
    decreases s.len(),
{
    if s.len() == 0 {
        0
    } else {
        total_chars(s.drop_last()) + message_chars(s.last())
    }
}

/// A rough token count for context budgeting: a quarter of the characters
/// (characters, not bytes, so that CJK text is not overcounted), saturating
/// at `u64::MAX`.
pub fn estimate_context_tokens(messages: &Vec<ChatMessage>) -> (r: u64)
    ensures
        total_chars(messages@) <= u64::MAX ==> r == total_chars(messages@) / 4,
{
    let mut total: u64 = 0;
    let mut saturated = false;
    let n = messages.len();
    for i in 0..n
        invariant
            n == messages@.len(),
            !saturated ==> total == total_chars(messages@.take(i as int)),
            saturated ==> total_chars(messages@.take(i as int)) > u64::MAX,
    {
        let m = &messages[i];
        let content_chars = m.content.as_str().unicode_len() as u64;
        let reasoning_chars = match &m.reasoning_content {
            Some(r) => r.as_str().unicode_len() as u64,
            None => 0,
        };
        let call_chars = match &m.tool_calls {
            Some(calls) => tool_calls_json(calls).as_str().unicode_len() as u64,
            None => 0,
        };
        proof {
            assert(messages@.take(i + 1).drop_last() =~= messages@.take(i as int));
        }
        if !saturated {
            match total.checked_add(content_chars) {
                Some(a) => match a.checked_add(reasoning_chars) {
                    Some(b) => match b.checked_add(call_chars) {
                        Some(c) => {
                            total = c;
                        },
                        None => {
                            saturated = true;
                        },
                    },
                    None => {
                        saturated = true;
                    },
                },
                None => {
                    saturated = true;
                },
            }
        }
    }
    proof {
        assert(messages@.take(n as int) =~= messages@);
    }
    if saturated {
        u64::MAX / 4
    } else {
        total / 4
    }
}

} // verus!
