//! Model providers: the request each protocol expects and what is read from its reply.
//! The transport itself belongs to the caller; this module builds and reads the bodies.
use vstd::prelude::*;
use crate::effective::{opt_view, EffectiveLLMConfig, EffectiveLLMConfigView};
use crate::nexus_repo::{effective_model, EffectiveModelConfig, NexusRepo, ProviderConfig};
use crate::error::AgentError;
use crate::json::{
    lemma_items_view, spec_as_str, spec_as_u64, spec_at, spec_get, Json, JsonNumber, JsonView,
};
use crate::message::{msgs_view, Message, MessageView};
use crate::text::{join_lines, join_newline, owned, push_str, str_eq, strs_view};
use crate::think::{spec_strip_think, strip_think_tag};

verus! {

broadcast use vstd::std_specs::vec::group_vec_axioms;

/// A tool offered to the model: name, description and JSON schema of its parameters.
#[derive(Debug)]
pub struct ToolConfig {
    pub name: String,
    pub description: String,
    pub parameters: Json,
}

/// Mathematical model of [`ToolConfig`].
pub ghost struct ToolConfigView {
    pub name: Seq<char>,
    pub description: Seq<char>,
    pub parameters: JsonView,
}

impl View for ToolConfig {
    type V = ToolConfigView;

    open spec fn view(&self) -> ToolConfigView {
        ToolConfigView { name: self.name@, description: self.description@, parameters: self.parameters@ }
    }
}

impl ToolConfig {
    /// A copy with the same model.
    pub fn duplicate(&self) -> (r: ToolConfig)
        ensures
            r@ == self@,
    {
        ToolConfig { name: self.name.clone(), description: self.description.clone(), parameters: self.parameters.duplicate() }
    }
}

// ---------- OpenAI-compatible protocol ----------

/// A tool entry of an OpenAI request (`{"type": "function", "function": ...}`).
#[derive(Debug)]
pub enum OpenAiRequestToolCall {
    Function { function: ToolConfig },
}

/// The thinking switch of an OpenAI request (`{"type": "enabled"}` / `{"type": "disabled"}`).
#[derive(Debug, Clone, Copy, PartialEq, Eq)]
pub enum OpenAiRequestThinking {
    Enabled,
    Disabled,
}

/// The body of a `/chat/completions` request (absent optional fields are not sent;
/// the temperature is a binary32 bit pattern).
#[derive(Debug)]
pub struct OpenAiRequest {
    pub model: String,
    pub messages: Vec<Message>,
    pub stream: bool,
    pub tools: Option<Vec<OpenAiRequestToolCall>>,
    pub max_tokens: Option<u32>,
    pub temperature: Option<u32>,
    pub thinking: Option<OpenAiRequestThinking>,
    pub reasoning_effort: Option<String>,
}

/// Mathematical model of [`OpenAiRequest`] (tools by their definitions).
pub ghost struct OpenAiRequestView {
    pub model: Seq<char>,
    pub messages: Seq<MessageView>,
    pub stream: bool,
    pub tools: Option<Seq<ToolConfigView>>,
    pub max_tokens: Option<u32>,
    pub temperature: Option<u32>,
    pub thinking: Option<OpenAiRequestThinking>,
    pub reasoning_effort: Option<Seq<char>>,
}

/// The definitions of the tool entries.
pub open spec fn tool_entries_view(v: Seq<OpenAiRequestToolCall>) -> Seq<ToolConfigView> {
    v.map_values(|t: OpenAiRequestToolCall| match t {
        OpenAiRequestToolCall::Function { function } => function@,
    })
}

impl View for OpenAiRequest {
    type V = OpenAiRequestView;

    open spec fn view(&self) -> OpenAiRequestView {
        OpenAiRequestView {
            model: self.model@,
            messages: msgs_view(self.messages@),
            stream: self.stream,
            tools: match self.tools {
                Some(t) => Some(tool_entries_view(t@)),
                None => None,
            },
            max_tokens: self.max_tokens,
            temperature: self.temperature,
            thinking: self.thinking,
            reasoning_effort: opt_view(self.reasoning_effort),
        }
    }
}

/// The thinking switch for a configured value: `enabled` and `disabled` map to the switch,
/// anything else sends none.
pub open spec fn spec_thinking_mode(t: Option<Seq<char>>) -> Option<OpenAiRequestThinking> {
    match t {
        Some(s) => if s == "enabled"@ {
            Some(OpenAiRequestThinking::Enabled)
        } else if s == "disabled"@ {
            Some(OpenAiRequestThinking::Disabled)
        } else {
            None
        },
        None => None,
    }
}

/// The `/chat/completions` body for these settings, messages and tools: messages pass
/// through unchanged, tools only when there are some, optional parameters only when set.
pub open spec fn spec_openai_request(cfg: EffectiveLLMConfigView, messages: Seq<MessageView>, tools: Seq<ToolConfigView>) -> OpenAiRequestView {
    OpenAiRequestView {
        model: cfg.model,
        messages,
        stream: false,
        tools: if tools.len() > 0 { Some(tools) } else { None },
        max_tokens: cfg.max_tokens,
        temperature: cfg.temperature,
        thinking: spec_thinking_mode(cfg.thinking),
        reasoning_effort: cfg.reasoning_effort,
    }
}

/// The thinking switch for a configured value (see [`spec_thinking_mode`]).
pub fn thinking_mode(t: &Option<String>) -> (r: Option<OpenAiRequestThinking>)
    ensures
        r == spec_thinking_mode(opt_view(*t)),
{
    match t {
        Some(s) => if str_eq(s.as_str(), "enabled") {
            Some(OpenAiRequestThinking::Enabled)
        } else if str_eq(s.as_str(), "disabled") {
            Some(OpenAiRequestThinking::Disabled)
        } else {
            None
        },
        None => None,
    }
}

/// A copy of an optional string with the same model.
fn copy_opt_str(o: &Option<String>) -> (r: Option<String>)
    ensures
        opt_view(r) == opt_view(*o),
{
    match o {
        Some(s) => Some(s.clone()),
        None => None,
    }
}

/// The URL prefix without its trailing slashes.
pub open spec fn trim_slashes(s: Seq<char>) -> Seq<char>
    decreases s.len(),
{
    if s.len() > 0 && s.last() == '/' {
        trim_slashes(s.drop_last())
    } else {
        s
    }
}

/// `base` without trailing slashes, followed by `path`.
pub fn endpoint(base: &str, path: &str) -> (r: String)
    ensures
        r@ == trim_slashes(base@) + path@,
{
    let v = crate::text::chars_of(base);
    let mut n: usize = v.len();
    assert(v@.subrange(0, n as int) =~= v@);
    while n > 0 && v[n - 1] == '/'
        invariant
            n <= v.len(),
            v@ == base@,
            trim_slashes(base@) == trim_slashes(v@.subrange(0, n as int)),
        decreases n,
    {
        assert(v@.subrange(0, n as int).drop_last() =~= v@.subrange(0, n - 1));
        n = n - 1;
    }
    let mut r = crate::text::string_from_chars(&v, 0, n);
    push_str(&mut r, path);
    r
}

/// A provider speaking the OpenAI-compatible protocol.
#[derive(Debug, Clone)]
pub struct OpenAiProvider {
    pub base_url: String,
    pub api_key: String,
}

impl OpenAiProvider {
    /// The chat endpoint (`<base>/chat/completions`).
    pub fn chat_url(&self) -> (r: String)
        ensures
            r@ == trim_slashes(self.base_url@) + "/chat/completions"@,
    {
        endpoint(self.base_url.as_str(), "/chat/completions")
    }

    /// The model list endpoint (`<base>/models`).
    pub fn models_url(&self) -> (r: String)
        ensures
            r@ == trim_slashes(self.base_url@) + "/models"@,
    {
        endpoint(self.base_url.as_str(), "/models")
    }

    /// The request body (see [`spec_openai_request`]).
    pub fn build_request(&self, llm_cfg: &EffectiveLLMConfig, messages: Vec<Message>, tools: &Vec<ToolConfig>) -> (r: OpenAiRequest)
        ensures
            r@ == spec_openai_request(llm_cfg@, msgs_view(messages@), tools@.map_values(|t: ToolConfig| t@)),
    {
        let result_tools = if tools.len() > 0 {
            let mut results: Vec<OpenAiRequestToolCall> = Vec::new();
            let mut i: usize = 0;
            while i < tools.len()
                invariant
                    i <= tools.len(),
                    results@.len() == i,
                    forall|j: int| 0 <= j < i ==> ((#[trigger] results@[j]) matches OpenAiRequestToolCall::Function { function }
                        && function@ == tools@[j]@),
                decreases tools.len() - i,
            {
                results.push(OpenAiRequestToolCall::Function { function: tools[i].duplicate() });
                i = i + 1;
            }
            assert(tool_entries_view(results@) =~= tools@.map_values(|t: ToolConfig| t@));
            Some(results)
        } else {
            None
        };
        OpenAiRequest {
            model: llm_cfg.model.clone(),
            messages,
            stream: false,
            tools: result_tools,
            max_tokens: llm_cfg.max_tokens,
            temperature: llm_cfg.temperature,
            thinking: thinking_mode(&llm_cfg.thinking),
            reasoning_effort: copy_opt_str(&llm_cfg.reasoning_effort),
        }
    }
}


// ---------- responses ----------

/// The data of one tool call: its arguments, and later its result or error.
#[derive(Debug)]
pub struct ToolData {
    pub arguments: Json,
    pub result: Json,
    pub error: Json,
}

/// A tool call requested by the model.
#[derive(Debug)]
pub struct ToolCall {
    pub id: String,
    pub name: String,
    pub data: ToolData,
}

/// Mathematical model of [`ToolCall`].
pub ghost struct ToolCallView {
    pub id: Seq<char>,
    pub name: Seq<char>,
    pub arguments: JsonView,
    pub result: JsonView,
    pub error: JsonView,
}

impl View for ToolCall {
    type V = ToolCallView;

    open spec fn view(&self) -> ToolCallView {
        ToolCallView {
            id: self.id@,
            name: self.name@,
            arguments: self.data.arguments@,
            result: self.data.result@,
            error: self.data.error@,
        }
    }
}

/// What is read from one model reply: the raw fields as received and what is taken from them.
#[derive(Debug)]
pub struct ModelResponse {
    pub raw_content: Json,
    pub content: Option<String>,
    pub thinking: Option<String>,
    pub raw_reasoning_content: Json,
    pub reasoning_content: Option<String>,
    pub raw_tool_calls: Json,
    pub tool_calls: Option<Vec<ToolCall>>,
    pub finish_reason: Option<String>,
    pub total_tokens: u64,
}

/// Mathematical model of [`ModelResponse`].
pub ghost struct ModelResponseView {
    pub raw_content: JsonView,
    pub content: Option<Seq<char>>,
    pub thinking: Option<Seq<char>>,
    pub raw_reasoning_content: JsonView,
    pub reasoning_content: Option<Seq<char>>,
    pub raw_tool_calls: JsonView,
    pub tool_calls: Option<Seq<ToolCallView>>,
    pub finish_reason: Option<Seq<char>>,
    pub total_tokens: u64,
}

impl View for ModelResponse {
    type V = ModelResponseView;

    open spec fn view(&self) -> ModelResponseView {
        ModelResponseView {
            raw_content: self.raw_content@,
            content: opt_view(self.content),
            thinking: opt_view(self.thinking),
            raw_reasoning_content: self.raw_reasoning_content@,
            reasoning_content: opt_view(self.reasoning_content),
            raw_tool_calls: self.raw_tool_calls@,
            tool_calls: match self.tool_calls {
                Some(t) => Some(t@.map_values(|c: ToolCall| c@)),
                None => None,
            },
            finish_reason: opt_view(self.finish_reason),
            total_tokens: self.total_tokens,
        }
    }
}

/// `v[a][b]`.
pub open spec fn get2(v: JsonView, a: Seq<char>, b: Seq<char>) -> JsonView {
    spec_get(spec_get(v, a), b)
}

/// The tool calls of an OpenAI reply: every entry with a string `id` and a string
/// `function.name`, in order, with its `function.arguments`; the others are skipped.
pub open spec fn spec_tool_calls(items: Seq<JsonView>) -> Seq<ToolCallView>
    decreases items.len(),
{
    if items.len() == 0 {
        Seq::empty()
    } else {
        let v = items.last();
        let rest = spec_tool_calls(items.drop_last());
        match (spec_as_str(spec_get(v, "id"@)), spec_as_str(get2(v, "function"@, "name"@))) {
            (Some(id), Some(name)) => rest.push(ToolCallView {
                id,
                name,
                arguments: get2(v, "function"@, "arguments"@),
                result: JsonView::Null,
                error: JsonView::Null,
            }),
            _ => rest,
        }
    }
}

/// The content with a leading think block taken out, and that block's text; none when the
/// content is not a string.
pub open spec fn split_content(raw: JsonView) -> (Option<Seq<char>>, Option<Seq<char>>) {
    match spec_as_str(raw) {
        Some(c) => (Some(spec_strip_think(c).0), spec_strip_think(c).1),
        None => (None, None),
    }
}

/// What is read from an OpenAI reply: the first choice's message fields (kept raw as well),
/// its finish reason, and `usage.total_tokens` (0 when absent).
pub open spec fn spec_openai_response(data: JsonView) -> ModelResponseView {
    let choice = spec_at(spec_get(data, "choices"@), 0);
    let message = spec_get(choice, "message"@);
    let raw_content = spec_get(message, "content"@);
    let raw_reasoning = spec_get(message, "reasoning_content"@);
    let raw_calls = spec_get(message, "tool_calls"@);
    ModelResponseView {
        raw_content,
        content: split_content(raw_content).0,
        thinking: split_content(raw_content).1,
        raw_reasoning_content: raw_reasoning,
        reasoning_content: spec_as_str(raw_reasoning),
        raw_tool_calls: raw_calls,
        tool_calls: match raw_calls {
            JsonView::Array(items) => Some(spec_tool_calls(items)),
            _ => None,
        },
        finish_reason: spec_as_str(spec_get(choice, "finish_reason"@)),
        total_tokens: match spec_as_u64(get2(data, "usage"@, "total_tokens"@)) {
            Some(n) => n,
            None => 0,
        },
    }
}

/// Separates a think block from string content (see [`split_content`]).
fn content_parts(raw: &Json) -> (r: (Option<String>, Option<String>))
    ensures
        opt_view(r.0) == split_content(raw@).0,
        opt_view(r.1) == split_content(raw@).1,
{
    match raw {
        Json::Str(c) => {
            let (a, b) = strip_think_tag(c.as_str());
            (a, b)
        },
        _ => (None, None),
    }
}

/// The tool calls of an OpenAI reply (see [`spec_tool_calls`]).
fn collect_tool_calls(items: &Vec<Json>) -> (r: Vec<ToolCall>)
    ensures
        r@.map_values(|c: ToolCall| c@) == spec_tool_calls(crate::json::items_view(items@)),
{
    proof { lemma_items_view(items@); }
    let ghost iv = crate::json::items_view(items@);
    let mut out: Vec<ToolCall> = Vec::new();
    let mut i: usize = 0;
    while i < items.len()
        invariant
            i <= items.len(),
            iv == crate::json::items_view(items@),
            iv.len() == items@.len(),
            forall|j: int| 0 <= j < items@.len() ==> #[trigger] iv[j] == items@[j]@,
            out@.map_values(|c: ToolCall| c@) == spec_tool_calls(iv.subrange(0, i as int)),
        decreases items.len() - i,
    {
        let v = &items[i];
        let ghost pre = iv.subrange(0, i as int);
        let ghost post = iv.subrange(0, i + 1);
        assert(post.drop_last() =~= pre);
        assert(post.last() == v@);
        let ghost before = out@;
        match (v.get("id").as_string(), v.get("function").get("name").as_string()) {
            (Some(id), Some(name)) => {
                let arguments = v.get("function").get("arguments");
                out.push(ToolCall { id, name, data: ToolData { arguments, result: Json::Null, error: Json::Null } });
                assert(out@.map_values(|c: ToolCall| c@) =~= before.map_values(|c: ToolCall| c@).push(out@.last()@));
            },
            _ => {},
        }
        i = i + 1;
    }
    assert(iv.subrange(0, items.len() as int) =~= iv);
    out
}

impl OpenAiProvider {
    /// Reads a `/chat/completions` reply (see [`spec_openai_response`]).
    pub fn parse_response(&self, data: Json) -> (r: ModelResponse)
        ensures
            r@ == spec_openai_response(data@),
    {
        let total_tokens = match data.get("usage").get("total_tokens").as_u64() {
            Some(n) => n,
            None => 0,
        };
        let choice = data.get("choices").at(0);
        let message = choice.get("message");
        let raw_content = message.get("content");
        let raw_reasoning_content = message.get("reasoning_content");
        let raw_tool_calls = message.get("tool_calls");
        let finish_reason = choice.get("finish_reason").as_string();
        let (content, thinking) = content_parts(&raw_content);
        let reasoning_content = raw_reasoning_content.as_string();
        let tool_calls = match &raw_tool_calls {
            Json::Array(items) => Some(collect_tool_calls(items)),
            _ => None,
        };
        ModelResponse {
            raw_content,
            content,
            thinking,
            raw_reasoning_content,
            reasoning_content,
            raw_tool_calls,
            tool_calls,
            finish_reason,
            total_tokens,
        }
    }
}


/// The ids of a model list reply: `data[*].id` where it is a string, in order.
pub open spec fn spec_model_ids(items: Seq<JsonView>) -> Seq<Seq<char>>
    decreases items.len(),
{
    if items.len() == 0 {
        Seq::empty()
    } else {
        let rest = spec_model_ids(items.drop_last());
        match spec_as_str(spec_get(items.last(), "id"@)) {
            Some(id) => rest.push(id),
            None => rest,
        }
    }
}

/// The model names of a model list reply (`data` array; none when it is missing).
pub fn model_ids(data: &Json) -> (r: Vec<String>)
    ensures
        strs_view(r@) == match spec_get(data@, "data"@) {
            JsonView::Array(items) => spec_model_ids(items),
            _ => Seq::empty(),
        },
{
    let list = data.get("data");
    let mut out: Vec<String> = Vec::new();
    match &list {
        Json::Array(items) => {
            proof { lemma_items_view(items@); }
            let ghost iv = crate::json::items_view(items@);
            let mut i: usize = 0;
            while i < items.len()
                invariant
                    i <= items.len(),
                    iv == crate::json::items_view(items@),
                    iv.len() == items@.len(),
                    forall|j: int| 0 <= j < items@.len() ==> #[trigger] iv[j] == items@[j]@,
                    strs_view(out@) == spec_model_ids(iv.subrange(0, i as int)),
                decreases items.len() - i,
            {
                let ghost pre = iv.subrange(0, i as int);
                let ghost post = iv.subrange(0, i + 1);
                assert(post.drop_last() =~= pre);
                assert(post.last() == items@[i as int]@);
                let ghost before = out@;
                match items[i].get("id").as_string() {
                    Some(id) => {
                        out.push(id);
                        assert(strs_view(out@) =~= strs_view(before).push(out@.last()@));
                    },
                    None => {},
                }
                i = i + 1;
            }
            assert(iv.subrange(0, items.len() as int) =~= iv);
        },
        _ => {
            assert(strs_view(out@) =~= Seq::<Seq<char>>::empty());
        },
    }
    out
}

// ---------- Anthropic protocol ----------

/// `max_tokens` when the settings leave it unset.
pub const DEFAULT_ANTHROPIC_MAX_TOKENS: u32 = 65535;

/// The texts of the system messages, in order.
pub open spec fn system_texts(ms: Seq<MessageView>) -> Seq<Seq<char>>
    decreases ms.len(),
{
    if ms.len() == 0 {
        Seq::empty()
    } else {
        let rest = system_texts(ms.drop_last());
        match ms.last() {
            MessageView::System(c) => rest.push(c),
            _ => rest,
        }
    }
}

/// `{"role": role, "content": content}`.
pub open spec fn role_content(role: Seq<char>, content: JsonView) -> JsonView {
    JsonView::Object(seq![("role"@, JsonView::Str(role)), ("content"@, content)])
}

/// The Anthropic messages: user and assistant messages with their content, in order; system
/// messages go to `system`, tool messages are not sent.
pub open spec fn anthropic_messages(ms: Seq<MessageView>) -> Seq<JsonView>
    decreases ms.len(),
{
    if ms.len() == 0 {
        Seq::empty()
    } else {
        let rest = anthropic_messages(ms.drop_last());
        match ms.last() {
            MessageView::User(c) => rest.push(role_content("user"@, JsonView::Str(c))),
            MessageView::Assistant(c, _, _) => rest.push(role_content("assistant"@, c)),
            _ => rest,
        }
    }
}

/// The `/v1/messages` body: model, messages and `max_tokens` (65535 when unset); the system
/// messages joined by newlines when there is any text; temperature, `thinking.type` and
/// `output_config.effort` only when set.
pub open spec fn spec_anthropic_request(cfg: EffectiveLLMConfigView, ms: Seq<MessageView>) -> JsonView {
    JsonView::Object(anthropic_body(cfg, anthropic_messages(ms), join_lines(system_texts(ms))))
}

/// The members of the `/v1/messages` body for the given messages and system text.
pub open spec fn anthropic_body(cfg: EffectiveLLMConfigView, msgs: Seq<JsonView>, system: Seq<char>) -> Seq<(Seq<char>, JsonView)> {
    let base = seq![
        ("model"@, JsonView::Str(cfg.model)),
        ("messages"@, JsonView::Array(msgs)),
        ("max_tokens"@, JsonView::Number(JsonNumber::PosInt(match cfg.max_tokens {
            Some(n) => n as u64,
            None => DEFAULT_ANTHROPIC_MAX_TOKENS as u64,
        }))),
    ];
    let with_system = if system.len() > 0 { base.push(("system"@, JsonView::Str(system))) } else { base };
    let with_temperature = match cfg.temperature {
        Some(t) => with_system.push(("temperature"@, JsonView::Number(JsonNumber::Float32(t)))),
        None => with_system,
    };
    let with_thinking = match cfg.thinking {
        Some(t) => with_temperature.push(("thinking"@, JsonView::Object(seq![("type"@, JsonView::Str(t))]))),
        None => with_temperature,
    };
    match cfg.reasoning_effort {
        Some(e) => with_thinking.push(("output_config"@, JsonView::Object(seq![("effort"@, JsonView::Str(e))]))),
        None => with_thinking,
    }
}

/// `{key: value}` as a one-member object.
fn single(key: &str, value: Json) -> (r: Json)
    ensures
        r@ == JsonView::Object(seq![(key@, value@)]),
{
    let mut members: Vec<(String, Json)> = Vec::new();
    members.push((owned(key), value));
    proof { crate::json::lemma_members_view(members@); }
    let r = Json::Object(members);
    assert(crate::json::members_view(members@) =~= seq![(key@, value@)]);
    r
}

/// Appends the member (`key`, `value`) to `members`.
fn push_member(members: &mut Vec<(String, Json)>, key: &str, value: Json)
    ensures
        crate::json::members_view(final(members)@) == crate::json::members_view(old(members)@).push((key@, value@)),
{
    let ghost before = members@;
    members.push((owned(key), value));
    assert(members@.subrange(0, members@.len() - 1) =~= before);
}

/// A provider speaking the Anthropic protocol.
#[derive(Debug, Clone)]
pub struct AnthropicProvider {
    pub base_url: String,
    pub api_key: String,
}

/// The first block of kind `ty` whose `field` is a string: that string.
pub open spec fn first_block(blocks: Seq<JsonView>, ty: Seq<char>, field: Seq<char>) -> Option<Seq<char>>
    decreases blocks.len(),
{
    if blocks.len() == 0 {
        None
    } else {
        match first_block(blocks.drop_last(), ty, field) {
            Some(x) => Some(x),
            None => if spec_as_str(spec_get(blocks.last(), "type"@)) == Some(ty) {
                spec_as_str(spec_get(blocks.last(), field))
            } else {
                None
            },
        }
    }
}

/// What is read from an Anthropic reply: the first text block (with a leading think block
/// taken out), the first thinking block, the stop reason; no tool calls, no token count.
pub open spec fn spec_anthropic_response(data: JsonView) -> ModelResponseView {
    let raw_content = spec_get(data, "content"@);
    let blocks = match raw_content {
        JsonView::Array(items) => items,
        _ => Seq::empty(),
    };
    let text = first_block(blocks, "text"@, "text"@);
    ModelResponseView {
        raw_content,
        content: match text {
            Some(c) => Some(spec_strip_think(c).0),
            None => None,
        },
        thinking: match text {
            Some(c) => spec_strip_think(c).1,
            None => None,
        },
        raw_reasoning_content: JsonView::Null,
        reasoning_content: first_block(blocks, "thinking"@, "thinking"@),
        raw_tool_calls: JsonView::Null,
        tool_calls: None,
        finish_reason: spec_as_str(spec_get(data, "stop_reason"@)),
        total_tokens: 0,
    }
}

/// Whether `v` is a block of kind `ty`.
fn block_is(v: &Json, ty: &str) -> (r: bool)
    ensures
        r == (spec_as_str(spec_get(v@, "type"@)) == Some(ty@)),
{
    match v.get("type").as_string() {
        Some(t) => str_eq(t.as_str(), ty),
        None => false,
    }
}

impl AnthropicProvider {
    /// The messages endpoint (`<base>/v1/messages`).
    pub fn messages_url(&self) -> (r: String)
        ensures
            r@ == trim_slashes(self.base_url@) + "/v1/messages"@,
    {
        endpoint(self.base_url.as_str(), "/v1/messages")
    }

    /// The model list endpoint (`<base>/v1/models`).
    pub fn models_url(&self) -> (r: String)
        ensures
            r@ == trim_slashes(self.base_url@) + "/v1/models"@,
    {
        endpoint(self.base_url.as_str(), "/v1/models")
    }

    /// The request body (see [`spec_anthropic_request`]); tools are not sent.
    pub fn build_request(&self, llm_cfg: &EffectiveLLMConfig, messages: Vec<Message>, tools: &Vec<ToolConfig>) -> (r: Json)
        ensures
            r@ == spec_anthropic_request(llm_cfg@, msgs_view(messages@)),
    {
        let ghost mv = msgs_view(messages@);
        let mut system_parts: Vec<String> = Vec::new();
        let mut msgs: Vec<Json> = Vec::new();
        let mut i: usize = 0;
        while i < messages.len()
            invariant
                i <= messages.len(),
                mv == msgs_view(messages@),
                strs_view(system_parts@) == system_texts(mv.subrange(0, i as int)),
                crate::json::items_view(msgs@) == anthropic_messages(mv.subrange(0, i as int)),
            decreases messages.len() - i,
        {
            let ghost pre = mv.subrange(0, i as int);
            let ghost post = mv.subrange(0, i + 1);
            assert(post.drop_last() =~= pre);
            assert(post.last() == messages@[i as int]@);
            let ghost sb = system_parts@;
            let ghost mb = msgs@;
            match &messages[i] {
                Message::System { content } => {
                    system_parts.push(content.clone());
                    assert(strs_view(system_parts@) =~= strs_view(sb).push(content@));
                },
                Message::User { content } => {
                    let mut m: Vec<(String, Json)> = Vec::new();
                    push_member(&mut m, "role", Json::Str(owned("user")));
                    push_member(&mut m, "content", Json::Str(content.clone()));
                    assert(crate::json::members_view(m@) =~= seq![("role"@, JsonView::Str("user"@)), ("content"@, JsonView::Str(content@))]);
                    msgs.push(Json::Object(m));
                    assert(msgs@.subrange(0, msgs@.len() - 1) =~= mb);
                    assert(crate::json::items_view(msgs@) == crate::json::items_view(mb).push(msgs@.last()@));
                },
                Message::Assistant { content, .. } => {
                    let mut m: Vec<(String, Json)> = Vec::new();
                    push_member(&mut m, "role", Json::Str(owned("assistant")));
                    push_member(&mut m, "content", content.duplicate());
                    assert(crate::json::members_view(m@) =~= seq![("role"@, JsonView::Str("assistant"@)), ("content"@, content@)]);
                    msgs.push(Json::Object(m));
                    assert(msgs@.subrange(0, msgs@.len() - 1) =~= mb);
                    assert(crate::json::items_view(msgs@) == crate::json::items_view(mb).push(msgs@.last()@));
                },
                Message::Tool { .. } => {},
            }
            i = i + 1;
        }
        assert(mv.subrange(0, messages.len() as int) =~= mv);
        let system = join_newline(&system_parts);
        assert(system@ == join_lines(system_texts(msgs_view(messages@))));
        assert(crate::json::items_view(msgs@) == anthropic_messages(msgs_view(messages@)));
        let mut body: Vec<(String, Json)> = Vec::new();
        let ghost msgs_v = crate::json::items_view(msgs@);
        push_member(&mut body, "model", Json::Str(llm_cfg.model.clone()));
        push_member(&mut body, "messages", Json::Array(msgs));
        let max_tokens: u32 = match llm_cfg.max_tokens {
            Some(n) => n,
            None => DEFAULT_ANTHROPIC_MAX_TOKENS,
        };
        push_member(&mut body, "max_tokens", Json::Number(JsonNumber::PosInt(max_tokens as u64)));
        let ghost mut expect: Seq<(Seq<char>, JsonView)> = seq![
            ("model"@, JsonView::Str(llm_cfg@.model)),
            ("messages"@, JsonView::Array(msgs_v)),
            ("max_tokens"@, JsonView::Number(JsonNumber::PosInt(max_tokens as u64))),
        ];
        assert(crate::json::members_view(body@) =~= expect);
        if !crate::text::is_empty_str(system.as_str()) {
            push_member(&mut body, "system", Json::Str(system));
            proof { expect = expect.push(("system"@, JsonView::Str(system@))); }
        }
        if let Some(t) = llm_cfg.temperature {
            push_member(&mut body, "temperature", Json::Number(JsonNumber::Float32(t)));
            proof { expect = expect.push(("temperature"@, JsonView::Number(JsonNumber::Float32(t)))); }
        }
        if let Some(t) = &llm_cfg.thinking {
            push_member(&mut body, "thinking", single("type", Json::Str(t.clone())));
            proof { expect = expect.push(("thinking"@, JsonView::Object(seq![("type"@, JsonView::Str(t@))]))); }
        }
        if let Some(e) = &llm_cfg.reasoning_effort {
            push_member(&mut body, "output_config", single("effort", Json::Str(e.clone())));
            proof { expect = expect.push(("output_config"@, JsonView::Object(seq![("effort"@, JsonView::Str(e@))]))); }
        }
        assert(crate::json::members_view(body@) == expect);
        assert(expect =~= anthropic_body(llm_cfg@, msgs_v, system@));
        Json::Object(body)
    }

    /// Reads a `/v1/messages` reply (see [`spec_anthropic_response`]).
    pub fn parse_response(&self, data: Json) -> (r: ModelResponse)
        ensures
            r@ == spec_anthropic_response(data@),
    {
        let raw_content = data.get("content");
        let mut reasoning_content: Option<String> = None;
        let mut text: Option<String> = None;
        match &raw_content {
            Json::Array(blocks) => {
                proof { lemma_items_view(blocks@); }
                let ghost bv = crate::json::items_view(blocks@);
                let mut i: usize = 0;
                while i < blocks.len()
                    invariant
                        i <= blocks.len(),
                        bv == crate::json::items_view(blocks@),
                        bv.len() == blocks@.len(),
                        forall|j: int| 0 <= j < blocks@.len() ==> #[trigger] bv[j] == blocks@[j]@,
                        opt_view(reasoning_content) == first_block(bv.subrange(0, i as int), "thinking"@, "thinking"@),
                        opt_view(text) == first_block(bv.subrange(0, i as int), "text"@, "text"@),
                    decreases blocks.len() - i,
                {
                    let ghost pre = bv.subrange(0, i as int);
                    let ghost post = bv.subrange(0, i + 1);
                    assert(post.drop_last() =~= pre);
                    assert(post.last() == blocks@[i as int]@);
                    let block = &blocks[i];
                    if reasoning_content.is_none() && block_is(block, "thinking") {
                        reasoning_content = block.get("thinking").as_string();
                    }
                    if text.is_none() && block_is(block, "text") {
                        text = block.get("text").as_string();
                    }
                    i = i + 1;
                }
                assert(bv.subrange(0, blocks.len() as int) =~= bv);
            },
            _ => {},
        }
        let finish_reason = data.get("stop_reason").as_string();
        let (content, thinking) = match &text {
            Some(c) => strip_think_tag(c.as_str()),
            None => (None, None),
        };
        ModelResponse {
            raw_content,
            content,
            thinking,
            raw_reasoning_content: Json::Null,
            reasoning_content,
            raw_tool_calls: Json::Null,
            tool_calls: None,
            finish_reason,
            total_tokens: 0,
        }
    }
}


// ---------- choosing a provider, retrying ----------

/// The protocols a provider may speak.
#[derive(Debug, Clone, Copy, PartialEq, Eq)]
pub enum ProviderKind {
    OpenAi,
    Anthropic,
}

/// The protocol named by a provider type: `openai` or `anthropic`; any other type is not supported.
pub fn provider_kind(provider_type: &str) -> (r: Result<ProviderKind, AgentError>)
    ensures
        provider_type@ == "openai"@ ==> r == Ok::<ProviderKind, AgentError>(ProviderKind::OpenAi),
        provider_type@ == "anthropic"@ ==> r == Ok::<ProviderKind, AgentError>(ProviderKind::Anthropic),
        provider_type@ != "openai"@ && provider_type@ != "anthropic"@ ==> (r matches Err(AgentError::ModelProviderNotSupported(m))
            && m@ == "未知 provider_type: "@ + provider_type@),
{
    proof {
        reveal_strlit("openai");
        reveal_strlit("anthropic");
        assert("openai"@[0] != "anthropic"@[0]);
    }
    if str_eq(provider_type, "openai") {
        Ok(ProviderKind::OpenAi)
    } else if str_eq(provider_type, "anthropic") {
        Ok(ProviderKind::Anthropic)
    } else {
        let mut m = owned("未知 provider_type: ");
        push_str(&mut m, provider_type);
        Err(AgentError::ModelProviderNotSupported(m))
    }
}

/// What a model call for these settings goes to: the protocol and the parameters in effect
/// for the configured provider and model. An unknown provider, or an unsupported type, is an error.
pub fn resolve_model_call(repo: &NexusRepo, llm_cfg: &EffectiveLLMConfig) -> (r: Result<(ProviderKind, EffectiveModelConfig), AgentError>)
    ensures
        !repo@.providers.dom().contains(llm_cfg@.provider) ==> (r matches Err(AgentError::ModelProviderNotFound(p, m))
            && p@ == llm_cfg@.provider && m@ == llm_cfg@.model),
        repo@.providers.dom().contains(llm_cfg@.provider) ==> {
            let eff = effective_model(repo@.providers[llm_cfg@.provider], llm_cfg@.model);
            let t = eff.provider_config.provider_type;
            &&& t == "openai"@ ==> (r matches Ok((k, e)) && k == ProviderKind::OpenAi && e@ == eff)
            &&& t == "anthropic"@ ==> (r matches Ok((k, e)) && k == ProviderKind::Anthropic && e@ == eff)
            &&& t != "openai"@ && t != "anthropic"@ ==> (r matches Err(AgentError::ModelProviderNotSupported(m))
                && m@ == "未知 provider_type: "@ + t)
        },
{
    proof {
        reveal_strlit("openai");
        reveal_strlit("anthropic");
        assert("openai"@[0] != "anthropic"@[0]);
    }
    match repo.provider_model_config(llm_cfg.provider.as_str(), llm_cfg.model.as_str()) {
        Some(eff) => match provider_kind(eff.provider_config.provider_type.as_str()) {
            Ok(k) => Ok((k, eff)),
            Err(e) => Err(e),
        },
        None => Err(AgentError::ModelProviderNotFound(llm_cfg.provider.clone(), llm_cfg.model.clone())),
    }
}

/// How to reach provider `name` for listing its models: the protocol and its settings.
pub fn resolve_provider(repo: &NexusRepo, name: &str) -> (r: Result<(ProviderKind, ProviderConfig), AgentError>)
    ensures
        !repo@.providers.dom().contains(name@) ==> (r matches Err(AgentError::ModelProviderNotFound(p, m))
            && p@ == name@ && m@.len() == 0),
        repo@.providers.dom().contains(name@) ==> {
            let pc = repo@.providers[name@].provider_config;
            &&& pc.provider_type == "openai"@ ==> (r matches Ok((k, c)) && k == ProviderKind::OpenAi && c@ == pc)
            &&& pc.provider_type == "anthropic"@ ==> (r matches Ok((k, c)) && k == ProviderKind::Anthropic && c@ == pc)
            &&& pc.provider_type != "openai"@ && pc.provider_type != "anthropic"@ ==> (r matches Err(AgentError::ModelProviderNotSupported(m))
                && m@ == "未知 provider_type: "@ + pc.provider_type)
        },
{
    proof {
        reveal_strlit("openai");
        reveal_strlit("anthropic");
        assert("openai"@[0] != "anthropic"@[0]);
    }
    match repo.provider_config(name) {
        Some(pc) => match provider_kind(pc.provider_type.as_str()) {
            Ok(k) => Ok((k, pc)),
            Err(e) => Err(e),
        },
        None => Err(AgentError::ModelProviderNotFound(owned(name), String::new())),
    }
}

/// What to do after attempt `attempt` (counting from 0) of a model call failed.
#[derive(Debug, Clone, Copy, PartialEq, Eq)]
pub enum RetryStep {
    /// Wait this many seconds, then try again.
    Sleep(u64),
    /// Stop and report the error.
    GiveUp,
}

/// The step after a failed attempt: a configuration error (`permanent`) ends at once; other
/// failures are retried `retry_count` times with waits of 1, 2, 4, ... seconds.
pub fn retry_step(attempt: u32, retry_count: u32, permanent: bool) -> (r: RetryStep)
    requires
        attempt < retry_count ==> attempt < 64,
    ensures
        permanent || attempt >= retry_count ==> r == RetryStep::GiveUp,
        !permanent && attempt < retry_count ==> r == RetryStep::Sleep(vstd::arithmetic::power2::pow2(attempt as nat) as u64),
{
    if permanent || attempt >= retry_count {
        RetryStep::GiveUp
    } else {
        let shift: u64 = attempt as u64;
        proof {
            vstd::bits::lemma_u64_pow2_no_overflow(shift as nat);
            vstd::bits::lemma_u64_shl_is_mul(1, shift);
        }
        let secs: u64 = 1u64 << shift;
        RetryStep::Sleep(secs)
    }
}

/// The error reported when every attempt failed: the last failure, or a generic model error
/// when there was none.
pub fn final_error(last: Option<AgentError>) -> (r: AgentError)
    ensures
        last is Some ==> r == last->0,
        last is None ==> (r matches AgentError::ModelApiError(m) && m@ == "模型调用失败"@),
{
    match last {
        Some(e) => e,
        None => AgentError::ModelApiError(owned("模型调用失败")),
    }
}

} // verus!
