//! The components of a session's pipeline: which ones a configuration selects, and the
//! decisions of the system prompters and of the channel output processor.
use vstd::prelude::*;
use crate::configs::PipelineConfig;
use crate::effective::opt_view;
use crate::error::AgentError;
use crate::json::{Json, JsonView};
use crate::message::{Message, MessageView};
use crate::provider::{ModelResponse, ModelResponseView, ToolCall, ToolCallView};
use crate::text::{owned, str_eq};
use crate::registry::{key_views, Registry};
use crate::types::{Mode, ModeView, SessionKey, SessionKeyView};

verus! {

pub const PP_IN_BATCH: &'static str = "batch_input_processor";
pub const PP_OUT_CHANNEL: &'static str = "channel_output_processor";
pub const PP_MSG_RAW: &'static str = "raw_message_sender";
pub const PP_MSG_COMPRESS: &'static str = "compress_message_sender";
pub const PP_MSG_MEMORY_RECOVER: &'static str = "memory_recover_message_sender";
pub const PP_TOOL_STATION: &'static str = "station_tool_caller";
pub const PP_SYS_DEFAULT: &'static str = "default_system_prompter";
pub const PP_SYS_MEMORY_EGO: &'static str = "memory_ego_system_prompter";
pub const PP_PRESET_ROLE: &'static str = "preset_role";
pub const PP_PRESET_EVENT: &'static str = "preset_event";

/// The system prompt used when no other is known.
pub const DEFAULT_SYSTEM_PROMPT: &'static str = "你是一个通用智能体。使用可用工具完成用户任务";

/// Tool rounds of one agentic loop at most.
pub const MAX_TOOL_ROUNDS: usize = 10;

// ---------- selecting components ----------

/// The preset in effect: the configured one, or for an empty name the preset of the
/// session's mode; none when no preset is configured.
pub open spec fn preset_of(preset: Option<Seq<char>>, mode: ModeView) -> Option<Seq<char>> {
    match preset {
        Some(p) => if p.len() == 0 {
            match mode {
                ModeView::Role => Some(PP_PRESET_ROLE@),
                ModeView::Event(_) => Some(PP_PRESET_EVENT@),
            }
        } else {
            Some(p)
        },
        None => None,
    }
}

/// The pipeline components a preset selects: message sender, tool caller, output processor
/// (the role preset recovers memory, the event preset compresses; other names select none).
pub open spec fn preset_pipeline(preset: Option<Seq<char>>) -> (Option<Seq<char>>, Option<Seq<char>>, Option<Seq<char>>) {
    match preset {
        Some(p) => if p == PP_PRESET_ROLE@ {
            (Some(PP_MSG_MEMORY_RECOVER@), Some(PP_TOOL_STATION@), Some(PP_OUT_CHANNEL@))
        } else if p == PP_PRESET_EVENT@ {
            (Some(PP_MSG_COMPRESS@), Some(PP_TOOL_STATION@), Some(PP_OUT_CHANNEL@))
        } else {
            (None, None, None)
        },
        None => (None, None, None),
    }
}

/// The trigger components a preset selects: input processor and system prompter.
pub open spec fn preset_trigger(preset: Option<Seq<char>>) -> (Option<Seq<char>>, Option<Seq<char>>) {
    match preset {
        Some(p) => if p == PP_PRESET_ROLE@ || p == PP_PRESET_EVENT@ {
            (Some(PP_IN_BATCH@), Some(PP_SYS_MEMORY_EGO@))
        } else {
            (None, None)
        },
        None => (None, None),
    }
}

/// A configured component name, else the preset's.
pub open spec fn chosen(configured: Option<Seq<char>>, from_preset: Option<Seq<char>>) -> Option<Seq<char>> {
    if configured is Some { configured } else { from_preset }
}

/// The message senders.
#[derive(Debug, Clone, Copy, PartialEq, Eq)]
pub enum MessageSenderKind {
    /// Sends the context as it is.
    Raw,
    /// Compresses the context into a summary when it grows too large.
    Compress,
    /// Rebuilds the context from memory when it grows too large.
    MemoryRecover,
}

/// The message sender named `name`.
pub open spec fn spec_message_sender(name: Seq<char>) -> Option<MessageSenderKind> {
    if name == PP_MSG_RAW@ {
        Some(MessageSenderKind::Raw)
    } else if name == PP_MSG_COMPRESS@ {
        Some(MessageSenderKind::Compress)
    } else if name == PP_MSG_MEMORY_RECOVER@ {
        Some(MessageSenderKind::MemoryRecover)
    } else {
        None
    }
}

/// The tool callers.
#[derive(Debug, Clone, Copy, PartialEq, Eq)]
pub enum ToolCallerKind {
    /// Calls tools through the station.
    Station,
}

/// The output processors.
#[derive(Debug, Clone, Copy, PartialEq, Eq)]
pub enum OutputProcessorKind {
    /// Replies on the session's reply channel.
    Channel,
}

/// The input processors.
#[derive(Debug, Clone, Copy, PartialEq, Eq)]
pub enum InputProcessorKind {
    /// Batches channel messages.
    Batch,
}

/// The message sender named `name`, if any.
pub fn create_message_sender(name: &str) -> (r: Option<MessageSenderKind>)
    ensures
        r == spec_message_sender(name@),
{
    if str_eq(name, PP_MSG_RAW) {
        Some(MessageSenderKind::Raw)
    } else if str_eq(name, PP_MSG_COMPRESS) {
        Some(MessageSenderKind::Compress)
    } else if str_eq(name, PP_MSG_MEMORY_RECOVER) {
        Some(MessageSenderKind::MemoryRecover)
    } else {
        None
    }
}

/// The tool caller named `name`, if any.
pub fn create_tool_caller(name: &str) -> (r: Option<ToolCallerKind>)
    ensures
        r == if name@ == PP_TOOL_STATION@ { Some(ToolCallerKind::Station) } else { None::<ToolCallerKind> },
{
    if str_eq(name, PP_TOOL_STATION) { Some(ToolCallerKind::Station) } else { None }
}

/// The output processor named `name`, if any.
pub fn create_output_processor(name: &str) -> (r: Option<OutputProcessorKind>)
    ensures
        r == if name@ == PP_OUT_CHANNEL@ { Some(OutputProcessorKind::Channel) } else { None::<OutputProcessorKind> },
{
    if str_eq(name, PP_OUT_CHANNEL) { Some(OutputProcessorKind::Channel) } else { None }
}

/// The input processor named `name`, if any.
pub fn create_input_processor(name: &str) -> (r: Option<InputProcessorKind>)
    ensures
        r == if name@ == PP_IN_BATCH@ { Some(InputProcessorKind::Batch) } else { None::<InputProcessorKind> },
{
    if str_eq(name, PP_IN_BATCH) { Some(InputProcessorKind::Batch) } else { None }
}

// ---------- system prompters ----------

/// Gives a session a fixed system prompt.
#[derive(Debug)]
pub struct DefaultSystemPrompter {
    pub session_key: SessionKey,
    pub prompt: String,
}

impl DefaultSystemPrompter {
    /// The prompter with the default prompt.
    pub fn new(session_key: SessionKey) -> (r: DefaultSystemPrompter)
        ensures
            r.session_key == session_key,
            r.prompt@ == DEFAULT_SYSTEM_PROMPT@,
    {
        DefaultSystemPrompter { session_key, prompt: owned(DEFAULT_SYSTEM_PROMPT) }
    }

    /// The prompter with the prompt `value`.
    pub fn from(session_key: SessionKey, value: &str) -> (r: DefaultSystemPrompter)
        ensures
            r.session_key == session_key,
            r.prompt@ == value@,
    {
        DefaultSystemPrompter { session_key, prompt: owned(value) }
    }

    /// The system message to set.
    pub fn system_prompt(&self) -> (r: String)
        ensures
            r@ == self.prompt@,
    {
        self.prompt.clone()
    }
}

/// Gives a session the prompt built from the agent's memory (ego, role, individuals).
#[derive(Debug)]
pub struct MemoryEgoSystemPrompter {
    pub session_key: SessionKey,
}

impl MemoryEgoSystemPrompter {
    /// The prompter of `session_key`.
    pub fn new(session_key: SessionKey) -> (r: MemoryEgoSystemPrompter)
        ensures
            r.session_key == session_key,
    {
        MemoryEgoSystemPrompter { session_key }
    }

    /// The system message to set: the prompt built from memory (see
    /// [`crate::ego::system_prompt_for_agent`]), or the default prompt when there is none
    /// (the reserved agent).
    pub fn system_prompt(built: Option<String>) -> (r: String)
        ensures
            r@ == match built {
                Some(p) => p@,
                None => DEFAULT_SYSTEM_PROMPT@,
            },
    {
        match built {
            Some(p) => p,
            None => owned(DEFAULT_SYSTEM_PROMPT),
        }
    }
}

/// A system prompter.
#[derive(Debug)]
pub enum SystemPrompter {
    Default(DefaultSystemPrompter),
    MemoryEgo(MemoryEgoSystemPrompter),
}

/// The system prompter named `name` for `session_key`, if any.
pub fn create_system_prompter(session_key: SessionKey, name: &str) -> (r: Option<SystemPrompter>)
    ensures
        name@ == PP_SYS_DEFAULT@ ==> (r matches Some(SystemPrompter::Default(p)) && p.session_key == session_key
            && p.prompt@ == DEFAULT_SYSTEM_PROMPT@),
        name@ == PP_SYS_MEMORY_EGO@ ==> (r matches Some(SystemPrompter::MemoryEgo(p)) && p.session_key == session_key),
        name@ != PP_SYS_DEFAULT@ && name@ != PP_SYS_MEMORY_EGO@ ==> r is None,
{
    proof {
        reveal_strlit("default_system_prompter");
        reveal_strlit("memory_ego_system_prompter");
        assert(PP_SYS_DEFAULT@[0] != PP_SYS_MEMORY_EGO@[0]);
    }
    if str_eq(name, PP_SYS_DEFAULT) {
        Some(SystemPrompter::Default(DefaultSystemPrompter::new(session_key)))
    } else if str_eq(name, PP_SYS_MEMORY_EGO) {
        Some(SystemPrompter::MemoryEgo(MemoryEgoSystemPrompter::new(session_key)))
    } else {
        None
    }
}

// ---------- assembling a session's pipeline ----------

/// The components that answer a session: message sender, tool caller, output processor.
#[derive(Debug)]
pub struct AgentPipeline {
    pub session_key: SessionKey,
    pub message_sender: MessageSenderKind,
    pub tool_caller: ToolCallerKind,
    pub output_processor: OutputProcessorKind,
}

/// The components that feed a session: input processor and system prompter.
#[derive(Debug)]
pub struct AgentTrigger {
    pub session_key: SessionKey,
    pub input_processor: InputProcessorKind,
    pub system_prompter: SystemPrompter,
}

/// The preset in effect (see [`preset_of`]).
fn preset_name(config: &PipelineConfig, mode: &Mode) -> (r: Option<String>)
    ensures
        opt_view(r) == preset_of(opt_view(config.preset), mode@),
{
    match &config.preset {
        Some(p) => if crate::text::is_empty_str(p.as_str()) {
            match mode {
                Mode::Role => Some(owned(PP_PRESET_ROLE)),
                Mode::Event(_) => Some(owned(PP_PRESET_EVENT)),
            }
        } else {
            Some(p.clone())
        },
        None => None,
    }
}

/// A configured name, else `fallback`.
fn pick(configured: &Option<String>, fallback: Option<String>) -> (r: Option<String>)
    ensures
        opt_view(r) == chosen(opt_view(*configured), opt_view(fallback)),
{
    match configured {
        Some(c) => Some(c.clone()),
        None => fallback,
    }
}

/// `Some(name)` as an owned string.
fn some_name(name: &str) -> (r: Option<String>)
    ensures
        opt_view(r) == Some(name@),
{
    Some(owned(name))
}

/// The pipeline component names for a configuration and mode: the preset's, each replaced
/// by a configured name.
pub open spec fn pipeline_names(c: PipelineConfig, mode: ModeView) -> (Option<Seq<char>>, Option<Seq<char>>, Option<Seq<char>>) {
    let p = preset_pipeline(preset_of(opt_view(c.preset), mode));
    (
        chosen(opt_view(c.message_sender), p.0),
        chosen(opt_view(c.tool_caller), p.1),
        chosen(opt_view(c.output_processor), p.2),
    )
}

/// The pipeline of `session_key` under `config`: present only when every selected name
/// names a component (see [`pipeline_names`]).
pub fn create_agent_pipeline(session_key: SessionKey, config: &PipelineConfig) -> (r: Option<AgentPipeline>)
    ensures
        ({
            let names = pipeline_names(*config, session_key@.mode);
            let sender = match names.0 { Some(n) => spec_message_sender(n), None => None };
            let caller_ok = names.1 == Some(PP_TOOL_STATION@);
            let output_ok = names.2 == Some(PP_OUT_CHANNEL@);
            &&& (sender is Some && caller_ok && output_ok) ==> (r matches Some(p) && p.session_key == session_key
                && p.message_sender == sender->0 && p.tool_caller == ToolCallerKind::Station
                && p.output_processor == OutputProcessorKind::Channel)
            &&& !(sender is Some && caller_ok && output_ok) ==> r is None
        }),
{
    let preset = preset_name(config, &session_key.mode);
    let (ms, tc, op) = match &preset {
        Some(p) => if str_eq(p.as_str(), PP_PRESET_ROLE) {
            (some_name(PP_MSG_MEMORY_RECOVER), some_name(PP_TOOL_STATION), some_name(PP_OUT_CHANNEL))
        } else if str_eq(p.as_str(), PP_PRESET_EVENT) {
            (some_name(PP_MSG_COMPRESS), some_name(PP_TOOL_STATION), some_name(PP_OUT_CHANNEL))
        } else {
            (None, None, None)
        },
        None => (None, None, None),
    };
    let ms = pick(&config.message_sender, ms);
    let tc = pick(&config.tool_caller, tc);
    let op = pick(&config.output_processor, op);
    let message_sender = match &ms {
        Some(n) => create_message_sender(n.as_str()),
        None => None,
    };
    let tool_caller = match &tc {
        Some(n) => create_tool_caller(n.as_str()),
        None => None,
    };
    let output_processor = match &op {
        Some(n) => create_output_processor(n.as_str()),
        None => None,
    };
    match (message_sender, tool_caller, output_processor) {
        (Some(message_sender), Some(tool_caller), Some(output_processor)) => Some(AgentPipeline {
            session_key,
            message_sender,
            tool_caller,
            output_processor,
        }),
        _ => None,
    }
}

/// The trigger component names for a configuration and mode.
pub open spec fn trigger_names(c: PipelineConfig, mode: ModeView) -> (Option<Seq<char>>, Option<Seq<char>>) {
    let p = preset_trigger(preset_of(opt_view(c.preset), mode));
    (chosen(opt_view(c.input_processor), p.0), chosen(opt_view(c.system_prompter), p.1))
}

/// The trigger of `session_key` under `config`: present only when both selected names name
/// a component (see [`trigger_names`]).
pub fn create_agent_trigger(session_key: SessionKey, config: &PipelineConfig) -> (r: Option<AgentTrigger>)
    ensures
        ({
            let names = trigger_names(*config, session_key@.mode);
            let input_ok = names.0 == Some(PP_IN_BATCH@);
            let prompter_ok = names.1 == Some(PP_SYS_DEFAULT@) || names.1 == Some(PP_SYS_MEMORY_EGO@);
            &&& (input_ok && prompter_ok) ==> (r matches Some(t) && t.session_key == session_key
                && t.input_processor == InputProcessorKind::Batch
                && (names.1 == Some(PP_SYS_DEFAULT@) <==> t.system_prompter is Default))
            &&& !(input_ok && prompter_ok) ==> r is None
        }),
{
    let preset = preset_name(config, &session_key.mode);
    let (ip, sp) = match &preset {
        Some(p) => if str_eq(p.as_str(), PP_PRESET_ROLE) || str_eq(p.as_str(), PP_PRESET_EVENT) {
            (some_name(PP_IN_BATCH), some_name(PP_SYS_MEMORY_EGO))
        } else {
            (None, None)
        },
        None => (None, None),
    };
    let ip = pick(&config.input_processor, ip);
    let sp = pick(&config.system_prompter, sp);
    let input_processor = match &ip {
        Some(n) => create_input_processor(n.as_str()),
        None => None,
    };
    let key = session_key.duplicate();
    let system_prompter = match &sp {
        Some(n) => create_system_prompter(key, n.as_str()),
        None => None,
    };
    proof {
        reveal_strlit("default_system_prompter");
        reveal_strlit("memory_ego_system_prompter");
        assert(PP_SYS_DEFAULT@[0] != PP_SYS_MEMORY_EGO@[0]);
    }
    match (input_processor, system_prompter) {
        (Some(input_processor), Some(system_prompter)) => Some(AgentTrigger {
            session_key,
            input_processor,
            system_prompter,
        }),
        _ => None,
    }
}

// ---------- the channel output processor ----------

/// Ends a model round: keeps the reply in the context and says whether to go on.
#[derive(Debug)]
pub struct ChannelOutputProcessor {
    pub session_key: SessionKey,
}

/// What a round produced: whether to run another round, the assistant message to keep, one
/// tool answer per tool call (its id and the value to show: the result, or the error when
/// there is no result), and the text to send on the reply channel.
#[derive(Debug)]
pub struct OutputDecision {
    pub next: bool,
    pub assistant: Option<Message>,
    pub tool_answers: Vec<(String, Json)>,
    pub reply: Option<String>,
}

/// The value shown for a tool call: its result, or its error when the result is null.
pub open spec fn answer_value(c: ToolCallView) -> JsonView {
    if c.result is Null { c.error } else { c.result }
}

/// The tool calls of a model response (none when it made none).
pub open spec fn response_calls(v: ModelResponseView) -> Seq<ToolCallView> {
    match v.tool_calls {
        Some(c) => c,
        None => Seq::empty(),
    }
}

impl ChannelOutputProcessor {
    /// The processor of `session_key`.
    pub fn new(session_key: SessionKey) -> (r: ChannelOutputProcessor)
        ensures
            r.session_key == session_key,
    {
        ChannelOutputProcessor { session_key }
    }

    /// Decides the end of round `round` (counting from 1): a failed call ends the loop with
    /// nothing kept; a reply is kept as an assistant message with its raw fields, its tool
    /// calls are answered in order, and another round follows only when there were tool
    /// calls and fewer than the round limit have run.
    pub fn accept(&self, round: usize, response: Result<ModelResponse, AgentError>) -> (r: OutputDecision)
        ensures
            match response {
                Err(_) => !r.next && r.assistant is None && r.tool_answers@.len() == 0 && r.reply is None,
                Ok(resp) => {
                    &&& r.assistant matches Some(a)
                        && a@ == MessageView::Assistant(resp@.raw_content, resp@.raw_reasoning_content, resp@.raw_tool_calls)
                    &&& r.tool_answers@.len() == response_calls(resp@).len()
                    &&& forall|i: int| #![trigger r.tool_answers@[i]] #![trigger response_calls(resp@)[i]]
                        0 <= i < response_calls(resp@).len() ==> r.tool_answers@[i].0@ == response_calls(resp@)[i].id
                            && r.tool_answers@[i].1@ == answer_value(response_calls(resp@)[i])
                    &&& r.next == (response_calls(resp@).len() > 0 && round < MAX_TOOL_ROUNDS)
                    &&& opt_view(r.reply) == resp@.content
                },
            },
    {
        match response {
            Err(_) => OutputDecision { next: false, assistant: None, tool_answers: Vec::new(), reply: None },
            Ok(resp) => {
                let ghost v = resp@;
                let assistant = Message::Assistant {
                    content: resp.raw_content,
                    reasoning_content: resp.raw_reasoning_content,
                    tool_calls: resp.raw_tool_calls,
                };
                let mut answers: Vec<(String, Json)> = Vec::new();
                let mut next = false;
                match resp.tool_calls {
                    Some(calls) => {
                        let mut i: usize = 0;
                        while i < calls.len()
                            invariant
                                i <= calls.len(),
                                answers@.len() == i,
                                next == (i > 0),
                                forall|j: int| 0 <= j < i ==> answers@[j].0@ == (#[trigger] calls@[j])@.id
                                    && answers@[j].1@ == answer_value(calls@[j]@),
                            decreases calls.len() - i,
                        {
                            let c = &calls[i];
                            let value = if c.data.result.is_null() { c.data.error.duplicate() } else { c.data.result.duplicate() };
                            answers.push((c.id.clone(), value));
                            next = true;
                            i = i + 1;
                        }
                        assert(calls@.map_values(|c: ToolCall| c@).len() == calls@.len());
                    },
                    None => {},
                }
                if round >= MAX_TOOL_ROUNDS {
                    next = false;
                }
                OutputDecision { next, assistant: Some(assistant), tool_answers: answers, reply: resp.content }
            },
        }
    }
}

// ---------- senders and callers ----------

/// Sends the session's context to its model as it is.
#[derive(Debug)]
pub struct RawMessagerSender {
    pub session_key: SessionKey,
}

/// Calls tools through the station.
#[derive(Debug, Clone, Copy)]
pub struct StationToolCaller;


// ---------- keeping the context within the model's token budget ----------

/// How a token-limited sender shrinks the context.
#[derive(Debug, Clone, Copy, PartialEq, Eq)]
pub enum TokenReducerKind {
    /// Has the model summarise the context and continues from the summary.
    Compress,
    /// Rebuilds the context from memory.
    MemoryRecover,
}

/// Sends the context after shrinking it whenever the last reply used more tokens than the
/// budget allows; it remembers the token count of the last reply.
#[derive(Debug)]
pub struct TokenLimitMessageSender {
    pub session_key: SessionKey,
    pub reducer: TokenReducerKind,
    pub last_total_tokens: u64,
}

impl TokenLimitMessageSender {
    /// A sender of `session_key` that compresses; no tokens counted yet.
    pub fn new_compress(session_key: SessionKey) -> (r: TokenLimitMessageSender)
        ensures
            r.session_key == session_key,
            r.reducer == TokenReducerKind::Compress,
            r.last_total_tokens == 0,
    {
        TokenLimitMessageSender { session_key, reducer: TokenReducerKind::Compress, last_total_tokens: 0 }
    }

    /// A sender of `session_key` that recovers from memory; no tokens counted yet.
    pub fn new_memory_recover(session_key: SessionKey) -> (r: TokenLimitMessageSender)
        ensures
            r.session_key == session_key,
            r.reducer == TokenReducerKind::MemoryRecover,
            r.last_total_tokens == 0,
    {
        TokenLimitMessageSender { session_key, reducer: TokenReducerKind::MemoryRecover, last_total_tokens: 0 }
    }

    /// Whether the context must shrink before sending: the model has a budget
    /// (`max_tokens_usage > 0`) and the last count exceeds `limit`, the budget's allowed share.
    pub fn needs_reduce(&self, max_tokens_usage: u64, limit: u64) -> (r: bool)
        ensures
            r == (max_tokens_usage > 0 && self.last_total_tokens > limit),
    {
        max_tokens_usage > 0 && self.last_total_tokens > limit
    }

    /// Remembers the count the reduction reported.
    pub fn record_reduced(&mut self, tokens: u64)
        ensures
            final(self).last_total_tokens == tokens,
            final(self).session_key == old(self).session_key,
            final(self).reducer == old(self).reducer,
    {
        self.last_total_tokens = tokens;
    }

    /// Remembers the count of a reply; a failed call leaves the count as it was.
    pub fn record_reply(&mut self, total_tokens: Option<u64>)
        ensures
            final(self).last_total_tokens == match total_tokens { Some(t) => t, None => old(self).last_total_tokens },
            final(self).session_key == old(self).session_key,
            final(self).reducer == old(self).reducer,
    {
        match total_tokens {
            Some(t) => self.last_total_tokens = t,
            None => {},
        }
    }
}

/// The request that asks the model for a summary: the compress prompt as a user message.
pub fn compress_request(prompt: &str) -> (r: Message)
    ensures
        r@ == MessageView::User(prompt@),
{
    Message::User { content: owned(prompt) }
}

/// The context a compression continues from, and the token count it reports: after a
/// summary, the compress prompt and the summary (the reply's raw fields) with the reply's
/// count; after a failed call, nothing to reset and a count of 0.
pub fn compress_outcome(prompt: &str, reply: Result<ModelResponse, AgentError>) -> (r: (Option<Vec<Message>>, u64))
    ensures
        match reply {
            Ok(resp) => (r.0 matches Some(v) && v@.len() == 2 && v@[0]@ == MessageView::User(prompt@)
                && v@[1]@ == MessageView::Assistant(resp@.raw_content, resp@.raw_reasoning_content, resp@.raw_tool_calls)
                && r.1 == resp@.total_tokens),
            Err(_) => r.0 is None && r.1 == 0,
        },
{
    match reply {
        Ok(resp) => {
            let tokens = resp.total_tokens;
            let summary = Message::Assistant {
                content: resp.raw_content,
                reasoning_content: resp.raw_reasoning_content,
                tool_calls: resp.raw_tool_calls,
            };
            let mut v: Vec<Message> = Vec::new();
            v.push(compress_request(prompt));
            v.push(summary);
            (Some(v), tokens)
        },
        Err(_) => (None, 0),
    }
}


// ---------- the sessions' pipelines ----------

impl View for AgentPipeline {
    type V = AgentPipeline;

    open spec fn view(&self) -> AgentPipeline {
        *self
    }
}

impl View for AgentTrigger {
    type V = AgentTrigger;

    open spec fn view(&self) -> AgentTrigger {
        *self
    }
}

/// Whether a configuration selects a complete pipeline in mode `mode` (see [`pipeline_names`]).
pub open spec fn pipeline_selectable(c: PipelineConfig, mode: ModeView) -> bool {
    let names = pipeline_names(c, mode);
    &&& (match names.0 { Some(n) => spec_message_sender(n), None => None }) is Some
    &&& names.1 == Some(PP_TOOL_STATION@)
    &&& names.2 == Some(PP_OUT_CHANNEL@)
}

/// Whether a configuration selects a complete trigger in mode `mode` (see [`trigger_names`]).
pub open spec fn trigger_selectable(c: PipelineConfig, mode: ModeView) -> bool {
    let names = trigger_names(c, mode);
    &&& names.0 == Some(PP_IN_BATCH@)
    &&& (names.1 == Some(PP_SYS_DEFAULT@) || names.1 == Some(PP_SYS_MEMORY_EGO@))
}

/// The trigger and pipeline of every session, by session.
pub struct PipelineManager {
    triggers: Registry<SessionKey, AgentTrigger>,
    pipelines: Registry<SessionKey, AgentPipeline>,
}

impl View for PipelineManager {
    type V = (Map<SessionKeyView, AgentTrigger>, Map<SessionKeyView, AgentPipeline>);

    closed spec fn view(&self) -> (Map<SessionKeyView, AgentTrigger>, Map<SessionKeyView, AgentPipeline>) {
        (self.triggers@, self.pipelines@)
    }
}

impl PipelineManager {
    /// No session has a pipeline.
    pub fn new() -> (r: PipelineManager)
        ensures
            r@.0 == Map::<SessionKeyView, AgentTrigger>::empty(),
            r@.1 == Map::<SessionKeyView, AgentPipeline>::empty(),
    {
        PipelineManager { triggers: Registry::new(), pipelines: Registry::new() }
    }

    /// Installs the trigger and pipeline of `key` when both could be made; otherwise the
    /// session has no pipeline to install and nothing changes.
    pub fn install(&mut self, key: SessionKey, trigger: Option<AgentTrigger>, pipeline: Option<AgentPipeline>) -> (r: Result<(), AgentError>)
        ensures
            (trigger is Some && pipeline is Some) ==> r is Ok
                && final(self)@.0 == old(self)@.0.insert(key@, trigger->0)
                && final(self)@.1 == old(self)@.1.insert(key@, pipeline->0),
            !(trigger is Some && pipeline is Some) ==> final(self)@ == old(self)@
                && (r matches Err(AgentError::PipelineNotFound(k)) && k == key),
    {
        match (trigger, pipeline) {
            (Some(t), Some(p)) => {
                let k2 = key.duplicate();
                self.triggers.insert(key, t);
                self.pipelines.insert(k2, p);
                Ok(())
            },
            _ => Err(AgentError::PipelineNotFound(key)),
        }
    }

    /// Makes and installs the trigger and pipeline `config` selects for `key` (see
    /// [`create_agent_trigger`], [`create_agent_pipeline`]): an error, changing nothing, when
    /// the configuration does not select both completely.
    pub fn sync_pipeline(&mut self, key: &SessionKey, config: &PipelineConfig) -> (r: Result<(), AgentError>)
        ensures
            (trigger_selectable(*config, key@.mode) && pipeline_selectable(*config, key@.mode)) ==> {
                let t = final(self)@.0[key@];
                let p = final(self)@.1[key@];
                &&& r is Ok
                &&& final(self)@.0 == old(self)@.0.insert(key@, t)
                &&& final(self)@.1 == old(self)@.1.insert(key@, p)
                &&& t.session_key == *key && t.input_processor == InputProcessorKind::Batch
                &&& (trigger_names(*config, key@.mode).1 == Some(PP_SYS_DEFAULT@) <==> t.system_prompter is Default)
                &&& p.session_key == *key && p.tool_caller == ToolCallerKind::Station
                &&& p.output_processor == OutputProcessorKind::Channel
                &&& Some(p.message_sender) == spec_message_sender(pipeline_names(*config, key@.mode).0->Some_0)
            },
            !(trigger_selectable(*config, key@.mode) && pipeline_selectable(*config, key@.mode)) ==> final(self)@ == old(self)@
                && (r matches Err(AgentError::PipelineNotFound(k)) && k == *key),
    {
        let trigger = create_agent_trigger(key.duplicate(), config);
        let pipeline = create_agent_pipeline(key.duplicate(), config);
        self.install(key.duplicate(), trigger, pipeline)
    }

    /// The trigger of `key`; a session without one is an error.
    pub fn trigger_of(&self, key: &SessionKey) -> (r: Result<&AgentTrigger, AgentError>)
        ensures
            self@.0.dom().contains(key@) ==> (r matches Ok(t) && *t == self@.0[key@]),
            !self@.0.dom().contains(key@) ==> (r matches Err(AgentError::PipelineNotFound(k)) && k == *key),
    {
        match self.triggers.get(key) {
            Some(t) => Ok(t),
            None => Err(AgentError::PipelineNotFound(key.duplicate())),
        }
    }

    /// The pipeline of `key`; a session without one is an error.
    pub fn pipeline_of(&self, key: &SessionKey) -> (r: Result<&AgentPipeline, AgentError>)
        ensures
            self@.1.dom().contains(key@) ==> (r matches Ok(p) && *p == self@.1[key@]),
            !self@.1.dom().contains(key@) ==> (r matches Err(AgentError::PipelineNotFound(k)) && k == *key),
    {
        match self.pipelines.get(key) {
            Some(p) => Ok(p),
            None => Err(AgentError::PipelineNotFound(key.duplicate())),
        }
    }

    /// Keeps the pipelines of the sessions in `keys` only.
    pub fn retain(&mut self, keys: &Vec<SessionKey>)
        ensures
            final(self)@.0 == old(self)@.0.restrict(key_views(keys@).to_set()),
            final(self)@.1 == old(self)@.1.restrict(key_views(keys@).to_set()),
    {
        self.triggers.retain(keys);
        self.pipelines.retain(keys);
    }
}

} // verus!
