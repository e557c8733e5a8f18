//! Layered configuration values: each kind of setting merges a more specific layer over a
//! more general one, and yields the effective value a session runs with.
use vstd::prelude::*;
use crate::types::{ChannelUser, clone_opt};
use crate::text::{owned, str_eq};

verus! {

// ---------- global defaults ----------

/// Default prompt that asks the model to summarise the conversation before a reset.
pub const DEFAULT_COMPRESS_PROMPT: &'static str = "请用简洁的语言总结以上对话的关键信息，保留重要细节、结论与未完成事项，供后续对话参考。";
/// Default compression threshold 0.8, as the bit pattern of the binary64 value.
pub const DEFAULT_COMPRESS_THRESHOLD_BITS: u64 = 0x3FE999999999999A;
/// Default memory time window (seconds).
pub const DEFAULT_MEMORY_TIME_SECS: u64 = 3600;
/// Default number of remembered records.
pub const DEFAULT_MEMORY_COUNT: usize = 50;
/// Default minimum interval of channel batching (seconds).
pub const DEFAULT_CHANNEL_BATCH_INTERVAL_SECS: u64 = 3;

/// A kind of layered setting: a more specific layer merges over a more general one.
pub trait MergeSelf: Sized + View {
    /// The value after merging `top` over `base`.
    spec fn layered(base: Self::V, top: Self::V) -> Self::V;

    /// The value with nothing configured.
    spec fn unset() -> Self::V;

    /// Merges `other` over `self`.
    fn merge_from(&mut self, other: &Self)
        ensures
            final(self)@ == Self::layered(old(self)@, other@);

    /// The value with nothing configured.
    fn empty() -> (r: Self)
        ensures
            r@ == Self::unset();

    /// A copy with the same model.
    fn copy(&self) -> (r: Self)
        ensures
            r@ == self@;
}

// ---------- LLM ----------

/// Model call settings. `has_*` records that a field was set explicitly (possibly to `None`),
/// as opposed to left unset; only explicitly set fields override a more general layer.
/// The temperature is kept as the bit pattern of its binary32 value.
#[derive(Debug, Clone, Default)]
pub struct LLMConfig {
    pub provider: Option<String>,
    pub model: Option<String>,
    pub max_tokens: Option<u32>,
    pub has_max_tokens: bool,
    pub temperature: Option<u32>,
    pub has_temperature: bool,
    pub thinking: Option<String>,
    pub has_thinking: bool,
    pub reasoning_effort: Option<String>,
    pub has_reasoning_effort: bool,
}

impl View for LLMConfig {
    type V = LLMConfig;

    open spec fn view(&self) -> LLMConfig {
        *self
    }
}

impl LLMConfig {
    /// Sets `max_tokens` explicitly (to a value or to none).
    pub fn set_max_tokens(&mut self, max_tokens: Option<u32>)
        ensures
            *final(self) == (LLMConfig { max_tokens, has_max_tokens: true, ..*old(self) }),
    {
        self.max_tokens = max_tokens;
        self.has_max_tokens = true;
    }

    /// Withdraws `max_tokens` (falls back to inheritance).
    pub fn unset_max_tokens(&mut self)
        ensures
            *final(self) == (LLMConfig { max_tokens: None, has_max_tokens: false, ..*old(self) }),
    {
        self.max_tokens = None;
        self.has_max_tokens = false;
    }

    /// Sets the temperature explicitly (to a value or to none).
    pub fn set_temperature(&mut self, temperature: Option<u32>)
        ensures
            *final(self) == (LLMConfig { temperature, has_temperature: true, ..*old(self) }),
    {
        self.temperature = temperature;
        self.has_temperature = true;
    }

    /// Withdraws the temperature (falls back to inheritance).
    pub fn unset_temperature(&mut self)
        ensures
            *final(self) == (LLMConfig { temperature: None, has_temperature: false, ..*old(self) }),
    {
        self.temperature = None;
        self.has_temperature = false;
    }

    /// Sets `thinking` explicitly.
    pub fn set_thinking(&mut self, thinking: Option<String>)
        ensures
            *final(self) == (LLMConfig { thinking, has_thinking: true, ..*old(self) }),
    {
        self.thinking = thinking;
        self.has_thinking = true;
    }

    /// Withdraws `thinking` (falls back to inheritance).
    pub fn unset_thinking(&mut self)
        ensures
            *final(self) == (LLMConfig { thinking: None, has_thinking: false, ..*old(self) }),
    {
        self.thinking = None;
        self.has_thinking = false;
    }

    /// Sets `reasoning_effort` explicitly.
    pub fn set_reasoning_effort(&mut self, reasoning_effort: Option<String>)
        ensures
            *final(self) == (LLMConfig { reasoning_effort, has_reasoning_effort: true, ..*old(self) }),
    {
        self.reasoning_effort = reasoning_effort;
        self.has_reasoning_effort = true;
    }

    /// Withdraws `reasoning_effort` (falls back to inheritance).
    pub fn unset_reasoning_effort(&mut self)
        ensures
            *final(self) == (LLMConfig { reasoning_effort: None, has_reasoning_effort: false, ..*old(self) }),
    {
        self.reasoning_effort = None;
        self.has_reasoning_effort = false;
    }
}

/// `top` over `base`: a configured provider or model replaces, an explicitly set field replaces.
pub open spec fn llm_layered(base: LLMConfig, top: LLMConfig) -> LLMConfig {
    LLMConfig {
        provider: if top.provider is Some { top.provider } else { base.provider },
        model: if top.model is Some { top.model } else { base.model },
        max_tokens: if top.has_max_tokens { top.max_tokens } else { base.max_tokens },
        has_max_tokens: top.has_max_tokens || base.has_max_tokens,
        temperature: if top.has_temperature { top.temperature } else { base.temperature },
        has_temperature: top.has_temperature || base.has_temperature,
        thinking: if top.has_thinking { top.thinking } else { base.thinking },
        has_thinking: top.has_thinking || base.has_thinking,
        reasoning_effort: if top.has_reasoning_effort { top.reasoning_effort } else { base.reasoning_effort },
        has_reasoning_effort: top.has_reasoning_effort || base.has_reasoning_effort,
    }
}

/// Nothing configured.
pub open spec fn llm_unset() -> LLMConfig {
    LLMConfig {
        provider: None,
        model: None,
        max_tokens: None,
        has_max_tokens: false,
        temperature: None,
        has_temperature: false,
        thinking: None,
        has_thinking: false,
        reasoning_effort: None,
        has_reasoning_effort: false,
    }
}

impl MergeSelf for LLMConfig {
    open spec fn layered(base: LLMConfig, top: LLMConfig) -> LLMConfig {
        llm_layered(base, top)
    }

    open spec fn unset() -> LLMConfig {
        llm_unset()
    }

    fn merge_from(&mut self, other: &Self) {
        if other.provider.is_some() {
            self.provider = clone_opt(&other.provider);
        }
        if other.model.is_some() {
            self.model = clone_opt(&other.model);
        }
        if other.has_max_tokens {
            self.set_max_tokens(other.max_tokens);
        }
        if other.has_temperature {
            self.set_temperature(other.temperature);
        }
        if other.has_thinking {
            self.set_thinking(clone_opt(&other.thinking));
        }
        if other.has_reasoning_effort {
            self.set_reasoning_effort(clone_opt(&other.reasoning_effort));
        }
    }

    fn empty() -> (r: Self) {
        LLMConfig {
            provider: None,
            model: None,
            max_tokens: None,
            has_max_tokens: false,
            temperature: None,
            has_temperature: false,
            thinking: None,
            has_thinking: false,
            reasoning_effort: None,
            has_reasoning_effort: false,
        }
    }

    fn copy(&self) -> (r: Self) {
        LLMConfig {
            provider: clone_opt(&self.provider),
            model: clone_opt(&self.model),
            max_tokens: self.max_tokens,
            has_max_tokens: self.has_max_tokens,
            temperature: self.temperature,
            has_temperature: self.has_temperature,
            thinking: clone_opt(&self.thinking),
            has_thinking: self.has_thinking,
            reasoning_effort: clone_opt(&self.reasoning_effort),
            has_reasoning_effort: self.has_reasoning_effort,
        }
    }
}

// ---------- compression ----------

/// Settings of the compressing reset: the summary prompt and the usage threshold
/// (binary64 bit pattern).
#[derive(Debug, Clone, Default)]
pub struct CompressConfig {
    pub compress_prompt: Option<String>,
    pub compress_threshold: Option<u64>,
}

impl View for CompressConfig {
    type V = CompressConfig;

    open spec fn view(&self) -> CompressConfig {
        *self
    }
}

impl MergeSelf for CompressConfig {
    open spec fn layered(base: CompressConfig, top: CompressConfig) -> CompressConfig {
        CompressConfig {
            compress_prompt: if top.compress_prompt is Some { top.compress_prompt } else { base.compress_prompt },
            compress_threshold: if top.compress_threshold is Some { top.compress_threshold } else { base.compress_threshold },
        }
    }

    open spec fn unset() -> CompressConfig {
        CompressConfig { compress_prompt: None, compress_threshold: None }
    }

    fn merge_from(&mut self, other: &Self) {
        if other.compress_prompt.is_some() {
            self.compress_prompt = clone_opt(&other.compress_prompt);
        }
        if other.compress_threshold.is_some() {
            self.compress_threshold = other.compress_threshold;
        }
    }

    fn empty() -> (r: Self) {
        CompressConfig { compress_prompt: None, compress_threshold: None }
    }

    fn copy(&self) -> (r: Self) {
        CompressConfig { compress_prompt: clone_opt(&self.compress_prompt), compress_threshold: self.compress_threshold }
    }
}

// ---------- memory recovery ----------

/// Settings of memory recovery: the time window and the number of records.
#[derive(Debug, Clone, Copy, Default)]
pub struct MemoryRecoverConfig {
    pub memory_time_secs: Option<u64>,
    pub memory_count: Option<usize>,
}

impl View for MemoryRecoverConfig {
    type V = MemoryRecoverConfig;

    open spec fn view(&self) -> MemoryRecoverConfig {
        *self
    }
}

impl MergeSelf for MemoryRecoverConfig {
    open spec fn layered(base: MemoryRecoverConfig, top: MemoryRecoverConfig) -> MemoryRecoverConfig {
        MemoryRecoverConfig {
            memory_time_secs: if top.memory_time_secs is Some { top.memory_time_secs } else { base.memory_time_secs },
            memory_count: if top.memory_count is Some { top.memory_count } else { base.memory_count },
        }
    }

    open spec fn unset() -> MemoryRecoverConfig {
        MemoryRecoverConfig { memory_time_secs: None, memory_count: None }
    }

    fn merge_from(&mut self, other: &Self) {
        if other.memory_time_secs.is_some() {
            self.memory_time_secs = other.memory_time_secs;
        }
        if other.memory_count.is_some() {
            self.memory_count = other.memory_count;
        }
    }

    fn empty() -> (r: Self) {
        MemoryRecoverConfig { memory_time_secs: None, memory_count: None }
    }

    fn copy(&self) -> (r: Self) {
        *self
    }
}

// ---------- channel batching ----------

/// Minimum interval of channel batching (seconds; 0 means "use the default").
#[derive(Debug, Clone, Copy, Default)]
pub struct ChannelBatchConfig {
    pub channel_batch_interval_secs: u64,
}

impl View for ChannelBatchConfig {
    type V = ChannelBatchConfig;

    open spec fn view(&self) -> ChannelBatchConfig {
        *self
    }
}

impl MergeSelf for ChannelBatchConfig {
    open spec fn layered(base: ChannelBatchConfig, top: ChannelBatchConfig) -> ChannelBatchConfig {
        top
    }

    open spec fn unset() -> ChannelBatchConfig {
        ChannelBatchConfig { channel_batch_interval_secs: 0 }
    }

    fn merge_from(&mut self, other: &Self) {
        self.channel_batch_interval_secs = other.channel_batch_interval_secs;
    }

    fn empty() -> (r: Self) {
        ChannelBatchConfig { channel_batch_interval_secs: 0 }
    }

    fn copy(&self) -> (r: Self) {
        *self
    }
}

// ---------- reply channel ----------

/// Where the replies of an (agent, role) go: the target channel, the identity that speaks,
/// and the group.
#[derive(Debug, Clone)]
pub struct OutChannel {
    pub channel_id: String,
    pub user: ChannelUser,
    pub group_id: String,
}

impl OutChannel {
    /// A copy equal to `self`.
    pub fn duplicate(&self) -> (r: OutChannel)
        ensures
            r == *self,
    {
        OutChannel { channel_id: self.channel_id.clone(), user: self.user.duplicate(), group_id: self.group_id.clone() }
    }
}

/// The reply channel setting (`None`: store only, do not reply).
#[derive(Debug, Clone, Default)]
pub struct OutChannelConfig {
    pub out_channel: Option<OutChannel>,
}

impl View for OutChannelConfig {
    type V = OutChannelConfig;

    open spec fn view(&self) -> OutChannelConfig {
        *self
    }
}

impl MergeSelf for OutChannelConfig {
    open spec fn layered(base: OutChannelConfig, top: OutChannelConfig) -> OutChannelConfig {
        top
    }

    open spec fn unset() -> OutChannelConfig {
        OutChannelConfig { out_channel: None }
    }

    fn merge_from(&mut self, other: &Self) {
        self.out_channel = match &other.out_channel {
            Some(o) => Some(o.duplicate()),
            None => None,
        };
    }

    fn empty() -> (r: Self) {
        OutChannelConfig { out_channel: None }
    }

    fn copy(&self) -> (r: Self) {
        OutChannelConfig {
            out_channel: match &self.out_channel {
                Some(o) => Some(o.duplicate()),
                None => None,
            },
        }
    }
}

// ---------- toolkits ----------

/// The enabled toolkit names (a set: each name at most once).
#[derive(Debug, Clone, Default)]
pub struct ToolkitSetConfig {
    pub toolkit_set: Vec<String>,
}

impl View for ToolkitSetConfig {
    type V = Set<Seq<char>>;

    open spec fn view(&self) -> Set<Seq<char>> {
        self.toolkit_set@.map_values(|s: String| s@).to_set()
    }
}

/// Whether `name` is in `names`.
pub fn contains_name(names: &Vec<String>, name: &str) -> (r: bool)
    ensures
        r == names@.map_values(|s: String| s@).contains(name@),
{
    let mut i: usize = 0;
    while i < names.len()
        invariant
            i <= names.len(),
            forall|j: int| 0 <= j < i ==> names@[j]@ != name@,
        decreases names.len() - i,
    {
        if str_eq(names[i].as_str(), name) {
            assert(names@.map_values(|s: String| s@)[i as int] == name@);
            return true;
        }
        i = i + 1;
    }
    let ghost nv = names@.map_values(|s: String| s@);
    assert(!nv.contains(name@)) by {
        if nv.contains(name@) {
            let j = choose|j: int| 0 <= j < nv.len() && #[trigger] nv[j] == name@;
            assert(names@[j]@ == name@);
        }
    }
    false
}

impl MergeSelf for ToolkitSetConfig {
    /// Toolkits accumulate: the union of both layers.
    open spec fn layered(base: Set<Seq<char>>, top: Set<Seq<char>>) -> Set<Seq<char>> {
        base.union(top)
    }

    open spec fn unset() -> Set<Seq<char>> {
        Set::empty()
    }

    fn merge_from(&mut self, other: &Self) {
        let ghost start = self@;
        let mut i: usize = 0;
        while i < other.toolkit_set.len()
            invariant
                i <= other.toolkit_set.len(),
                self@ == start.union(other.toolkit_set@.subrange(0, i as int).map_values(|s: String| s@).to_set()),
            decreases other.toolkit_set.len() - i,
        {
            let name = &other.toolkit_set[i];
            let ghost before = self@;
            let ghost vbefore = self.toolkit_set@;
            let present = contains_name(&self.toolkit_set, name.as_str());
            if !present {
                self.toolkit_set.push(name.clone());
                assert(self.toolkit_set@.map_values(|s: String| s@) =~= vbefore.map_values(|s: String| s@).push(name@));
                proof { vbefore.map_values(|s: String| s@).lemma_push_to_set_commute(name@); }
                assert(self@ =~= before.insert(name@));
            } else {
                assert(before.contains(name@));
                assert(self@ =~= before.insert(name@));
            }
            let ghost pre = other.toolkit_set@.subrange(0, i as int);
            let ghost post = other.toolkit_set@.subrange(0, i + 1);
            assert(post =~= pre.push(*name));
            assert(post.map_values(|s: String| s@) =~= pre.map_values(|s: String| s@).push(name@));
            proof { pre.map_values(|s: String| s@).lemma_push_to_set_commute(name@); }
            assert(post.map_values(|s: String| s@).to_set() =~= pre.map_values(|s: String| s@).to_set().insert(name@));
            i = i + 1;
        }
        assert(other.toolkit_set@.subrange(0, other.toolkit_set.len() as int) =~= other.toolkit_set@);
    }

    fn empty() -> (r: Self) {
        let r = ToolkitSetConfig { toolkit_set: Vec::new() };
        assert(r@ =~= Set::<Seq<char>>::empty());
        r
    }

    fn copy(&self) -> (r: Self) {
        ToolkitSetConfig { toolkit_set: crate::message::copy_strings(&self.toolkit_set) }
    }
}

// ---------- pipeline ----------

/// Which pipeline components a session uses: a preset and optional overrides per component.
#[derive(Debug, Clone, Default)]
pub struct PipelineConfig {
    pub preset: Option<String>,
    pub input_processor: Option<String>,
    pub system_prompter: Option<String>,
    pub message_sender: Option<String>,
    pub tool_caller: Option<String>,
    pub output_processor: Option<String>,
}

impl View for PipelineConfig {
    type V = PipelineConfig;

    open spec fn view(&self) -> PipelineConfig {
        *self
    }
}

/// `top` if configured, else `base`.
pub open spec fn either(base: Option<String>, top: Option<String>) -> Option<String> {
    if top is Some { top } else { base }
}

impl MergeSelf for PipelineConfig {
    open spec fn layered(base: PipelineConfig, top: PipelineConfig) -> PipelineConfig {
        PipelineConfig {
            preset: either(base.preset, top.preset),
            input_processor: either(base.input_processor, top.input_processor),
            system_prompter: either(base.system_prompter, top.system_prompter),
            message_sender: either(base.message_sender, top.message_sender),
            tool_caller: either(base.tool_caller, top.tool_caller),
            output_processor: either(base.output_processor, top.output_processor),
        }
    }

    open spec fn unset() -> PipelineConfig {
        PipelineConfig {
            preset: None,
            input_processor: None,
            system_prompter: None,
            message_sender: None,
            tool_caller: None,
            output_processor: None,
        }
    }

    fn merge_from(&mut self, other: &Self) {
        if other.preset.is_some() {
            self.preset = clone_opt(&other.preset);
        }
        if other.input_processor.is_some() {
            self.input_processor = clone_opt(&other.input_processor);
        }
        if other.system_prompter.is_some() {
            self.system_prompter = clone_opt(&other.system_prompter);
        }
        if other.message_sender.is_some() {
            self.message_sender = clone_opt(&other.message_sender);
        }
        if other.tool_caller.is_some() {
            self.tool_caller = clone_opt(&other.tool_caller);
        }
        if other.output_processor.is_some() {
            self.output_processor = clone_opt(&other.output_processor);
        }
    }

    fn empty() -> (r: Self) {
        PipelineConfig {
            preset: None,
            input_processor: None,
            system_prompter: None,
            message_sender: None,
            tool_caller: None,
            output_processor: None,
        }
    }

    fn copy(&self) -> (r: Self) {
        PipelineConfig {
            preset: clone_opt(&self.preset),
            input_processor: clone_opt(&self.input_processor),
            system_prompter: clone_opt(&self.system_prompter),
            message_sender: clone_opt(&self.message_sender),
            tool_caller: clone_opt(&self.tool_caller),
            output_processor: clone_opt(&self.output_processor),
        }
    }
}

} // verus!
