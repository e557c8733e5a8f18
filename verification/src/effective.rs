//! Settings in effect for a session: every kind of setting resolved against its defaults,
//! and the session's own overrides merged over that.
use vstd::prelude::*;
use crate::agent_role::OptionArcField;
use crate::configs::{
    ChannelBatchConfig, CompressConfig, LLMConfig, MemoryRecoverConfig, MergeSelf, OutChannelConfig,
    PipelineConfig, ToolkitSetConfig, DEFAULT_CHANNEL_BATCH_INTERVAL_SECS, DEFAULT_COMPRESS_PROMPT,
    DEFAULT_COMPRESS_THRESHOLD_BITS, DEFAULT_MEMORY_COUNT, DEFAULT_MEMORY_TIME_SECS,
};
use crate::text::owned;

verus! {

/// Model call settings in effect: provider and model names (empty when none is configured)
/// and the optional request parameters (temperature as a binary32 bit pattern).
#[derive(Debug, Clone)]
pub struct EffectiveLLMConfig {
    pub provider: String,
    pub model: String,
    pub max_tokens: Option<u32>,
    pub temperature: Option<u32>,
    pub thinking: Option<String>,
    pub reasoning_effort: Option<String>,
}

/// Mathematical model of [`EffectiveLLMConfig`].
pub ghost struct EffectiveLLMConfigView {
    pub provider: Seq<char>,
    pub model: Seq<char>,
    pub max_tokens: Option<u32>,
    pub temperature: Option<u32>,
    pub thinking: Option<Seq<char>>,
    pub reasoning_effort: Option<Seq<char>>,
}

/// The model of an optional string.
pub open spec fn opt_view(o: Option<String>) -> Option<Seq<char>> {
    match o {
        Some(s) => Some(s@),
        None => None,
    }
}

impl View for EffectiveLLMConfig {
    type V = EffectiveLLMConfigView;

    open spec fn view(&self) -> EffectiveLLMConfigView {
        EffectiveLLMConfigView {
            provider: self.provider@,
            model: self.model@,
            max_tokens: self.max_tokens,
            temperature: self.temperature,
            thinking: opt_view(self.thinking),
            reasoning_effort: opt_view(self.reasoning_effort),
        }
    }
}

/// Compression settings in effect (threshold as a binary64 bit pattern).
#[derive(Debug, Clone)]
pub struct EffectiveCompressConfig {
    pub compress_prompt: String,
    pub compress_threshold: u64,
}

/// Mathematical model of [`EffectiveCompressConfig`].
pub ghost struct EffectiveCompressConfigView {
    pub compress_prompt: Seq<char>,
    pub compress_threshold: u64,
}

impl View for EffectiveCompressConfig {
    type V = EffectiveCompressConfigView;

    open spec fn view(&self) -> EffectiveCompressConfigView {
        EffectiveCompressConfigView { compress_prompt: self.compress_prompt@, compress_threshold: self.compress_threshold }
    }
}

/// Memory recovery settings in effect.
#[derive(Debug, Clone, Copy)]
pub struct EffectiveMemoryRecoverConfig {
    pub memory_time_secs: u64,
    pub memory_count: usize,
}

impl View for EffectiveMemoryRecoverConfig {
    type V = EffectiveMemoryRecoverConfig;

    open spec fn view(&self) -> EffectiveMemoryRecoverConfig {
        *self
    }
}

/// The cached settings of one session, at most one value per kind.
#[derive(Debug, Clone, Default)]
pub struct SessionConfigMap {
    pub llm: Option<EffectiveLLMConfig>,
    pub compress: Option<EffectiveCompressConfig>,
    pub memory_recover: Option<EffectiveMemoryRecoverConfig>,
    pub channel_batch: Option<ChannelBatchConfig>,
    pub out_channel: Option<OutChannelConfig>,
    pub toolkit_set: Option<ToolkitSetConfig>,
    pub pipeline: Option<PipelineConfig>,
}

/// Mathematical model of [`SessionConfigMap`].
pub ghost struct SessionConfigMapView {
    pub llm: Option<EffectiveLLMConfigView>,
    pub compress: Option<EffectiveCompressConfigView>,
    pub memory_recover: Option<EffectiveMemoryRecoverConfig>,
    pub channel_batch: Option<ChannelBatchConfig>,
    pub out_channel: Option<OutChannelConfig>,
    pub toolkit_set: Option<Set<Seq<char>>>,
    pub pipeline: Option<PipelineConfig>,
}

impl View for SessionConfigMap {
    type V = SessionConfigMapView;

    open spec fn view(&self) -> SessionConfigMapView {
        SessionConfigMapView {
            llm: match self.llm {
                Some(e) => Some(e@),
                None => None,
            },
            compress: match self.compress {
                Some(e) => Some(e@),
                None => None,
            },
            memory_recover: self.memory_recover,
            channel_batch: self.channel_batch,
            out_channel: self.out_channel,
            toolkit_set: match self.toolkit_set {
                Some(t) => Some(t@),
                None => None,
            },
            pipeline: self.pipeline,
        }
    }
}

/// The session map with nothing cached.
pub open spec fn empty_session_view() -> SessionConfigMapView {
    SessionConfigMapView {
        llm: None,
        compress: None,
        memory_recover: None,
        channel_batch: None,
        out_channel: None,
        toolkit_set: None,
        pipeline: None,
    }
}

impl SessionConfigMap {
    /// A copy with the same model.
    pub fn duplicate(&self) -> (r: SessionConfigMap)
        ensures
            r@ == self@,
    {
        SessionConfigMap {
            llm: LLMConfig::get_session_slot(self),
            compress: CompressConfig::get_session_slot(self),
            memory_recover: self.memory_recover,
            channel_batch: self.channel_batch,
            out_channel: OutChannelConfig::get_session_slot(self),
            toolkit_set: ToolkitSetConfig::get_session_slot(self),
            pipeline: PipelineConfig::get_session_slot(self),
        }
    }

    /// Nothing cached.
    pub fn new() -> (r: SessionConfigMap)
        ensures
            r@ == empty_session_view(),
    {
        SessionConfigMap {
            llm: None,
            compress: None,
            memory_recover: None,
            channel_batch: None,
            out_channel: None,
            toolkit_set: None,
            pipeline: None,
        }
    }
}

/// A kind of setting resolved against its defaults.
pub trait MergeEffectiveConfig: MergeSelf {
    /// The resolved form.
    type Effective: View;

    /// The resolved value of a configured value.
    spec fn effective(c: Self::V) -> <Self::Effective as View>::V;

    /// Resolves against the defaults (see [`MergeEffectiveConfig::effective`]).
    fn get_effective_config(&self) -> (r: Self::Effective)
        ensures
            r@ == Self::effective(self@);
}

/// A kind of setting that a session caches and overrides.
pub trait SessionConfigField: MergeEffectiveConfig + OptionArcField {
    /// A resolved value with an override merged over it.
    spec fn merged_by(e: <Self::Effective as View>::V, c: Self::V) -> <Self::Effective as View>::V;

    /// The cached value of this kind.
    spec fn session_slot(m: SessionConfigMapView) -> Option<<Self::Effective as View>::V>;

    /// The session map with the cached value of this kind replaced.
    spec fn with_session_slot(m: SessionConfigMapView, v: <Self::Effective as View>::V) -> SessionConfigMapView;

    /// Merges the override `c` over `e` (see [`SessionConfigField::merged_by`]).
    fn merge_by(e: &mut Self::Effective, c: &Self)
        ensures
            final(e)@ == Self::merged_by(old(e)@, c@);

    /// A copy with the same model.
    fn copy_effective(e: &Self::Effective) -> (r: Self::Effective)
        ensures
            r@ == e@;

    /// Nothing of this kind is cached in an empty session map.
    proof fn lemma_empty_slot()
        ensures
            Self::session_slot(empty_session_view()) is None;

    /// What was cached is what is read back.
    proof fn lemma_slot_after_put(m: SessionConfigMapView, v: <Self::Effective as View>::V)
        ensures
            Self::session_slot(Self::with_session_slot(m, v)) == Some(v);

    /// Caching twice keeps the second value only.
    proof fn lemma_put_twice(m: SessionConfigMapView, v: <Self::Effective as View>::V, w: <Self::Effective as View>::V)
        ensures
            Self::with_session_slot(Self::with_session_slot(m, v), w) == Self::with_session_slot(m, w);

    /// Caching the value already cached changes nothing.
    proof fn lemma_put_same(m: SessionConfigMapView, v: <Self::Effective as View>::V)
        requires
            Self::session_slot(m) == Some(v),
        ensures
            Self::with_session_slot(m, v) == m;

    /// A copy of the cached value of this kind.
    fn get_session_slot(m: &SessionConfigMap) -> (r: Option<Self::Effective>)
        ensures
            match r {
                Some(e) => Self::session_slot(m@) == Some(e@),
                None => Self::session_slot(m@) is None,
            };

    /// Caches `e` as the value of this kind.
    fn put_session_slot(m: &mut SessionConfigMap, e: Self::Effective)
        ensures
            final(m)@ == Self::with_session_slot(old(m)@, e@),
            Self::session_slot(final(m)@) == Some(e@);
}

/// The value of an optional string, or `d` when absent.
pub open spec fn or_str(o: Option<String>, d: Seq<char>) -> Seq<char> {
    match o {
        Some(s) => s@,
        None => d,
    }
}

/// A copy of a string, or the empty string when absent.
fn string_or_empty(o: &Option<String>) -> (r: String)
    ensures
        r@ == or_str(*o, Seq::empty()),
{
    match o {
        Some(s) => s.clone(),
        None => String::new(),
    }
}

/// A copy of an optional string with the same model.
fn copy_opt(o: &Option<String>) -> (r: Option<String>)
    ensures
        opt_view(r) == opt_view(*o),
{
    match o {
        Some(s) => Some(s.clone()),
        None => None,
    }
}

/// `top`'s value when present, else `base`.
pub open spec fn or_keep<T>(base: T, top: Option<T>) -> T {
    match top {
        Some(t) => t,
        None => base,
    }
}

// ---------- LLM ----------

/// The model call settings in effect for a configured value: names default to empty, and a
/// parameter counts only when it was set explicitly.
pub open spec fn llm_effective(c: LLMConfig) -> EffectiveLLMConfigView {
    EffectiveLLMConfigView {
        provider: or_str(c.provider, Seq::empty()),
        model: or_str(c.model, Seq::empty()),
        max_tokens: if c.has_max_tokens { c.max_tokens } else { None },
        temperature: if c.has_temperature { c.temperature } else { None },
        thinking: if c.has_thinking { opt_view(c.thinking) } else { None },
        reasoning_effort: if c.has_reasoning_effort { opt_view(c.reasoning_effort) } else { None },
    }
}

/// Model call settings with a session override merged over them: configured names replace,
/// explicitly set parameters replace.
pub open spec fn llm_merged_by(e: EffectiveLLMConfigView, c: LLMConfig) -> EffectiveLLMConfigView {
    EffectiveLLMConfigView {
        provider: match c.provider {
            Some(p) => p@,
            None => e.provider,
        },
        model: match c.model {
            Some(m) => m@,
            None => e.model,
        },
        max_tokens: if c.has_max_tokens { c.max_tokens } else { e.max_tokens },
        temperature: if c.has_temperature { c.temperature } else { e.temperature },
        thinking: if c.has_thinking { opt_view(c.thinking) } else { e.thinking },
        reasoning_effort: if c.has_reasoning_effort { opt_view(c.reasoning_effort) } else { e.reasoning_effort },
    }
}

impl MergeEffectiveConfig for LLMConfig {
    type Effective = EffectiveLLMConfig;

    open spec fn effective(c: LLMConfig) -> EffectiveLLMConfigView {
        llm_effective(c)
    }

    fn get_effective_config(&self) -> (r: EffectiveLLMConfig) {
        EffectiveLLMConfig {
            provider: string_or_empty(&self.provider),
            model: string_or_empty(&self.model),
            max_tokens: if self.has_max_tokens { self.max_tokens } else { None },
            temperature: if self.has_temperature { self.temperature } else { None },
            thinking: if self.has_thinking { copy_opt(&self.thinking) } else { None },
            reasoning_effort: if self.has_reasoning_effort { copy_opt(&self.reasoning_effort) } else { None },
        }
    }
}

impl SessionConfigField for LLMConfig {
    open spec fn merged_by(e: EffectiveLLMConfigView, c: LLMConfig) -> EffectiveLLMConfigView {
        llm_merged_by(e, c)
    }

    open spec fn session_slot(m: SessionConfigMapView) -> Option<EffectiveLLMConfigView> {
        m.llm
    }

    open spec fn with_session_slot(m: SessionConfigMapView, v: EffectiveLLMConfigView) -> SessionConfigMapView {
        SessionConfigMapView { llm: Some(v), ..m }
    }

    proof fn lemma_slot_after_put(m: SessionConfigMapView, v: EffectiveLLMConfigView) {
    }

    proof fn lemma_put_twice(m: SessionConfigMapView, v: EffectiveLLMConfigView, w: EffectiveLLMConfigView) {
    }

    proof fn lemma_empty_slot() {
    }

    proof fn lemma_put_same(m: SessionConfigMapView, v: EffectiveLLMConfigView) {
    }

    fn merge_by(e: &mut EffectiveLLMConfig, c: &LLMConfig) {
        if let Some(p) = &c.provider {
            e.provider = p.clone();
        }
        if let Some(m) = &c.model {
            e.model = m.clone();
        }
        if c.has_max_tokens {
            e.max_tokens = c.max_tokens;
        }
        if c.has_temperature {
            e.temperature = c.temperature;
        }
        if c.has_thinking {
            e.thinking = copy_opt(&c.thinking);
        }
        if c.has_reasoning_effort {
            e.reasoning_effort = copy_opt(&c.reasoning_effort);
        }
    }

    fn copy_effective(e: &EffectiveLLMConfig) -> (r: EffectiveLLMConfig) {
        EffectiveLLMConfig {
            provider: e.provider.clone(),
            model: e.model.clone(),
            max_tokens: e.max_tokens,
            temperature: e.temperature,
            thinking: copy_opt(&e.thinking),
            reasoning_effort: copy_opt(&e.reasoning_effort),
        }
    }

    fn get_session_slot(m: &SessionConfigMap) -> (r: Option<EffectiveLLMConfig>) {
        match &m.llm {
            Some(e) => Some(Self::copy_effective(e)),
            None => None,
        }
    }

    fn put_session_slot(m: &mut SessionConfigMap, e: EffectiveLLMConfig) {
        m.llm = Some(e);
    }
}

// ---------- compression ----------

/// The compression settings in effect: configured values, else the defaults.
pub open spec fn compress_effective(c: CompressConfig) -> EffectiveCompressConfigView {
    EffectiveCompressConfigView {
        compress_prompt: or_str(c.compress_prompt, DEFAULT_COMPRESS_PROMPT@),
        compress_threshold: or_keep(DEFAULT_COMPRESS_THRESHOLD_BITS, c.compress_threshold),
    }
}

impl MergeEffectiveConfig for CompressConfig {
    type Effective = EffectiveCompressConfig;

    open spec fn effective(c: CompressConfig) -> EffectiveCompressConfigView {
        compress_effective(c)
    }

    fn get_effective_config(&self) -> (r: EffectiveCompressConfig) {
        let compress_prompt = match &self.compress_prompt {
            Some(p) => p.clone(),
            None => owned(DEFAULT_COMPRESS_PROMPT),
        };
        let compress_threshold = match self.compress_threshold {
            Some(t) => t,
            None => DEFAULT_COMPRESS_THRESHOLD_BITS,
        };
        EffectiveCompressConfig { compress_prompt, compress_threshold }
    }
}

impl SessionConfigField for CompressConfig {
    open spec fn merged_by(e: EffectiveCompressConfigView, c: CompressConfig) -> EffectiveCompressConfigView {
        EffectiveCompressConfigView {
            compress_prompt: or_str(c.compress_prompt, e.compress_prompt),
            compress_threshold: or_keep(e.compress_threshold, c.compress_threshold),
        }
    }

    open spec fn session_slot(m: SessionConfigMapView) -> Option<EffectiveCompressConfigView> {
        m.compress
    }

    open spec fn with_session_slot(m: SessionConfigMapView, v: EffectiveCompressConfigView) -> SessionConfigMapView {
        SessionConfigMapView { compress: Some(v), ..m }
    }

    proof fn lemma_slot_after_put(m: SessionConfigMapView, v: EffectiveCompressConfigView) {
    }

    proof fn lemma_put_twice(m: SessionConfigMapView, v: EffectiveCompressConfigView, w: EffectiveCompressConfigView) {
    }

    proof fn lemma_empty_slot() {
    }

    proof fn lemma_put_same(m: SessionConfigMapView, v: EffectiveCompressConfigView) {
    }

    fn merge_by(e: &mut EffectiveCompressConfig, c: &CompressConfig) {
        if let Some(p) = &c.compress_prompt {
            e.compress_prompt = p.clone();
        }
        if let Some(t) = c.compress_threshold {
            e.compress_threshold = t;
        }
    }

    fn copy_effective(e: &EffectiveCompressConfig) -> (r: EffectiveCompressConfig) {
        EffectiveCompressConfig { compress_prompt: e.compress_prompt.clone(), compress_threshold: e.compress_threshold }
    }

    fn get_session_slot(m: &SessionConfigMap) -> (r: Option<EffectiveCompressConfig>) {
        match &m.compress {
            Some(e) => Some(Self::copy_effective(e)),
            None => None,
        }
    }

    fn put_session_slot(m: &mut SessionConfigMap, e: EffectiveCompressConfig) {
        m.compress = Some(e);
    }
}

// ---------- memory recovery ----------

/// The memory recovery settings in effect: configured values, else the defaults.
pub open spec fn memory_recover_effective(c: MemoryRecoverConfig) -> EffectiveMemoryRecoverConfig {
    EffectiveMemoryRecoverConfig {
        memory_time_secs: or_keep(DEFAULT_MEMORY_TIME_SECS, c.memory_time_secs),
        memory_count: or_keep(DEFAULT_MEMORY_COUNT, c.memory_count),
    }
}

impl MergeEffectiveConfig for MemoryRecoverConfig {
    type Effective = EffectiveMemoryRecoverConfig;

    open spec fn effective(c: MemoryRecoverConfig) -> EffectiveMemoryRecoverConfig {
        memory_recover_effective(c)
    }

    fn get_effective_config(&self) -> (r: EffectiveMemoryRecoverConfig) {
        EffectiveMemoryRecoverConfig {
            memory_time_secs: match self.memory_time_secs {
                Some(t) => t,
                None => DEFAULT_MEMORY_TIME_SECS,
            },
            memory_count: match self.memory_count {
                Some(n) => n,
                None => DEFAULT_MEMORY_COUNT,
            },
        }
    }
}

impl SessionConfigField for MemoryRecoverConfig {
    open spec fn merged_by(e: EffectiveMemoryRecoverConfig, c: MemoryRecoverConfig) -> EffectiveMemoryRecoverConfig {
        EffectiveMemoryRecoverConfig {
            memory_time_secs: or_keep(e.memory_time_secs, c.memory_time_secs),
            memory_count: or_keep(e.memory_count, c.memory_count),
        }
    }

    open spec fn session_slot(m: SessionConfigMapView) -> Option<EffectiveMemoryRecoverConfig> {
        m.memory_recover
    }

    open spec fn with_session_slot(m: SessionConfigMapView, v: EffectiveMemoryRecoverConfig) -> SessionConfigMapView {
        SessionConfigMapView { memory_recover: Some(v), ..m }
    }

    proof fn lemma_slot_after_put(m: SessionConfigMapView, v: EffectiveMemoryRecoverConfig) {
    }

    proof fn lemma_put_twice(m: SessionConfigMapView, v: EffectiveMemoryRecoverConfig, w: EffectiveMemoryRecoverConfig) {
    }

    proof fn lemma_empty_slot() {
    }

    proof fn lemma_put_same(m: SessionConfigMapView, v: EffectiveMemoryRecoverConfig) {
    }

    fn merge_by(e: &mut EffectiveMemoryRecoverConfig, c: &MemoryRecoverConfig) {
        if let Some(t) = c.memory_time_secs {
            e.memory_time_secs = t;
        }
        if let Some(n) = c.memory_count {
            e.memory_count = n;
        }
    }

    fn copy_effective(e: &EffectiveMemoryRecoverConfig) -> (r: EffectiveMemoryRecoverConfig) {
        *e
    }

    fn get_session_slot(m: &SessionConfigMap) -> (r: Option<EffectiveMemoryRecoverConfig>) {
        m.memory_recover
    }

    fn put_session_slot(m: &mut SessionConfigMap, e: EffectiveMemoryRecoverConfig) {
        m.memory_recover = Some(e);
    }
}

// ---------- batching ----------

impl MergeEffectiveConfig for ChannelBatchConfig {
    type Effective = ChannelBatchConfig;

    /// An unset (zero) interval falls back to the default interval.
    open spec fn effective(c: ChannelBatchConfig) -> ChannelBatchConfig {
        ChannelBatchConfig {
            channel_batch_interval_secs: if c.channel_batch_interval_secs == 0 {
                DEFAULT_CHANNEL_BATCH_INTERVAL_SECS
            } else {
                c.channel_batch_interval_secs
            },
        }
    }

    fn get_effective_config(&self) -> (r: ChannelBatchConfig) {
        let mut channel_batch_interval_secs = self.channel_batch_interval_secs;
        if channel_batch_interval_secs == 0 {
            channel_batch_interval_secs = DEFAULT_CHANNEL_BATCH_INTERVAL_SECS;
        }
        ChannelBatchConfig { channel_batch_interval_secs }
    }
}

impl SessionConfigField for ChannelBatchConfig {
    open spec fn merged_by(e: ChannelBatchConfig, c: ChannelBatchConfig) -> ChannelBatchConfig {
        ChannelBatchConfig::layered(e, c)
    }

    open spec fn session_slot(m: SessionConfigMapView) -> Option<ChannelBatchConfig> {
        m.channel_batch
    }

    open spec fn with_session_slot(m: SessionConfigMapView, v: ChannelBatchConfig) -> SessionConfigMapView {
        SessionConfigMapView { channel_batch: Some(v), ..m }
    }

    proof fn lemma_slot_after_put(m: SessionConfigMapView, v: ChannelBatchConfig) {
    }

    proof fn lemma_put_twice(m: SessionConfigMapView, v: ChannelBatchConfig, w: ChannelBatchConfig) {
    }

    proof fn lemma_empty_slot() {
    }

    proof fn lemma_put_same(m: SessionConfigMapView, v: ChannelBatchConfig) {
    }

    fn merge_by(e: &mut ChannelBatchConfig, c: &ChannelBatchConfig) {
        e.merge_from(c);
    }

    fn copy_effective(e: &ChannelBatchConfig) -> (r: ChannelBatchConfig) {
        *e
    }

    fn get_session_slot(m: &SessionConfigMap) -> (r: Option<ChannelBatchConfig>) {
        m.channel_batch
    }

    fn put_session_slot(m: &mut SessionConfigMap, e: ChannelBatchConfig) {
        m.channel_batch = Some(e);
    }
}

// ---------- reply channel ----------

impl MergeEffectiveConfig for OutChannelConfig {
    type Effective = OutChannelConfig;

    open spec fn effective(c: OutChannelConfig) -> OutChannelConfig {
        c
    }

    fn get_effective_config(&self) -> (r: OutChannelConfig) {
        self.copy()
    }
}

impl SessionConfigField for OutChannelConfig {
    open spec fn merged_by(e: OutChannelConfig, c: OutChannelConfig) -> OutChannelConfig {
        OutChannelConfig::layered(e, c)
    }

    open spec fn session_slot(m: SessionConfigMapView) -> Option<OutChannelConfig> {
        m.out_channel
    }

    open spec fn with_session_slot(m: SessionConfigMapView, v: OutChannelConfig) -> SessionConfigMapView {
        SessionConfigMapView { out_channel: Some(v), ..m }
    }

    proof fn lemma_slot_after_put(m: SessionConfigMapView, v: OutChannelConfig) {
    }

    proof fn lemma_put_twice(m: SessionConfigMapView, v: OutChannelConfig, w: OutChannelConfig) {
    }

    proof fn lemma_empty_slot() {
    }

    proof fn lemma_put_same(m: SessionConfigMapView, v: OutChannelConfig) {
    }

    fn merge_by(e: &mut OutChannelConfig, c: &OutChannelConfig) {
        e.merge_from(c);
    }

    fn copy_effective(e: &OutChannelConfig) -> (r: OutChannelConfig) {
        e.copy()
    }

    fn get_session_slot(m: &SessionConfigMap) -> (r: Option<OutChannelConfig>) {
        match &m.out_channel {
            Some(e) => Some(e.copy()),
            None => None,
        }
    }

    fn put_session_slot(m: &mut SessionConfigMap, e: OutChannelConfig) {
        m.out_channel = Some(e);
    }
}

// ---------- toolkits ----------

impl MergeEffectiveConfig for ToolkitSetConfig {
    type Effective = ToolkitSetConfig;

    open spec fn effective(c: Set<Seq<char>>) -> Set<Seq<char>> {
        c
    }

    fn get_effective_config(&self) -> (r: ToolkitSetConfig) {
        self.copy()
    }
}

impl SessionConfigField for ToolkitSetConfig {
    open spec fn merged_by(e: Set<Seq<char>>, c: Set<Seq<char>>) -> Set<Seq<char>> {
        ToolkitSetConfig::layered(e, c)
    }

    open spec fn session_slot(m: SessionConfigMapView) -> Option<Set<Seq<char>>> {
        m.toolkit_set
    }

    open spec fn with_session_slot(m: SessionConfigMapView, v: Set<Seq<char>>) -> SessionConfigMapView {
        SessionConfigMapView { toolkit_set: Some(v), ..m }
    }

    proof fn lemma_slot_after_put(m: SessionConfigMapView, v: Set<Seq<char>>) {
    }

    proof fn lemma_put_twice(m: SessionConfigMapView, v: Set<Seq<char>>, w: Set<Seq<char>>) {
    }

    proof fn lemma_empty_slot() {
    }

    proof fn lemma_put_same(m: SessionConfigMapView, v: Set<Seq<char>>) {
    }

    fn merge_by(e: &mut ToolkitSetConfig, c: &ToolkitSetConfig) {
        e.merge_from(c);
    }

    fn copy_effective(e: &ToolkitSetConfig) -> (r: ToolkitSetConfig) {
        e.copy()
    }

    fn get_session_slot(m: &SessionConfigMap) -> (r: Option<ToolkitSetConfig>) {
        match &m.toolkit_set {
            Some(e) => Some(e.copy()),
            None => None,
        }
    }

    fn put_session_slot(m: &mut SessionConfigMap, e: ToolkitSetConfig) {
        m.toolkit_set = Some(e);
    }
}

// ---------- pipeline ----------

impl MergeEffectiveConfig for PipelineConfig {
    type Effective = PipelineConfig;

    open spec fn effective(c: PipelineConfig) -> PipelineConfig {
        c
    }

    fn get_effective_config(&self) -> (r: PipelineConfig) {
        self.copy()
    }
}

impl SessionConfigField for PipelineConfig {
    open spec fn merged_by(e: PipelineConfig, c: PipelineConfig) -> PipelineConfig {
        PipelineConfig::layered(e, c)
    }

    open spec fn session_slot(m: SessionConfigMapView) -> Option<PipelineConfig> {
        m.pipeline
    }

    open spec fn with_session_slot(m: SessionConfigMapView, v: PipelineConfig) -> SessionConfigMapView {
        SessionConfigMapView { pipeline: Some(v), ..m }
    }

    proof fn lemma_slot_after_put(m: SessionConfigMapView, v: PipelineConfig) {
    }

    proof fn lemma_put_twice(m: SessionConfigMapView, v: PipelineConfig, w: PipelineConfig) {
    }

    proof fn lemma_empty_slot() {
    }

    proof fn lemma_put_same(m: SessionConfigMapView, v: PipelineConfig) {
    }

    fn merge_by(e: &mut PipelineConfig, c: &PipelineConfig) {
        e.merge_from(c);
    }

    fn copy_effective(e: &PipelineConfig) -> (r: PipelineConfig) {
        e.copy()
    }

    fn get_session_slot(m: &SessionConfigMap) -> (r: Option<PipelineConfig>) {
        match &m.pipeline {
            Some(e) => Some(e.copy()),
            None => None,
        }
    }

    fn put_session_slot(m: &mut SessionConfigMap, e: PipelineConfig) {
        m.pipeline = Some(e);
    }
}

} // verus!
