//! Per-agent configuration with per-role overrides: every kind of setting is looked up as
//! the agent's layer with the role's layer merged over it.
use vstd::prelude::*;
use crate::configs::{
    ChannelBatchConfig, CompressConfig, MergeSelf, LLMConfig, MemoryRecoverConfig, OutChannelConfig,
    PipelineConfig, ToolkitSetConfig,
};
use crate::text::{is_empty_str, str_eq};

verus! {

/// One layer of settings, at most one value per kind.
#[derive(Debug, Clone, Default)]
pub struct AgentRoleConfigMap {
    pub llm: Option<LLMConfig>,
    pub compress: Option<CompressConfig>,
    pub memory_recover: Option<MemoryRecoverConfig>,
    pub channel_batch: Option<ChannelBatchConfig>,
    pub out_channel: Option<OutChannelConfig>,
    pub toolkit_set: Option<ToolkitSetConfig>,
    pub pipeline: Option<PipelineConfig>,
}

/// Mathematical model of [`AgentRoleConfigMap`].
pub ghost struct AgentRoleConfigMapView {
    pub llm: Option<LLMConfig>,
    pub compress: Option<CompressConfig>,
    pub memory_recover: Option<MemoryRecoverConfig>,
    pub channel_batch: Option<ChannelBatchConfig>,
    pub out_channel: Option<OutChannelConfig>,
    pub toolkit_set: Option<Set<Seq<char>>>,
    pub pipeline: Option<PipelineConfig>,
}

impl View for AgentRoleConfigMap {
    type V = AgentRoleConfigMapView;

    open spec fn view(&self) -> AgentRoleConfigMapView {
        AgentRoleConfigMapView {
            llm: self.llm,
            compress: self.compress,
            memory_recover: self.memory_recover,
            channel_batch: self.channel_batch,
            out_channel: self.out_channel,
            toolkit_set: match self.toolkit_set {
                Some(t) => Some(t@),
                None => None,
            },
            pipeline: self.pipeline,
        }
    }
}

/// The layer with nothing configured.
pub open spec fn empty_map_view() -> AgentRoleConfigMapView {
    AgentRoleConfigMapView {
        llm: None,
        compress: None,
        memory_recover: None,
        channel_batch: None,
        out_channel: None,
        toolkit_set: None,
        pipeline: None,
    }
}

impl AgentRoleConfigMap {
    /// The layer with nothing configured.
    pub fn new() -> (r: AgentRoleConfigMap)
        ensures
            r@ == empty_map_view(),
    {
        AgentRoleConfigMap {
            llm: None,
            compress: None,
            memory_recover: None,
            channel_batch: None,
            out_channel: None,
            toolkit_set: None,
            pipeline: None,
        }
    }
}

/// A kind of setting that has its own slot in a layer.
pub trait OptionArcField: MergeSelf {
    /// The value of this kind held by the layer `m`.
    spec fn slot(m: AgentRoleConfigMapView) -> Option<Self::V>;

    /// `m` with this kind's slot replaced by `v`.
    spec fn with_slot(m: AgentRoleConfigMapView, v: Option<Self::V>) -> AgentRoleConfigMapView;

    /// The value of this kind held by `m`, as a copy.
    fn get_slot(m: &AgentRoleConfigMap) -> (r: Option<Self>)
        ensures
            match r {
                Some(c) => Self::slot(m@) == Some(c@),
                None => Self::slot(m@) is None,
            };

    /// Stores `v` in this kind's slot of `m`.
    fn put_slot(m: &mut AgentRoleConfigMap, v: Self)
        ensures
            final(m)@ == Self::with_slot(old(m)@, Some(v@));
}

impl OptionArcField for LLMConfig {
    open spec fn slot(m: AgentRoleConfigMapView) -> Option<LLMConfig> { m.llm }
    open spec fn with_slot(m: AgentRoleConfigMapView, v: Option<LLMConfig>) -> AgentRoleConfigMapView {
        AgentRoleConfigMapView { llm: v, ..m }
    }
    fn get_slot(m: &AgentRoleConfigMap) -> (r: Option<Self>) {
        match &m.llm { Some(c) => Some(c.copy()), None => None }
    }
    fn put_slot(m: &mut AgentRoleConfigMap, v: Self) {
        m.llm = Some(v);
    }
}

impl OptionArcField for CompressConfig {
    open spec fn slot(m: AgentRoleConfigMapView) -> Option<CompressConfig> { m.compress }
    open spec fn with_slot(m: AgentRoleConfigMapView, v: Option<CompressConfig>) -> AgentRoleConfigMapView {
        AgentRoleConfigMapView { compress: v, ..m }
    }
    fn get_slot(m: &AgentRoleConfigMap) -> (r: Option<Self>) {
        match &m.compress { Some(c) => Some(c.copy()), None => None }
    }
    fn put_slot(m: &mut AgentRoleConfigMap, v: Self) {
        m.compress = Some(v);
    }
}

impl OptionArcField for MemoryRecoverConfig {
    open spec fn slot(m: AgentRoleConfigMapView) -> Option<MemoryRecoverConfig> { m.memory_recover }
    open spec fn with_slot(m: AgentRoleConfigMapView, v: Option<MemoryRecoverConfig>) -> AgentRoleConfigMapView {
        AgentRoleConfigMapView { memory_recover: v, ..m }
    }
    fn get_slot(m: &AgentRoleConfigMap) -> (r: Option<Self>) {
        match &m.memory_recover { Some(c) => Some(c.copy()), None => None }
    }
    fn put_slot(m: &mut AgentRoleConfigMap, v: Self) {
        m.memory_recover = Some(v);
    }
}

impl OptionArcField for ChannelBatchConfig {
    open spec fn slot(m: AgentRoleConfigMapView) -> Option<ChannelBatchConfig> { m.channel_batch }
    open spec fn with_slot(m: AgentRoleConfigMapView, v: Option<ChannelBatchConfig>) -> AgentRoleConfigMapView {
        AgentRoleConfigMapView { channel_batch: v, ..m }
    }
    fn get_slot(m: &AgentRoleConfigMap) -> (r: Option<Self>) {
        match &m.channel_batch { Some(c) => Some(c.copy()), None => None }
    }
    fn put_slot(m: &mut AgentRoleConfigMap, v: Self) {
        m.channel_batch = Some(v);
    }
}

impl OptionArcField for OutChannelConfig {
    open spec fn slot(m: AgentRoleConfigMapView) -> Option<OutChannelConfig> { m.out_channel }
    open spec fn with_slot(m: AgentRoleConfigMapView, v: Option<OutChannelConfig>) -> AgentRoleConfigMapView {
        AgentRoleConfigMapView { out_channel: v, ..m }
    }
    fn get_slot(m: &AgentRoleConfigMap) -> (r: Option<Self>) {
        match &m.out_channel { Some(c) => Some(c.copy()), None => None }
    }
    fn put_slot(m: &mut AgentRoleConfigMap, v: Self) {
        m.out_channel = Some(v);
    }
}

impl OptionArcField for ToolkitSetConfig {
    open spec fn slot(m: AgentRoleConfigMapView) -> Option<Set<Seq<char>>> { m.toolkit_set }
    open spec fn with_slot(m: AgentRoleConfigMapView, v: Option<Set<Seq<char>>>) -> AgentRoleConfigMapView {
        AgentRoleConfigMapView { toolkit_set: v, ..m }
    }
    fn get_slot(m: &AgentRoleConfigMap) -> (r: Option<Self>) {
        match &m.toolkit_set { Some(c) => Some(c.copy()), None => None }
    }
    fn put_slot(m: &mut AgentRoleConfigMap, v: Self) {
        m.toolkit_set = Some(v);
    }
}

impl OptionArcField for PipelineConfig {
    open spec fn slot(m: AgentRoleConfigMapView) -> Option<PipelineConfig> { m.pipeline }
    open spec fn with_slot(m: AgentRoleConfigMapView, v: Option<PipelineConfig>) -> AgentRoleConfigMapView {
        AgentRoleConfigMapView { pipeline: v, ..m }
    }
    fn get_slot(m: &AgentRoleConfigMap) -> (r: Option<Self>) {
        match &m.pipeline { Some(c) => Some(c.copy()), None => None }
    }
    fn put_slot(m: &mut AgentRoleConfigMap, v: Self) {
        m.pipeline = Some(v);
    }
}

/// Storing `v` into a layer: merged over the value already there, or placed when the slot is empty.
pub open spec fn stored<C: OptionArcField>(m: AgentRoleConfigMapView, v: C::V) -> AgentRoleConfigMapView {
    match C::slot(m) {
        Some(old) => C::with_slot(m, Some(C::layered(old, v))),
        None => C::with_slot(m, Some(v)),
    }
}

/// Stores `config` into the layer `m` (see [`stored`]).
pub fn store_in_map<C: OptionArcField>(m: &mut AgentRoleConfigMap, config: C)
    ensures
        final(m)@ == stored::<C>(old(m)@, config@),
{
    match C::get_slot(m) {
        Some(old) => {
            let mut merged = old;
            merged.merge_from(&config);
            C::put_slot(m, merged);
        },
        None => {
            C::put_slot(m, config);
        },
    }
}

/// Settings of one agent: the agent-wide layer and one layer per role name.
#[derive(Debug, Clone, Default)]
pub struct AgentRoleConfig {
    pub config_map: AgentRoleConfigMap,
    pub roles: Vec<(String, AgentRoleConfigMap)>,
}

/// Mathematical model of [`AgentRoleConfig`]: the agent layer and the role layers in order.
pub ghost struct AgentRoleConfigView {
    pub agent: AgentRoleConfigMapView,
    pub roles: Seq<(Seq<char>, AgentRoleConfigMapView)>,
}

impl View for AgentRoleConfig {
    type V = AgentRoleConfigView;

    open spec fn view(&self) -> AgentRoleConfigView {
        AgentRoleConfigView {
            agent: self.config_map@,
            roles: self.roles@.map_values(|e: (String, AgentRoleConfigMap)| (e.0@, e.1@)),
        }
    }
}

/// The position of the layer of role `name` (the first with that name), if any.
pub open spec fn role_index(roles: Seq<(Seq<char>, AgentRoleConfigMapView)>, name: Seq<char>) -> Option<int> {
    if exists|i: int| 0 <= i < roles.len() && #[trigger] roles[i].0 == name {
        Some(choose|i: int| 0 <= i < roles.len() && #[trigger] roles[i].0 == name && (forall|j: int| 0 <= j < i ==> roles[j].0 != name))
    } else {
        None
    }
}

/// The layer of role `name`, if configured.
pub open spec fn role_layer(v: AgentRoleConfigView, name: Seq<char>) -> Option<AgentRoleConfigMapView> {
    match role_index(v.roles, name) {
        Some(i) => Some(v.roles[i].1),
        None => None,
    }
}

/// The value of kind `C` for role `name`: nothing configured, with the agent layer merged
/// over it, then the role layer (role settings override agent settings).
pub open spec fn built<C: OptionArcField>(v: AgentRoleConfigView, name: Seq<char>) -> C::V {
    let with_agent = match C::slot(v.agent) {
        Some(a) => C::layered(C::unset(), a),
        None => C::unset(),
    };
    match role_layer(v, name) {
        Some(m) => match C::slot(m) {
            Some(r) => C::layered(with_agent, r),
            None => with_agent,
        },
        None => with_agent,
    }
}

/// The configuration after storing `config` of kind `C` for `role_name` (the agent layer when
/// the role name is empty; a role layer is created when missing).
pub open spec fn after_set<C: OptionArcField>(v: AgentRoleConfigView, role_name: Seq<char>, config: C::V) -> AgentRoleConfigView {
    if role_name.len() == 0 {
        AgentRoleConfigView { agent: stored::<C>(v.agent, config), ..v }
    } else {
        match role_index(v.roles, role_name) {
            Some(i) => AgentRoleConfigView { roles: v.roles.update(i, (role_name, stored::<C>(v.roles[i].1, config))), ..v },
            None => AgentRoleConfigView { roles: v.roles.push((role_name, stored::<C>(empty_map_view(), config))), ..v },
        }
    }
}

impl AgentRoleConfigMap {
    /// A copy with the same model.
    pub fn duplicate(&self) -> (r: AgentRoleConfigMap)
        ensures
            r@ == self@,
    {
        AgentRoleConfigMap {
            llm: LLMConfig::get_slot(self),
            compress: CompressConfig::get_slot(self),
            memory_recover: MemoryRecoverConfig::get_slot(self),
            channel_batch: ChannelBatchConfig::get_slot(self),
            out_channel: OutChannelConfig::get_slot(self),
            toolkit_set: ToolkitSetConfig::get_slot(self),
            pipeline: PipelineConfig::get_slot(self),
        }
    }
}

impl AgentRoleConfig {
    /// A copy with the same model.
    pub fn duplicate(&self) -> (r: AgentRoleConfig)
        ensures
            r@ == self@,
    {
        let mut roles: Vec<(String, AgentRoleConfigMap)> = Vec::new();
        let mut i: usize = 0;
        while i < self.roles.len()
            invariant
                i <= self.roles.len(),
                roles@.len() == i,
                forall|j: int| 0 <= j < i ==> (#[trigger] roles@[j]).0@ == self.roles@[j].0@ && roles@[j].1@ == self.roles@[j].1@,
            decreases self.roles.len() - i,
        {
            roles.push((self.roles[i].0.clone(), self.roles[i].1.duplicate()));
            i = i + 1;
        }
        assert(roles@.map_values(|e: (String, AgentRoleConfigMap)| (e.0@, e.1@))
            =~= self.roles@.map_values(|e: (String, AgentRoleConfigMap)| (e.0@, e.1@)));
        AgentRoleConfig { config_map: self.config_map.duplicate(), roles }
    }

    /// No settings at all.
    pub fn new() -> (r: AgentRoleConfig)
        ensures
            r@.agent == empty_map_view(),
            r@.roles.len() == 0,
    {
        let r = AgentRoleConfig { config_map: AgentRoleConfigMap::new(), roles: Vec::new() };
        assert(r@.roles =~= Seq::<(Seq<char>, AgentRoleConfigMapView)>::empty());
        r
    }

    /// The position of the layer of role `name`.
    fn find_role(&self, name: &str) -> (r: Option<usize>)
        ensures
            match r {
                Some(i) => role_index(self@.roles, name@) == Some(i as int) && i < self.roles@.len()
                    && self@.roles[i as int].0 == name@,
                None => role_index(self@.roles, name@) is None,
            },
            self@.roles.len() == self.roles@.len(),
            forall|j: int| 0 <= j < self.roles@.len() ==> #[trigger] self@.roles[j] == (self.roles@[j].0@, self.roles@[j].1@),
    {
        let ghost rv = self@.roles;
        let mut i: usize = 0;
        while i < self.roles.len()
            invariant
                i <= self.roles.len(),
                rv == self@.roles,
                rv.len() == self.roles@.len(),
                forall|j: int| 0 <= j < i ==> rv[j].0 != name@,
            decreases self.roles.len() - i,
        {
            assert(rv[i as int] == (self.roles@[i as int].0@, self.roles@[i as int].1@));
            if str_eq(self.roles[i].0.as_str(), name) {
                assert(rv[i as int].0 == name@);
                let ghost k = choose|k: int| 0 <= k < rv.len() && #[trigger] rv[k].0 == name@ && (forall|j: int| 0 <= j < k ==> rv[j].0 != name@);
                assert(k == i) by {
                    if k < i {
                        assert(rv[k].0 != name@);
                    }
                    if k > i {
                        assert(rv[i as int].0 != name@);
                    }
                }
                return Some(i);
            }
            i = i + 1;
        }
        None
    }

    /// The value of kind `C` in effect for `role_name` (see [`built`]).
    pub fn build<C: OptionArcField>(&self, role_name: &str) -> (r: C)
        ensures
            r@ == built::<C>(self@, role_name@),
    {
        let mut config = C::empty();
        match C::get_slot(&self.config_map) {
            Some(a) => config.merge_from(&a),
            None => {},
        }
        match self.find_role(role_name) {
            Some(i) => {
                assert(self@.roles[i as int] == (self.roles@[i as int].0@, self.roles@[i as int].1@));
                match C::get_slot(&self.roles[i].1) {
                    Some(r) => config.merge_from(&r),
                    None => {},
                }
            },
            None => {},
        }
        config
    }

    /// Stores `config` into the role layer at position `i`.
    fn store_in_role<C: OptionArcField>(&mut self, i: usize, config: C)
        requires
            i < old(self).roles@.len(),
        ensures
            final(self)@ == (AgentRoleConfigView {
                roles: old(self)@.roles.update(i as int, (old(self)@.roles[i as int].0, stored::<C>(old(self)@.roles[i as int].1, config@))),
                ..old(self)@
            }),
    {
        let ghost before = self.roles@;
        let (name, mut layer) = self.roles.remove(i);
        store_in_map(&mut layer, config);
        self.roles.insert(i, (name, layer));
        proof {
            let f = |e: (String, AgentRoleConfigMap)| (e.0@, e.1@);
            assert(self.roles@ =~= before.update(i as int, (name, layer)));
            assert(self.roles@.map_values(f) =~= before.map_values(f).update(i as int, f((name, layer))));
        }
    }

    /// Adds a new role layer holding only `config`.
    fn add_role<C: OptionArcField>(&mut self, role_name: &str, config: C)
        ensures
            final(self)@ == (AgentRoleConfigView {
                roles: old(self)@.roles.push((role_name@, stored::<C>(empty_map_view(), config@))),
                ..old(self)@
            }),
    {
        let ghost before = self.roles@;
        let mut layer = AgentRoleConfigMap::new();
        store_in_map(&mut layer, config);
        let name = crate::text::owned(role_name);
        self.roles.push((name, layer));
        proof {
            let f = |e: (String, AgentRoleConfigMap)| (e.0@, e.1@);
            assert(self.roles@.map_values(f) =~= before.map_values(f).push(f((name, layer))));
        }
    }

    /// Stores `config` of kind `C` for `role_name` (see [`after_set`]).
    pub fn set<C: OptionArcField>(&mut self, role_name: &str, config: C)
        ensures
            final(self)@ == after_set::<C>(old(self)@, role_name@, config@),
    {
        if is_empty_str(role_name) {
            store_in_map(&mut self.config_map, config);
        } else {
            match self.find_role(role_name) {
                Some(i) => {
                    self.store_in_role(i, config);
                },
                None => {
                    self.add_role(role_name, config);
                },
            }
        }
    }
}

} // verus!
