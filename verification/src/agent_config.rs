//! Static settings of the agent process and the editable station configuration.
use vstd::prelude::*;
use crate::provider::ToolConfig;
use crate::registry::Registry;
use crate::text::owned;

verus! {

/// The station listen host when none is configured.
pub fn default_station_host() -> (r: String)
    ensures
        r@ == "127.0.0.1"@,
{
    owned("127.0.0.1")
}

/// The station listen port when none is configured.
pub fn default_station_port() -> (r: u16)
    ensures
        r == 9100,
{
    9100
}

/// Static settings read at start: data directory, management and station listen addresses,
/// and the channel reconnect interval.
#[derive(Debug, Clone)]
pub struct AgentConfig {
    pub data_dir: String,
    pub mgmt_host: String,
    pub mgmt_port: u16,
    pub station_host: String,
    pub station_port: u16,
    pub ws_reconnect_interval_secs: u64,
}

/// An MCP server description (name and description).
#[derive(Debug, Clone)]
pub struct McpConfig {
    pub name: String,
    pub description: String,
}

impl View for McpConfig {
    type V = (Seq<char>, Seq<char>);

    open spec fn view(&self) -> (Seq<char>, Seq<char>) {
        (self.name@, self.description@)
    }
}

/// A child station: its id, base URL and request timeout.
#[derive(Debug, Clone)]
pub struct SubStationConfig {
    pub station_id: String,
    pub base_url: String,
    pub timeout_secs: u64,
}

impl View for SubStationConfig {
    type V = (Seq<char>, Seq<char>, u64);

    open spec fn view(&self) -> (Seq<char>, Seq<char>, u64) {
        (self.station_id@, self.base_url@, self.timeout_secs)
    }
}

/// A station reached over HTTP (same fields as a child station).
#[derive(Debug, Clone)]
pub struct StationConfig {
    pub station_id: String,
    pub base_url: String,
    pub timeout_secs: u64,
}

/// A toolkit: its tools and MCP servers, by name.
pub struct ToolkitConfig {
    pub tools: Registry<String, ToolConfig>,
    pub mcps: Registry<String, McpConfig>,
}

/// Mathematical model of [`ToolkitConfig`].
pub ghost struct ToolkitConfigView {
    pub tools: Map<Seq<char>, crate::provider::ToolConfigView>,
    pub mcps: Map<Seq<char>, (Seq<char>, Seq<char>)>,
}

impl View for ToolkitConfig {
    type V = ToolkitConfigView;

    open spec fn view(&self) -> ToolkitConfigView {
        ToolkitConfigView { tools: self.tools@, mcps: self.mcps@ }
    }
}

impl ToolkitConfig {
    /// No tools, no MCP servers.
    pub fn new() -> (r: ToolkitConfig)
        ensures
            r@.tools == Map::<Seq<char>, crate::provider::ToolConfigView>::empty(),
            r@.mcps == Map::<Seq<char>, (Seq<char>, Seq<char>)>::empty(),
    {
        ToolkitConfig { tools: Registry::new(), mcps: Registry::new() }
    }
}

/// The editable station configuration: the station's id, its toolkits and its child stations.
pub struct StationRepo {
    pub station_id: String,
    pub toolkits: Registry<String, ToolkitConfig>,
    pub sub_stations: Registry<String, SubStationConfig>,
}

impl StationRepo {
    /// No id, no toolkits, no child stations.
    pub fn new() -> (r: StationRepo)
        ensures
            r.station_id@.len() == 0,
            r.toolkits@ == Map::<Seq<char>, ToolkitConfigView>::empty(),
            r.sub_stations@ == Map::<Seq<char>, (Seq<char>, Seq<char>, u64)>::empty(),
    {
        StationRepo { station_id: String::new(), toolkits: Registry::new(), sub_stations: Registry::new() }
    }
}

} // verus!
