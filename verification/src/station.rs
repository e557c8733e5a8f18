//! The local tool station: the built-in read tool's path rule and the station request types.
use vstd::prelude::*;
use crate::context_cache::{join_path, path_join};
use crate::error::AgentError;
use crate::json::{spec_as_str, spec_get, Json, JsonView};
use crate::provider::{ToolConfig, ToolConfigView};
use crate::text::{chars_of, owned, push_char, push_str, str_eq, strs_view};

verus! {

broadcast use vstd::std_specs::vec::group_vec_axioms;

/// Bytes of a file the read tool returns at most.
pub const READ_MAX_BYTES: usize = 65536;

/// The `sep`-separated non-empty segments of `s`, in order.
pub open spec fn segments(s: Seq<char>, sep: char) -> Seq<Seq<char>>
    decreases s.len(),
{
    if s.len() == 0 {
        Seq::empty()
    } else {
        let w = segments(s.drop_last(), sep);
        let c = s.last();
        if c == sep {
            w
        } else if s.len() >= 2 && s[s.len() - 2] != sep {
            w.update(w.len() - 1, w.last().push(c))
        } else {
            w.push(seq![c])
        }
    }
}

proof fn lemma_segments_nonempty(s: Seq<char>, sep: char)
    ensures
        s.len() > 0 && s.last() != sep ==> segments(s, sep).len() > 0 && segments(s, sep).last().len() > 0,
    decreases s.len(),
{
    if s.len() > 0 {
        lemma_segments_nonempty(s.drop_last(), sep);
        if s.last() != sep && s.len() >= 2 && s[s.len() - 2] != sep {
            assert(s.drop_last().last() == s[s.len() - 2]);
        }
    }
}

/// The segments of `s` (see [`segments`]).
pub fn split_segments(s: &str, sep: char) -> (r: Vec<String>)
    ensures
        strs_view(r@) == segments(s@, sep),
{
    let v = chars_of(s);
    let mut out: Vec<String> = Vec::new();
    let mut cur = String::new();
    let mut has = false;
    let mut i: usize = 0;
    while i < v.len()
        invariant
            i <= v.len(),
            v@ == s@,
            has == (i > 0 && v@[i - 1] != sep),
            ({
                let w = segments(v@.take(i as int), sep);
                if i > 0 && v@[i - 1] != sep {
                    w.len() > 0 && strs_view(out@) == w.drop_last() && cur@ == w.last()
                } else {
                    strs_view(out@) == w && cur@.len() == 0
                }
            }),
        decreases v.len() - i,
    {
        let c = v[i];
        let ghost pre = v@.take(i as int);
        let ghost nxt = v@.take(i + 1);
        proof {
            assert(nxt.drop_last() =~= pre);
            assert(nxt.last() == c);
            if i > 0 {
                assert(nxt[nxt.len() - 2] == v@[i - 1]);
                assert(pre.last() == v@[i - 1]);
            }
            lemma_segments_nonempty(pre, sep);
        }
        if c == sep {
            if has {
                let ghost before = strs_view(out@);
                out.push(cur);
                assert(strs_view(out@) =~= before.push(segments(pre, sep).last()));
                assert(segments(pre, sep) =~= segments(pre, sep).drop_last().push(segments(pre, sep).last()));
                cur = String::new();
            }
            has = false;
        } else {
            push_char(&mut cur, c);
            has = true;
        }
        i = i + 1;
    }
    proof {
        assert(v@.take(v.len() as int) =~= v@);
        lemma_segments_nonempty(v@, sep);
    }
    if has {
        let ghost before = strs_view(out@);
        out.push(cur);
        assert(strs_view(out@) =~= before.push(segments(v@, sep).last()));
        assert(segments(v@, sep) =~= segments(v@, sep).drop_last().push(segments(v@, sep).last()));
    }
    out
}

/// `segs` without `.` segments.
pub open spec fn drop_dots(segs: Seq<Seq<char>>) -> Seq<Seq<char>>
    decreases segs.len(),
{
    if segs.len() == 0 {
        Seq::empty()
    } else {
        let r = drop_dots(segs.drop_last());
        if segs.last() == "."@ { r } else { r.push(segs.last()) }
    }
}

/// The components of a path: its non-empty segments other than `.`.
pub open spec fn components(p: Seq<char>) -> Seq<Seq<char>> {
    drop_dots(segments(p, '/'))
}

/// Whether a path is absolute.
pub open spec fn is_rooted(p: Seq<char>) -> bool {
    p.len() > 0 && p[0] == '/'
}

/// Whether `p` is `base` or lies under it, component by component.
pub open spec fn path_starts_with(p: Seq<char>, base: Seq<char>) -> bool {
    let a = components(p);
    let b = components(base);
    is_rooted(p) == is_rooted(base) && b.len() <= a.len() && a.subrange(0, b.len() as int) == b
}

/// The components of `p` (see [`components`]).
pub fn path_components(p: &str) -> (r: Vec<String>)
    ensures
        strs_view(r@) == components(p@),
{
    let segs = split_segments(p, '/');
    let ghost sv = strs_view(segs@);
    let mut out: Vec<String> = Vec::new();
    let mut i: usize = 0;
    while i < segs.len()
        invariant
            i <= segs.len(),
            sv == strs_view(segs@),
            sv == segments(p@, '/'),
            strs_view(out@) == drop_dots(sv.take(i as int)),
        decreases segs.len() - i,
    {
        assert(sv.take(i + 1).drop_last() =~= sv.take(i as int));
        assert(sv.take(i + 1).last() == segs@[i as int]@);
        if !str_eq(segs[i].as_str(), ".") {
            let ghost before = strs_view(out@);
            out.push(segs[i].clone());
            assert(strs_view(out@) =~= before.push(segs@[i as int]@));
        }
        i = i + 1;
    }
    assert(sv.take(segs.len() as int) =~= sv);
    out
}

/// Whether `p` is `base` or lies under it (see [`path_starts_with`]).
pub fn starts_with_path(p: &str, base: &str) -> (r: bool)
    ensures
        r == path_starts_with(p@, base@),
{
    let pv = chars_of(p);
    let bv = chars_of(base);
    let rooted_p = pv.len() > 0 && pv[0] == '/';
    let rooted_b = bv.len() > 0 && bv[0] == '/';
    if rooted_p != rooted_b {
        return false;
    }
    let a = path_components(p);
    let b = path_components(base);
    if b.len() > a.len() {
        return false;
    }
    let mut i: usize = 0;
    while i < b.len()
        invariant
            i <= b.len() <= a.len(),
            forall|j: int| 0 <= j < i ==> a@[j]@ == b@[j]@,
            strs_view(a@) == components(p@),
            strs_view(b@) == components(base@),
            is_rooted(p@) == is_rooted(base@),
        decreases b.len() - i,
    {
        if !str_eq(a[i].as_str(), b[i].as_str()) {
            assert(strs_view(a@)[i as int] == a@[i as int]@);
            assert(strs_view(b@)[i as int] == b@[i as int]@);
            assert(strs_view(a@).subrange(0, b.len() as int)[i as int] != strs_view(b@)[i as int]);
            return false;
        }
        i = i + 1;
    }
    assert(strs_view(a@).subrange(0, b.len() as int) =~= strs_view(b@));
    true
}

/// The built-in read tool, confined to its working directory.
#[derive(Debug, Clone)]
pub struct ReadTool {
    pub cwd: String,
}

/// The path a request names: an absolute path as given, a relative one under the working directory.
pub open spec fn spec_absolute(cwd: Seq<char>, raw: Seq<char>) -> Seq<char> {
    if is_rooted(raw) { raw } else { path_join(cwd, raw) }
}

impl ReadTool {
    /// A read tool working in `cwd`.
    pub fn new(cwd: String) -> (r: ReadTool)
        ensures
            r.cwd@ == cwd@,
    {
        ReadTool { cwd }
    }

    /// The `path` parameter of a call; a call without a string `path` is an error.
    pub fn path_param(params: &Json) -> (r: Result<String, AgentError>)
        ensures
            match spec_as_str(spec_get(params@, "path"@)) {
                Some(p) => r matches Ok(s) && s@ == p,
                None => r matches Err(AgentError::InternalError(m)) && m@ == "缺少参数 path"@,
            },
    {
        match params.get("path").as_string() {
            Some(p) => Ok(p),
            None => Err(AgentError::InternalError(owned("缺少参数 path"))),
        }
    }

    /// The path named by `raw` before it is resolved on disk (see [`spec_absolute`]).
    pub fn absolute_path(&self, raw: &str) -> (r: String)
        ensures
            r@ == spec_absolute(self.cwd@, raw@),
    {
        let v = chars_of(raw);
        if v.len() > 0 && v[0] == '/' {
            owned(raw)
        } else {
            join_path(self.cwd.as_str(), raw)
        }
    }

    /// Accepts the resolved path `canon` of the request `raw` only when it is the resolved
    /// working directory `canon_cwd` or lies under it; otherwise the request escapes.
    pub fn check_within(canon: String, canon_cwd: &str, raw: &str) -> (r: Result<String, AgentError>)
        ensures
            path_starts_with(canon@, canon_cwd@) ==> (r matches Ok(p) && p@ == canon@),
            !path_starts_with(canon@, canon_cwd@) ==> (r matches Err(AgentError::InternalError(m)) && m@ == "路径越界: "@ + raw@),
    {
        if !starts_with_path(canon.as_str(), canon_cwd) {
            let mut m = owned("路径越界: ");
            push_str(&mut m, raw);
            return Err(AgentError::InternalError(m));
        }
        Ok(canon)
    }

    /// How many bytes of a file of `len` bytes are returned.
    pub fn read_len(len: usize) -> (r: usize)
        ensures
            r == if len < READ_MAX_BYTES { len } else { READ_MAX_BYTES },
    {
        if len < READ_MAX_BYTES { len } else { READ_MAX_BYTES }
    }
}

// ---------- station requests ----------

/// A request for the tool definitions of a station: an optional toolkit allow-list and the
/// chain of station ids from the root to the caller.
#[derive(Debug, Clone)]
pub struct StationListToolsRequest {
    pub filter: Option<Vec<String>>,
    pub ancestors: Vec<String>,
}

/// A request for the MCP definitions of a station (same fields as the tool request).
#[derive(Debug, Clone)]
pub struct StationListMcpsRequest {
    pub filter: Option<Vec<String>>,
    pub ancestors: Vec<String>,
}

/// The allow-list of a request as a set of names (none: every toolkit).
pub open spec fn filter_view(filter: Option<Vec<String>>) -> Option<Set<Seq<char>>> {
    match filter {
        Some(v) => Some(strs_view(v@).to_set()),
        None => None,
    }
}

/// The allow-list of a request without repeated names (the same set).
pub fn filter_set(filter: &Option<Vec<String>>) -> (r: Option<Vec<String>>)
    ensures
        filter_view(r) == filter_view(*filter),
        r matches Some(v) ==> strs_view(v@).no_duplicates(),
{
    match filter {
        Some(v) => {
            let mut out: Vec<String> = Vec::new();
            let mut i: usize = 0;
            while i < v.len()
                invariant
                    i <= v.len(),
                    strs_view(out@).to_set() == strs_view(v@.take(i as int)).to_set(),
                    strs_view(out@).no_duplicates(),
                decreases v.len() - i,
            {
                let ghost pre = strs_view(v@.take(i as int));
                assert(strs_view(v@.take(i + 1)) =~= pre.push(v@[i as int]@));
                proof { pre.lemma_push_to_set_commute(v@[i as int]@); }
                if !crate::configs::contains_name(&out, v[i].as_str()) {
                    let ghost before = strs_view(out@);
                    out.push(v[i].clone());
                    assert(strs_view(out@) =~= before.push(v@[i as int]@));
                    proof { before.lemma_push_to_set_commute(v@[i as int]@); }
                    assert(strs_view(out@).to_set() =~= strs_view(v@.take(i + 1)).to_set());
                } else {
                    assert(strs_view(out@).to_set() =~= strs_view(v@.take(i + 1)).to_set());
                }
                i = i + 1;
            }
            assert(v@.take(v.len() as int) =~= v@);
            Some(out)
        },
        None => None,
    }
}

/// Whether a request has come back to station `station_id` (it is among the ancestors).
pub fn is_cycle(ancestors: &Vec<String>, station_id: &str) -> (r: bool)
    ensures
        r == strs_view(ancestors@).contains(station_id@),
{
    crate::configs::contains_name(ancestors, station_id)
}

/// The station's HTTP service for other stations, guarded by an API key.
#[derive(Debug, Clone)]
pub struct StationHttpServer {
    pub api_key: String,
}

impl StationHttpServer {
    /// The service with the key `api_key`.
    pub fn new(api_key: String) -> (r: StationHttpServer)
        ensures
            r.api_key@ == api_key@,
    {
        StationHttpServer { api_key }
    }

    /// The HTTP status of a failed listing: 400 for a request that came back around, 500 otherwise.
    pub fn list_failure_status(e: &AgentError) -> (r: u16)
        ensures
            r == if *e is StationCycle { 400u16 } else { 500u16 },
    {
        match e {
            AgentError::StationCycle(_) => 400,
            _ => 500,
        }
    }

    /// The HTTP status of a failed tool call: 400 for a request that came back around, 502
    /// when a child station could not be reached, otherwise 200 (the tool itself failed and
    /// the error travels in the body).
    pub fn call_failure_status(e: &AgentError) -> (r: u16)
        ensures
            r == if *e is StationCycle { 400u16 } else if *e is StationConnectionError { 502u16 } else { 200u16 },
    {
        match e {
            AgentError::StationCycle(_) => 400,
            AgentError::StationConnectionError(_) => 502,
            _ => 200,
        }
    }
}

// ---------- the tools of a session ----------

/// The models of the tools of each station: station id, then its tools.
pub open spec fn stations_view(v: Seq<(String, Vec<ToolConfig>)>) -> Seq<(Seq<char>, Seq<ToolConfigView>)> {
    v.map_values(|e: (String, Vec<ToolConfig>)| (e.0@, tools_view(e.1@)))
}

/// The models of a list of tools.
pub open spec fn tools_view(v: Seq<ToolConfig>) -> Seq<ToolConfigView> {
    v.map_values(|t: ToolConfig| t@)
}

/// The tools a session is offered: those of every station whose id is in `enabled`, station
/// after station, each station's tools in its order.
pub open spec fn enabled_station_tools(enabled: Seq<Seq<char>>, stations: Seq<(Seq<char>, Seq<ToolConfigView>)>) -> Seq<ToolConfigView>
    decreases stations.len(),
{
    if stations.len() == 0 {
        Seq::empty()
    } else {
        enabled_station_tools(enabled, stations.drop_last())
            + if enabled.contains(stations.last().0) { stations.last().1 } else { Seq::empty() }
    }
}

/// The tools offered to a session whose enabled stations are `enabled` (see
/// [`enabled_station_tools`]).
pub fn session_tools(enabled: &Vec<String>, stations: &Vec<(String, Vec<ToolConfig>)>) -> (r: Vec<ToolConfig>)
    ensures
        tools_view(r@) == enabled_station_tools(strs_view(enabled@), stations_view(stations@)),
{
    let ghost en = strs_view(enabled@);
    let ghost sv = stations_view(stations@);
    let mut out: Vec<ToolConfig> = Vec::new();
    let mut i: usize = 0;
    while i < stations.len()
        invariant
            i <= stations.len(),
            en == strs_view(enabled@),
            sv == stations_view(stations@),
            tools_view(out@) == enabled_station_tools(en, sv.take(i as int)),
        decreases stations.len() - i,
    {
        assert(sv.take(i + 1).drop_last() =~= sv.take(i as int));
        assert(sv.take(i + 1).last() == sv[i as int]);
        let ghost before = tools_view(out@);
        let st = &stations[i];
        assert(sv[i as int] == (st.0@, tools_view(st.1@)));
        if crate::configs::contains_name(enabled, st.0.as_str()) {
            let mut j: usize = 0;
            while j < st.1.len()
                invariant
                    j <= st.1.len(),
                    tools_view(out@) == before + tools_view(st.1@).take(j as int),
                decreases st.1.len() - j,
            {
                let t = st.1[j].duplicate();
                let ghost prev = out@;
                out.push(t);
                assert(out@ == prev.push(t));
                assert(tools_view(out@) =~= tools_view(prev).push(st.1@[j as int]@));
                assert(tools_view(st.1@).take(j + 1) =~= tools_view(st.1@).take(j as int).push(st.1@[j as int]@));
                assert(tools_view(out@) =~= before + tools_view(st.1@).take(j + 1));
                j = j + 1;
            }
            assert(tools_view(st.1@).take(st.1.len() as int) =~= tools_view(st.1@));
        } else {
            assert(before + Seq::<ToolConfigView>::empty() =~= before);
        }
        i = i + 1;
    }
    assert(sv.take(stations.len() as int) =~= sv);
    out
}

/// Whether station `s` (its id and the names of its tools) is enabled and has tool `tool`.
pub open spec fn station_serves(enabled: Seq<Seq<char>>, s: (Seq<char>, Seq<Seq<char>>), tool: Seq<char>) -> bool {
    enabled.contains(s.0) && s.1.contains(tool)
}

/// The stations' ids and tool names as texts.
pub open spec fn station_names_view(v: Seq<(String, Vec<String>)>) -> Seq<(Seq<char>, Seq<Seq<char>>)> {
    v.map_values(|e: (String, Vec<String>)| (e.0@, strs_view(e.1@)))
}

/// The station a tool call goes to: the first station that is enabled and has the tool; none
/// when no enabled station has it (the call is then answered that the tool does not exist).
pub fn station_for_tool(enabled: &Vec<String>, stations: &Vec<(String, Vec<String>)>, tool: &str) -> (r: Option<usize>)
    ensures
        match r {
            Some(i) => i < stations.len()
                && station_serves(strs_view(enabled@), station_names_view(stations@)[i as int], tool@)
                && forall|j: int| 0 <= j < i ==> !station_serves(strs_view(enabled@), #[trigger] station_names_view(stations@)[j], tool@),
            None => forall|j: int| 0 <= j < stations.len() ==> !station_serves(strs_view(enabled@), #[trigger] station_names_view(stations@)[j], tool@),
        },
{
    let ghost en = strs_view(enabled@);
    let ghost sv = station_names_view(stations@);
    let mut i: usize = 0;
    while i < stations.len()
        invariant
            i <= stations.len(),
            en == strs_view(enabled@),
            sv == station_names_view(stations@),
            forall|j: int| 0 <= j < i ==> !station_serves(en, #[trigger] sv[j], tool@),
        decreases stations.len() - i,
    {
        let st = &stations[i];
        assert(sv[i as int] == (st.0@, strs_view(st.1@)));
        if crate::configs::contains_name(enabled, st.0.as_str()) && crate::configs::contains_name(&st.1, tool) {
            return Some(i);
        }
        i = i + 1;
    }
    None
}

} // verus!
