//! The agent's self-knowledge from its memory (identity, the individuals it knows, the role
//! it plays) written out as markdown sections of its system prompt.
use vstd::prelude::*;
use crate::command::RESERVED_AGENT_ID;
use crate::error::AgentError;
use crate::nexus_repo::NexusRepo;
use crate::text::{is_empty_str, join_lines, join_newline, owned, push_str, str_eq, strs_view};
use crate::types::ChannelUser;

verus! {

/// Who the agent is.
#[derive(Debug)]
pub struct AgentMetadata {
    pub agent_id: String,
    pub description: String,
}

/// A relation and what it means.
#[derive(Debug)]
pub struct Relation {
    pub relation: String,
    pub description: String,
}

/// An individual the agent knows: the identities it appears under, its relation to the
/// agent, and its relations to other individuals (by name).
#[derive(Debug)]
pub struct Individual {
    pub identifiers: Vec<ChannelUser>,
    pub relation: Relation,
    pub other_relations: Vec<(String, Relation)>,
}

/// The individuals the agent knows, by name.
#[derive(Debug)]
pub struct IndividualRecognition {
    pub individual_map: Vec<(String, Individual)>,
}

/// The role the agent plays.
#[derive(Debug)]
pub struct SelfRole {
    pub role_name: String,
    pub description: String,
}

/// Another role in the play: the individual behind it, what it is, its relation to the
/// agent's role and its relations to other roles (by name).
#[derive(Debug)]
pub struct KnownRole {
    pub individual_name: String,
    pub description: String,
    pub role_relation: Relation,
    pub other_role_relations: Vec<(String, Relation)>,
}

/// The agent's role and the other roles, by name.
#[derive(Debug)]
pub struct RolePlay {
    pub role: SelfRole,
    pub other_roles: Vec<(String, KnownRole)>,
}

/// The identity section.
pub open spec fn identity_md(m: AgentMetadata) -> Seq<char> {
    "# Agent Identity\n\n- **Name**\n "@ + m.agent_id@ + "\n- **Description**\n "@ + m.description@ + "\n"@
}

/// Writes the identity section (see [`identity_md`]).
pub fn build_ego_identity_md(metadata: &AgentMetadata) -> (r: String)
    ensures
        r@ == identity_md(*metadata),
{
    let mut s = String::new();
    push_str(&mut s, "# Agent Identity\n\n- **Name**\n ");
    push_str(&mut s, metadata.agent_id.as_str());
    push_str(&mut s, "\n- **Description**\n ");
    push_str(&mut s, metadata.description.as_str());
    push_str(&mut s, "\n");
    assert(s@ =~= identity_md(*metadata));
    s
}

/// The models of a list of identities.
pub open spec fn users_view(v: Seq<ChannelUser>) -> Seq<(Seq<char>, Seq<char>)> {
    v.map_values(|u: ChannelUser| u@)
}

/// Whether an identity is shown: every one when there is no filter, else those in it.
pub open spec fn shown(filter: Option<Seq<(Seq<char>, Seq<char>)>>, u: (Seq<char>, Seq<char>)) -> bool {
    match filter {
        None => true,
        Some(ids) => ids.contains(u),
    }
}

/// The lines of the shown identities, `- messenger user` each.
pub open spec fn identifier_lines(ids: Seq<ChannelUser>, filter: Option<Seq<(Seq<char>, Seq<char>)>>) -> Seq<char>
    decreases ids.len(),
{
    if ids.len() == 0 {
        Seq::empty()
    } else {
        let u = ids.last();
        identifier_lines(ids.drop_last(), filter) + if shown(filter, u@) {
            "- "@ + u.messenger_id@ + " "@ + u.user_id@ + "\n"@
        } else {
            Seq::empty()
        }
    }
}

/// The lines of an individual's relations to others.
pub open spec fn other_relation_lines(rels: Seq<(String, Relation)>) -> Seq<char>
    decreases rels.len(),
{
    if rels.len() == 0 {
        Seq::empty()
    } else {
        let (n, r) = rels.last();
        other_relation_lines(rels.drop_last()) + "#### "@ + n@ + "\n"@ + "- **Relation**: "@ + r.relation@ + "\n"@
            + "- **Description**: "@ + r.description@ + "\n"@
    }
}

/// The block of one individual: its heading, relation, shown identities and relations to
/// others when any identity is shown (nothing otherwise), then an empty line.
pub open spec fn individual_block(name: Seq<char>, ind: Individual, filter: Option<Seq<(Seq<char>, Seq<char>)>>) -> Seq<char> {
    let idl = identifier_lines(ind.identifiers@, filter);
    (if idl.len() > 0 {
        "## "@ + name + "\n\n"@ + "- **Relation with Agent**: "@ + ind.relation.relation@ + " - "@
            + ind.relation.description@ + "\n"@ + "### Associated Identifiers\n"@ + idl
            + "### Relations with Others\n"@ + other_relation_lines(ind.other_relations@)
    } else {
        Seq::empty()
    }) + "\n"@
}

/// The blocks of the individuals, in order.
pub open spec fn individual_blocks(m: Seq<(String, Individual)>, filter: Option<Seq<(Seq<char>, Seq<char>)>>) -> Seq<char>
    decreases m.len(),
{
    if m.len() == 0 {
        Seq::empty()
    } else {
        individual_blocks(m.drop_last(), filter) + individual_block(m.last().0@, m.last().1, filter)
    }
}

/// The individual-recognition section.
pub open spec fn individual_recognition_md(r: IndividualRecognition, filter: Option<Seq<(Seq<char>, Seq<char>)>>) -> Seq<char> {
    "# Individual Recognition\n\n"@ + individual_blocks(r.individual_map@, filter)
}

/// Whether `ids` holds the identity `u`.
fn holds_user(ids: &Vec<ChannelUser>, u: &ChannelUser) -> (r: bool)
    ensures
        r == users_view(ids@).contains(u@),
{
    let mut i: usize = 0;
    while i < ids.len()
        invariant
            i <= ids.len(),
            forall|j: int| 0 <= j < i ==> users_view(ids@)[j] != u@,
        decreases ids.len() - i,
    {
        if ids[i].same_as(u) {
            assert(users_view(ids@)[i as int] == u@);
            return true;
        }
        i = i + 1;
    }
    false
}

/// Whether the identity `u` is shown under `filter` (see [`shown`]).
fn is_shown(filter: Option<&Vec<ChannelUser>>, u: &ChannelUser) -> (r: bool)
    ensures
        r == shown(match filter { Some(v) => Some(users_view(v@)), None => None }, u@),
{
    match filter {
        None => true,
        Some(ids) => holds_user(ids, u),
    }
}

fn identifier_text(ids: &Vec<ChannelUser>, filter: Option<&Vec<ChannelUser>>) -> (r: String)
    ensures
        r@ == identifier_lines(ids@, match filter { Some(v) => Some(users_view(v@)), None => None }),
{
    let ghost f = match filter { Some(v) => Some(users_view(v@)), None => None };
    let mut s = String::new();
    let mut i: usize = 0;
    while i < ids.len()
        invariant
            i <= ids.len(),
            f == match filter { Some(v) => Some(users_view(v@)), None => None },
            s@ == identifier_lines(ids@.take(i as int), f),
        decreases ids.len() - i,
    {
        assert(ids@.take(i + 1).drop_last() =~= ids@.take(i as int));
        assert(ids@.take(i + 1).last() == ids@[i as int]);
        let u = &ids[i];
        if is_shown(filter, u) {
            let ghost before = s@;
            push_str(&mut s, "- ");
            push_str(&mut s, u.messenger_id.as_str());
            push_str(&mut s, " ");
            push_str(&mut s, u.user_id.as_str());
            push_str(&mut s, "\n");
            assert(s@ =~= before + ("- "@ + u.messenger_id@ + " "@ + u.user_id@ + "\n"@));
        } else {
            assert(s@ =~= s@ + Seq::<char>::empty());
        }
        i = i + 1;
    }
    assert(ids@.take(ids.len() as int) =~= ids@);
    s
}

fn push_other_relations(s: &mut String, rels: &Vec<(String, Relation)>)
    ensures
        final(s)@ == old(s)@ + other_relation_lines(rels@),
{
    let ghost s0 = s@;
    let mut i: usize = 0;
    while i < rels.len()
        invariant
            i <= rels.len(),
            s@ == s0 + other_relation_lines(rels@.take(i as int)),
        decreases rels.len() - i,
    {
        assert(rels@.take(i + 1).drop_last() =~= rels@.take(i as int));
        assert(rels@.take(i + 1).last() == rels@[i as int]);
        let (n, r) = (&rels[i].0, &rels[i].1);
        push_str(s, "#### ");
        push_str(s, n.as_str());
        push_str(s, "\n");
        push_str(s, "- **Relation**: ");
        push_str(s, r.relation.as_str());
        push_str(s, "\n");
        push_str(s, "- **Description**: ");
        push_str(s, r.description.as_str());
        push_str(s, "\n");
        assert(s@ =~= s0 + other_relation_lines(rels@.take(i + 1)));
        i = i + 1;
    }
    assert(rels@.take(rels.len() as int) =~= rels@);
}

/// Writes the individual-recognition section (see [`individual_recognition_md`]); with a
/// filter only the identities in it are shown, and individuals with none of them get no block.
#[verifier::spinoff_prover]
pub fn build_ego_individual_recognition_md(individuals: &IndividualRecognition, ids: Option<&Vec<ChannelUser>>) -> (r: String)
    ensures
        r@ == individual_recognition_md(*individuals, match ids { Some(v) => Some(users_view(v@)), None => None }),
{
    let ghost f = match ids { Some(v) => Some(users_view(v@)), None => None };
    let m = &individuals.individual_map;
    let mut s = String::new();
    push_str(&mut s, "# Individual Recognition\n\n");
    let ghost head = s@;
    let mut i: usize = 0;
    while i < m.len()
        invariant
            i <= m.len(),
            m == individuals.individual_map,
            f == match ids { Some(v) => Some(users_view(v@)), None => None },
            head == "# Individual Recognition\n\n"@,
            s@ == head + individual_blocks(m@.take(i as int), f),
        decreases m.len() - i,
    {
        assert(m@.take(i + 1).drop_last() =~= m@.take(i as int));
        assert(m@.take(i + 1).last() == m@[i as int]);
        let ghost before = s@;
        let name = &m[i].0;
        let ind = &m[i].1;
        let idl = identifier_text(&ind.identifiers, ids);
        if !is_empty_str(idl.as_str()) {
            push_str(&mut s, "## ");
            push_str(&mut s, name.as_str());
            push_str(&mut s, "\n\n");
            push_str(&mut s, "- **Relation with Agent**: ");
            push_str(&mut s, ind.relation.relation.as_str());
            push_str(&mut s, " - ");
            push_str(&mut s, ind.relation.description.as_str());
            push_str(&mut s, "\n");
            push_str(&mut s, "### Associated Identifiers\n");
            push_str(&mut s, idl.as_str());
            push_str(&mut s, "### Relations with Others\n");
            push_other_relations(&mut s, &ind.other_relations);
        }
        push_str(&mut s, "\n");
        assert(s@ =~= before + individual_block(name@, *ind, f));
        i = i + 1;
    }
    assert(m@.take(m.len() as int) =~= m@);
    s
}

/// Whether an individual's name is shown: every one when there is no filter, else those in it.
pub open spec fn name_shown(filter: Option<Seq<Seq<char>>>, n: Seq<char>) -> bool {
    match filter {
        None => true,
        Some(names) => names.contains(n),
    }
}

/// The lines of a role's relations to other roles.
pub open spec fn role_relation_lines(rels: Seq<(String, Relation)>) -> Seq<char>
    decreases rels.len(),
{
    if rels.len() == 0 {
        Seq::empty()
    } else {
        let (n, r) = rels.last();
        role_relation_lines(rels.drop_last()) + "#### With "@ + n@ + "\n\n"@ + "- **Relation**: "@ + r.relation@ + "\n"@
            + "- **Relation Description**: "@ + r.description@ + "\n"@
    }
}

/// The block of another role, when the individual behind it is shown (nothing otherwise).
pub open spec fn known_role_block(self_name: Seq<char>, name: Seq<char>, o: KnownRole, filter: Option<Seq<Seq<char>>>) -> Seq<char> {
    if name_shown(filter, o.individual_name@) {
        "## Known role: "@ + name + "\n\n"@ + "- **Belong to**: "@ + o.individual_name@ + "\n"@
            + "- **Description**: "@ + o.description@ + "\n"@
            + "- **Relation with "@ + self_name + "**: "@ + o.role_relation.relation@ + "\n"@
            + "- **Relation with "@ + self_name + " Description**: "@ + o.role_relation.description@ + "\n"@
            + "### "@ + name + "'s relation with Others\n"@ + role_relation_lines(o.other_role_relations@)
    } else {
        Seq::empty()
    }
}

/// The blocks of the other roles, in order.
pub open spec fn known_role_blocks(self_name: Seq<char>, roles: Seq<(String, KnownRole)>, filter: Option<Seq<Seq<char>>>) -> Seq<char>
    decreases roles.len(),
{
    if roles.len() == 0 {
        Seq::empty()
    } else {
        known_role_blocks(self_name, roles.drop_last(), filter) + known_role_block(self_name, roles.last().0@, roles.last().1, filter)
    }
}

/// The role-play section.
pub open spec fn role_play_md(r: RolePlay, filter: Option<Seq<Seq<char>>>) -> Seq<char> {
    "# Role Play\n\n"@ + "- **Self Role**: "@ + r.role.role_name@ + "\n\n"@ + "- **Self Description**: "@
        + r.role.description@ + "\n"@ + known_role_blocks(r.role.role_name@, r.other_roles@, filter)
}

/// Whether the name `n` is shown under `filter` (see [`name_shown`]).
fn is_name_shown(filter: Option<&Vec<String>>, n: &str) -> (r: bool)
    ensures
        r == name_shown(match filter { Some(v) => Some(strs_view(v@)), None => None }, n@),
{
    match filter {
        None => true,
        Some(names) => crate::configs::contains_name(names, n),
    }
}

fn push_role_relations(s: &mut String, rels: &Vec<(String, Relation)>)
    ensures
        final(s)@ == old(s)@ + role_relation_lines(rels@),
{
    let ghost s0 = s@;
    let mut i: usize = 0;
    while i < rels.len()
        invariant
            i <= rels.len(),
            s@ == s0 + role_relation_lines(rels@.take(i as int)),
        decreases rels.len() - i,
    {
        assert(rels@.take(i + 1).drop_last() =~= rels@.take(i as int));
        assert(rels@.take(i + 1).last() == rels@[i as int]);
        let (n, r) = (&rels[i].0, &rels[i].1);
        push_str(s, "#### With ");
        push_str(s, n.as_str());
        push_str(s, "\n\n");
        push_str(s, "- **Relation**: ");
        push_str(s, r.relation.as_str());
        push_str(s, "\n");
        push_str(s, "- **Relation Description**: ");
        push_str(s, r.description.as_str());
        push_str(s, "\n");
        assert(s@ =~= s0 + role_relation_lines(rels@.take(i + 1)));
        i = i + 1;
    }
    assert(rels@.take(rels.len() as int) =~= rels@);
}

/// Appends the block of another role (its shown form, see [`known_role_block`]).
fn push_known_role(s: &mut String, self_name: &str, name: &str, o: &KnownRole)
    ensures
        final(s)@ == old(s)@ + ("## Known role: "@ + name@ + "\n\n"@ + "- **Belong to**: "@ + o.individual_name@ + "\n"@
            + "- **Description**: "@ + o.description@ + "\n"@
            + "- **Relation with "@ + self_name@ + "**: "@ + o.role_relation.relation@ + "\n"@
            + "- **Relation with "@ + self_name@ + " Description**: "@ + o.role_relation.description@ + "\n"@
            + "### "@ + name@ + "'s relation with Others\n"@ + role_relation_lines(o.other_role_relations@)),
{
    let mut b = crate::text::owned("## Known role: ");
    push_str(&mut b, name);
    push_str(&mut b, "\n\n");
    push_str(&mut b, "- **Belong to**: ");
    push_str(&mut b, o.individual_name.as_str());
    push_str(&mut b, "\n");
    push_str(&mut b, "- **Description**: ");
    push_str(&mut b, o.description.as_str());
    push_str(&mut b, "\n");
    push_str(&mut b, "- **Relation with ");
    push_str(&mut b, self_name);
    push_str(&mut b, "**: ");
    push_str(&mut b, o.role_relation.relation.as_str());
    push_str(&mut b, "\n");
    push_str(&mut b, "- **Relation with ");
    push_str(&mut b, self_name);
    push_str(&mut b, " Description**: ");
    push_str(&mut b, o.role_relation.description.as_str());
    push_str(&mut b, "\n");
    push_str(&mut b, "### ");
    push_str(&mut b, name);
    push_str(&mut b, "'s relation with Others\n");
    push_role_relations(&mut b, &o.other_role_relations);
    push_str(s, b.as_str());
}

/// Writes the role-play section (see [`role_play_md`]); with a filter only the roles of the
/// individuals named in it get a block.
pub fn build_role_play_md(role: &RolePlay, individual_names: Option<&Vec<String>>) -> (r: String)
    ensures
        r@ == role_play_md(*role, match individual_names { Some(v) => Some(strs_view(v@)), None => None }),
{
    let ghost f = match individual_names { Some(v) => Some(strs_view(v@)), None => None };
    let self_name = role.role.role_name.as_str();
    let mut s = String::new();
    push_str(&mut s, "# Role Play\n\n");
    push_str(&mut s, "- **Self Role**: ");
    push_str(&mut s, self_name);
    push_str(&mut s, "\n\n");
    push_str(&mut s, "- **Self Description**: ");
    push_str(&mut s, role.role.description.as_str());
    push_str(&mut s, "\n");
    let ghost head = s@;
    let roles = &role.other_roles;
    let mut i: usize = 0;
    while i < roles.len()
        invariant
            i <= roles.len(),
            roles == role.other_roles,
            self_name@ == role.role.role_name@,
            f == match individual_names { Some(v) => Some(strs_view(v@)), None => None },
            s@ == head + known_role_blocks(self_name@, roles@.take(i as int), f),
        decreases roles.len() - i,
    {
        assert(roles@.take(i + 1).drop_last() =~= roles@.take(i as int));
        assert(roles@.take(i + 1).last() == roles@[i as int]);
        let ghost before = s@;
        let name = roles[i].0.as_str();
        let o = &roles[i].1;
        if is_name_shown(individual_names, o.individual_name.as_str()) {
            push_known_role(&mut s, self_name, name, o);
        }
        assert(s@ =~= before + known_role_block(self_name@, name@, *o, f));
        i = i + 1;
    }
    assert(roles@.take(roles.len() as int) =~= roles@);
    assert(s@ =~= role_play_md(*role, f));
    s
}


/// The names of the individuals that appear under at least one of `ids`, in order.
pub open spec fn matched_names(m: Seq<(String, Individual)>, ids: Seq<(Seq<char>, Seq<char>)>) -> Seq<Seq<char>>
    decreases m.len(),
{
    if m.len() == 0 {
        Seq::empty()
    } else {
        let r = matched_names(m.drop_last(), ids);
        let (n, ind) = m.last();
        if exists|j: int| 0 <= j < ind.identifiers@.len() && ids.contains(#[trigger] ind.identifiers@[j]@) {
            r.push(n@)
        } else {
            r
        }
    }
}

/// The names of the individuals known under one of the agent's own identities `ids` (see
/// [`matched_names`]); their roles are the ones the role-play section shows.
pub fn matched_individual_names(individuals: &IndividualRecognition, ids: &Vec<ChannelUser>) -> (r: Vec<String>)
    ensures
        strs_view(r@) == matched_names(individuals.individual_map@, users_view(ids@)),
{
    let m = &individuals.individual_map;
    let ghost iv = users_view(ids@);
    let mut out: Vec<String> = Vec::new();
    let mut i: usize = 0;
    while i < m.len()
        invariant
            i <= m.len(),
            m == individuals.individual_map,
            iv == users_view(ids@),
            strs_view(out@) == matched_names(m@.take(i as int), iv),
        decreases m.len() - i,
    {
        assert(m@.take(i + 1).drop_last() =~= m@.take(i as int));
        assert(m@.take(i + 1).last() == m@[i as int]);
        let ind = &m[i].1;
        let mut found = false;
        let mut j: usize = 0;
        while j < ind.identifiers.len()
            invariant
                j <= ind.identifiers.len(),
                iv == users_view(ids@),
                found == exists|k: int| 0 <= k < j && iv.contains(#[trigger] ind.identifiers@[k]@),
            decreases ind.identifiers.len() - j,
        {
            if holds_user(ids, &ind.identifiers[j]) {
                found = true;
            }
            j = j + 1;
        }
        if found {
            let ghost before = strs_view(out@);
            out.push(m[i].0.clone());
            assert(strs_view(out@) =~= before.push(m@[i as int].0@));
        }
        i = i + 1;
    }
    assert(m@.take(m.len() as int) =~= m@);
    out
}

/// The agent's own identities: every identity bound to a configured channel.
pub fn agent_identities(repo: &NexusRepo) -> (r: Vec<ChannelUser>)
    ensures
        forall|u: (Seq<char>, Seq<char>)| users_view(r@).contains(u) <==>
            exists|c: Seq<char>| #[trigger] repo@.channels.dom().contains(c) && repo@.channels[c].bind_users.contains(u),
{
    let n = repo.channels.len();
    let mut out: Vec<ChannelUser> = Vec::new();
    let mut i: usize = 0;
    while i < n
        invariant
            i <= n,
            n == repo.channels.pairs().len(),
            forall|k: Seq<char>| #[trigger] repo@.channels.dom().contains(k) ==> exists|j: int| 0 <= j < n && repo.channels.pairs()[j].0 == k,
            forall|u: (Seq<char>, Seq<char>)| users_view(out@).contains(u) <==>
                exists|j: int| 0 <= j < i && (#[trigger] repo.channels.pairs()[j]).1.bind_users.contains(u),
            forall|j: int| 0 <= j < i ==> repo@.channels.dom().contains(#[trigger] repo.channels.pairs()[j].0)
                && repo@.channels[repo.channels.pairs()[j].0] == repo.channels.pairs()[j].1,
        decreases n - i,
    {
        let (_, ch) = repo.channels.entry_at(i);
        let ghost before = users_view(out@);
        let mut k: usize = 0;
        while k < ch.bind_users.len()
            invariant
                k <= ch.bind_users.len(),
                users_view(out@) == before + users_view(ch.bind_users@.take(k as int)),
            decreases ch.bind_users.len() - k,
        {
            let ghost pre = users_view(out@);
            out.push(ch.bind_users[k].duplicate());
            assert(users_view(out@) =~= pre.push(ch.bind_users@[k as int]@));
            assert(users_view(ch.bind_users@.take(k + 1)) =~= users_view(ch.bind_users@.take(k as int)).push(ch.bind_users@[k as int]@));
            assert(users_view(out@) =~= before + users_view(ch.bind_users@.take(k + 1)));
            k = k + 1;
        }
        assert(ch.bind_users@.take(ch.bind_users.len() as int) =~= ch.bind_users@);
        let ghost mine = users_view(ch.bind_users@);
        assert(ch@.bind_users == mine.to_set());
        assert(repo.channels.pairs()[i as int].1 == ch@);
        assert forall|u: (Seq<char>, Seq<char>)| users_view(out@).contains(u) <==>
            exists|j: int| 0 <= j < i + 1 && (#[trigger] repo.channels.pairs()[j]).1.bind_users.contains(u) by {
            let all = users_view(out@);
            assert(all == before + mine);
            if all.contains(u) {
                let x = choose|x: int| 0 <= x < all.len() && all[x] == u;
                if x < before.len() {
                    assert(before[x] == u);
                    assert(before.contains(u));
                } else {
                    assert(mine[x - before.len()] == u);
                    assert(mine.contains(u));
                    assert(mine.to_set().contains(u));
                    assert(repo.channels.pairs()[i as int].1.bind_users.contains(u));
                }
            }
            if exists|j: int| 0 <= j < i + 1 && (#[trigger] repo.channels.pairs()[j]).1.bind_users.contains(u) {
                let j = choose|j: int| 0 <= j < i + 1 && (#[trigger] repo.channels.pairs()[j]).1.bind_users.contains(u);
                if j < i {
                    assert(before.contains(u));
                    let x = choose|x: int| 0 <= x < before.len() && before[x] == u;
                    assert(all[x] == u);
                } else {
                    assert(mine.to_set().contains(u));
                    assert(mine.contains(u));
                    let x = choose|x: int| 0 <= x < mine.len() && mine[x] == u;
                    assert(all[before.len() + x] == u);
                }
            }
        }
        i = i + 1;
    }
    assert forall|u: (Seq<char>, Seq<char>)| users_view(out@).contains(u) <==>
        exists|c: Seq<char>| #[trigger] repo@.channels.dom().contains(c) && repo@.channels[c].bind_users.contains(u) by {
        if users_view(out@).contains(u) {
            let j = choose|j: int| 0 <= j < n && (#[trigger] repo.channels.pairs()[j]).1.bind_users.contains(u);
            let c = repo.channels.pairs()[j].0;
            assert(repo@.channels.dom().contains(c));
        }
        if exists|c: Seq<char>| #[trigger] repo@.channels.dom().contains(c) && repo@.channels[c].bind_users.contains(u) {
            let c = choose|c: Seq<char>| #[trigger] repo@.channels.dom().contains(c) && repo@.channels[c].bind_users.contains(u);
            let j = choose|j: int| 0 <= j < n && repo.channels.pairs()[j].0 == c;
            assert(repo@.channels.dom().contains(repo.channels.pairs()[j].0));
            assert(repo.channels.pairs()[j].1.bind_users.contains(u));
        }
    }
    out
}

/// Which ego lookups the prompt of `agent_id` with role `role_name` needs: the agent and its
/// individuals unless it is the reserved agent, and its role too when a role is named.
pub fn ego_lookups(agent_id: &str, role_name: &str) -> (r: (bool, bool))
    ensures
        r.0 == (agent_id@ != RESERVED_AGENT_ID@),
        r.1 == (r.0 && role_name@.len() > 0),
{
    let agent = !str_eq(agent_id, RESERVED_AGENT_ID);
    (agent, agent && !is_empty_str(role_name))
}

/// The prompt sections for what the lookups found, in the order identity, individuals, role.
pub open spec fn prompt_parts(m: Option<AgentMetadata>, inds: Option<IndividualRecognition>, role: Option<RolePlay>) -> Seq<Seq<char>> {
    let a = match m { Some(x) => seq![identity_md(x)], None => Seq::empty() };
    let b = match inds { Some(x) => seq![individual_recognition_md(x, None)], None => Seq::empty() };
    let c = match role { Some(x) => seq![role_play_md(x, None)], None => Seq::empty() };
    a + b + c
}

/// The prompt of an agent when none of its memory lookups found anything.
pub const NO_MEMORY_PROMPT: &'static str = "你是 kissbot 智能助手";

/// The system prompt a session's memory prompter asks for: none for the reserved agent (the
/// prompter then uses its own default); for any other agent the sections found, unfiltered
/// (see [`prompt_parts`]; the role only when a role is named), joined by newlines, or
/// [`NO_MEMORY_PROMPT`] when no lookup found anything. The prompt a new session gets when it
/// is started for a channel is [`load_ego_info`].
pub fn system_prompt_for_agent(
    agent_id: &str,
    role_name: &str,
    metadata: Option<&AgentMetadata>,
    individuals: Option<&IndividualRecognition>,
    role: Option<&RolePlay>,
) -> (r: Option<String>)
    ensures
        agent_id@ == RESERVED_AGENT_ID@ ==> r is None,
        agent_id@ != RESERVED_AGENT_ID@ ==> ({
            let parts = prompt_parts(
                match metadata { Some(x) => Some(*x), None => None },
                match individuals { Some(x) => Some(*x), None => None },
                if role_name@.len() > 0 { match role { Some(x) => Some(*x), None => None } } else { None },
            );
            &&& parts.len() == 0 ==> (r matches Some(p) && p@ == NO_MEMORY_PROMPT@)
            &&& parts.len() > 0 ==> (r matches Some(p) && p@ == join_lines(parts))
        }),
{
    if str_eq(agent_id, RESERVED_AGENT_ID) {
        return None;
    }
    let ghost mo = match metadata { Some(x) => Some(*x), None => None };
    let ghost io = match individuals { Some(x) => Some(*x), None => None };
    let ghost ro = if role_name@.len() > 0 { match role { Some(x) => Some(*x), None => None } } else { None };
    let mut parts: Vec<String> = Vec::new();
    match metadata {
        Some(m) => parts.push(build_ego_identity_md(m)),
        None => {},
    }
    let ghost pa = strs_view(parts@);
    assert(pa =~= match mo { Some(x) => seq![identity_md(x)], None => Seq::<Seq<char>>::empty() });
    match individuals {
        Some(x) => parts.push(build_ego_individual_recognition_md(x, None)),
        None => {},
    }
    let ghost pb = strs_view(parts@);
    assert(pb =~= pa + match io { Some(x) => seq![individual_recognition_md(x, None)], None => Seq::<Seq<char>>::empty() });
    if !is_empty_str(role_name) {
        match role {
            Some(x) => parts.push(build_role_play_md(x, None)),
            None => {},
        }
    }
    assert(strs_view(parts@) =~= pb + match ro { Some(x) => seq![role_play_md(x, None)], None => Seq::<Seq<char>>::empty() });
    assert(strs_view(parts@) =~= prompt_parts(mo, io, ro));
    if parts.len() == 0 {
        Some(owned(NO_MEMORY_PROMPT))
    } else {
        Some(join_newline(&parts))
    }
}

/// The sections of an agent's self-knowledge, in the order identity, individuals, role: the
/// individuals show only the identities in `ids` (those bound to the agent's channels); the
/// role is taken only when a role is named, and shows only the known roles of individuals
/// that one of `ids` identifies.
pub open spec fn ego_parts(
    m: Option<AgentMetadata>,
    inds: Option<IndividualRecognition>,
    role: Option<RolePlay>,
    role_named: bool,
    ids: Seq<(Seq<char>, Seq<char>)>,
) -> Seq<Seq<char>> {
    let names = match inds { Some(x) => matched_names(x.individual_map@, ids), None => Seq::empty() };
    let a = match m { Some(x) => seq![identity_md(x)], None => Seq::empty() };
    let b = match inds { Some(x) => seq![individual_recognition_md(x, Some(ids))], None => Seq::empty() };
    let c = if role_named {
        match role { Some(x) => seq![role_play_md(x, Some(names))], None => Seq::empty() }
    } else {
        Seq::empty()
    };
    a + b + c
}

/// The system prompt of a new session of an agent, from what its memory lookups found (none
/// found is `None`): the sections of [`ego_parts`] joined by newlines, with the identities
/// `ids` bound to the agent's channels (see [`agent_identities`]); [`NO_MEMORY_PROMPT`] when
/// nothing was found.
pub fn load_ego_info(
    role_name: &str,
    metadata: Option<&AgentMetadata>,
    individuals: Option<&IndividualRecognition>,
    role: Option<&RolePlay>,
    ids: &Vec<ChannelUser>,
) -> (r: String)
    ensures
        ({
            let parts = ego_parts(
                match metadata { Some(x) => Some(*x), None => None },
                match individuals { Some(x) => Some(*x), None => None },
                match role { Some(x) => Some(*x), None => None },
                role_name@.len() > 0,
                users_view(ids@),
            );
            &&& parts.len() == 0 ==> r@ == NO_MEMORY_PROMPT@
            &&& parts.len() > 0 ==> r@ == join_lines(parts)
        }),
{
    let ghost mo = match metadata { Some(x) => Some(*x), None => None };
    let ghost io = match individuals { Some(x) => Some(*x), None => None };
    let ghost ro = match role { Some(x) => Some(*x), None => None };
    let ghost iv = users_view(ids@);
    let mut parts: Vec<String> = Vec::new();
    match metadata {
        Some(m) => parts.push(build_ego_identity_md(m)),
        None => {},
    }
    let ghost pa = strs_view(parts@);
    assert(pa =~= match mo { Some(x) => seq![identity_md(x)], None => Seq::<Seq<char>>::empty() });
    let names: Vec<String> = match individuals {
        Some(x) => {
            parts.push(build_ego_individual_recognition_md(x, Some(ids)));
            matched_individual_names(x, ids)
        },
        None => Vec::new(),
    };
    let ghost pb = strs_view(parts@);
    assert(pb =~= pa + match io { Some(x) => seq![individual_recognition_md(x, Some(iv))], None => Seq::<Seq<char>>::empty() });
    assert(strs_view(names@) =~= match io { Some(x) => matched_names(x.individual_map@, iv), None => Seq::<Seq<char>>::empty() });
    if !is_empty_str(role_name) {
        match role {
            Some(x) => parts.push(build_role_play_md(x, Some(&names))),
            None => {},
        }
    }
    assert(strs_view(parts@) =~= pb + if role_name@.len() > 0 {
        match ro { Some(x) => seq![role_play_md(x, Some(strs_view(names@)))], None => Seq::<Seq<char>>::empty() }
    } else {
        Seq::<Seq<char>>::empty()
    });
    assert(strs_view(parts@) =~= ego_parts(mo, io, ro, role_name@.len() > 0, iv));
    if parts.len() == 0 {
        owned(NO_MEMORY_PROMPT)
    } else {
        join_newline(&parts)
    }
}

/// Whether switching to agent `agent_id` needs a lookup: not for an empty id or the
/// reserved agent, which always exist.
pub fn agent_lookup_needed(agent_id: &str) -> (r: bool)
    ensures
        r == !(agent_id@.len() == 0 || agent_id@ == RESERVED_AGENT_ID@),
{
    !(is_empty_str(agent_id) || str_eq(agent_id, RESERVED_AGENT_ID))
}

/// The check of agent `agent_id` once the lookup answered whether it exists.
pub fn agent_lookup_outcome(agent_id: &str, found: bool) -> (r: Result<(), AgentError>)
    ensures
        found ==> r is Ok,
        !found ==> (r matches Err(AgentError::MemoryEgoError(m)) && m@ == "agent 不存在: "@ + agent_id@),
{
    if found {
        Ok(())
    } else {
        let mut m = crate::text::owned("agent 不存在: ");
        push_str(&mut m, agent_id);
        Err(AgentError::MemoryEgoError(m))
    }
}

/// Whether applying role `role_name` needs a lookup: not for the empty role, which always exists.
pub fn role_lookup_needed(role_name: &str) -> (r: bool)
    ensures
        r == (role_name@.len() > 0),
{
    !is_empty_str(role_name)
}

/// The check of role `role_name` once the lookup answered whether it exists.
pub fn role_lookup_outcome(role_name: &str, found: bool) -> (r: Result<(), AgentError>)
    ensures
        found ==> r is Ok,
        !found ==> (r matches Err(AgentError::MemoryEgoError(m)) && m@ == "role 不存在: "@ + role_name@),
{
    if found {
        Ok(())
    } else {
        let mut m = crate::text::owned("role 不存在: ");
        push_str(&mut m, role_name);
        Err(AgentError::MemoryEgoError(m))
    }
}

} // verus!
