//! Carrying out administrator commands: the ones that only edit the configuration run here
//! against the repository; the others are answered with their confirmation text once the
//! running agent has carried them out.
use vstd::prelude::*;
use crate::agent_role::{after_set, built};
use crate::command::{parse_command, spec_parse, Command, CommandView};
use crate::configs::{OutChannel, OutChannelConfig};
use crate::error::AgentError;
use crate::nexus_repo::{agent_or_empty, channel_missing, updated_channel, users_contain, user_set, ChannelUpdate, NexusRepo, NexusRepoView};
use crate::text::{owned, push_str};
use crate::types::ChannelUser;

verus! {

/// `prefix`, `first`, `" / "`, `second`.
fn pair_text(prefix: &str, first: &str, second: &str) -> (r: String)
    ensures
        r@ == prefix@ + first@ + " / "@ + second@,
{
    let mut s = owned(prefix);
    push_str(&mut s, first);
    push_str(&mut s, " / ");
    push_str(&mut s, second);
    s
}

/// A change of the channel bindings, queued so that writes apply one at a time.
#[derive(Debug)]
pub enum ChannelCommand {
    BindUser { channel_id: String, user: ChannelUser },
    UnbindUser { channel_id: String, user: ChannelUser },
}

/// The repository after unbinding `user` from channel `channel_id` (which exists): the
/// identity leaves the channel, and the reply channel of the channel's agent and role is
/// cleared when it speaks as that identity on this channel.
pub open spec fn after_unbind(r: NexusRepoView, channel_id: Seq<char>, user: ChannelUser) -> NexusRepoView {
    let ch = r.channels[channel_id];
    let r1 = NexusRepoView {
        channels: r.channels.insert(channel_id, updated_channel(ch, ChannelUpdate::UnbindUser(user))),
        ..r
    };
    let current = built::<OutChannelConfig>(agent_or_empty(r.agents, ch.agent_id), ch.role_name);
    if current.out_channel matches Some(o) && o.channel_id@ == channel_id && o.user@ == user@ {
        NexusRepoView {
            agents: r.agents.insert(ch.agent_id, after_set::<OutChannelConfig>(
                agent_or_empty(r.agents, ch.agent_id),
                ch.role_name,
                OutChannelConfig { out_channel: None },
            )),
            ..r1
        }
    } else {
        r1
    }
}

impl NexusRepo {
    /// Applies a binding change and answers with its confirmation; a missing channel is an
    /// error and changes nothing.
    pub fn apply_channel_command(&mut self, cmd: ChannelCommand) -> (r: Result<String, AgentError>)
        ensures
            match cmd {
                ChannelCommand::BindUser { channel_id, user } => if old(self)@.channels.dom().contains(channel_id@) {
                    &&& final(self)@ == (NexusRepoView {
                        channels: old(self)@.channels.insert(channel_id@, updated_channel(old(self)@.channels[channel_id@], ChannelUpdate::BindUser(user))),
                        ..old(self)@
                    })
                    &&& r matches Ok(t) && t@ == "✅ 已绑定 channel 用户: "@ + user.messenger_id@ + " / "@ + user.user_id@
                } else {
                    &&& final(self)@ == old(self)@
                    &&& r matches Err(AgentError::ConfigNotFound(m)) && m@ == channel_missing(channel_id@)
                },
                ChannelCommand::UnbindUser { channel_id, user } => if old(self)@.channels.dom().contains(channel_id@) {
                    &&& final(self)@ == after_unbind(old(self)@, channel_id@, user)
                    &&& r matches Ok(t) && t@ == "✅ 已移除 channel 用户: "@ + user.messenger_id@ + " / "@ + user.user_id@
                } else {
                    &&& final(self)@ == old(self)@
                    &&& r matches Err(AgentError::ConfigNotFound(m)) && m@ == channel_missing(channel_id@)
                },
            },
    {
        match cmd {
            ChannelCommand::BindUser { channel_id, user } => {
                let reply = pair_text("✅ 已绑定 channel 用户: ", user.messenger_id.as_str(), user.user_id.as_str());
                let res = self.update_channel(channel_id.as_str(), ChannelUpdate::BindUser(user));
                match res {
                    Ok(()) => Ok(reply),
                    Err(e) => Err(e),
                }
            },
            ChannelCommand::UnbindUser { channel_id, user } => {
                let reply = pair_text("✅ 已移除 channel 用户: ", user.messenger_id.as_str(), user.user_id.as_str());
                let ch = match self.channel(channel_id.as_str()) {
                    Some(ch) => ch,
                    None => {
                        let res = self.update_channel(channel_id.as_str(), ChannelUpdate::UnbindUser(user));
                        return match res {
                            Ok(()) => Ok(reply),
                            Err(e) => Err(e),
                        };
                    },
                };
                let ghost before = self@;
                let agent = self.agent_config(ch.agent_id.as_str());
                let current: OutChannelConfig = agent.build(ch.role_name.as_str());
                let clear = match &current.out_channel {
                    Some(o) => crate::text::str_eq(o.channel_id.as_str(), channel_id.as_str()) && o.user.same_as(&user),
                    None => false,
                };
                let uu = user.duplicate();
                let _ = self.update_channel(channel_id.as_str(), ChannelUpdate::UnbindUser(uu));
                if clear {
                    self.set_out_channel(ch.agent_id.as_str(), ch.role_name.as_str(), None);
                }
                Ok(reply)
            },
        }
    }
}


/// The repository with the reply channel of `ch`'s agent and role set to `out`.
pub open spec fn with_out_channel(r: NexusRepoView, agent_id: Seq<char>, role_name: Seq<char>, out: Option<OutChannel>) -> NexusRepoView {
    NexusRepoView {
        agents: r.agents.insert(agent_id, after_set::<OutChannelConfig>(
            agent_or_empty(r.agents, agent_id),
            role_name,
            OutChannelConfig { out_channel: out },
        )),
        ..r
    }
}

/// Whether a command only edits the configuration.
pub open spec fn is_config_command(c: Command) -> bool {
    c is Bind || c is Unbind || c is Admin || c is Unadmin || c is BindOutgoing || c is UnbindOutgoing
}

/// What running a configuration command leaves: the repository `f` after it from `o` before
/// it, and the answer `r` (see [`execute_config_command`]).
pub open spec fn config_outcome(o: NexusRepoView, f: NexusRepoView, channel_id: Seq<char>, cmd: Command, r: Option<Result<String, AgentError>>) -> bool {
    &&& (!is_config_command(cmd) ==> r is None && f == o)
    &&& (is_config_command(cmd) ==> r is Some)
    &&& (!o.channels.dom().contains(channel_id) && is_config_command(cmd) ==> f == o
            && (r matches Some(Err(AgentError::ConfigNotFound(m))) && m@ == channel_missing(channel_id)))
    &&& (match cmd {
            Command::Bind { messenger_id, user_id } => o.channels.dom().contains(channel_id) ==> {
                &&& f == (NexusRepoView {
                    channels: o.channels.insert(channel_id, updated_channel(
                        o.channels[channel_id],
                        ChannelUpdate::BindUser(ChannelUser { messenger_id, user_id }),
                    )),
                    ..o
                })
                &&& r matches Some(Ok(t)) && t@ == "✅ 已绑定 channel 用户: "@ + messenger_id@ + " / "@ + user_id@
            },
            Command::Unbind { messenger_id, user_id } => o.channels.dom().contains(channel_id) ==> {
                &&& f == after_unbind(o, channel_id, ChannelUser { messenger_id, user_id })
                &&& r matches Some(Ok(t)) && t@ == "✅ 已移除 channel 用户: "@ + messenger_id@ + " / "@ + user_id@
            },
            Command::Admin { messenger_id, user_id } => o.channels.dom().contains(channel_id) ==> {
                &&& f == (NexusRepoView {
                    channels: o.channels.insert(channel_id, crate::nexus_repo::ChannelConfigView {
                        admins: o.channels[channel_id].admins.insert((messenger_id@, user_id@)),
                        ..o.channels[channel_id]
                    }),
                    ..o
                })
                &&& r matches Some(Ok(t)) && t@ == "✅ 已添加管理权限: "@ + messenger_id@ + " / "@ + user_id@
            },
            Command::Unadmin { messenger_id, user_id } => o.channels.dom().contains(channel_id) ==> {
                &&& f == (NexusRepoView {
                    channels: o.channels.insert(channel_id, crate::nexus_repo::ChannelConfigView {
                        admins: o.channels[channel_id].admins.remove((messenger_id@, user_id@)),
                        ..o.channels[channel_id]
                    }),
                    ..o
                })
                &&& r matches Some(Ok(t)) && t@ == "✅ 已移除管理权限: "@ + messenger_id@ + " / "@ + user_id@
            },
            Command::BindOutgoing { messenger_id, user_id, group_id } => o.channels.dom().contains(channel_id) ==> {
                let ch = o.channels[channel_id];
                if ch.bind_users.contains((messenger_id@, user_id@)) {
                    &&& r matches Some(Ok(t)) && t@ == "✅ 已设发送通道: "@ + messenger_id@ + " / "@ + user_id@ + " -> "@ + group_id@
                    &&& exists|oc: OutChannel| #![auto] oc.channel_id@ == channel_id && oc.user@ == (messenger_id@, user_id@)
                        && oc.group_id@ == group_id@
                        && f == with_out_channel(o, ch.agent_id, ch.role_name, Some(oc))
                } else {
                    &&& f == o
                    &&& r matches Some(Err(AgentError::InvalidCommand(m)))
                        && m@ == "ChannelUser 未绑定: "@ + messenger_id@ + " / "@ + user_id@
                }
            },
            Command::UnbindOutgoing => o.channels.dom().contains(channel_id) ==> {
                let ch = o.channels[channel_id];
                &&& f == with_out_channel(o, ch.agent_id, ch.role_name, None)
                &&& r matches Some(Ok(t)) && t@ == "✅ 已取消发送通道（只存不回复）"@
            },
            _ => true,
        })
}

/// Runs `cmd` for channel `channel_id` when it only edits the configuration (binding,
/// administrators, reply channel), answering with its confirmation or its error; the other
/// commands are left to the running agent (`None`, nothing changed).
#[verifier::rlimit(40)]
pub fn execute_config_command(repo: &mut NexusRepo, channel_id: &str, cmd: Command) -> (r: Option<Result<String, AgentError>>)
    ensures
        config_outcome(old(repo)@, final(repo)@, channel_id@, cmd, r),
{
    match cmd {
        Command::Bind { messenger_id, user_id } => {
            let user = ChannelUser { messenger_id, user_id };
            Some(repo.apply_channel_command(ChannelCommand::BindUser { channel_id: owned(channel_id), user }))
        },
        Command::Unbind { messenger_id, user_id } => {
            let user = ChannelUser { messenger_id, user_id };
            Some(repo.apply_channel_command(ChannelCommand::UnbindUser { channel_id: owned(channel_id), user }))
        },
        Command::Admin { messenger_id, user_id } => {
            let reply = pair_text("✅ 已添加管理权限: ", messenger_id.as_str(), user_id.as_str());
            let user = ChannelUser { messenger_id, user_id };
            match repo.add_admin(channel_id, &user) {
                Ok(()) => Some(Ok(reply)),
                Err(e) => Some(Err(e)),
            }
        },
        Command::Unadmin { messenger_id, user_id } => {
            let reply = pair_text("✅ 已移除管理权限: ", messenger_id.as_str(), user_id.as_str());
            match repo.remove_admin(channel_id, messenger_id.as_str(), user_id.as_str()) {
                Ok(()) => Some(Ok(reply)),
                Err(e) => Some(Err(e)),
            }
        },
        Command::BindOutgoing { messenger_id, user_id, group_id } => {
            let mut reply = pair_text("✅ 已设发送通道: ", messenger_id.as_str(), user_id.as_str());
            push_str(&mut reply, " -> ");
            push_str(&mut reply, group_id.as_str());
            let ch = match repo.channel(channel_id) {
                Some(ch) => ch,
                None => {
                    let mut m = owned("channel 不存在: ");
                    push_str(&mut m, channel_id);
                    return Some(Err(AgentError::ConfigNotFound(m)));
                },
            };
            let user = ChannelUser { messenger_id, user_id };
            if !users_contain(&ch.bind_users, &user) {
                let m = pair_text("ChannelUser 未绑定: ", user.messenger_id.as_str(), user.user_id.as_str());
                return Some(Err(AgentError::InvalidCommand(m)));
            }
            let out = OutChannel { channel_id: owned(channel_id), user, group_id };
            let ghost o = out;
            repo.set_out_channel(ch.agent_id.as_str(), ch.role_name.as_str(), Some(out));
            assert(o.channel_id@ == channel_id@);
            Some(Ok(reply))
        },
        Command::UnbindOutgoing => {
            let ch = match repo.channel(channel_id) {
                Some(ch) => ch,
                None => {
                    let mut m = owned("channel 不存在: ");
                    push_str(&mut m, channel_id);
                    return Some(Err(AgentError::ConfigNotFound(m)));
                },
            };
            repo.set_out_channel(ch.agent_id.as_str(), ch.role_name.as_str(), None);
            Some(Ok(owned("✅ 已取消发送通道（只存不回复）")))
        },
        _ => None,
    }
}

/// The confirmation of a command carried out by the running agent.
pub open spec fn runtime_reply(c: CommandView) -> Seq<char> {
    match c {
        CommandView::Agent(a, role) => "✅ 已设置 agent: "@ + a + " / role: "@ + role,
        CommandView::Role(role) => "✅ 已设置 role: "@ + role,
        CommandView::ModeEvent(Some(id)) => "✅ 新事件 ID: "@ + id,
        CommandView::ModeRole => "✅ 已切换为角色模式"@,
        CommandView::Reenter(id) => "✅ 将重进事件: "@ + id,
        CommandView::Model(p, m, d) => "✅ 已切换模型为: "@ + p + "/"@ + m + (if d { "（已设为默认）"@ } else { Seq::empty() }),
        _ => Seq::empty(),
    }
}

/// The confirmation of `cmd` once the running agent has carried it out (for `/mode event`
/// without an id, the id that was generated is given as `event_id`).
pub fn command_reply(cmd: &Command, event_id: &str) -> (r: String)
    ensures
        match cmd@ {
            CommandView::ModeEvent(None) => r@ == "✅ 新事件 ID: "@ + event_id@,
            c => r@ == runtime_reply(c),
        },
{
    match cmd {
        Command::Agent { agent_id, role } => {
            let mut s = owned("✅ 已设置 agent: ");
            push_str(&mut s, agent_id.as_str());
            push_str(&mut s, " / role: ");
            push_str(&mut s, role.as_str());
            s
        },
        Command::Role { role } => {
            let mut s = owned("✅ 已设置 role: ");
            push_str(&mut s, role.as_str());
            s
        },
        Command::ModeEvent { event_id: given } => {
            let mut s = owned("✅ 新事件 ID: ");
            match given {
                Some(id) => push_str(&mut s, id.as_str()),
                None => push_str(&mut s, event_id),
            }
            s
        },
        Command::ModeRole => owned("✅ 已切换为角色模式"),
        Command::Reenter { event_id: id } => {
            let mut s = owned("✅ 将重进事件: ");
            push_str(&mut s, id.as_str());
            s
        },
        Command::Model { provider, model, set_default } => {
            let mut s = owned("✅ 已切换模型为: ");
            push_str(&mut s, provider.as_str());
            push_str(&mut s, "/");
            push_str(&mut s, model.as_str());
            if *set_default {
                push_str(&mut s, "（已设为默认）");
            } else {
                assert(s@ + Seq::<char>::empty() =~= s@);
            }
            s
        },
        _ => String::new(),
    }
}

/// What a command came to: done (its confirmation), or to be carried out by the running agent.
#[derive(Debug)]
pub enum CommandOutcome {
    Done(String),
    Runtime(Command),
}

/// The answer of a configuration command in the form [`execute_config_command`] gives it.
pub open spec fn as_config_result(r: Result<CommandOutcome, AgentError>) -> Option<Result<String, AgentError>> {
    match r {
        Ok(CommandOutcome::Done(t)) => Some(Ok(t)),
        Ok(CommandOutcome::Runtime(_)) => None,
        Err(e) => Some(Err(e)),
    }
}

/// Administrator commands sent on a channel.
pub struct CommandRouter;

impl CommandRouter {
    /// Runs the command text `content` sent on channel `channel_id`: a text that does not
    /// parse is an invalid-command error; a configuration command runs against `repo` (see
    /// [`execute_config_command`]); any other command is handed back for the running agent.
    pub fn execute(repo: &mut NexusRepo, content: &str, channel_id: &str) -> (r: Result<CommandOutcome, AgentError>)
        ensures
            spec_parse(content@) is Err ==> final(repo)@ == old(repo)@
                && (r matches Err(AgentError::InvalidCommand(m)) && m@ == spec_parse(content@)->Err_0),
            spec_parse(content@) matches Ok(c) ==> match r {
                Ok(CommandOutcome::Runtime(cmd)) => cmd@ == c && !is_config_command(cmd) && final(repo)@ == old(repo)@,
                _ => true,
            },
            spec_parse(content@) matches Ok(c) ==> (!(c is Bind || c is Unbind || c is Admin || c is Unadmin
                || c is BindOutgoing || c is UnbindOutgoing) ==> r matches Ok(CommandOutcome::Runtime(_))),
            spec_parse(content@) matches Ok(c) ==> ((c is Bind || c is Unbind || c is Admin || c is Unadmin
                || c is BindOutgoing || c is UnbindOutgoing) ==> exists|cmd: Command| #![auto] cmd@ == c
                && config_outcome(old(repo)@, final(repo)@, channel_id@, cmd, as_config_result(r))),
    {
        let cmd = match parse_command(content) {
            Ok(cmd) => cmd,
            Err(e) => return Err(e),
        };
        if !is_config(&cmd) {
            return Ok(CommandOutcome::Runtime(cmd));
        }
        match execute_config_command(repo, channel_id, cmd) {
            Some(Ok(text)) => Ok(CommandOutcome::Done(text)),
            Some(Err(e)) => Err(e),
            None => Err(AgentError::InternalError(String::new())),
        }
    }
}

/// Whether `cmd` only edits the configuration (see [`is_config_command`]).
fn is_config(cmd: &Command) -> (r: bool)
    ensures
        r == is_config_command(*cmd),
{
    match cmd {
        Command::Bind { .. } | Command::Unbind { .. } | Command::Admin { .. } | Command::Unadmin { .. }
        | Command::BindOutgoing { .. } | Command::UnbindOutgoing => true,
        _ => false,
    }
}

/// Whether `s` is a random (version 4) id in hyphenated lowercase form: 36 characters,
/// hyphens at positions 8, 13, 18 and 23, lowercase hexadecimal digits elsewhere, the version
/// digit `4` at position 14 and one of `8`, `9`, `a`, `b` (the variant) at position 19.
pub open spec fn is_v4_id_text(s: Seq<char>) -> bool {
    &&& s.len() == 36
    &&& forall|i: int| 0 <= i < 36 ==> (if i == 8 || i == 13 || i == 18 || i == 23 {
        #[trigger] s[i] == '-'
    } else {
        ('0' <= s[i] <= '9') || ('a' <= s[i] <= 'f')
    })
    &&& s[14] == '4'
    &&& (s[19] == '8' || s[19] == '9' || s[19] == 'a' || s[19] == 'b')
}

/// A fresh random event id: `uuid::Uuid::new_v4()` written with `to_string`, which gives the
/// hyphenated lowercase form (see [`is_v4_id_text`]). Which id comes out is left open (it is
/// random).
#[verifier::external_body]
fn new_event_id() -> (r: String)
    ensures
        is_v4_id_text(r@),
{
    uuid::Uuid::new_v4().to_string()
}

/// The event id of `/mode event [event-id]`: the given id, or a fresh random one.
pub fn event_id_for(given: &Option<String>) -> (r: String)
    ensures
        given matches Some(g) ==> r@ == g@,
        given is None ==> is_v4_id_text(r@),
{
    match given {
        Some(g) => g.clone(),
        None => new_event_id(),
    }
}

} // verus!
