//! What becomes of a message received on a channel: an administrator's command, a message
//! for the channel's session, or nothing.
use vstd::prelude::*;
use crate::channel::{channel_or_new, channel_session, ChannelManager};
use crate::error::{error_text, AgentError};
use crate::message::{Content, IncomingMessage};
use crate::nexus_repo::NexusRepo;
use crate::text::{chars_of, owned, push_str};
use crate::types::{role_mode, spec_role_mode, ChannelUser, SessionKey, SessionKeyView};

verus! {

/// Where a received message goes.
#[derive(Debug)]
pub enum IncomingRoute {
    /// Nothing happens: the channel is not configured, or a command came from someone who is
    /// not an administrator of the channel.
    Ignore,
    /// An administrator's command (the message text): run it and answer on the channel.
    Command(String),
    /// A message for the session `key`: remembered under `role_event`, and handed to the
    /// session's pipeline when `run` (group and membership notices are only remembered).
    Session { key: SessionKey, role_event: String, run: bool },
}

/// Whether content is a command: a text starting with `/`.
pub open spec fn is_command_text(c: Content) -> bool {
    c matches Content::Text(t) && t@.len() > 0 && t@[0] == '/'
}

/// Whether content is a group or membership notice.
pub open spec fn is_notice(c: Content) -> bool {
    c is GroupJoin || c is GroupLeave || c is UserRemove
}

/// Routes a message received on `channel_id`: nothing for an unknown channel; a command
/// text goes to the command router when its sender administers the channel and is dropped
/// otherwise; any other message goes to the session of the channel's agent and role in the
/// channel's current mode.
pub fn route_incoming(repo: &NexusRepo, channels: &ChannelManager, channel_id: &str, msg: &IncomingMessage) -> (r: IncomingRoute)
    ensures
        !repo@.channels.dom().contains(channel_id@) ==> r is Ignore,
        repo@.channels.dom().contains(channel_id@) ==> {
            let ch = repo@.channels[channel_id@];
            let mode = channel_or_new(channels@, channel_id@).mode;
            &&& is_command_text(msg.content) && ch.admins.contains((msg.messenger_id@, msg.user_id@))
                ==> (r matches IncomingRoute::Command(t) && msg.content == Content::Text(t))
            &&& is_command_text(msg.content) && !ch.admins.contains((msg.messenger_id@, msg.user_id@)) ==> r is Ignore
            &&& !is_command_text(msg.content) ==> (r matches IncomingRoute::Session { key, role_event, run }
                && key@ == channel_session(repo@, channels@, channel_id@)
                && role_event@ == spec_role_mode(ch.role_name, mode)
                && run == !is_notice(msg.content))
        },
{
    let ch = match repo.channel(channel_id) {
        Some(c) => c,
        None => return IncomingRoute::Ignore,
    };
    match &msg.content {
        Content::Text(t) => {
            let v = chars_of(t.as_str());
            if v.len() > 0 && v[0] == '/' {
                let sender = ChannelUser { messenger_id: msg.messenger_id.clone(), user_id: msg.user_id.clone() };
                if crate::nexus_repo::users_contain(&ch.admins, &sender) {
                    return IncomingRoute::Command(t.clone());
                }
                return IncomingRoute::Ignore;
            }
        },
        _ => {},
    }
    let mode = channels.mode(channel_id);
    let role_event = role_mode(ch.role_name.as_str(), &mode);
    let run = match &msg.content {
        Content::GroupJoin => false,
        Content::GroupLeave => false,
        Content::UserRemove => false,
        _ => true,
    };
    IncomingRoute::Session {
        key: SessionKey { agent_id: ch.agent_id, role_name: ch.role_name, mode },
        role_event,
        run,
    }
}

/// The answer to a command that failed: a malformed command gets `⚠️ ` and what is wrong,
/// any other failure `❌ 命令执行失败: ` and the error's text.
pub fn command_failure_text(e: &AgentError) -> (r: String)
    ensures
        match e {
            AgentError::InvalidCommand(m) => r@ == "⚠️ "@ + m@,
            _ => r@ == "❌ 命令执行失败: "@ + error_text(*e),
        },
{
    match e {
        AgentError::InvalidCommand(m) => {
            let mut s = owned("⚠️ ");
            push_str(&mut s, m.as_str());
            s
        },
        _ => {
            let mut s = owned("❌ 命令执行失败: ");
            push_str(&mut s, e.message().as_str());
            s
        },
    }
}

} // verus!
