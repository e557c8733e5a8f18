//! The records the agent writes to its memory store and the messages it sends on channels:
//! what each one carries is fixed here, sending and storing are done around it.
use vstd::prelude::*;
use crate::agent_role::after_set;
use crate::configs::{OutChannel, OutChannelConfig};
use crate::json::Json;
use crate::message::{Content, IncomingMessageEvent};
use crate::nexus_repo::{agent_or_empty, NexusRepo, NexusRepoView};

verus! {

/// One channel record for the memory store: who spoke where, whether it was the agent
/// (`is_self` 1) or not (0), what was said and when; `role_name` holds the role as memory
/// files it (with the event in event mode).
#[derive(Debug)]
pub struct ChannelRecordRequest {
    pub agent_id: String,
    pub role_name: String,
    pub messenger_id: String,
    pub user_id: String,
    pub self_user_id: String,
    pub group_id: String,
    pub is_self: u8,
    pub messenger_name: String,
    pub user_name: String,
    pub group_name: String,
    pub content: Content,
    pub time: String,
}

/// What a channel answers about a message it delivered: the names it resolved, the content
/// as delivered and the delivery time.
#[derive(Debug)]
pub struct SentMessage {
    pub messenger_name: String,
    pub user_name: String,
    pub group_name: String,
    pub content: Content,
    pub time: String,
}

/// A message to send on a channel.
#[derive(Debug)]
pub struct OutgoingMessage {
    pub messenger_id: String,
    pub user_id: String,
    pub group_id: String,
    pub content: Content,
}

/// The record of a message received from a channel, for the session's memory: the sender's
/// identity and names, the receiving identity as `self_user_id`, not the agent's (0).
pub fn incoming_record(agent_id: &str, role_event: &str, event: &IncomingMessageEvent, content: Content) -> (r: ChannelRecordRequest)
    ensures
        r.agent_id@ == agent_id@,
        r.role_name@ == role_event@,
        r.messenger_id@ == event.incoming_message.messenger_id@,
        r.user_id@ == event.incoming_message.user_id@,
        r.self_user_id@ == event.recipient_user_id@,
        r.group_id@ == event.incoming_message.group_id@,
        r.is_self == 0,
        r.messenger_name@ == event.incoming_message.messenger_name@,
        r.user_name@ == event.incoming_message.user_name@,
        r.group_name@ == event.incoming_message.group_name@,
        r.content == content,
        r.time@ == event.incoming_message.time@,
{
    let m = &event.incoming_message;
    ChannelRecordRequest {
        agent_id: crate::text::owned(agent_id),
        role_name: crate::text::owned(role_event),
        messenger_id: m.messenger_id.clone(),
        user_id: m.user_id.clone(),
        self_user_id: event.recipient_user_id.clone(),
        group_id: m.group_id.clone(),
        is_self: 0,
        messenger_name: m.messenger_name.clone(),
        user_name: m.user_name.clone(),
        group_name: m.group_name.clone(),
        content,
        time: m.time.clone(),
    }
}

/// The record of a reply the agent sent to `out_channel` (the agent's, 1), with what the
/// channel answered about the delivery.
pub fn outgoing_record(agent_id: &str, role_event: &str, out_channel: &OutChannel, sent: SentMessage) -> (r: ChannelRecordRequest)
    ensures
        r.agent_id@ == agent_id@,
        r.role_name@ == role_event@,
        r.messenger_id@ == out_channel.user.messenger_id@,
        r.user_id@ == out_channel.user.user_id@,
        r.self_user_id@ == out_channel.user.user_id@,
        r.group_id@ == out_channel.group_id@,
        r.is_self == 1,
        r.messenger_name@ == sent.messenger_name@,
        r.user_name@ == sent.user_name@,
        r.group_name@ == sent.group_name@,
        r.content == sent.content,
        r.time@ == sent.time@,
{
    ChannelRecordRequest {
        agent_id: crate::text::owned(agent_id),
        role_name: crate::text::owned(role_event),
        messenger_id: out_channel.user.messenger_id.clone(),
        user_id: out_channel.user.user_id.clone(),
        self_user_id: out_channel.user.user_id.clone(),
        group_id: out_channel.group_id.clone(),
        is_self: 1,
        messenger_name: sent.messenger_name,
        user_name: sent.user_name,
        group_name: sent.group_name,
        content: sent.content,
        time: sent.time,
    }
}

/// The record that marks, in the reply channel's history, where a thought or tool step
/// (`content`, carrying its key) took place: the agent's, with no names.
pub fn placeholder_request(agent_id: &str, role_event: &str, content: Content, time: &str, out_channel: &OutChannel) -> (r: ChannelRecordRequest)
    ensures
        r.agent_id@ == agent_id@,
        r.role_name@ == role_event@,
        r.messenger_id@ == out_channel.user.messenger_id@,
        r.user_id@ == out_channel.user.user_id@,
        r.self_user_id@ == out_channel.user.user_id@,
        r.group_id@ == out_channel.group_id@,
        r.is_self == 1,
        r.messenger_name@.len() == 0,
        r.user_name@.len() == 0,
        r.group_name@.len() == 0,
        r.content == content,
        r.time@ == time@,
{
    ChannelRecordRequest {
        agent_id: crate::text::owned(agent_id),
        role_name: crate::text::owned(role_event),
        messenger_id: out_channel.user.messenger_id.clone(),
        user_id: out_channel.user.user_id.clone(),
        self_user_id: out_channel.user.user_id.clone(),
        group_id: out_channel.group_id.clone(),
        is_self: 1,
        messenger_name: String::new(),
        user_name: String::new(),
        group_name: String::new(),
        content,
        time: crate::text::owned(time),
    }
}

/// The reply to a command: sent back where the command came from, spoken by the identity
/// that received it.
pub fn admin_reply_message(event: &IncomingMessageEvent, text: String) -> (r: OutgoingMessage)
    ensures
        r.messenger_id@ == event.incoming_message.messenger_id@,
        r.user_id@ == event.recipient_user_id@,
        r.group_id@ == event.incoming_message.group_id@,
        r.content == Content::Text(text),
{
    OutgoingMessage {
        messenger_id: event.incoming_message.messenger_id.clone(),
        user_id: event.recipient_user_id.clone(),
        group_id: event.incoming_message.group_id.clone(),
        content: Content::Text(text),
    }
}

/// A reply of the agent to its reply channel.
pub fn outgoing_message(out_channel: &OutChannel, text: String) -> (r: OutgoingMessage)
    ensures
        r.messenger_id@ == out_channel.user.messenger_id@,
        r.user_id@ == out_channel.user.user_id@,
        r.group_id@ == out_channel.group_id@,
        r.content == Content::Text(text),
{
    OutgoingMessage {
        messenger_id: out_channel.user.messenger_id.clone(),
        user_id: out_channel.user.user_id.clone(),
        group_id: out_channel.group_id.clone(),
        content: Content::Text(text),
    }
}

/// Whether reply channel `o` can still be used in configuration `r`: its channel exists and
/// its identity is still bound to that channel.
pub open spec fn reply_channel_bound(r: NexusRepoView, o: OutChannel) -> bool {
    r.channels.dom().contains(o.channel_id@) && r.channels[o.channel_id@].bind_users.contains(o.user@)
}

/// Whether a reply channel can still be used (see [`reply_channel_bound`]; otherwise the
/// setting is stale and is cleared instead of sending).
pub fn out_channel_bound(repo: &NexusRepo, out_channel: &OutChannel) -> (r: bool)
    ensures
        r == reply_channel_bound(repo@, *out_channel),
{
    match repo.channel(out_channel.channel_id.as_str()) {
        Some(ch) => crate::nexus_repo::users_contain(&ch.bind_users, &out_channel.user),
        None => false,
    }
}

/// The reply to send after a model round, and where: the round's reply text (the response's
/// content, see [`crate::pipelines::ChannelOutputProcessor::accept`]) on the session's reply
/// channel; nothing is sent when the response had no text or the session has no reply channel.
pub fn reply_to_send(reply: Option<String>, out: &OutChannelConfig) -> (r: Option<(OutChannel, String)>)
    ensures
        match (reply, out.out_channel) {
            (Some(t), Some(o)) => r == Some((o, t)),
            _ => r is None,
        },
{
    match (reply, &out.out_channel) {
        (Some(t), Some(o)) => Some((o.duplicate(), t)),
        _ => None,
    }
}

/// The configuration after the reply channel of (`agent_id`, `role_name`) is cleared.
pub open spec fn reply_channel_cleared(r: NexusRepoView, agent_id: Seq<char>, role_name: Seq<char>) -> NexusRepoView {
    NexusRepoView {
        agents: r.agents.insert(agent_id, after_set::<OutChannelConfig>(
            agent_or_empty(r.agents, agent_id),
            role_name,
            OutChannelConfig { out_channel: None },
        )),
        ..r
    }
}

/// Decides whether a reply of (`agent_id`, `role_name`) goes out on reply channel `out`: it
/// does (`true`, nothing changes) when the channel's identity is still bound to it (see
/// [`reply_channel_bound`]); otherwise the stale setting is cleared and nothing is sent
/// (`false`).
pub fn check_reply_channel(repo: &mut NexusRepo, agent_id: &str, role_name: &str, out: &OutChannel) -> (r: bool)
    ensures
        r == reply_channel_bound(old(repo)@, *out),
        r ==> final(repo)@ == old(repo)@,
        !r ==> final(repo)@ == reply_channel_cleared(old(repo)@, agent_id@, role_name@),
{
    if out_channel_bound(repo, out) {
        true
    } else {
        repo.set_out_channel(agent_id, role_name, None);
        false
    }
}

/// A thought of the model for the memory store, under its key.
#[derive(Debug)]
pub struct ThinkRequest {
    pub agent_id: String,
    pub role_name: String,
    pub reasoning_content: Option<String>,
    pub thinking: Option<String>,
    pub key: String,
    pub time: String,
}

/// A tool call for the memory store, under its key.
#[derive(Debug)]
pub struct ToolCallRequest {
    pub agent_id: String,
    pub role_name: String,
    pub tool_name: String,
    pub tool_params: Json,
    pub key: String,
    pub time: String,
}

/// A tool's result for the memory store, under its key.
#[derive(Debug)]
pub struct ToolResultRequest {
    pub agent_id: String,
    pub role_name: String,
    pub tool_result: Json,
    pub tool_error: Json,
    pub key: String,
    pub time: String,
}

/// A batch of channel records; the store writes it at once (`force` 1).
#[derive(Debug)]
pub struct ChannelRequests {
    pub requests: Vec<ChannelRecordRequest>,
    pub force: u8,
}

/// A batch of thoughts (`force` 1: written at once).
#[derive(Debug)]
pub struct ThinkRequests {
    pub requests: Vec<ThinkRequest>,
    pub force: u8,
}

/// A batch of tool calls (`force` 1: written at once).
#[derive(Debug)]
pub struct ToolCallRequests {
    pub requests: Vec<ToolCallRequest>,
    pub force: u8,
}

/// A batch of tool results (`force` 1: written at once).
#[derive(Debug)]
pub struct ToolResultRequests {
    pub requests: Vec<ToolResultRequest>,
    pub force: u8,
}

/// The batch of channel records to send, written at once.
pub fn channel_requests(records: Vec<ChannelRecordRequest>) -> (r: ChannelRequests)
    ensures
        r.requests == records,
        r.force == 1,
{
    ChannelRequests { requests: records, force: 1 }
}

/// The batch of thoughts to send, written at once.
pub fn think_requests(records: Vec<ThinkRequest>) -> (r: ThinkRequests)
    ensures
        r.requests == records,
        r.force == 1,
{
    ThinkRequests { requests: records, force: 1 }
}

/// The batch of tool calls to send, written at once.
pub fn tool_call_requests(records: Vec<ToolCallRequest>) -> (r: ToolCallRequests)
    ensures
        r.requests == records,
        r.force == 1,
{
    ToolCallRequests { requests: records, force: 1 }
}

/// The batch of tool results to send, written at once.
pub fn tool_result_requests(records: Vec<ToolResultRequest>) -> (r: ToolResultRequests)
    ensures
        r.requests == records,
        r.force == 1,
{
    ToolResultRequests { requests: records, force: 1 }
}

} // verus!
