//! The management API's rules: who may call it, what each request does to the configuration,
//! and what is answered. Decoding requests and writing replies belong to the server around it.
use vstd::prelude::*;
use crate::error::AgentError;
use crate::nexus_repo::{ChannelConfig, NexusRepo, NexusRepoView, ProviderModelConfig};
use crate::text::str_eq;
use crate::types::ChannelUser;

verus! {

/// A management request, decoded.
pub enum ManagementRequest {
    /// The whole configuration.
    GetConfig,
    /// Adds provider `name`.
    AddProvider { name: String, config: ProviderModelConfig },
    /// Removes provider `name`.
    RemoveProvider { name: String },
    /// Adds (or replaces) a channel.
    AddChannel { channel: ChannelConfig },
    /// Removes a channel.
    RemoveChannel { channel_id: String },
    /// Makes `user` an administrator of a channel.
    AddAdmin { channel_id: String, user: ChannelUser },
    /// Withdraws `user`'s administration of a channel.
    RemoveAdmin { channel_id: String, user: ChannelUser },
}

/// What a management request is answered.
#[derive(Debug)]
pub enum ManagementReply {
    /// The caller did not present the administrator key.
    Unauthorized,
    /// The configuration, to be written out whole.
    Config,
    /// The change was made (and is to be saved).
    Done,
    /// The change was refused; nothing changed.
    Failed(AgentError),
}

/// Whether the presented key is the administrator key (a request without one is refused).
pub fn api_key_matches(presented: Option<&str>, expected: &str) -> (r: bool)
    ensures
        r == match presented { Some(k) => k@ == expected@, None => false },
{
    match presented {
        Some(k) => str_eq(k, expected),
        None => false,
    }
}

/// The HTTP status of a reply: 401 for an unauthorized caller, 200 otherwise (a refused
/// change is reported in the body).
pub fn reply_status(r: &ManagementReply) -> (s: u16)
    ensures
        s == if *r is Unauthorized { 401u16 } else { 200u16 },
{
    match r {
        ManagementReply::Unauthorized => 401,
        _ => 200,
    }
}

/// Whether a reply calls for saving the configuration: only after a change was made.
pub fn should_persist(r: &ManagementReply) -> (b: bool)
    ensures
        b == (*r is Done),
{
    match r {
        ManagementReply::Done => true,
        _ => false,
    }
}

/// Whether request `q` changes nothing when applied to `r` (it is refused there).
pub open spec fn refused(r: NexusRepoView, q: ManagementRequest) -> bool {
    match q {
        ManagementRequest::GetConfig => false,
        ManagementRequest::AddProvider { name, config } => r.providers.dom().contains(name@),
        ManagementRequest::RemoveProvider { name } => !r.providers.dom().contains(name@),
        ManagementRequest::AddChannel { channel } => false,
        ManagementRequest::RemoveChannel { channel_id } => false,
        ManagementRequest::AddAdmin { channel_id, user } => !r.channels.dom().contains(channel_id@),
        ManagementRequest::RemoveAdmin { channel_id, user } => !r.channels.dom().contains(channel_id@),
    }
}

/// The configuration after request `q` was granted on `r`.
pub open spec fn granted(r: NexusRepoView, q: ManagementRequest) -> NexusRepoView {
    match q {
        ManagementRequest::GetConfig => r,
        ManagementRequest::AddProvider { name, config } => NexusRepoView { providers: r.providers.insert(name@, config@), ..r },
        ManagementRequest::RemoveProvider { name } => NexusRepoView { providers: r.providers.remove(name@), ..r },
        ManagementRequest::AddChannel { channel } => NexusRepoView { channels: r.channels.insert(channel.channel_id@, channel@), ..r },
        ManagementRequest::RemoveChannel { channel_id } => NexusRepoView { channels: r.channels.remove(channel_id@), ..r },
        ManagementRequest::AddAdmin { channel_id, user } => NexusRepoView {
            channels: r.channels.insert(channel_id@, crate::nexus_repo::ChannelConfigView {
                admins: r.channels[channel_id@].admins.insert(user@),
                ..r.channels[channel_id@]
            }),
            ..r
        },
        ManagementRequest::RemoveAdmin { channel_id, user } => NexusRepoView {
            channels: r.channels.insert(channel_id@, crate::nexus_repo::ChannelConfigView {
                admins: r.channels[channel_id@].admins.remove(user@),
                ..r.channels[channel_id@]
            }),
            ..r
        },
    }
}

/// Handles a decoded request: an unauthorized caller changes nothing; reading the
/// configuration changes nothing; a change is made when it can be (see [`granted`]) and
/// answered `Done`, or refused with its error, changing nothing (see [`refused`]).
pub fn handle_management(repo: &mut NexusRepo, authorized: bool, req: ManagementRequest) -> (r: ManagementReply)
    ensures
        !authorized ==> r is Unauthorized && final(repo)@ == old(repo)@,
        authorized && req is GetConfig ==> r is Config && final(repo)@ == old(repo)@,
        authorized && !(req is GetConfig) && !refused(old(repo)@, req) ==> r is Done && final(repo)@ == granted(old(repo)@, req),
        authorized && refused(old(repo)@, req) ==> r is Failed && final(repo)@ == old(repo)@,
{
    if !authorized {
        return ManagementReply::Unauthorized;
    }
    let ghost q = req;
    let res = match req {
        ManagementRequest::GetConfig => return ManagementReply::Config,
        ManagementRequest::AddProvider { name, config } => repo.add_provider(name.as_str(), config),
        ManagementRequest::RemoveProvider { name } => repo.remove_provider(name.as_str()),
        ManagementRequest::AddChannel { channel } => {
            repo.add_channel(channel);
            Ok(())
        },
        ManagementRequest::RemoveChannel { channel_id } => {
            repo.remove_channel(channel_id.as_str());
            Ok(())
        },
        ManagementRequest::AddAdmin { channel_id, user } => repo.add_admin(channel_id.as_str(), &user),
        ManagementRequest::RemoveAdmin { channel_id, user } => repo.remove_admin(
            channel_id.as_str(),
            user.messenger_id.as_str(),
            user.user_id.as_str(),
        ),
    };
    match res {
        Ok(()) => ManagementReply::Done,
        Err(e) => ManagementReply::Failed(e),
    }
}

} // verus!
