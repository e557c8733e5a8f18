//! Administrator commands sent as channel messages: the grammar of `/command args...`.
use vstd::prelude::*;
use crate::error::AgentError;
use crate::text::{owned, push_str, split_words, str_eq, strs_view, trim, trim_str, words};

verus! {

/// The agent id used when none is given.
pub const RESERVED_AGENT_ID: &'static str = "0";

/// A parsed administrator command.
#[derive(Debug)]
pub enum Command {
    /// `/bind messenger <messenger_id> <user_id>`
    Bind { messenger_id: String, user_id: String },
    /// `/unbind messenger <messenger_id> <user_id>`
    Unbind { messenger_id: String, user_id: String },
    /// `/admin <messenger_id> <user_id>`
    Admin { messenger_id: String, user_id: String },
    /// `/unadmin <messenger_id> <user_id>`
    Unadmin { messenger_id: String, user_id: String },
    /// `/agent [agent_id] [role]` (missing or empty agent id: the reserved agent; missing role: the empty role)
    Agent { agent_id: String, role: String },
    /// `/role [name]` (missing: the empty role)
    Role { role: String },
    /// `/mode event [event-id]` (missing: a fresh event id is generated)
    ModeEvent { event_id: Option<String> },
    /// `/mode role`
    ModeRole,
    /// `/reenter <event-id>`
    Reenter { event_id: String },
    /// `/bind-outgoing <messenger_id> <user_id> <group_id>`
    BindOutgoing { messenger_id: String, user_id: String, group_id: String },
    /// `/unbind-outgoing`
    UnbindOutgoing,
    /// `/model <provider> <model> [true|false]`
    Model { provider: String, model: String, set_default: bool },
}

/// Mathematical model of [`Command`].
pub ghost enum CommandView {
    Bind(Seq<char>, Seq<char>),
    Unbind(Seq<char>, Seq<char>),
    Admin(Seq<char>, Seq<char>),
    Unadmin(Seq<char>, Seq<char>),
    Agent(Seq<char>, Seq<char>),
    Role(Seq<char>),
    ModeEvent(Option<Seq<char>>),
    ModeRole,
    Reenter(Seq<char>),
    BindOutgoing(Seq<char>, Seq<char>, Seq<char>),
    UnbindOutgoing,
    Model(Seq<char>, Seq<char>, bool),
}

impl View for Command {
    type V = CommandView;

    open spec fn view(&self) -> CommandView {
        match self {
            Command::Bind { messenger_id, user_id } => CommandView::Bind(messenger_id@, user_id@),
            Command::Unbind { messenger_id, user_id } => CommandView::Unbind(messenger_id@, user_id@),
            Command::Admin { messenger_id, user_id } => CommandView::Admin(messenger_id@, user_id@),
            Command::Unadmin { messenger_id, user_id } => CommandView::Unadmin(messenger_id@, user_id@),
            Command::Agent { agent_id, role } => CommandView::Agent(agent_id@, role@),
            Command::Role { role } => CommandView::Role(role@),
            Command::ModeEvent { event_id } => CommandView::ModeEvent(
                match event_id {
                    Some(e) => Some(e@),
                    None => None,
                },
            ),
            Command::ModeRole => CommandView::ModeRole,
            Command::Reenter { event_id } => CommandView::Reenter(event_id@),
            Command::BindOutgoing { messenger_id, user_id, group_id } => CommandView::BindOutgoing(
                messenger_id@,
                user_id@,
                group_id@,
            ),
            Command::UnbindOutgoing => CommandView::UnbindOutgoing,
            Command::Model { provider, model, set_default } => CommandView::Model(provider@, model@, *set_default),
        }
    }
}

/// The command named by the words `p` (`p[0]` is the command name), or the message of the
/// format error.
pub open spec fn spec_command(p: Seq<Seq<char>>) -> Result<CommandView, Seq<char>>
    recommends
        p.len() > 0,
{
    let name = p[0];
    if name == "bind"@ {
        if p.len() < 4 || p[1] != "messenger"@ {
            Err("格式: /bind messenger <messenger_id> <user_id>"@)
        } else {
            Ok(CommandView::Bind(p[2], p[3]))
        }
    } else if name == "unbind"@ {
        if p.len() < 4 || p[1] != "messenger"@ {
            Err("格式: /unbind messenger <messenger_id> <user_id>"@)
        } else {
            Ok(CommandView::Unbind(p[2], p[3]))
        }
    } else if name == "admin"@ {
        if p.len() < 3 {
            Err("格式: /admin <messenger_id> <user_id>"@)
        } else {
            Ok(CommandView::Admin(p[1], p[2]))
        }
    } else if name == "unadmin"@ {
        if p.len() < 3 {
            Err("格式: /unadmin <messenger_id> <user_id>"@)
        } else {
            Ok(CommandView::Unadmin(p[1], p[2]))
        }
    } else if name == "agent"@ {
        Ok(CommandView::Agent(
            if p.len() > 1 && p[1].len() > 0 { p[1] } else { RESERVED_AGENT_ID@ },
            if p.len() > 2 { p[2] } else { Seq::empty() },
        ))
    } else if name == "role"@ {
        Ok(CommandView::Role(if p.len() > 1 { p[1] } else { Seq::empty() }))
    } else if name == "mode"@ {
        if p.len() < 2 {
            Err("格式: /mode event [event-id] 或 /mode role"@)
        } else if p[1] == "event"@ {
            Ok(CommandView::ModeEvent(if p.len() > 2 { Some(p[2]) } else { None }))
        } else if p[1] == "role"@ {
            Ok(CommandView::ModeRole)
        } else {
            Err("未知模式: "@ + p[1])
        }
    } else if name == "reenter"@ {
        if p.len() < 2 {
            Err("格式: /reenter <event-id>"@)
        } else {
            Ok(CommandView::Reenter(p[1]))
        }
    } else if name == "bind-outgoing"@ {
        if p.len() < 4 {
            Err("格式: /bind-outgoing <messenger_id> <user_id> <group_id>"@)
        } else {
            Ok(CommandView::BindOutgoing(p[1], p[2], p[3]))
        }
    } else if name == "unbind-outgoing"@ {
        if p.len() > 1 {
            Err("格式: /unbind-outgoing（无参数）"@)
        } else {
            Ok(CommandView::UnbindOutgoing)
        }
    } else if name == "model"@ {
        if p.len() < 3 || p.len() > 4 {
            Err("格式: /model <provider> <model> [true|false]"@)
        } else if p.len() == 4 && p[3] != "true"@ && p[3] != "false"@ {
            Err("格式: /model <provider> <model> [true|false]"@)
        } else {
            Ok(CommandView::Model(p[1], p[2], p.len() == 4 && p[3] == "true"@))
        }
    } else {
        Err("未知命令: "@ + name)
    }
}

/// What a message text parses to: a command, or the message of the format error. The text
/// is trimmed; it must start with `/`; the rest splits into white-space separated words.
pub open spec fn spec_parse(content: Seq<char>) -> Result<CommandView, Seq<char>> {
    let t = trim(content);
    if t.len() == 0 || t[0] != '/' {
        Err("命令必须以 / 开头"@)
    } else {
        let p = words(t.drop_first());
        if p.len() == 0 {
            Err("空命令"@)
        } else {
            spec_command(p)
        }
    }
}

/// An invalid-command error with the message `msg`.
fn invalid(msg: &str) -> (r: AgentError)
    ensures
        r matches AgentError::InvalidCommand(m) && m@ == msg@,
{
    AgentError::InvalidCommand(owned(msg))
}

/// An invalid-command error with the message `prefix` followed by `detail`.
fn invalid_with(prefix: &str, detail: &str) -> (r: AgentError)
    ensures
        r matches AgentError::InvalidCommand(m) && m@ == prefix@ + detail@,
{
    let mut m = owned(prefix);
    push_str(&mut m, detail);
    AgentError::InvalidCommand(m)
}

/// Parses an administrator command (see [`spec_parse`]); every failure is an invalid-command error.
pub fn parse_command(content: &str) -> (r: Result<Command, AgentError>)
    ensures
        match spec_parse(content@) {
            Ok(c) => r matches Ok(cmd) && cmd@ == c,
            Err(m) => r matches Err(AgentError::InvalidCommand(e)) && e@ == m,
        },
{
    let t = trim_str(content);
    let tv = crate::text::chars_of(t.as_str());
    if tv.len() == 0 || tv[0] != '/' {
        return Err(invalid("命令必须以 / 开头"));
    }
    let rest = crate::text::string_from_chars(&tv, 1, tv.len());
    assert(rest@ =~= t@.drop_first());
    let parts = split_words(rest.as_str());
    if parts.len() == 0 {
        return Err(invalid("空命令"));
    }
    let ghost p = strs_view(parts@);
    assert(forall|i: int| 0 <= i < parts@.len() ==> #[trigger] p[i] == parts@[i]@);
    command_of(&parts)
}

/// The command named by `parts` (see [`spec_command`]).
#[verifier::rlimit(40)]
fn command_of(parts: &Vec<String>) -> (r: Result<Command, AgentError>)
    requires
        parts@.len() > 0,
    ensures
        match spec_command(strs_view(parts@)) {
            Ok(c) => r matches Ok(cmd) && cmd@ == c,
            Err(m) => r matches Err(AgentError::InvalidCommand(e)) && e@ == m,
        },
{
    let ghost p = strs_view(parts@);
    assert(forall|i: int| 0 <= i < parts@.len() ==> #[trigger] p[i] == parts@[i]@);
    let n = parts.len();
    let name = parts[0].as_str();
    if str_eq(name, "bind") {
        if n < 4 || !str_eq(parts[1].as_str(), "messenger") {
            Err(invalid("格式: /bind messenger <messenger_id> <user_id>"))
        } else {
            Ok(Command::Bind { messenger_id: parts[2].clone(), user_id: parts[3].clone() })
        }
    } else if str_eq(name, "unbind") {
        if n < 4 || !str_eq(parts[1].as_str(), "messenger") {
            Err(invalid("格式: /unbind messenger <messenger_id> <user_id>"))
        } else {
            Ok(Command::Unbind { messenger_id: parts[2].clone(), user_id: parts[3].clone() })
        }
    } else if str_eq(name, "admin") {
        if n < 3 {
            Err(invalid("格式: /admin <messenger_id> <user_id>"))
        } else {
            Ok(Command::Admin { messenger_id: parts[1].clone(), user_id: parts[2].clone() })
        }
    } else if str_eq(name, "unadmin") {
        if n < 3 {
            Err(invalid("格式: /unadmin <messenger_id> <user_id>"))
        } else {
            Ok(Command::Unadmin { messenger_id: parts[1].clone(), user_id: parts[2].clone() })
        }
    } else if str_eq(name, "agent") {
        let agent_id = if n > 1 && !crate::text::is_empty_str(parts[1].as_str()) {
            parts[1].clone()
        } else {
            owned(RESERVED_AGENT_ID)
        };
        let role = if n > 2 { parts[2].clone() } else { String::new() };
        Ok(Command::Agent { agent_id, role })
    } else if str_eq(name, "role") {
        let role = if n > 1 { parts[1].clone() } else { String::new() };
        Ok(Command::Role { role })
    } else if str_eq(name, "mode") {
        if n < 2 {
            Err(invalid("格式: /mode event [event-id] 或 /mode role"))
        } else if str_eq(parts[1].as_str(), "event") {
            let event_id = if n > 2 { Some(parts[2].clone()) } else { None };
            Ok(Command::ModeEvent { event_id })
        } else if str_eq(parts[1].as_str(), "role") {
            Ok(Command::ModeRole)
        } else {
            Err(invalid_with("未知模式: ", parts[1].as_str()))
        }
    } else if str_eq(name, "reenter") {
        if n < 2 {
            Err(invalid("格式: /reenter <event-id>"))
        } else {
            Ok(Command::Reenter { event_id: parts[1].clone() })
        }
    } else if str_eq(name, "bind-outgoing") {
        if n < 4 {
            Err(invalid("格式: /bind-outgoing <messenger_id> <user_id> <group_id>"))
        } else {
            Ok(Command::BindOutgoing {
                messenger_id: parts[1].clone(),
                user_id: parts[2].clone(),
                group_id: parts[3].clone(),
            })
        }
    } else if str_eq(name, "unbind-outgoing") {
        if n > 1 {
            Err(invalid("格式: /unbind-outgoing（无参数）"))
        } else {
            Ok(Command::UnbindOutgoing)
        }
    } else if str_eq(name, "model") {
        if n < 3 || n > 4 {
            Err(invalid("格式: /model <provider> <model> [true|false]"))
        } else if n == 4 && !str_eq(parts[3].as_str(), "true") && !str_eq(parts[3].as_str(), "false") {
            Err(invalid("格式: /model <provider> <model> [true|false]"))
        } else {
            let set_default = n == 4 && str_eq(parts[3].as_str(), "true");
            Ok(Command::Model { provider: parts[1].clone(), model: parts[2].clone(), set_default })
        }
    } else {
        Err(invalid_with("未知命令: ", name))
    }
}

} // verus!
