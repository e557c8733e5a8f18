use kissbot_agent::pipelines::{MemoryEgoSystemPrompter, DEFAULT_SYSTEM_PROMPT};
use kissbot_agent::ego::{
    agent_identities, agent_lookup_needed, agent_lookup_outcome, build_ego_identity_md, build_ego_individual_recognition_md,
    build_role_play_md, ego_lookups, matched_individual_names, role_lookup_needed, role_lookup_outcome,
    load_ego_info, system_prompt_for_agent, AgentMetadata, Individual, IndividualRecognition, KnownRole, Relation, RolePlay, SelfRole,
};
use kissbot_agent::error::AgentError;
use kissbot_agent::nexus_repo::{ChannelConfig, NexusRepo};
use kissbot_agent::types::ChannelUser;

fn user(m: &str, u: &str) -> ChannelUser {
    ChannelUser { messenger_id: m.into(), user_id: u.into() }
}

fn rel(r: &str, d: &str) -> Relation {
    Relation { relation: r.into(), description: d.into() }
}

fn individuals() -> IndividualRecognition {
    IndividualRecognition {
        individual_map: vec![
            (
                "alice".into(),
                Individual {
                    identifiers: vec![user("web", "u1"), user("qq", "9")],
                    relation: rel("owner", "runs the agent"),
                    other_relations: vec![("bob".into(), rel("friend", "old friend"))],
                },
            ),
            (
                "carol".into(),
                Individual { identifiers: vec![user("web", "u7")], relation: rel("guest", "visitor"), other_relations: vec![] },
            ),
        ],
    }
}

fn role_play() -> RolePlay {
    RolePlay {
        role: SelfRole { role_name: "host".into(), description: "hosts the show".into() },
        other_roles: vec![
            (
                "critic".into(),
                KnownRole {
                    individual_name: "alice".into(),
                    description: "writes critiques".into(),
                    role_relation: rel("rival", "friendly rival"),
                    other_role_relations: vec![("fan".into(), rel("ally", "shares views"))],
                },
            ),
            (
                "fan".into(),
                KnownRole {
                    individual_name: "carol".into(),
                    description: "cheers".into(),
                    role_relation: rel("audience", "watches"),
                    other_role_relations: vec![],
                },
            ),
        ],
    }
}

#[test]
fn identity_md_lists_name_and_description() {
    let md = build_ego_identity_md(&AgentMetadata { agent_id: "a1".into(), description: "helper".into() });
    assert_eq!(md, "# Agent Identity\n\n- **Name**\n a1\n- **Description**\n helper\n");
}

#[test]
fn individual_recognition_md_filters_identities() {
    let ids = vec![user("web", "u1")];
    let md = build_ego_individual_recognition_md(&individuals(), Some(&ids));
    assert_eq!(
        md,
        "# Individual Recognition\n\n## alice\n\n- **Relation with Agent**: owner - runs the agent\n### Associated Identifiers\n- web u1\n### Relations with Others\n#### bob\n- **Relation**: friend\n- **Description**: old friend\n\n\n"
    );
    let all = build_ego_individual_recognition_md(&individuals(), None);
    assert!(all.contains("- qq 9\n"));
    assert!(all.contains("## carol\n"));
}

#[test]
fn role_play_md_shows_roles_of_named_individuals() {
    let names = vec!["carol".to_string()];
    let md = build_role_play_md(&role_play(), Some(&names));
    assert_eq!(
        md,
        "# Role Play\n\n- **Self Role**: host\n\n- **Self Description**: hosts the show\n## Known role: fan\n\n- **Belong to**: carol\n- **Description**: cheers\n- **Relation with host**: audience\n- **Relation with host Description**: watches\n### fan's relation with Others\n"
    );
    let all = build_role_play_md(&role_play(), None);
    assert!(all.contains("## Known role: critic\n\n"));
    assert!(all.contains("#### With fan\n\n- **Relation**: ally\n- **Relation Description**: shares views\n"));
}

#[test]
fn matched_names_follow_agent_identities() {
    let ids = vec![user("qq", "9")];
    assert_eq!(matched_individual_names(&individuals(), &ids), vec!["alice".to_string()]);
    assert!(matched_individual_names(&individuals(), &vec![user("x", "y")]).is_empty());
}

#[test]
fn agent_identities_collect_bound_users() {
    let mut repo = NexusRepo::new();
    let ch = |id: &str, users: Vec<ChannelUser>| ChannelConfig {
        channel_id: id.into(),
        ws_url: "ws://h".into(),
        admins: vec![],
        bind_users: users,
        agent_id: "a1".into(),
        role_name: "".into(),
        enabled: true,
    };
    repo.add_channel(ch("c1", vec![user("web", "u1")]));
    repo.add_channel(ch("c2", vec![user("qq", "9"), user("web", "u1")]));
    let ids = agent_identities(&repo);
    assert!(ids.contains(&user("web", "u1")));
    assert!(ids.contains(&user("qq", "9")));
    assert!(!ids.contains(&user("x", "y")));
}

#[test]
fn system_prompt_joins_found_sections() {
    let meta = AgentMetadata { agent_id: "a1".into(), description: "helper".into() };
    assert!(system_prompt_for_agent("0", "r", Some(&meta), None, None).is_none());
    assert_eq!(system_prompt_for_agent("a1", "r", None, None, None).as_deref(), Some("你是 kissbot 智能助手"));
    assert_eq!(system_prompt_for_agent("a1", "", None, None, Some(&role_play())).as_deref(), Some("你是 kissbot 智能助手"));
    let p = system_prompt_for_agent("a1", "", Some(&meta), None, Some(&role_play())).unwrap();
    assert_eq!(p, build_ego_identity_md(&meta), "no role is named, so no role section");
    let p = system_prompt_for_agent("a1", "host", Some(&meta), None, Some(&role_play())).unwrap();
    assert_eq!(p, format!("{}\n{}", build_ego_identity_md(&meta), build_role_play_md(&role_play(), None)));
    assert_eq!(ego_lookups("0", "host"), (false, false));
    assert_eq!(ego_lookups("a1", ""), (true, false));
    assert_eq!(ego_lookups("a1", "host"), (true, true));
}

#[test]
fn nexus_verify_agent_exists_reserved_or_empty_passes() {
    assert!(!agent_lookup_needed("0"));
    assert!(!agent_lookup_needed(""));
    assert!(agent_lookup_needed("a1"));
}

#[test]
fn coordinator_verify_agent_exists_reserved_or_empty_passes() {
    assert!(!agent_lookup_needed("0"));
    assert!(!agent_lookup_needed(""));
    assert!(agent_lookup_outcome("a1", true).is_ok());
    match agent_lookup_outcome("a9", false) {
        Err(AgentError::MemoryEgoError(m)) => assert_eq!(m, "agent 不存在: a9"),
        _ => panic!("a missing agent is refused"),
    }
}

#[test]
fn verify_role_exists_empty_passes() {
    assert!(!role_lookup_needed(""));
    assert!(role_lookup_needed("host"));
    assert!(role_lookup_outcome("host", true).is_ok());
    assert!(matches!(role_lookup_outcome("x", false), Err(AgentError::MemoryEgoError(m)) if m == "role 不存在: x"));
}

#[test]
fn memory_prompter_falls_back_by_agent() {
    let nothing_found = system_prompt_for_agent("a1", "host", None, None, None);
    assert_eq!(MemoryEgoSystemPrompter::system_prompt(nothing_found), "你是 kissbot 智能助手");
    let reserved = system_prompt_for_agent("0", "host", None, None, None);
    assert_eq!(MemoryEgoSystemPrompter::system_prompt(reserved), DEFAULT_SYSTEM_PROMPT);
}

#[test]
fn load_ego_info_shows_what_the_agent_channels_identify() {
    let meta = AgentMetadata { agent_id: "a1".into(), description: "helper".into() };
    let ids = vec![user("web", "u7")];
    let p = load_ego_info("host", Some(&meta), Some(&individuals()), Some(&role_play()), &ids);
    let names = vec!["carol".to_string()];
    assert_eq!(
        p,
        format!(
            "{}\n{}\n{}",
            build_ego_identity_md(&meta),
            build_ego_individual_recognition_md(&individuals(), Some(&ids)),
            build_role_play_md(&role_play(), Some(&names))
        )
    );
    assert!(!p.contains("## alice"), "alice has none of the agent's identities");
    assert!(!p.contains("Known role: critic"), "alice's role is not shown");
    // without a role name the role section is left out
    let p = load_ego_info("", None, None, Some(&role_play()), &ids);
    assert_eq!(p, "你是 kissbot 智能助手");
    // nothing found: the no-memory prompt, whatever the agent
    assert_eq!(load_ego_info("host", None, None, None, &vec![]), "你是 kissbot 智能助手");
}
