use role_menu::config::RoleMenuConfig;
use role_menu::reaction::{advance, begin, Emoji, Outcome, Phase, ReactionEvent, Reply, Step};
use role_menu::roles::{resolve_role, Member, Role};

const MENU: &str = "Please pick your role — votre rôle menu below";

fn role(id: u64, name: &str) -> Role {
    Role { id, name: name.to_string() }
}

fn scenario_roles() -> Vec<Role> {
    vec![role(1, "baaaaaaaa"), role(2, "boooo")]
}

fn custom(name: &str) -> Emoji {
    Emoji::Custom { id: 77, name: Some(name.to_string()) }
}

fn member(roles: Vec<u64>) -> Member {
    Member { guild_id: 10, user_id: 20, roles }
}

fn added(emoji: Emoji, m: Option<Member>) -> ReactionEvent {
    ReactionEvent::Added { message_id: 5, channel_id: 6, emoji, member: m }
}

fn removed(emoji: Emoji) -> ReactionEvent {
    ReactionEvent::Removed {
        message_id: 5,
        channel_id: 6,
        emoji,
        guild_id: Some(10),
        user_id: Some(20),
    }
}

/// Drives the handler against a platform whose message reads `content` and whose guild
/// has `roles`; applies role changes to `m`. Returns every step taken.
fn drive(config: &RoleMenuConfig, event: &ReactionEvent, content: &str, roles: &[Role], m: &mut Member) -> Vec<Step> {
    let (mut phase, mut step) = begin(event);
    let mut steps = vec![step];
    loop {
        let reply = match step {
            Step::FetchMessage { .. } => Reply::Message { content: content.to_string() },
            Step::FetchGuildRoles { .. } => Reply::GuildRoles {
                roles: roles.iter().map(|r| Role { id: r.id, name: r.name.clone() }).collect(),
            },
            Step::FetchMember { .. } => Reply::MemberFound,
            Step::Grant { role_id, .. } => {
                m.grant(role_id);
                Reply::Mutated
            }
            Step::Revoke { role_id, .. } => {
                m.revoke(role_id);
                Reply::Mutated
            }
            Step::Finish { .. } => return steps,
        };
        let (p, s) = advance(config, event, phase, &reply);
        phase = p;
        step = s;
        steps.push(step);
    }
}

fn mutation_count(steps: &[Step]) -> usize {
    steps.iter().filter(|s| matches!(s, Step::Grant { .. } | Step::Revoke { .. })).count()
}

#[test]
fn menu_scenario_grants_then_revokes_second_role() {
    let config = RoleMenuConfig::standard();
    let mut m = member(vec![]);
    let steps = drive(&config, &added(custom("boooo"), Some(member(vec![]))), MENU, &scenario_roles(), &mut m);
    assert_eq!(
        steps,
        vec![
            Step::FetchMessage { message_id: 5 },
            Step::FetchGuildRoles { channel_id: 6 },
            Step::Grant { guild_id: 10, user_id: 20, role_id: 2 },
            Step::Finish { outcome: Outcome::Applied },
        ]
    );
    assert_eq!(m.roles, vec![2]);
    let steps = drive(&config, &removed(custom("boooo")), MENU, &scenario_roles(), &mut m);
    assert_eq!(
        steps,
        vec![
            Step::FetchMessage { message_id: 5 },
            Step::FetchGuildRoles { channel_id: 6 },
            Step::FetchMember { guild_id: 10, user_id: 20 },
            Step::Revoke { guild_id: 10, user_id: 20, role_id: 2 },
            Step::Finish { outcome: Outcome::Applied },
        ]
    );
    assert!(m.roles.is_empty());
}

#[test]
fn unmarked_message_is_ignored() {
    let config = RoleMenuConfig::standard();
    let mut m = member(vec![]);
    for event in [added(custom("boooo"), Some(member(vec![]))), removed(custom("boooo"))] {
        let steps = drive(&config, &event, "just chatting", &scenario_roles(), &mut m);
        assert_eq!(mutation_count(&steps), 0);
        assert_eq!(steps.last(), Some(&Step::Finish { outcome: Outcome::Ignored }));
    }
    assert!(m.roles.is_empty());
}

#[test]
fn trigger_match_is_case_sensitive() {
    let config = RoleMenuConfig::standard();
    let mut m = member(vec![]);
    let steps = drive(&config, &added(custom("boooo"), Some(member(vec![]))), "VOTRE RÔLE", &scenario_roles(), &mut m);
    assert_eq!(steps.last(), Some(&Step::Finish { outcome: Outcome::Ignored }));
}

#[test]
fn builtin_emoji_is_ignored() {
    let config = RoleMenuConfig::standard();
    let mut m = member(vec![]);
    let steps = drive(&config, &added(Emoji::Builtin, Some(member(vec![]))), MENU, &scenario_roles(), &mut m);
    assert_eq!(mutation_count(&steps), 0);
    assert_eq!(steps.len(), 2);
    assert_eq!(steps[1], Step::Finish { outcome: Outcome::Ignored });
}

#[test]
fn custom_emoji_without_name_is_ignored() {
    let config = RoleMenuConfig::standard();
    let mut m = member(vec![]);
    for emoji in [Emoji::Custom { id: 1, name: None }, Emoji::Custom { id: 1, name: Some(String::new()) }] {
        let steps = drive(&config, &added(emoji, Some(member(vec![]))), MENU, &scenario_roles(), &mut m);
        assert_eq!(steps.last(), Some(&Step::Finish { outcome: Outcome::Ignored }));
    }
}

#[test]
fn unknown_role_name_changes_nothing() {
    let config = RoleMenuConfig::standard();
    let mut m = member(vec![]);
    let steps = drive(&config, &added(custom("Boooo"), Some(member(vec![]))), MENU, &scenario_roles(), &mut m);
    assert_eq!(mutation_count(&steps), 0);
    assert_eq!(steps.last(), Some(&Step::Finish { outcome: Outcome::NoMatch }));
    let steps = drive(&config, &removed(custom("zzz")), MENU, &scenario_roles(), &mut m);
    assert_eq!(mutation_count(&steps), 0);
    assert_eq!(steps.last(), Some(&Step::Finish { outcome: Outcome::NoMatch }));
}

#[test]
fn added_reaction_without_member_reports_no_member() {
    let config = RoleMenuConfig::standard();
    let mut m = member(vec![]);
    let steps = drive(&config, &added(custom("boooo"), None), MENU, &scenario_roles(), &mut m);
    assert_eq!(mutation_count(&steps), 0);
    assert_eq!(steps.last(), Some(&Step::Finish { outcome: Outcome::NoMember }));
}

#[test]
fn removed_reaction_without_ids_is_ignored() {
    let config = RoleMenuConfig::standard();
    let event = ReactionEvent::Removed { message_id: 5, channel_id: 6, emoji: custom("boooo"), guild_id: None, user_id: Some(20) };
    let mut m = member(vec![2]);
    let steps = drive(&config, &event, MENU, &scenario_roles(), &mut m);
    assert_eq!(steps.last(), Some(&Step::Finish { outcome: Outcome::Ignored }));
    assert_eq!(m.roles, vec![2]);
}

#[test]
fn first_role_with_the_name_wins() {
    let config = RoleMenuConfig::standard();
    let roles = vec![role(7, "x"), role(3, "boooo"), role(4, "boooo")];
    let mut m = member(vec![]);
    let steps = drive(&config, &added(custom("boooo"), Some(member(vec![]))), MENU, &roles, &mut m);
    assert_eq!(steps[2], Step::Grant { guild_id: 10, user_id: 20, role_id: 3 });
    assert_eq!(mutation_count(&steps), 1);
}

#[test]
fn platform_answers_end_the_handling() {
    let config = RoleMenuConfig::standard();
    let event = added(custom("boooo"), Some(member(vec![])));
    let (p, _) = begin(&event);
    assert_eq!(p, Phase::AwaitMessage);
    assert_eq!(advance(&config, &event, p, &Reply::Failed).1, Step::Finish { outcome: Outcome::Failed });
    assert_eq!(advance(&config, &event, p, &Reply::Mutated).1, Step::Finish { outcome: Outcome::OutOfOrder });
    let msg = Reply::Message { content: MENU.to_string() };
    let (p, s) = advance(&config, &event, p, &msg);
    assert_eq!((p, s), (Phase::AwaitRoles, Step::FetchGuildRoles { channel_id: 6 }));
    assert_eq!(advance(&config, &event, p, &Reply::GuildUnavailable).1, Step::Finish { outcome: Outcome::NoGuild });
    assert_eq!(advance(&config, &event, p, &Reply::PrivateChannel).1, Step::Finish { outcome: Outcome::Ignored });
    assert_eq!(advance(&config, &event, p, &Reply::Failed).1, Step::Finish { outcome: Outcome::Failed });
    assert_eq!(advance(&config, &event, Phase::AwaitMutation, &Reply::Failed).1, Step::Finish { outcome: Outcome::Failed });
    assert_eq!(advance(&config, &event, Phase::AwaitMutation, &Reply::Mutated).1, Step::Finish { outcome: Outcome::Applied });
    let done = Phase::Finished { outcome: Outcome::NoMatch };
    assert_eq!(advance(&config, &event, done, &msg), (done, Step::Finish { outcome: Outcome::NoMatch }));
}

#[test]
fn member_lookup_failure_ends_removal() {
    let config = RoleMenuConfig::standard();
    let event = removed(custom("boooo"));
    let phase = Phase::AwaitMember { role_id: 2 };
    assert_eq!(advance(&config, &event, phase, &Reply::Failed).1, Step::Finish { outcome: Outcome::Failed });
    assert_eq!(
        advance(&config, &event, phase, &Reply::MemberFound),
        (Phase::AwaitMutation, Step::Revoke { guild_id: 10, user_id: 20, role_id: 2 })
    );
}

#[test]
fn resolve_role_is_exact() {
    let roles = scenario_roles();
    assert_eq!(resolve_role(&roles, &"boooo".to_string()), Some(2));
    assert_eq!(resolve_role(&roles, &"baaaaaaaa".to_string()), Some(1));
    assert_eq!(resolve_role(&roles, &"BOOOO".to_string()), None);
    assert_eq!(resolve_role(&roles, &"booo".to_string()), None);
    assert_eq!(resolve_role(&Vec::new(), &"boooo".to_string()), None);
}
