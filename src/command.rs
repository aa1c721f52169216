use vstd::prelude::*;

use crate::config::{name_listed, RoleMenuConfig};
use crate::roles::{Member, Role};

verus! {

/// One thing the toggle command does: change a role of the invoking member, or answer.
pub enum CommandAction {
    Grant { role_id: u64 },
    Revoke { role_id: u64 },
    Say { text: String },
}

/// The mathematical value of a `CommandAction`.
pub enum Effect {
    Grant { role_id: u64 },
    Revoke { role_id: u64 },
    Say { text: Seq<char> },
}

impl View for CommandAction {
    type V = Effect;

    open spec fn view(&self) -> Effect {
        match self {
            CommandAction::Grant { role_id } => Effect::Grant { role_id: *role_id },
            CommandAction::Revoke { role_id } => Effect::Revoke { role_id: *role_id },
            CommandAction::Say { text } => Effect::Say { text: text@ },
        }
    }
}

pub open spec fn effects_of(actions: Seq<CommandAction>) -> Seq<Effect> {
    actions.map_values(|a: CommandAction| a@)
}

/// The answer after a role was granted.
pub open spec fn added_text(name: Seq<char>) -> Seq<char> {
    "role "@ + name + " added"@
}

/// The answer after a role the member held was revoked.
pub open spec fn already_had_text(name: Seq<char>) -> Seq<char> {
    "you already had role "@ + name
}

/// The answer when the command was not invoked inside a guild.
pub open spec fn no_guild_text() -> Seq<char> {
    "this command only works inside a guild"@
}

/// The answer when the invoking member could not be resolved.
pub open spec fn no_member_text() -> Seq<char> {
    "could not find you as a member of this guild"@
}

/// For each role of the guild, in order, whose name is allowed: revoke it and say so if it
/// is held, else grant it and say so.
pub open spec fn toggle_effects(allowed: Seq<String>, roles: Seq<Role>, held: Seq<u64>) -> Seq<
    Effect,
>
    decreases roles.len(),
{
    if roles.len() == 0 {
        seq![]
    } else {
        let before = toggle_effects(allowed, roles.drop_last(), held);
        let role = roles.last();
        if !name_listed(allowed, role.name@) {
            before
        } else if held.contains(role.id) {
            before + seq![
                Effect::Revoke { role_id: role.id },
                Effect::Say { text: already_had_text(role.name@) },
            ]
        } else {
            before + seq![
                Effect::Grant { role_id: role.id },
                Effect::Say { text: added_text(role.name@) },
            ]
        }
    }
}

/// What one invocation of the toggle command does, given the guild's roles (none outside a
/// guild) and the invoking member (none when it cannot be resolved).
pub open spec fn command_effects(
    config: RoleMenuConfig,
    roles: Option<Vec<Role>>,
    member: Option<Member>,
) -> Seq<Effect> {
    match roles {
        None => seq![Effect::Say { text: no_guild_text() }],
        Some(rs) => match member {
            None => seq![Effect::Say { text: no_member_text() }],
            Some(m) => toggle_effects(config.allowed_roles@, rs@, m.roles@),
        },
    }
}

/// Outside a guild the command answers exactly once and changes no role, whoever invoked it.
pub proof fn lemma_outside_guild_answers_once(config: RoleMenuConfig, member: Option<Member>)
    ensures
        command_effects(config, None, member).len() == 1,
        command_effects(config, None, member)[0] is Say,
{
}

fn added_message(name: &String) -> (r: String)
    ensures
        r@ == added_text(name@),
{
    let mut t = String::from_str("role ");
    t.append(name.as_str());
    t.append(" added");
    t
}

fn already_had_message(name: &String) -> (r: String)
    ensures
        r@ == already_had_text(name@),
{
    let mut t = String::from_str("you already had role ");
    t.append(name.as_str());
    t
}

/// Toggles every allowed role of the guild for `member`: the actions, in order.
pub fn plan_toggle(config: &RoleMenuConfig, roles: &Vec<Role>, member: &Member) -> (r: Vec<
    CommandAction,
>)
    ensures
        effects_of(r@) == toggle_effects(config.allowed_roles@, roles@, member.roles@),
{
    let n = roles.len();
    let mut out: Vec<CommandAction> = Vec::new();
    let mut i: usize = 0;
    while i < n
        invariant
            n == roles@.len(),
            i <= n,
            effects_of(out@) == toggle_effects(
                config.allowed_roles@,
                roles@.subrange(0, i as int),
                member.roles@,
            ),
        decreases n - i,
    {
        let role = &roles[i];
        let ghost before = out@;
        assert(roles@.subrange(0, i + 1).drop_last() =~= roles@.subrange(0, i as int));
        assert(roles@.subrange(0, i + 1).last() == roles@[i as int]);
        if config.allows(&role.name) {
            if member.has_role(role.id) {
                out.push(CommandAction::Revoke { role_id: role.id });
                out.push(CommandAction::Say { text: already_had_message(&role.name) });
            } else {
                out.push(CommandAction::Grant { role_id: role.id });
                out.push(CommandAction::Say { text: added_message(&role.name) });
            }
            assert(effects_of(out@) =~= effects_of(before) + seq![
                out@[out@.len() - 2]@,
                out@[out@.len() - 1]@,
            ]);
        }
        i = i + 1;
    }
    assert(roles@.subrange(0, n as int) =~= roles@);
    out
}

/// One invocation of the toggle command: answers once and changes nothing outside a guild
/// or without a resolvable member, else toggles every allowed role of the guild.
pub fn plan_command(config: &RoleMenuConfig, roles: Option<Vec<Role>>, member: Option<Member>) -> (r:
    Vec<CommandAction>)
    ensures
        effects_of(r@) == command_effects(*config, roles, member),
{
    match roles {
        None => {
            let text = String::from_str("this command only works inside a guild");
            let out = vec![CommandAction::Say { text }];
            assert(effects_of(out@) =~= seq![Effect::Say { text: no_guild_text() }]);
            out
        },
        Some(rs) => match member {
            None => {
                let text = String::from_str("could not find you as a member of this guild");
                let out = vec![CommandAction::Say { text }];
                assert(effects_of(out@) =~= seq![Effect::Say { text: no_member_text() }]);
                out
            },
            Some(m) => plan_toggle(config, &rs, &m),
        },
    }
}

} // verus!
