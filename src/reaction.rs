use vstd::prelude::*;

use crate::config::RoleMenuConfig;
use crate::roles::{first_match, has_role_named, lemma_first_match_found, resolve_role, Member, Role};
use crate::text::{contains_phrase, has_substring};

verus! {

/// The emoji of a reaction: a built-in one, or a guild's custom one with its identifier
/// and, where the platform sent it, its name.
pub enum Emoji {
    Builtin,
    Custom { id: u64, name: Option<String> },
}

/// A reaction event as the platform delivers it. An added reaction may carry a snapshot
/// of the reacting member; a removed one carries only identifiers.
pub enum ReactionEvent {
    Added { message_id: u64, channel_id: u64, emoji: Emoji, member: Option<Member> },
    Removed {
        message_id: u64,
        channel_id: u64,
        emoji: Emoji,
        guild_id: Option<u64>,
        user_id: Option<u64>,
    },
}

/// How the handling of one event ended.
#[derive(Clone, Copy, PartialEq, Eq, Structural, Debug)]
pub enum Outcome {
    /// The role change was made.
    Applied,
    /// The event does not concern a role menu: wrong message, built-in emoji, private channel.
    Ignored,
    /// No role is named like the emoji.
    NoMatch,
    /// A role matched, but the added reaction carried no member to grant it to.
    NoMember,
    /// The channel's guild could not be resolved.
    NoGuild,
    /// A platform call failed.
    Failed,
    /// The runtime answered with a reply that does not fit the pending request.
    OutOfOrder,
}

/// Where the handling of one event stands.
#[derive(Clone, Copy, PartialEq, Eq, Structural, Debug)]
pub enum Phase {
    AwaitMessage,
    AwaitRoles,
    AwaitMember { role_id: u64 },
    AwaitMutation,
    Finished { outcome: Outcome },
}

/// What the runtime is asked to do next.
#[derive(Clone, Copy, PartialEq, Eq, Structural, Debug)]
pub enum Step {
    FetchMessage { message_id: u64 },
    FetchGuildRoles { channel_id: u64 },
    FetchMember { guild_id: u64, user_id: u64 },
    Grant { guild_id: u64, user_id: u64, role_id: u64 },
    Revoke { guild_id: u64, user_id: u64, role_id: u64 },
    Finish { outcome: Outcome },
}

/// What the runtime hands back after carrying out a step.
pub enum Reply {
    Message { content: String },
    GuildRoles { roles: Vec<Role> },
    PrivateChannel,
    GuildUnavailable,
    MemberFound,
    Mutated,
    Failed,
}

/// The role name carried by an emoji: that of a custom emoji with a non-empty name.
pub open spec fn role_token(emoji: Emoji) -> Option<Seq<char>> {
    match emoji {
        Emoji::Custom { name: Some(n), .. } => if n@.len() > 0 {
            Some(n@)
        } else {
            None
        },
        _ => None,
    }
}

impl ReactionEvent {
    pub open spec fn spec_message_id(&self) -> u64 {
        match self {
            ReactionEvent::Added { message_id, .. } => *message_id,
            ReactionEvent::Removed { message_id, .. } => *message_id,
        }
    }

    pub open spec fn spec_channel_id(&self) -> u64 {
        match self {
            ReactionEvent::Added { channel_id, .. } => *channel_id,
            ReactionEvent::Removed { channel_id, .. } => *channel_id,
        }
    }

    pub open spec fn spec_emoji(&self) -> Emoji {
        match self {
            ReactionEvent::Added { emoji, .. } => *emoji,
            ReactionEvent::Removed { emoji, .. } => *emoji,
        }
    }

    /// A removed reaction names the guild and the user; an added one needs no such check.
    pub open spec fn spec_ids_known(&self) -> bool {
        match self {
            ReactionEvent::Added { .. } => true,
            ReactionEvent::Removed { guild_id, user_id, .. } => guild_id is Some && user_id
                is Some,
        }
    }

    pub fn message_id(&self) -> (r: u64)
        ensures
            r == self.spec_message_id(),
    {
        match self {
            ReactionEvent::Added { message_id, .. } => *message_id,
            ReactionEvent::Removed { message_id, .. } => *message_id,
        }
    }

    pub fn channel_id(&self) -> (r: u64)
        ensures
            r == self.spec_channel_id(),
    {
        match self {
            ReactionEvent::Added { channel_id, .. } => *channel_id,
            ReactionEvent::Removed { channel_id, .. } => *channel_id,
        }
    }

    pub fn emoji(&self) -> (r: &Emoji)
        ensures
            *r == self.spec_emoji(),
    {
        match self {
            ReactionEvent::Added { emoji, .. } => emoji,
            ReactionEvent::Removed { emoji, .. } => emoji,
        }
    }
}

/// The name of a custom emoji, when it has a non-empty one.
pub fn emoji_role_name(emoji: &Emoji) -> (r: Option<&String>)
    ensures
        r is None <==> role_token(*emoji) is None,
        r matches Some(n) ==> role_token(*emoji) == Some(n@),
{
    match emoji {
        Emoji::Custom { name: Some(n), .. } => {
            if n.as_str().is_empty() {
                None
            } else {
                Some(n)
            }
        },
        _ => None,
    }
}

pub open spec fn finish(outcome: Outcome) -> (Phase, Step) {
    (Phase::Finished { outcome }, Step::Finish { outcome })
}

/// The first request made for any event: the message that was reacted to.
pub open spec fn first_step(event: ReactionEvent) -> Step {
    Step::FetchMessage { message_id: event.spec_message_id() }
}

/// The decision taken at `phase` when the runtime answers with `reply`: the next phase and
/// the next request.
pub open spec fn next(config: RoleMenuConfig, event: ReactionEvent, phase: Phase, reply: Reply) -> (
    Phase,
    Step,
) {
    match phase {
        Phase::AwaitMessage => match reply {
            Reply::Message { content } => {
                if !has_substring(content@, config.trigger_phrase@) {
                    finish(Outcome::Ignored)
                } else if role_token(event.spec_emoji()) is None {
                    finish(Outcome::Ignored)
                } else if !event.spec_ids_known() {
                    finish(Outcome::Ignored)
                } else {
                    (Phase::AwaitRoles, Step::FetchGuildRoles { channel_id: event.spec_channel_id() })
                }
            },
            Reply::Failed => finish(Outcome::Failed),
            _ => finish(Outcome::OutOfOrder),
        },
        Phase::AwaitRoles => match reply {
            Reply::GuildRoles { roles } => match role_token(event.spec_emoji()) {
                None => finish(Outcome::Ignored),
                Some(token) => match first_match(roles@, token) {
                    None => finish(Outcome::NoMatch),
                    Some(role_id) => match event {
                        ReactionEvent::Added { member: Some(m), .. } => (
                            Phase::AwaitMutation,
                            Step::Grant { guild_id: m.guild_id, user_id: m.user_id, role_id },
                        ),
                        ReactionEvent::Added { member: None, .. } => finish(Outcome::NoMember),
                        ReactionEvent::Removed { guild_id: Some(g), user_id: Some(u), .. } => (
                            Phase::AwaitMember { role_id },
                            Step::FetchMember { guild_id: g, user_id: u },
                        ),
                        ReactionEvent::Removed { .. } => finish(Outcome::Ignored),
                    },
                },
            },
            Reply::PrivateChannel => finish(Outcome::Ignored),
            Reply::GuildUnavailable => finish(Outcome::NoGuild),
            Reply::Failed => finish(Outcome::Failed),
            _ => finish(Outcome::OutOfOrder),
        },
        Phase::AwaitMember { role_id } => match reply {
            Reply::MemberFound => match event {
                ReactionEvent::Removed { guild_id: Some(g), user_id: Some(u), .. } => (
                    Phase::AwaitMutation,
                    Step::Revoke { guild_id: g, user_id: u, role_id },
                ),
                _ => finish(Outcome::OutOfOrder),
            },
            Reply::Failed => finish(Outcome::Failed),
            _ => finish(Outcome::OutOfOrder),
        },
        Phase::AwaitMutation => match reply {
            Reply::Mutated => finish(Outcome::Applied),
            Reply::Failed => finish(Outcome::Failed),
            _ => finish(Outcome::OutOfOrder),
        },
        Phase::Finished { outcome } => finish(outcome),
    }
}

/// Ends the handling of an event with `outcome`.
fn finished(outcome: Outcome) -> (r: (Phase, Step))
    ensures
        r == finish(outcome),
{
    (Phase::Finished { outcome }, Step::Finish { outcome })
}

/// Starts handling `event`: the message it concerns is fetched first.
pub fn begin(event: &ReactionEvent) -> (r: (Phase, Step))
    ensures
        r == (Phase::AwaitMessage, first_step(*event)),
{
    (Phase::AwaitMessage, Step::FetchMessage { message_id: event.message_id() })
}

/// Takes the decision at `phase` on the runtime's `reply`.
pub fn advance(config: &RoleMenuConfig, event: &ReactionEvent, phase: Phase, reply: &Reply) -> (r: (
    Phase,
    Step,
))
    ensures
        r == next(*config, *event, phase, *reply),
{
    match phase {
        Phase::AwaitMessage => match reply {
            Reply::Message { content } => {
                if !contains_phrase(content.as_str(), config.trigger_phrase.as_str()) {
                    return finished(Outcome::Ignored);
                }
                if emoji_role_name(event.emoji()).is_none() {
                    return finished(Outcome::Ignored);
                }
                match event {
                    ReactionEvent::Removed { guild_id: Some(_), user_id: Some(_), .. } => {},
                    ReactionEvent::Added { .. } => {},
                    _ => {
                        return finished(Outcome::Ignored);
                    },
                }
                (Phase::AwaitRoles, Step::FetchGuildRoles { channel_id: event.channel_id() })
            },
            Reply::Failed => finished(Outcome::Failed),
            _ => finished(Outcome::OutOfOrder),
        },
        Phase::AwaitRoles => match reply {
            Reply::GuildRoles { roles } => match emoji_role_name(event.emoji()) {
                None => finished(Outcome::Ignored),
                Some(token) => match resolve_role(roles, token) {
                    None => finished(Outcome::NoMatch),
                    Some(role_id) => match event {
                        ReactionEvent::Added { member: Some(m), .. } => (
                            Phase::AwaitMutation,
                            Step::Grant { guild_id: m.guild_id, user_id: m.user_id, role_id },
                        ),
                        ReactionEvent::Added { member: None, .. } => finished(Outcome::NoMember),
                        ReactionEvent::Removed { guild_id: Some(g), user_id: Some(u), .. } => (
                            Phase::AwaitMember { role_id },
                            Step::FetchMember { guild_id: *g, user_id: *u },
                        ),
                        ReactionEvent::Removed { .. } => finished(Outcome::Ignored),
                    },
                },
            },
            Reply::PrivateChannel => finished(Outcome::Ignored),
            Reply::GuildUnavailable => finished(Outcome::NoGuild),
            Reply::Failed => finished(Outcome::Failed),
            _ => finished(Outcome::OutOfOrder),
        },
        Phase::AwaitMember { role_id } => match reply {
            Reply::MemberFound => match event {
                ReactionEvent::Removed { guild_id: Some(g), user_id: Some(u), .. } => (
                    Phase::AwaitMutation,
                    Step::Revoke { guild_id: *g, user_id: *u, role_id },
                ),
                _ => finished(Outcome::OutOfOrder),
            },
            Reply::Failed => finished(Outcome::Failed),
            _ => finished(Outcome::OutOfOrder),
        },
        Phase::AwaitMutation => match reply {
            Reply::Mutated => finished(Outcome::Applied),
            Reply::Failed => finished(Outcome::Failed),
            _ => finished(Outcome::OutOfOrder),
        },
        Phase::Finished { outcome } => finished(outcome),
    }
}

/// A step that changes a member's roles.
pub open spec fn is_mutation(step: Step) -> bool {
    step is Grant || step is Revoke
}

/// The role changes requested, in order, when handling continues from `phase` and the
/// runtime answers the pending requests with `replies`.
pub open spec fn mutations_from(
    config: RoleMenuConfig,
    event: ReactionEvent,
    phase: Phase,
    replies: Seq<Reply>,
) -> Seq<Step>
    decreases replies.len(),
{
    if replies.len() == 0 {
        seq![]
    } else {
        let (p, s) = next(config, event, phase, replies[0]);
        let rest = mutations_from(config, event, p, replies.drop_first());
        if is_mutation(s) {
            seq![s] + rest
        } else {
            rest
        }
    }
}

/// The role changes requested over the whole handling of `event` (the first request, for
/// the message, changes nothing).
pub open spec fn mutations_of(config: RoleMenuConfig, event: ReactionEvent, replies: Seq<Reply>) -> Seq<
    Step,
> {
    mutations_from(config, event, Phase::AwaitMessage, replies)
}

/// Once finished, the handling of an event requests nothing more.
pub proof fn lemma_finished_is_final(
    config: RoleMenuConfig,
    event: ReactionEvent,
    outcome: Outcome,
    replies: Seq<Reply>,
)
    ensures
        mutations_from(config, event, Phase::Finished { outcome }, replies) == Seq::<Step>::empty(),
    decreases replies.len(),
{
    if replies.len() > 0 {
        lemma_finished_is_final(config, event, outcome, replies.drop_first());
    }
}

/// After a role change has been requested, whatever comes back, nothing more is changed.
pub proof fn lemma_one_mutation_at_most(
    config: RoleMenuConfig,
    event: ReactionEvent,
    replies: Seq<Reply>,
)
    ensures
        mutations_from(config, event, Phase::AwaitMutation, replies) == Seq::<Step>::empty(),
{
    if replies.len() > 0 {
        let (p, s) = next(config, event, Phase::AwaitMutation, replies[0]);
        lemma_finished_is_final(config, event, p->outcome, replies.drop_first());
    }
}

/// A reaction on a message that does not contain the trigger phrase changes no roles.
pub proof fn lemma_unmarked_message_changes_nothing(
    config: RoleMenuConfig,
    event: ReactionEvent,
    replies: Seq<Reply>,
)
    requires
        replies.len() > 0,
        replies[0] is Message,
        !has_substring(replies[0]->Message_content@, config.trigger_phrase@),
    ensures
        mutations_of(config, event, replies) == Seq::<Step>::empty(),
{
    lemma_finished_is_final(config, event, Outcome::Ignored, replies.drop_first());
}

/// An added reaction with a built-in emoji changes no roles, whatever the message says.
pub proof fn lemma_builtin_emoji_changes_nothing(
    config: RoleMenuConfig,
    event: ReactionEvent,
    replies: Seq<Reply>,
)
    requires
        event is Added,
        event->Added_emoji is Builtin,
    ensures
        mutations_of(config, event, replies) == Seq::<Step>::empty(),
{
    if replies.len() > 0 {
        let (p, s) = next(config, event, Phase::AwaitMessage, replies[0]);
        lemma_finished_is_final(config, event, p->outcome, replies.drop_first());
    }
}

/// An added reaction with a custom emoji named `E` on a trigger message, by a member the
/// event names, grants that member the first role named exactly `E`, once; where no role is
/// so named, nothing changes.
pub proof fn lemma_added_reaction_grants(
    config: RoleMenuConfig,
    event: ReactionEvent,
    replies: Seq<Reply>,
    roles: Vec<Role>,
)
    requires
        event is Added,
        event->Added_member is Some,
        role_token(event.spec_emoji()) is Some,
        replies.len() >= 2,
        replies[0] is Message,
        has_substring(replies[0]->Message_content@, config.trigger_phrase@),
        replies[1] == (Reply::GuildRoles { roles }),
    ensures
        ({
            let m = event->Added_member->Some_0;
            match first_match(roles@, role_token(event.spec_emoji())->Some_0) {
                Some(role_id) => mutations_of(config, event, replies) == seq![
                    Step::Grant { guild_id: m.guild_id, user_id: m.user_id, role_id },
                ],
                None => mutations_of(config, event, replies) == Seq::<Step>::empty(),
            }
        }),
        mutations_of(config, event, replies).len() == (if has_role_named(
            roles@,
            role_token(event.spec_emoji())->Some_0,
        ) {
            1int
        } else {
            0int
        }),
{
    lemma_first_match_found(roles@, role_token(event.spec_emoji())->Some_0);
    let rest = replies.drop_first();
    assert(rest[0] == replies[1]);
    let (p1, s1) = next(config, event, Phase::AwaitMessage, replies[0]);
    assert(p1 == Phase::AwaitRoles);
    assert(mutations_of(config, event, replies) == mutations_from(config, event, p1, rest));
    let (p2, s2) = next(config, event, p1, rest[0]);
    match first_match(roles@, role_token(event.spec_emoji())->Some_0) {
        Some(role_id) => {
            let m = event->Added_member->Some_0;
            assert(s2 == Step::Grant { guild_id: m.guild_id, user_id: m.user_id, role_id });
            assert(p2 == Phase::AwaitMutation);
            lemma_one_mutation_at_most(config, event, rest.drop_first());
            assert(mutations_from(config, event, p1, rest) == seq![s2] + mutations_from(
                config,
                event,
                p2,
                rest.drop_first(),
            ));
            assert(mutations_from(config, event, p1, rest) =~= seq![s2]);
        },
        None => {
            assert(p2 == Phase::Finished { outcome: Outcome::NoMatch });
            lemma_finished_is_final(config, event, Outcome::NoMatch, rest.drop_first());
        },
    }
}

/// A removed reaction with a custom emoji named `E` on a trigger message, naming its guild
/// and user, revokes the first role named exactly `E` from that member, once; where no role
/// is so named, nothing changes.
pub proof fn lemma_removed_reaction_revokes(
    config: RoleMenuConfig,
    event: ReactionEvent,
    replies: Seq<Reply>,
    roles: Vec<Role>,
)
    requires
        event is Removed,
        event->Removed_guild_id is Some,
        event->Removed_user_id is Some,
        role_token(event.spec_emoji()) is Some,
        replies.len() >= 3,
        replies[0] is Message,
        has_substring(replies[0]->Message_content@, config.trigger_phrase@),
        replies[1] == (Reply::GuildRoles { roles }),
        replies[2] is MemberFound,
    ensures
        ({
            let g = event->Removed_guild_id->Some_0;
            let u = event->Removed_user_id->Some_0;
            match first_match(roles@, role_token(event.spec_emoji())->Some_0) {
                Some(role_id) => mutations_of(config, event, replies) == seq![
                    Step::Revoke { guild_id: g, user_id: u, role_id },
                ],
                None => mutations_of(config, event, replies) == Seq::<Step>::empty(),
            }
        }),
        mutations_of(config, event, replies).len() == (if has_role_named(
            roles@,
            role_token(event.spec_emoji())->Some_0,
        ) {
            1int
        } else {
            0int
        }),
{
    lemma_first_match_found(roles@, role_token(event.spec_emoji())->Some_0);
    let rest = replies.drop_first();
    let rest2 = rest.drop_first();
    assert(rest[0] == replies[1]);
    assert(rest2[0] == replies[2]);
    let (p1, s1) = next(config, event, Phase::AwaitMessage, replies[0]);
    assert(p1 == Phase::AwaitRoles);
    assert(mutations_of(config, event, replies) == mutations_from(config, event, p1, rest));
    let (p2, s2) = next(config, event, p1, rest[0]);
    match first_match(roles@, role_token(event.spec_emoji())->Some_0) {
        Some(role_id) => {
            let g = event->Removed_guild_id->Some_0;
            let u = event->Removed_user_id->Some_0;
            assert(p2 == Phase::AwaitMember { role_id });
            assert(s2 == Step::FetchMember { guild_id: g, user_id: u });
            let (p3, s3) = next(config, event, p2, rest2[0]);
            assert(s3 == Step::Revoke { guild_id: g, user_id: u, role_id });
            assert(p3 == Phase::AwaitMutation);
            lemma_one_mutation_at_most(config, event, rest2.drop_first());
            assert(mutations_from(config, event, p2, rest2) == seq![s3] + mutations_from(
                config,
                event,
                p3,
                rest2.drop_first(),
            ));
            assert(mutations_from(config, event, p2, rest2) =~= seq![s3]);
            assert(mutations_from(config, event, p1, rest) == mutations_from(config, event, p2, rest2));
        },
        None => {
            assert(p2 == Phase::Finished { outcome: Outcome::NoMatch });
            lemma_finished_is_final(config, event, Outcome::NoMatch, rest.drop_first());
        },
    }
}

} // verus!
