//! What the client does with a gateway event: which user handler it calls
//! and how it updates the cache.
use vstd::prelude::*;
use crate::channel::Channel;
use crate::gateway::{
    GatewayEvent, GuildMemberAddEvent, GuildMemberRemoveEvent, GuildMemberUpdateEvent,
    MessageDeleteEvent, MessageUpdateEvent, PresenceUpdateEvent, ReadyEvent, TypingStartEvent,
    UnavailableGuild, VoiceServerUpdateEvent,
};
use crate::guild::Guild;
use crate::message::Message;
use crate::text::{has_prefix, owned, strip_prefix};
use crate::user::User;
use crate::voice::VoiceState;
use crate::policy::CachePolicy;
use crate::store::{
    Cache, CacheView, after_insert_channel, after_insert_guild, after_insert_member,
    after_insert_message, after_remove_channel, after_remove_guild, without_entry, admits_member,
    admits_message, member_key, table_of,
};

verus! {

/// The user handlers the client dispatches events to.
#[derive(Clone, Copy, Debug, PartialEq, Eq, Structural)]
pub enum HandlerName {
    /// `ready`: the session is ready.
    Ready,
    /// `resumed`: a session was resumed.
    Resumed,
    /// `message`: a message was created.
    Message,
    /// `guild_join`: a guild became available or was joined.
    GuildJoin,
    /// `guild_update`: a guild was updated.
    GuildUpdate,
    /// `guild_remove`: a guild was left or became unavailable.
    GuildRemove,
    /// `channel_create`: a channel was created.
    ChannelCreate,
    /// `channel_update`: a channel was updated.
    ChannelUpdate,
    /// `channel_delete`: a channel was deleted.
    ChannelDelete,
    /// `member_join`: a user joined a guild.
    MemberJoin,
    /// `member_remove`: a user left a guild.
    MemberRemove,
    /// `typing`: a user started typing.
    Typing,
}

/// The name under which a handler is registered.
pub open spec fn handler_name(h: HandlerName) -> Seq<char> {
    match h {
        HandlerName::Ready => "ready"@,
        HandlerName::Resumed => "resumed"@,
        HandlerName::Message => "message"@,
        HandlerName::GuildJoin => "guild_join"@,
        HandlerName::GuildUpdate => "guild_update"@,
        HandlerName::GuildRemove => "guild_remove"@,
        HandlerName::ChannelCreate => "channel_create"@,
        HandlerName::ChannelUpdate => "channel_update"@,
        HandlerName::ChannelDelete => "channel_delete"@,
        HandlerName::MemberJoin => "member_join"@,
        HandlerName::MemberRemove => "member_remove"@,
        HandlerName::Typing => "typing"@,
    }
}

/// The handler an event goes to; other events go to none.
pub open spec fn handler_of(event: GatewayEvent) -> Option<HandlerName> {
    match event {
        GatewayEvent::Ready(_) => Some(HandlerName::Ready),
        GatewayEvent::Resumed => Some(HandlerName::Resumed),
        GatewayEvent::MessageCreate(_) => Some(HandlerName::Message),
        GatewayEvent::GuildCreate(_) => Some(HandlerName::GuildJoin),
        GatewayEvent::GuildUpdate(_) => Some(HandlerName::GuildUpdate),
        GatewayEvent::GuildDelete(_) => Some(HandlerName::GuildRemove),
        GatewayEvent::ChannelCreate(_) => Some(HandlerName::ChannelCreate),
        GatewayEvent::ChannelUpdate(_) => Some(HandlerName::ChannelUpdate),
        GatewayEvent::ChannelDelete(_) => Some(HandlerName::ChannelDelete),
        GatewayEvent::GuildMemberAdd(_) => Some(HandlerName::MemberJoin),
        GatewayEvent::GuildMemberRemove(_) => Some(HandlerName::MemberRemove),
        GatewayEvent::TypingStart(_) => Some(HandlerName::Typing),
        _ => None,
    }
}

/// The cache after the client has seen an event, under policy `p`.
pub open spec fn after_event<P: CachePolicy>(p: P, v: CacheView, event: GatewayEvent) -> CacheView {
    match event {
        GatewayEvent::Ready(ready) => CacheView { current_user: Some(ready.user), ..v },
        GatewayEvent::MessageCreate(message) => after_insert_message(p, v, *message),
        GatewayEvent::GuildCreate(guild) => after_insert_guild(p, v, *guild),
        GatewayEvent::GuildUpdate(guild) => after_insert_guild(p, v, *guild),
        GatewayEvent::GuildDelete(unavailable) => after_remove_guild(v, unavailable.id.0),
        GatewayEvent::ChannelCreate(channel) => after_insert_channel(p, v, *channel),
        GatewayEvent::ChannelUpdate(channel) => after_insert_channel(p, v, *channel),
        GatewayEvent::ChannelDelete(channel) => after_remove_channel(v, channel.id.0),
        GatewayEvent::GuildMemberAdd(e) => after_insert_member(p, v, e.guild_id, e.member),
        GatewayEvent::GuildMemberRemove(e) => CacheView {
            members: without_entry(v.members, e.guild_id.0, e.user.id.0),
            ..v
        },
        _ => v,
    }
}

impl HandlerName {
    /// The name under which the handler is registered.
    pub fn name(&self) -> (r: &'static str)
        ensures
            r@ == handler_name(*self),
    {
        match self {
            HandlerName::Ready => "ready",
            HandlerName::Resumed => "resumed",
            HandlerName::Message => "message",
            HandlerName::GuildJoin => "guild_join",
            HandlerName::GuildUpdate => "guild_update",
            HandlerName::GuildRemove => "guild_remove",
            HandlerName::ChannelCreate => "channel_create",
            HandlerName::ChannelUpdate => "channel_update",
            HandlerName::ChannelDelete => "channel_delete",
            HandlerName::MemberJoin => "member_join",
            HandlerName::MemberRemove => "member_remove",
            HandlerName::Typing => "typing",
        }
    }
}

/// The handler a gateway event is dispatched to, if any.
pub fn handler_for(event: &GatewayEvent) -> (r: Option<HandlerName>)
    ensures
        r == handler_of(*event),
{
    match event {
        GatewayEvent::Ready(_) => Some(HandlerName::Ready),
        GatewayEvent::Resumed => Some(HandlerName::Resumed),
        GatewayEvent::MessageCreate(_) => Some(HandlerName::Message),
        GatewayEvent::GuildCreate(_) => Some(HandlerName::GuildJoin),
        GatewayEvent::GuildUpdate(_) => Some(HandlerName::GuildUpdate),
        GatewayEvent::GuildDelete(_) => Some(HandlerName::GuildRemove),
        GatewayEvent::ChannelCreate(_) => Some(HandlerName::ChannelCreate),
        GatewayEvent::ChannelUpdate(_) => Some(HandlerName::ChannelUpdate),
        GatewayEvent::ChannelDelete(_) => Some(HandlerName::ChannelDelete),
        GatewayEvent::GuildMemberAdd(_) => Some(HandlerName::MemberJoin),
        GatewayEvent::GuildMemberRemove(_) => Some(HandlerName::MemberRemove),
        GatewayEvent::TypingStart(_) => Some(HandlerName::Typing),
        _ => None,
    }
}

/// Each event the client acts on goes to the handler registered under its own
/// name: a created guild to `guild_join`, a deleted one to `guild_remove`, a
/// joined member to `member_join`, and so on; every other event goes to no
/// handler.
pub proof fn law_event_handlers(e: GatewayEvent)
    ensures
        e is Ready ==> handler_of(e) == Some(HandlerName::Ready) && handler_name(HandlerName::Ready) == "ready"@,
        e is Resumed ==> handler_of(e) == Some(HandlerName::Resumed) && handler_name(HandlerName::Resumed) == "resumed"@,
        e is MessageCreate ==> handler_of(e) == Some(HandlerName::Message) && handler_name(HandlerName::Message) == "message"@,
        e is GuildCreate ==> handler_of(e) == Some(HandlerName::GuildJoin) && handler_name(HandlerName::GuildJoin) == "guild_join"@,
        e is GuildUpdate ==> handler_of(e) == Some(HandlerName::GuildUpdate) && handler_name(HandlerName::GuildUpdate) == "guild_update"@,
        e is GuildDelete ==> handler_of(e) == Some(HandlerName::GuildRemove) && handler_name(HandlerName::GuildRemove) == "guild_remove"@,
        e is ChannelCreate ==> handler_of(e) == Some(HandlerName::ChannelCreate) && handler_name(HandlerName::ChannelCreate) == "channel_create"@,
        e is ChannelUpdate ==> handler_of(e) == Some(HandlerName::ChannelUpdate) && handler_name(HandlerName::ChannelUpdate) == "channel_update"@,
        e is ChannelDelete ==> handler_of(e) == Some(HandlerName::ChannelDelete) && handler_name(HandlerName::ChannelDelete) == "channel_delete"@,
        e is GuildMemberAdd ==> handler_of(e) == Some(HandlerName::MemberJoin) && handler_name(HandlerName::MemberJoin) == "member_join"@,
        e is GuildMemberRemove ==> handler_of(e) == Some(HandlerName::MemberRemove) && handler_name(HandlerName::MemberRemove) == "member_remove"@,
        e is TypingStart ==> handler_of(e) == Some(HandlerName::Typing) && handler_name(HandlerName::Typing) == "typing"@,
        handler_of(e) is Some <==> (e is Ready || e is Resumed || e is MessageCreate || e is GuildCreate || e is GuildUpdate || e is GuildDelete || e is ChannelCreate || e is ChannelUpdate || e is ChannelDelete || e is GuildMemberAdd || e is GuildMemberRemove || e is TypingStart),
{
}

/// One argument a handler is called with, borrowed from the event.
#[derive(Debug)]
pub enum HandlerArg<'a> {
    /// The created message.
    Message(&'a Message),
    /// The joined or updated guild.
    Guild(&'a Guild),
    /// The created, updated or deleted channel.
    Channel(&'a Channel),
    /// The user who left a guild.
    User(&'a User),
    /// A guild, channel or user ID.
    Id(u64),
}

/// The arguments, in order, that the handler of `event` is called with:
/// the message, guild or channel the event carries; the guild's ID for a
/// guild that was left or a member who joined; the guild's ID and the user
/// for a member who left; the channel's and the user's IDs for typing; none
/// for the rest.
pub open spec fn handler_args_of<'a>(event: &'a GatewayEvent) -> Seq<HandlerArg<'a>> {
    match event {
        GatewayEvent::MessageCreate(m) => seq![HandlerArg::Message(&**m)],
        GatewayEvent::GuildCreate(g) => seq![HandlerArg::Guild(&**g)],
        GatewayEvent::GuildUpdate(g) => seq![HandlerArg::Guild(&**g)],
        GatewayEvent::GuildDelete(g) => seq![HandlerArg::Id(g.id.0)],
        GatewayEvent::ChannelCreate(c) => seq![HandlerArg::Channel(&**c)],
        GatewayEvent::ChannelUpdate(c) => seq![HandlerArg::Channel(&**c)],
        GatewayEvent::ChannelDelete(c) => seq![HandlerArg::Channel(&**c)],
        GatewayEvent::GuildMemberAdd(e) => seq![HandlerArg::Id(e.guild_id.0)],
        GatewayEvent::GuildMemberRemove(e) => seq![HandlerArg::Id(e.guild_id.0), HandlerArg::User(&e.user)],
        GatewayEvent::TypingStart(e) => seq![HandlerArg::Id(e.channel_id.0), HandlerArg::Id(e.user_id.0)],
        _ => Seq::empty(),
    }
}

/// The arguments the handler of an event is called with, in order.
pub fn handler_args<'a>(event: &'a GatewayEvent) -> (r: Vec<HandlerArg<'a>>)
    ensures
        r@ == handler_args_of(event),
{
    let mut args: Vec<HandlerArg<'a>> = Vec::new();
    match event {
        GatewayEvent::MessageCreate(m) => args.push(HandlerArg::Message(&**m)),
        GatewayEvent::GuildCreate(g) => args.push(HandlerArg::Guild(&**g)),
        GatewayEvent::GuildUpdate(g) => args.push(HandlerArg::Guild(&**g)),
        GatewayEvent::GuildDelete(g) => args.push(HandlerArg::Id(g.id.0)),
        GatewayEvent::ChannelCreate(c) => args.push(HandlerArg::Channel(&**c)),
        GatewayEvent::ChannelUpdate(c) => args.push(HandlerArg::Channel(&**c)),
        GatewayEvent::ChannelDelete(c) => args.push(HandlerArg::Channel(&**c)),
        GatewayEvent::GuildMemberAdd(e) => args.push(HandlerArg::Id(e.guild_id.0)),
        GatewayEvent::GuildMemberRemove(e) => {
            args.push(HandlerArg::Id(e.guild_id.0));
            args.push(HandlerArg::User(&e.user));
        },
        GatewayEvent::TypingStart(e) => {
            args.push(HandlerArg::Id(e.channel_id.0));
            args.push(HandlerArg::Id(e.user_id.0));
        },
        _ => {},
    }
    proof {
        assert(args@ =~= handler_args_of(event));
    }
    args
}

/// The name an event handler is registered under, from the name of the
/// function that handles it: without a leading `on_`.
pub open spec fn event_key_text(func_name: Seq<char>) -> Seq<char> {
    if has_prefix(func_name, "on_"@) {
        func_name.skip(3)
    } else {
        func_name
    }
}

/// The name an event handler is registered under, from the name of the
/// function that handles it: `on_message` handles `message`.
pub fn event_key(func_name: &str) -> (r: String)
    ensures
        r@ == event_key_text(func_name@),
{
    proof {
        reveal_strlit("on_");
    }
    match strip_prefix(func_name, "on_") {
        Some(rest) => owned(rest),
        None => owned(func_name),
    }
}

/// A call of one method of a user's event handler, with what it is handed.
#[derive(Debug)]
pub enum HandlerCall {
    /// `ready`.
    Ready(ReadyEvent),
    /// `resumed`.
    Resumed,
    /// `message_create`.
    MessageCreate(Message),
    /// `message_update`.
    MessageUpdate(MessageUpdateEvent),
    /// `message_delete`.
    MessageDelete(MessageDeleteEvent),
    /// `guild_create`.
    GuildCreate(Guild),
    /// `guild_update`.
    GuildUpdate(Guild),
    /// `guild_delete`.
    GuildDelete(UnavailableGuild),
    /// `channel_create`.
    ChannelCreate(Channel),
    /// `channel_update`.
    ChannelUpdate(Channel),
    /// `channel_delete`.
    ChannelDelete(Channel),
    /// `guild_member_add`.
    GuildMemberAdd(GuildMemberAddEvent),
    /// `guild_member_remove`.
    GuildMemberRemove(GuildMemberRemoveEvent),
    /// `guild_member_update`.
    GuildMemberUpdate(GuildMemberUpdateEvent),
    /// `typing_start`.
    TypingStart(TypingStartEvent),
    /// `presence_update`.
    PresenceUpdate(PresenceUpdateEvent),
    /// `voice_state_update`.
    VoiceStateUpdate(VoiceState),
    /// `voice_server_update`.
    VoiceServerUpdate(VoiceServerUpdateEvent),
    /// `interaction_create`.
    InteractionCreate(serde_json::Value),
    /// `unknown_event`, with the event's name and data.
    UnknownEvent(String, serde_json::Value),
}

/// The handler method an event is dispatched to, with its payload; other
/// events are dispatched nowhere.
pub open spec fn handler_call_of(event: GatewayEvent) -> Option<HandlerCall> {
    match event {
        GatewayEvent::Ready(e) => Some(HandlerCall::Ready(e)),
        GatewayEvent::Resumed => Some(HandlerCall::Resumed),
        GatewayEvent::MessageCreate(m) => Some(HandlerCall::MessageCreate(*m)),
        GatewayEvent::MessageUpdate(e) => Some(HandlerCall::MessageUpdate(e)),
        GatewayEvent::MessageDelete(e) => Some(HandlerCall::MessageDelete(e)),
        GatewayEvent::GuildCreate(g) => Some(HandlerCall::GuildCreate(*g)),
        GatewayEvent::GuildUpdate(g) => Some(HandlerCall::GuildUpdate(*g)),
        GatewayEvent::GuildDelete(g) => Some(HandlerCall::GuildDelete(g)),
        GatewayEvent::ChannelCreate(c) => Some(HandlerCall::ChannelCreate(*c)),
        GatewayEvent::ChannelUpdate(c) => Some(HandlerCall::ChannelUpdate(*c)),
        GatewayEvent::ChannelDelete(c) => Some(HandlerCall::ChannelDelete(*c)),
        GatewayEvent::GuildMemberAdd(e) => Some(HandlerCall::GuildMemberAdd(e)),
        GatewayEvent::GuildMemberRemove(e) => Some(HandlerCall::GuildMemberRemove(e)),
        GatewayEvent::GuildMemberUpdate(e) => Some(HandlerCall::GuildMemberUpdate(e)),
        GatewayEvent::TypingStart(e) => Some(HandlerCall::TypingStart(e)),
        GatewayEvent::PresenceUpdate(e) => Some(HandlerCall::PresenceUpdate(e)),
        GatewayEvent::VoiceStateUpdate(s) => Some(HandlerCall::VoiceStateUpdate(s)),
        GatewayEvent::VoiceServerUpdate(e) => Some(HandlerCall::VoiceServerUpdate(e)),
        GatewayEvent::InteractionCreate(d) => Some(HandlerCall::InteractionCreate(d)),
        GatewayEvent::Unknown(name, data) => Some(HandlerCall::UnknownEvent(name, data)),
        _ => None,
    }
}

/// Which method of a user's event handler an event goes to, and with what.
pub fn handler_call(event: GatewayEvent) -> (r: Option<HandlerCall>)
    ensures
        r == handler_call_of(event),
{
    match event {
        GatewayEvent::Ready(e) => Some(HandlerCall::Ready(e)),
        GatewayEvent::Resumed => Some(HandlerCall::Resumed),
        GatewayEvent::MessageCreate(m) => Some(HandlerCall::MessageCreate(*m)),
        GatewayEvent::MessageUpdate(e) => Some(HandlerCall::MessageUpdate(e)),
        GatewayEvent::MessageDelete(e) => Some(HandlerCall::MessageDelete(e)),
        GatewayEvent::GuildCreate(g) => Some(HandlerCall::GuildCreate(*g)),
        GatewayEvent::GuildUpdate(g) => Some(HandlerCall::GuildUpdate(*g)),
        GatewayEvent::GuildDelete(g) => Some(HandlerCall::GuildDelete(g)),
        GatewayEvent::ChannelCreate(c) => Some(HandlerCall::ChannelCreate(*c)),
        GatewayEvent::ChannelUpdate(c) => Some(HandlerCall::ChannelUpdate(*c)),
        GatewayEvent::ChannelDelete(c) => Some(HandlerCall::ChannelDelete(*c)),
        GatewayEvent::GuildMemberAdd(e) => Some(HandlerCall::GuildMemberAdd(e)),
        GatewayEvent::GuildMemberRemove(e) => Some(HandlerCall::GuildMemberRemove(e)),
        GatewayEvent::GuildMemberUpdate(e) => Some(HandlerCall::GuildMemberUpdate(e)),
        GatewayEvent::TypingStart(e) => Some(HandlerCall::TypingStart(e)),
        GatewayEvent::PresenceUpdate(e) => Some(HandlerCall::PresenceUpdate(e)),
        GatewayEvent::VoiceStateUpdate(s) => Some(HandlerCall::VoiceStateUpdate(s)),
        GatewayEvent::VoiceServerUpdate(e) => Some(HandlerCall::VoiceServerUpdate(e)),
        GatewayEvent::InteractionCreate(d) => Some(HandlerCall::InteractionCreate(d)),
        GatewayEvent::Unknown(name, data) => Some(HandlerCall::UnknownEvent(name, data)),
        _ => None,
    }
}

impl<P: CachePolicy> Cache<P> {
    /// Update the cache with what a gateway event carries: the ready
    /// session's user, a created message, a created or updated guild or
    /// channel, a joined member; or drop a deleted guild, a deleted channel,
    /// a removed member. Other events leave the cache as it is.
    pub fn apply_event(&mut self, event: GatewayEvent)
        requires
            old(self).wf(),
        ensures
            final(self).wf(),
            final(self).policy() == old(self).policy(),
            final(self)@ == after_event(old(self).policy(), old(self)@, event),
    {
        match event {
            GatewayEvent::Ready(ready) => self.set_current_user(ready.user),
            GatewayEvent::MessageCreate(message) => self.insert_message(*message),
            GatewayEvent::GuildCreate(guild) => self.insert_guild(*guild),
            GatewayEvent::GuildUpdate(guild) => self.insert_guild(*guild),
            GatewayEvent::GuildDelete(unavailable) => self.remove_guild(unavailable.id),
            GatewayEvent::ChannelCreate(channel) => self.insert_channel(*channel),
            GatewayEvent::ChannelUpdate(channel) => self.insert_channel(*channel),
            GatewayEvent::ChannelDelete(channel) => self.remove_channel(channel.id),
            GatewayEvent::GuildMemberAdd(e) => self.insert_member(e.guild_id, e.member),
            GatewayEvent::GuildMemberRemove(e) => self.remove_member(e.guild_id, e.user.id),
            _ => {},
        }
    }
}

/// A created or an updated channel that the policy keeps reads back from the
/// cache as the event's channel; a deleted channel, and its messages, are gone.
pub proof fn law_channel_events_update_cache<P: CachePolicy>(p: P, v: CacheView, channel: Channel)
    ensures
        p.keeps_channel(channel.id) ==> {
            let created = after_event(p, v, GatewayEvent::ChannelCreate(Box::new(channel)));
            &&& created.channels.contains_key(channel.id.0)
            &&& created.channels[channel.id.0] == channel
        },
        p.keeps_channel(channel.id) ==> {
            let updated = after_event(p, v, GatewayEvent::ChannelUpdate(Box::new(channel)));
            &&& updated.channels.contains_key(channel.id.0)
            &&& updated.channels[channel.id.0] == channel
        },
        !after_event(p, v, GatewayEvent::ChannelDelete(Box::new(channel))).channels.contains_key(
            channel.id.0,
        ),
        !after_event(p, v, GatewayEvent::ChannelDelete(Box::new(channel))).messages.contains_key(
            channel.id.0,
        ),
{
}

/// A created or an updated guild that the policy keeps reads back from the
/// cache as the event's guild; a guild that became unavailable or was left is
/// gone, with its members and roles.
pub proof fn law_guild_events_update_cache<P: CachePolicy>(
    p: P,
    v: CacheView,
    guild: Guild,
    gone: UnavailableGuild,
)
    ensures
        p.keeps_guild(guild.id) ==> {
            let created = after_event(p, v, GatewayEvent::GuildCreate(Box::new(guild)));
            &&& created.guilds.contains_key(guild.id.0)
            &&& created.guilds[guild.id.0] == guild
        },
        p.keeps_guild(guild.id) ==> {
            let updated = after_event(p, v, GatewayEvent::GuildUpdate(Box::new(guild)));
            &&& updated.guilds.contains_key(guild.id.0)
            &&& updated.guilds[guild.id.0] == guild
        },
        !after_event(p, v, GatewayEvent::GuildDelete(gone)).guilds.contains_key(gone.id.0),
        !after_event(p, v, GatewayEvent::GuildDelete(gone)).members.contains_key(gone.id.0),
        !after_event(p, v, GatewayEvent::GuildDelete(gone)).roles.contains_key(gone.id.0),
{
}

/// A created message that the policy lets in becomes the most recent message
/// of its channel.
pub proof fn law_message_create_updates_cache<P: CachePolicy>(p: P, v: CacheView, message: Message)
    requires
        admits_message(p, message),
    ensures
        after_event(p, v, GatewayEvent::MessageCreate(Box::new(message))).messages.contains_key(
            message.channel_id.0,
        ),
        after_event(p, v, GatewayEvent::MessageCreate(Box::new(message))).messages[message.channel_id.0][0]
            == (message.id.0, message),
{
}

/// A joined member that the policy admits reads back from the cache under its
/// user's ID; a member who left is no longer in the guild's table; a ready
/// session's user becomes the current user.
pub proof fn law_member_and_ready_events_update_cache<P: CachePolicy>(
    p: P,
    v: CacheView,
    joined: GuildMemberAddEvent,
    left: GuildMemberRemoveEvent,
    ready: ReadyEvent,
)
    ensures
        admits_member(p, v, joined.guild_id, joined.member) ==> {
            let after = after_event(p, v, GatewayEvent::GuildMemberAdd(joined));
            &&& table_of(after.members, joined.guild_id.0).contains_key(member_key(joined.member))
            &&& after.members[joined.guild_id.0][member_key(joined.member)] == joined.member
        },
        !table_of(
            after_event(p, v, GatewayEvent::GuildMemberRemove(left)).members,
            left.guild_id.0,
        ).contains_key(left.user.id.0),
        after_event(p, v, GatewayEvent::Ready(ready)).current_user == Some(ready.user),
{
}

} // verus!
